//! Metadata around client windows and the ways of changing it.
use vstd::prelude::*;
use crate::xid::Xid;

verus! {

/// A rectangular region of the screen: top left corner, width and height.
#[derive(Debug, PartialEq, Eq, Hash, Clone, Copy, Structural)]
pub struct Region {
    pub x: u32,
    pub y: u32,
    pub w: u32,
    pub h: u32,
}

impl Region {
    /// The region used when a window does not ask for one.
    pub open spec fn spec_default() -> Region {
        Region { x: 0, y: 0, w: 0, h: 0 }
    }
}

impl Default for Region {
    fn default() -> (r: Region)
        ensures
            r == Region::spec_default(),
    {
        Region { x: 0, y: 0, w: 0, h: 0 }
    }
}

/// What the display server answered when a window's properties were queried
/// as it became managed. `None` stands for a property that was missing, held
/// a value of another kind, or whose query failed.
pub struct ClientProperties {
    /// The input flag of the window's hints.
    pub accepts_input: Option<bool>,
    /// The position that the window's normal hints request.
    pub requested_position: Option<Region>,
    /// The window's human readable name.
    pub name: Option<String>,
    /// The strings of the window's class property.
    pub class: Option<Vec<String>>,
    /// The strings of the window's type property.
    pub window_type: Option<Vec<String>>,
}

/// The first string of a property value, or the empty string.
pub open spec fn first_or_empty(p: Option<Seq<Seq<char>>>) -> Seq<char> {
    match p {
        Some(strs) => if strs.len() > 0 { strs[0] } else { Seq::empty() },
        None => Seq::empty(),
    }
}

/// The view of an optional list of strings.
pub open spec fn strings_view(p: Option<Vec<String>>) -> Option<Seq<Seq<char>>> {
    match p {
        Some(v) => Some(v@.map_values(|s: String| s@)),
        None => None,
    }
}

/// The name given to a window whose name could not be read.
pub open spec fn unknown_name() -> Seq<char> {
    seq!['u', 'n', 'k', 'n', 'o', 'w', 'n']
}

fn first_string(p: Option<Vec<String>>) -> (r: String)
    ensures
        r@ == first_or_empty(strings_view(p)),
{
    match p {
        Some(strs) => {
            if strs.len() > 0 {
                strs[0].clone()
            } else {
                String::new()
            }
        },
        None => String::new(),
    }
}

/// The mathematical view of a [Client].
pub ghost struct ClientView {
    pub id: Xid,
    pub wm_name: Seq<char>,
    pub wm_class: Seq<char>,
    pub window_type: Seq<char>,
    pub workspace: usize,
    pub geom: Region,
    pub accepts_focus: bool,
    pub floating: bool,
    pub fullscreen: bool,
    pub mapped: bool,
    pub urgent: bool,
    pub wm_managed: bool,
}

/// Meta-data around a client window that is being handled: state flags and
/// what is needed to decide where it is shown and how it is tiled.
#[derive(Debug, PartialEq, Eq, Clone, Hash)]
pub struct Client {
    id: Xid,
    wm_name: String,
    wm_class: String,
    window_type: String,
    workspace: usize,
    geom: Region,
    accepts_focus: bool,
    floating: bool,
    fullscreen: bool,
    mapped: bool,
    urgent: bool,
    wm_managed: bool,
}

impl View for Client {
    type V = ClientView;

    closed spec fn view(&self) -> ClientView {
        ClientView {
            id: self.id,
            wm_name: self.wm_name@,
            wm_class: self.wm_class@,
            window_type: self.window_type@,
            workspace: self.workspace,
            geom: self.geom,
            accepts_focus: self.accepts_focus,
            floating: self.floating,
            fullscreen: self.fullscreen,
            mapped: self.mapped,
            urgent: self.urgent,
            wm_managed: self.wm_managed,
        }
    }
}

impl Client {
    /// Builds the record of a window that becomes managed, from the answers to
    /// the property queries and the verdict of the floating rule. A missing
    /// answer never fails the construction: it falls back to a default.
    pub fn new(id: Xid, workspace: usize, props: ClientProperties, floating: bool) -> (r: Client)
        ensures
            r@.id == id,
            r@.workspace == workspace,
            r@.accepts_focus == match props.accepts_input {
                Some(b) => b,
                None => true,
            },
            r@.geom == match props.requested_position {
                Some(g) => g,
                None => Region::spec_default(),
            },
            r@.wm_name == match props.name {
                Some(n) => n@,
                None => unknown_name(),
            },
            r@.wm_class == first_or_empty(strings_view(props.class)),
            r@.window_type == first_or_empty(strings_view(props.window_type)),
            r@.floating == floating,
            !r@.fullscreen,
            !r@.mapped,
            !r@.urgent,
            r@.wm_managed,
    {
        let accepts_focus = match props.accepts_input {
            Some(b) => b,
            None => true,
        };
        let geom = match props.requested_position {
            Some(g) => g,
            None => Region::default(),
        };
        let wm_name = match props.name {
            Some(n) => n,
            None => {
                let s = String::from_str("unknown");
                proof {
                    reveal_strlit("unknown");
                    assert(s@ =~= unknown_name());
                }
                s
            },
        };
        let wm_class = first_string(props.class);
        let window_type = first_string(props.window_type);
        Client {
            id,
            wm_name,
            wm_class,
            window_type,
            workspace,
            geom,
            accepts_focus,
            floating,
            fullscreen: false,
            mapped: false,
            urgent: false,
            wm_managed: true,
        }
    }

    /// The identifier of this client's window.
    pub fn id(&self) -> (r: Xid)
        ensures
            r == self@.id,
    {
        self.id
    }

    /// The class property of this client.
    pub fn wm_class(&self) -> (r: &str)
        ensures
            r@ == self@.wm_class,
    {
        self.wm_class.as_str()
    }

    /// The name of this client.
    pub fn wm_name(&self) -> (r: &str)
        ensures
            r@ == self@.wm_name,
    {
        self.wm_name.as_str()
    }

    /// The type property of this client.
    pub fn window_type(&self) -> (r: &str)
        ensures
            r@ == self@.window_type,
    {
        self.window_type.as_str()
    }

    /// The region that this client asked for when it became managed.
    pub fn geometry(&self) -> (r: Region)
        ensures
            r == self@.geom,
    {
        self.geom
    }

    /// Whether or not this client is currently fullscreen.
    pub fn is_fullscreen(&self) -> (r: bool)
        ensures
            r == self@.fullscreen,
    {
        self.fullscreen
    }

    /// Whether this client accepts input focus.
    pub fn accepts_focus(&self) -> (r: bool)
        ensures
            r == self@.accepts_focus,
    {
        self.accepts_focus
    }

    /// Whether this client floats rather than tiles.
    pub fn is_floating(&self) -> (r: bool)
        ensures
            r == self@.floating,
    {
        self.floating
    }

    /// Whether this client is mapped on screen.
    pub fn is_mapped(&self) -> (r: bool)
        ensures
            r == self@.mapped,
    {
        self.mapped
    }

    /// Whether this client is marked urgent.
    pub fn is_urgent(&self) -> (r: bool)
        ensures
            r == self@.urgent,
    {
        self.urgent
    }

    /// Whether the window manager drives this client's geometry and focus.
    pub fn is_wm_managed(&self) -> (r: bool)
        ensures
            r == self@.wm_managed,
    {
        self.wm_managed
    }

    /// The index of the workspace that this client is showing on.
    pub fn workspace(&self) -> (r: usize)
        ensures
            r == self@.workspace,
    {
        self.workspace
    }

    /// Marks this window as being on a new workspace.
    pub fn set_workspace(&mut self, workspace: usize)
        ensures
            final(self)@ == (ClientView { workspace, ..old(self)@ }),
    {
        self.workspace = workspace;
    }

    /// Sets the floating state of this client.
    pub fn set_floating(&mut self, floating: bool)
        ensures
            final(self)@ == (ClientView { floating, ..old(self)@ }),
    {
        self.floating = floating;
    }

    /// Updates the name of this client.
    pub fn set_name(&mut self, name: String)
        ensures
            final(self)@ == (ClientView { wm_name: name@, ..old(self)@ }),
    {
        self.wm_name = name;
    }

    /// The class of the window that this client is tracking.
    pub fn class(&self) -> (r: &str)
        ensures
            r@ == self@.wm_class,
    {
        self.wm_class.as_str()
    }

    /// Marks this client as not being managed by the window manager directly.
    pub fn externally_managed(&mut self)
        ensures
            final(self)@ == (ClientView { wm_managed: false, ..old(self)@ }),
    {
        self.wm_managed = false;
    }

    /// Marks this client as being managed by the window manager directly.
    pub fn internally_managed(&mut self)
        ensures
            final(self)@ == (ClientView { wm_managed: true, ..old(self)@ }),
    {
        self.wm_managed = true;
    }
}

} // verus!
