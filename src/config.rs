//! The user's options for running the window manager.
use vstd::prelude::*;
use crate::hooks::{compose_or_set, slot_view, HookChain};

verus! {

/// The tags of the workspaces that the default configuration starts with.
pub open spec fn default_tags() -> Seq<Seq<char>> {
    seq![seq!['1'], seq!['2'], seq!['3'], seq!['4'], seq!['5'], seq!['6'], seq!['7'], seq!['8'], seq!['9']]
}

/// The window classes that float in the default configuration.
pub open spec fn default_floating_classes() -> Seq<Seq<char>> {
    seq![seq!['d', 'm', 'e', 'n', 'u'], seq!['d', 'u', 'n', 's', 't']]
}

/// The options for how the window manager runs. `SH` is the type of the
/// startup and refresh hooks, `EH` that of the event hooks and `MH` that of
/// the manage hooks.
pub struct Config<SH, EH, MH> {
    /// The RGBA color of the borders of unfocused windows.
    pub normal_border: u32,
    /// The RGBA color of the border of the focused window.
    pub focused_border: u32,
    /// The width in pixels of window borders.
    pub border_width: u32,
    /// Whether the pointer entering a window focuses it.
    pub focus_follow_mouse: bool,
    /// The ordered workspace tags used at startup.
    pub tags: Vec<String>,
    /// The window classes that always float rather than tile.
    pub floating_classes: Vec<String>,
    /// The chain run once before the event loop begins.
    pub startup_hook: Option<HookChain<SH>>,
    /// The chain run before the default handling of each event.
    pub event_hook: Option<HookChain<EH>>,
    /// The chain run after each window becomes managed.
    pub manage_hook: Option<HookChain<MH>>,
    /// The chain run each time the on screen state is refreshed.
    pub refresh_hook: Option<HookChain<SH>>,
}

fn owned(s: &str) -> (r: String)
    ensures
        r@ == s@,
{
    s.to_string()
}

impl<SH, EH, MH> Default for Config<SH, EH, MH> {
    fn default() -> (r: Config<SH, EH, MH>)
        ensures
            r.normal_border == 0x3c3836ff,
            r.focused_border == 0xcc241dff,
            r.border_width == 2,
            r.focus_follow_mouse,
            r.tags@.map_values(|s: String| s@) == default_tags(),
            r.floating_classes@.map_values(|s: String| s@) == default_floating_classes(),
            r.startup_hook.is_none(),
            r.event_hook.is_none(),
            r.manage_hook.is_none(),
            r.refresh_hook.is_none(),
    {
        let mut tags: Vec<String> = Vec::new();
        tags.push(owned("1"));
        tags.push(owned("2"));
        tags.push(owned("3"));
        tags.push(owned("4"));
        tags.push(owned("5"));
        tags.push(owned("6"));
        tags.push(owned("7"));
        tags.push(owned("8"));
        tags.push(owned("9"));
        proof {
            reveal_strlit("1");
            assert("1"@ =~= seq!['1']);
            reveal_strlit("2");
            assert("2"@ =~= seq!['2']);
            reveal_strlit("3");
            assert("3"@ =~= seq!['3']);
            reveal_strlit("4");
            assert("4"@ =~= seq!['4']);
            reveal_strlit("5");
            assert("5"@ =~= seq!['5']);
            reveal_strlit("6");
            assert("6"@ =~= seq!['6']);
            reveal_strlit("7");
            assert("7"@ =~= seq!['7']);
            reveal_strlit("8");
            assert("8"@ =~= seq!['8']);
            reveal_strlit("9");
            assert("9"@ =~= seq!['9']);
            assert(tags@.map_values(|s: String| s@) =~= default_tags());
        }
        let mut floating_classes: Vec<String> = Vec::new();
        let dmenu = owned("dmenu");
        let dunst = owned("dunst");
        floating_classes.push(dmenu);
        floating_classes.push(dunst);
        proof {
            reveal_strlit("dmenu");
            reveal_strlit("dunst");
            assert(dmenu@ =~= seq!['d', 'm', 'e', 'n', 'u']);
            assert(dunst@ =~= seq!['d', 'u', 'n', 's', 't']);
            assert(floating_classes@.map_values(|s: String| s@) =~= default_floating_classes());
        }
        Config {
            normal_border: 0x3c3836ff,
            focused_border: 0xcc241dff,
            border_width: 2,
            focus_follow_mouse: true,
            tags,
            floating_classes,
            startup_hook: None,
            event_hook: None,
            manage_hook: None,
            refresh_hook: None,
        }
    }
}

impl<SH, EH, MH> Config<SH, EH, MH> {
    /// Sets the startup hook, or composes it with the chain already set: the
    /// new hook runs before what was there before.
    pub fn compose_or_set_startup_hook(&mut self, hook: SH)
        ensures
            final(self).startup_hook.is_some(),
            slot_view(final(self).startup_hook) == seq![hook] + slot_view(old(self).startup_hook),
            (Config { startup_hook: old(self).startup_hook, ..*final(self) }) == *old(self),
    {
        compose_or_set(&mut self.startup_hook, hook);
    }

    /// Sets the event hook, or composes it with the chain already set: the new
    /// hook runs before what was there before.
    pub fn compose_or_set_event_hook(&mut self, hook: EH)
        ensures
            final(self).event_hook.is_some(),
            slot_view(final(self).event_hook) == seq![hook] + slot_view(old(self).event_hook),
            (Config { event_hook: old(self).event_hook, ..*final(self) }) == *old(self),
    {
        compose_or_set(&mut self.event_hook, hook);
    }

    /// Sets the manage hook, or composes it with the chain already set: the
    /// new hook runs before what was there before.
    pub fn compose_or_set_manage_hook(&mut self, hook: MH)
        ensures
            final(self).manage_hook.is_some(),
            slot_view(final(self).manage_hook) == seq![hook] + slot_view(old(self).manage_hook),
            (Config { manage_hook: old(self).manage_hook, ..*final(self) }) == *old(self),
    {
        compose_or_set(&mut self.manage_hook, hook);
    }

    /// Sets the refresh hook, or composes it with the chain already set: the
    /// new hook runs before what was there before.
    pub fn compose_or_set_refresh_hook(&mut self, hook: SH)
        ensures
            final(self).refresh_hook.is_some(),
            slot_view(final(self).refresh_hook) == seq![hook] + slot_view(old(self).refresh_hook),
            (Config { refresh_hook: old(self).refresh_hook, ..*final(self) }) == *old(self),
    {
        compose_or_set(&mut self.refresh_hook, hook);
    }
}

} // verus!
