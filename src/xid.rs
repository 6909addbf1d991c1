//! Identifiers of resources on the display server.
use vstd::prelude::*;

verus! {

/// An identifier for a resource (a window, the root) on the display server.
#[derive(Default, Debug, PartialEq, Eq, PartialOrd, Ord, Hash, Clone, Copy, Structural)]
pub struct Xid(pub u32);

impl Xid {
    /// The raw numeric form of this identifier.
    pub fn raw(&self) -> (r: u32)
        ensures
            r == self.0,
    {
        self.0
    }
}

impl From<u32> for Xid {
    fn from(id: u32) -> (r: Xid)
        ensures
            r.0 == id,
    {
        Xid(id)
    }
}

impl vstd::std_specs::convert::FromSpecImpl<u32> for Xid {
    open spec fn obeys_from_spec() -> bool {
        true
    }

    open spec fn from_spec(id: u32) -> Xid {
        Xid(id)
    }
}

impl From<Xid> for u32 {
    fn from(id: Xid) -> (r: u32)
        ensures
            r == id.0,
    {
        id.0
    }
}

impl vstd::std_specs::convert::FromSpecImpl<Xid> for u32 {
    open spec fn obeys_from_spec() -> bool {
        true
    }

    open spec fn from_spec(id: Xid) -> u32 {
        id.0
    }
}

} // verus!
