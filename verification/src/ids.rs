//! Identity of an authenticated local caller.
use vstd::prelude::*;

verus! {

/// A Unix principal: the peer's user and group ids.
#[derive(Clone, Copy, Debug, PartialEq, Eq, Structural)]
pub struct Principal {
    pub uid: u32,
    pub gid: u32,
}

impl Principal {
    pub fn new(uid: u32, gid: u32) -> (r: Principal)
        ensures
            r.uid == uid,
            r.gid == gid,
    {
        Principal { uid, gid }
    }

    /// The superuser sees every principal's records.
    pub open spec fn spec_is_root(self) -> bool {
        self.uid == 0
    }

    pub fn is_root(&self) -> (r: bool)
        ensures
            r == self.spec_is_root(),
    {
        self.uid == 0
    }
}

/// Whether a record owned by `owner` (or by nobody) is visible to `viewer`:
/// unowned records are shared, owned ones are visible to their owner and to root.
pub open spec fn owner_visible(owner: Option<Principal>, viewer: Principal) -> bool {
    match owner {
        None => true,
        Some(o) => o == viewer || viewer.uid == 0,
    }
}

pub fn check_owner_visible(owner: Option<Principal>, viewer: Principal) -> (r: bool)
    ensures
        r == owner_visible(owner, viewer),
{
    match owner {
        None => true,
        Some(o) => o == viewer || viewer.uid == 0,
    }
}

} // verus!
