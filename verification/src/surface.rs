//! Window chrome: the collapsible sidebar.
use vstd::prelude::*;

verus! {

/// A sidebar. Its width and slide spring belong to the caller.
pub struct AESidebar {
    pub is_collapsed: bool,
}

impl AESidebar {
    /// An expanded sidebar.
    pub fn new() -> (s: Self)
        ensures
            !s.is_collapsed,
    {
        AESidebar { is_collapsed: false }
    }

    /// Collapses an expanded sidebar, expands a collapsed one.
    pub fn toggle(&mut self)
        ensures
            final(self).is_collapsed == !old(self).is_collapsed,
    {
        self.is_collapsed = !self.is_collapsed;
    }
}

} // verus!
