//! Popovers: transient panels anchored to a control, dismissed by a press
//! outside them.
use vstd::prelude::*;

verus! {

/// A popover. Its geometry and springs belong to the caller, which also
/// runs its dismissal callback whenever the popover is dismissed.
pub struct AEPopover {
    pub is_visible: bool,
}

impl AEPopover {
    pub fn new() -> (p: Self)
        ensures
            !p.is_visible,
    {
        AEPopover { is_visible: false }
    }

    /// Shows the popover (the caller springs it from its origin to the target).
    pub fn open(&mut self)
        ensures
            final(self).is_visible,
    {
        self.is_visible = true;
    }

    /// Hides the popover.
    pub fn dismiss(&mut self)
        ensures
            !final(self).is_visible,
    {
        self.is_visible = false;
    }

    /// A pointer button, `inside` the popover or not: a press outside a
    /// shown popover dismisses it. True when the press was consumed that way.
    pub fn on_pointer_button(&mut self, inside: bool, pressed: bool) -> (dismissed: bool)
        ensures
            dismissed == (old(self).is_visible && pressed && !inside),
            final(self).is_visible == (old(self).is_visible && !dismissed),
    {
        if !self.is_visible || !pressed {
            return false;
        }
        if !inside {
            self.dismiss();
            return true;
        }
        false
    }
}

} // verus!
