use vstd::prelude::*;

pub mod strings;

verus! {

/// Counts how often the CockpitView one-window message has been shown.
pub struct PersonalityCounter {
    cockpit_one_window_shown: u32,
}

impl PersonalityCounter {
    pub const COCKPIT_ONE_WINDOW_MAX: u32 = 3;

    /// Number of times the message has been shown so far.
    pub closed spec fn shown(&self) -> nat {
        self.cockpit_one_window_shown as nat
    }

    pub fn new() -> (c: Self)
        ensures
            c.shown() == 0,
    {
        Self { cockpit_one_window_shown: 0 }
    }

    /// True for the first three calls only; each true answer is counted.
    pub fn should_show_cockpit_one_window(&mut self) -> (show: bool)
        ensures
            show == (old(self).shown() < Self::COCKPIT_ONE_WINDOW_MAX),
            final(self).shown() == if show { old(self).shown() + 1 } else { old(self).shown() },
            old(self).shown() <= Self::COCKPIT_ONE_WINDOW_MAX ==> final(self).shown() <= Self::COCKPIT_ONE_WINDOW_MAX,
    {
        if self.cockpit_one_window_shown < Self::COCKPIT_ONE_WINDOW_MAX {
            self.cockpit_one_window_shown = self.cockpit_one_window_shown + 1;
            true
        } else {
            false
        }
    }
}

} // verus!
