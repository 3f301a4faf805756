//! Tooltips: shown after the pointer dwells half a second on a control,
//! hidden at once when it leaves; above the control when asked for and
//! there is room, else below.
use vstd::prelude::*;

verus! {

/// Dwell time before a tooltip shows, in microseconds.
pub const DWELL_DELAY_US: u64 = 500_000;

/// A tooltip. Its anchor position, size and springs belong to the caller,
/// which says whether there is room above the anchor (more than 60 px to
/// the top of the screen).
pub struct AETooltip {
    pub text: String,
    pub is_visible: bool,
    /// Shown above the anchor (else below).
    pub is_above: bool,
    /// Above was asked for.
    pub show_above: bool,
    /// There is room above the anchor.
    pub room_above: bool,
    /// Time dwelt so far, in microseconds.
    pub dwell_us: u64,
    pub is_dwelling: bool,
}

impl AETooltip {
    pub fn new(text: &str) -> (t: Self)
        ensures
            t.text@ == text@,
            !t.is_visible,
            t.is_above,
            t.show_above,
            !t.room_above,
            t.dwell_us == 0,
            !t.is_dwelling,
    {
        AETooltip {
            text: text.to_owned(),
            is_visible: false,
            is_above: true,
            show_above: true,
            room_above: false,
            dwell_us: 0,
            is_dwelling: false,
        }
    }

    pub fn set_text(&mut self, text: &str)
        ensures
            final(self).text@ == text@,
            final(self).is_visible == old(self).is_visible,
            final(self).is_above == old(self).is_above,
            final(self).show_above == old(self).show_above,
            final(self).room_above == old(self).room_above,
            final(self).dwell_us == old(self).dwell_us,
            final(self).is_dwelling == old(self).is_dwelling,
    {
        self.text = text.to_owned();
    }

    /// The pointer came to rest on the control: the dwell timer starts over.
    pub fn begin_dwell(&mut self, show_above: bool, room_above: bool)
        ensures
            *final(self) == (AETooltip {
                show_above,
                room_above,
                is_dwelling: true,
                dwell_us: 0,
                ..*old(self)
            }),
    {
        self.show_above = show_above;
        self.room_above = room_above;
        self.is_dwelling = true;
        self.dwell_us = 0;
    }

    /// The anchor moved; `room_above` is recomputed by the caller.
    pub fn set_anchor(&mut self, room_above: bool)
        ensures
            *final(self) == (AETooltip { room_above, ..*old(self) }),
    {
        self.room_above = room_above;
    }

    /// The pointer left: the dwell stops and a shown tooltip hides.
    pub fn cancel_dwell(&mut self)
        ensures
            *final(self) == (AETooltip { is_dwelling: false, dwell_us: 0, is_visible: false, ..*old(self) }),
    {
        self.is_dwelling = false;
        self.dwell_us = 0;
        if self.is_visible {
            self.is_visible = false;
        }
    }

    /// `dt_us` microseconds passed. Once the dwell reaches half a second
    /// the tooltip shows, above the anchor when asked for and there is room.
    pub fn tick(&mut self, dt_us: u64)
        ensures
            !old(self).is_dwelling ==> *final(self) == *old(self),
            old(self).is_dwelling ==> {
                let t = if old(self).dwell_us + dt_us > u64::MAX { u64::MAX as int } else { old(self).dwell_us + dt_us };
                if t >= DWELL_DELAY_US {
                    *final(self) == (AETooltip {
                        dwell_us: t as u64,
                        is_dwelling: false,
                        is_visible: true,
                        is_above: if old(self).is_visible {
                            old(self).is_above
                        } else {
                            old(self).show_above && old(self).room_above
                        },
                        ..*old(self)
                    })
                } else {
                    *final(self) == (AETooltip { dwell_us: t as u64, ..*old(self) })
                }
            },
    {
        if !self.is_dwelling {
            return;
        }
        self.dwell_us = self.dwell_us.saturating_add(dt_us);
        if self.dwell_us >= DWELL_DELAY_US {
            if !self.is_visible {
                self.is_visible = true;
                self.is_above = self.show_above && self.room_above;
            }
            self.is_dwelling = false;
        }
    }
}

} // verus!
