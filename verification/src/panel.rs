//! Top Panel: focused application title, clock, and the fullscreen mode in
//! which it auto-hides.
use vstd::prelude::*;

verus! {

pub struct Panel {
    pub focused_app_title: String,
    pub is_clock_visible: bool,
    pub is_fullscreen: bool,
    /// In fullscreen the panel slides out of view unless the pointer is in
    /// the hot zone at the top edge.
    pub slides_out: bool,
}

impl Panel {
    pub fn new() -> (p: Self)
        ensures
            p.focused_app_title@ == "Filer"@,
            p.is_clock_visible,
            !p.is_fullscreen,
            !p.slides_out,
    {
        Panel { focused_app_title: "Filer".to_owned(), is_clock_visible: true, is_fullscreen: false, slides_out: false }
    }

    /// A window went fullscreen: the panel starts auto-hiding.
    pub fn enter_fullscreen_mode(&mut self)
        ensures
            *final(self) == (Panel { is_fullscreen: true, ..*old(self) }),
    {
        self.is_fullscreen = true;
    }

    /// Fullscreen ended: the panel comes back and stays.
    pub fn exit_fullscreen_mode(&mut self)
        ensures
            *final(self) == (Panel { is_fullscreen: false, slides_out: false, ..*old(self) }),
    {
        self.is_fullscreen = false;
        self.slides_out = false;
    }

    /// The pointer moved; `in_hot_zone` says whether it is within the hot
    /// zone at the top edge (the caller compares its position).
    pub fn on_pointer_motion(&mut self, in_hot_zone: bool)
        ensures
            *final(self) == (if old(self).is_fullscreen {
                Panel { slides_out: !in_hot_zone, ..*old(self) }
            } else {
                *old(self)
            }),
    {
        if self.is_fullscreen {
            self.slides_out = !in_hot_zone;
        }
    }
}

} // verus!
