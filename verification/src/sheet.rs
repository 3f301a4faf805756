//! Sheets: modal panels attached to a parent window. A sheet is dismissed
//! only by an explicit action inside it, never by a click outside.
use vstd::prelude::*;

verus! {

/// A sheet. Its geometry, which follows the parent window, and its springs
/// belong to the caller, which also runs its dismissal callback.
pub struct AESheet {
    pub title: String,
    pub is_visible: bool,
}

impl AESheet {
    pub fn new(title: &str) -> (s: Self)
        ensures
            s.title@ == title@,
            !s.is_visible,
    {
        AESheet { title: title.to_owned(), is_visible: false }
    }

    /// Drops the sheet from the parent's title bar.
    pub fn open(&mut self)
        ensures
            final(self).is_visible,
            final(self).title == old(self).title,
    {
        self.is_visible = true;
    }

    /// The explicit dismissal.
    pub fn dismiss(&mut self)
        ensures
            !final(self).is_visible,
            final(self).title == old(self).title,
    {
        self.is_visible = false;
    }
}

} // verus!
