//! Single-line text fields: a press focuses the field under the pointer
//! and unfocuses every other one.
use vstd::prelude::*;

verus! {

/// A text field. Its position, width and focus ring belong to the caller.
pub struct AETextField {
    pub placeholder: String,
    pub value: String,
    pub is_focused: bool,
}

impl AETextField {
    pub fn new(placeholder: &str) -> (f: Self)
        ensures
            f.placeholder@ == placeholder@,
            f.value@.len() == 0,
            !f.is_focused,
    {
        AETextField { placeholder: placeholder.to_owned(), value: String::new(), is_focused: false }
    }

    /// A pointer button event, `inside` the field or not: a press focuses
    /// the field when inside and unfocuses it otherwise.
    pub fn on_pointer_button(&mut self, inside: bool, pressed: bool)
        ensures
            *final(self) == (if pressed { AETextField { is_focused: inside, ..*old(self) } } else { *old(self) }),
    {
        if pressed {
            self.is_focused = inside;
        }
    }

    /// Key events are not handled yet; the field stays as it is.
    pub fn on_key(&mut self, sym: u32, mods: u32, pressed: bool)
        ensures
            *final(self) == *old(self),
    {
    }
}

} // verus!
