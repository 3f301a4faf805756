//! Push buttons: sizes, styles and the click rule.
use vstd::prelude::*;

verus! {

#[derive(PartialEq, Eq, Structural, Clone, Copy, Debug)]
pub enum ButtonSize {
    Small,
    Medium,
    Large,
}

impl ButtonSize {
    /// Height in pixels.
    pub fn height(self) -> (h: u32)
        ensures
            h == (match self {
                ButtonSize::Small => 24u32,
                ButtonSize::Medium => 32u32,
                ButtonSize::Large => 40u32,
            }),
    {
        match self {
            ButtonSize::Small => 24,
            ButtonSize::Medium => 32,
            ButtonSize::Large => 40,
        }
    }
}

#[derive(PartialEq, Eq, Structural, Clone, Copy, Debug)]
pub enum ButtonStyle {
    Primary,
    Secondary,
    Destructive,
    GhostStyle,
}

/// A push button. Its position, width and springs belong to the caller.
pub struct AEButton {
    pub label: String,
    pub size: ButtonSize,
    pub style: ButtonStyle,
    /// A press began over the button and has not been released.
    pub is_pressed: bool,
    /// The pointer is over the button.
    pub is_hovered: bool,
}

impl AEButton {
    pub fn new(label: &str, size: ButtonSize, style: ButtonStyle) -> (b: Self)
        ensures
            b.label@ == label@,
            b.size == size,
            b.style == style,
            !b.is_pressed,
            !b.is_hovered,
    {
        AEButton { label: label.to_owned(), size, style, is_pressed: false, is_hovered: false }
    }

    /// The pointer moved, `inside` the button or not: the hover highlight follows.
    pub fn on_pointer_motion(&mut self, inside: bool)
        ensures
            *final(self) == (AEButton { is_hovered: inside, ..*old(self) }),
    {
        self.is_hovered = inside;
    }

    /// A pointer button event, `inside` the button or not: the release over
    /// the button is the click (the result). A release anywhere ends the press.
    pub fn on_pointer_button(&mut self, inside: bool, pressed: bool) -> (clicked: bool)
        ensures
            clicked == (inside && !pressed),
            final(self).label == old(self).label,
            final(self).size == old(self).size,
            final(self).style == old(self).style,
            final(self).is_hovered == old(self).is_hovered,
            final(self).is_pressed == (if pressed { inside || old(self).is_pressed } else { false }),
    {
        if inside {
            if pressed {
                self.is_pressed = true;
            } else {
                self.is_pressed = false;
                return true;
            }
        } else if !pressed {
            self.is_pressed = false;
        }
        false
    }
}

} // verus!
