//! X keysym values that the shell's menus react to.
use vstd::prelude::*;

verus! {

pub const XK_ESCAPE: u32 = 0xff1b;
pub const XK_RETURN: u32 = 0xff0d;
pub const XK_LEFT: u32 = 0xff51;
pub const XK_UP: u32 = 0xff52;
pub const XK_RIGHT: u32 = 0xff53;
pub const XK_DOWN: u32 = 0xff54;

/// True when `sym` is the code point of an ASCII letter.
pub open spec fn is_ascii_letter_code(sym: u32) -> bool {
    (0x41 <= sym && sym <= 0x5a) || (0x61 <= sym && sym <= 0x7a)
}

/// The code point of the ASCII lowercase form of the letter `sym`.
pub open spec fn ascii_lower_code(sym: u32) -> u32 {
    if 0x41 <= sym && sym <= 0x5a {
        (sym + 0x20) as u32
    } else {
        sym
    }
}

} // verus!
