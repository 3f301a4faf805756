//! Lock screen: a password buffer that is zeroized when the screen locks
//! and when it unlocks.
use vstd::prelude::*;
use crate::events::ShellEvent;
use crate::text::{string_push, string_pop, zeroize_string};

verus! {

pub struct LockScreen {
    pub is_active: bool,
    pub password_buf: String,
}

impl LockScreen {
    pub fn new() -> (l: Self)
        ensures
            !l.is_active,
            l.password_buf@.len() == 0,
    {
        LockScreen { is_active: false, password_buf: String::new() }
    }

    /// Locks the screen with an empty password field (what it held before is
    /// zeroized); publishes `LockScreenLocked`.
    pub fn activate(&mut self) -> (published: ShellEvent)
        ensures
            final(self).is_active,
            final(self).password_buf@.len() == 0,
            published == ShellEvent::LockScreenLocked,
    {
        self.is_active = true;
        zeroize_string(&mut self.password_buf);
        ShellEvent::LockScreenLocked
    }

    /// Unlocks: the password buffer is zeroized; publishes `LockScreenUnlocked`.
    pub fn deactivate(&mut self) -> (published: ShellEvent)
        ensures
            !final(self).is_active,
            final(self).password_buf@.len() == 0,
            published == ShellEvent::LockScreenUnlocked,
    {
        self.is_active = false;
        zeroize_string(&mut self.password_buf);
        ShellEvent::LockScreenUnlocked
    }

    /// Types a character into the password field while locked.
    pub fn input_char(&mut self, ch: char)
        ensures
            final(self).is_active == old(self).is_active,
            final(self).password_buf@ == (if old(self).is_active {
                old(self).password_buf@.push(ch)
            } else {
                old(self).password_buf@
            }),
    {
        if self.is_active {
            string_push(&mut self.password_buf, ch);
        }
    }

    /// Deletes the last character of the password field while locked.
    pub fn backspace(&mut self)
        ensures
            final(self).is_active == old(self).is_active,
            final(self).password_buf@ == (if old(self).is_active && old(self).password_buf@.len() > 0 {
                old(self).password_buf@.drop_last()
            } else {
                old(self).password_buf@
            }),
    {
        if self.is_active {
            string_pop(&mut self.password_buf);
        }
    }

    /// Submits the password: a non-empty one unlocks (and the unlock event
    /// is returned); an empty one leaves the screen locked and shakes it.
    pub fn submit_password(&mut self) -> (published: Option<ShellEvent>)
        ensures
            old(self).password_buf@.len() > 0 ==> {
                &&& !final(self).is_active
                &&& final(self).password_buf@.len() == 0
                &&& published == Some(ShellEvent::LockScreenUnlocked)
            },
            old(self).password_buf@.len() == 0 ==> *final(self) == *old(self) && published is None,
    {
        if self.password_buf.as_str().unicode_len() > 0 {
            Some(self.deactivate())
        } else {
            None
        }
    }
}

} // verus!
