//! The greeter: user cards, the selected user, and starting the desktop
//! session once the password is accepted; and the boot screen's one-time
//! hand-over to the desktop.
use vstd::prelude::*;
use crate::events::ShellEvent;
use crate::ae_shell::SurfaceAltitude;

verus! {

/// The user name authenticated when no user card is selected.
pub const FALLBACK_USER: &'static str = "vitus";

pub struct UserProfile {
    pub username: String,
    pub display_name: String,
    pub avatar_path: Option<String>,
}

/// The greeter. (Its crossfade into the desktop is the caller's animation.)
pub struct AELoginManager {
    pub is_session_active: bool,
    pub altitude: SurfaceAltitude,
    pub users: Vec<UserProfile>,
    pub selected_user_idx: usize,
}

impl AELoginManager {
    /// One user card, selected; no session yet.
    pub fn new() -> (m: Self)
        ensures
            !m.is_session_active,
            m.altitude == SurfaceAltitude::High,
            m.users@.len() == 1,
            m.users@[0].username@ == "krisna"@,
            m.users@[0].display_name@ == "Krisna Dwi Prasetyo"@,
            m.users@[0].avatar_path matches Some(p) && p@ == "/usr/share/vitusos/avatars/default.png"@,
            m.selected_user_idx == 0,
    {
        let mut users: Vec<UserProfile> = Vec::new();
        users.push(UserProfile {
            username: "krisna".to_owned(),
            display_name: "Krisna Dwi Prasetyo".to_owned(),
            avatar_path: Some("/usr/share/vitusos/avatars/default.png".to_owned()),
        });
        AELoginManager { is_session_active: false, altitude: SurfaceAltitude::High, users, selected_user_idx: 0 }
    }

    /// Selects the user card `idx`, when there is one.
    pub fn select_user(&mut self, idx: usize)
        ensures
            *final(self) == (if idx < old(self).users@.len() {
                AELoginManager { selected_user_idx: idx, ..*old(self) }
            } else {
                *old(self)
            }),
    {
        if idx < self.users.len() {
            self.selected_user_idx = idx;
        }
    }

    /// The user name to authenticate: the selected card's, else the fallback.
    pub fn selected_username(&self) -> (name: String)
        ensures
            name@ == (if self.selected_user_idx < self.users@.len() {
                self.users@[self.selected_user_idx as int].username@
            } else {
                FALLBACK_USER@
            }),
    {
        if self.selected_user_idx < self.users.len() {
            self.users[self.selected_user_idx].username.clone()
        } else {
            FALLBACK_USER.to_owned()
        }
    }

    /// Starts the session when `authenticated` (the caller asked PAM, or,
    /// built without PAM, checked that the password is not empty): the
    /// session is active and the desktop-ready event is returned.
    pub fn start_session(&mut self, authenticated: bool) -> (published: Option<ShellEvent>)
        ensures
            authenticated ==> final(self).is_session_active && published == Some(ShellEvent::WelcomeScreenCompleted),
            !authenticated ==> *final(self) == *old(self) && published is None,
            final(self).users == old(self).users,
            final(self).selected_user_idx == old(self).selected_user_idx,
            final(self).altitude == old(self).altitude,
    {
        if authenticated {
            self.is_session_active = true;
            Some(ShellEvent::WelcomeScreenCompleted)
        } else {
            None
        }
    }

    /// Without PAM: a non-empty password is accepted.
    pub fn authenticate_and_start(&mut self, password: &str) -> (published: Option<ShellEvent>)
        ensures
            password@.len() > 0 ==> final(self).is_session_active && published == Some(
                ShellEvent::WelcomeScreenCompleted,
            ),
            password@.len() == 0 ==> *final(self) == *old(self) && published is None,
    {
        let ok = password.unicode_len() > 0;
        self.start_session(ok)
    }
}

/// The boot screen ("victusOS" over a progress bar) until it has faded into
/// the desktop or the wizard. (Progress and fade are the caller's springs.)
pub struct BootCrossfade {
    pub wordmark_text: &'static str,
    pub is_complete: bool,
}

impl BootCrossfade {
    pub fn new() -> (b: Self)
        ensures
            b.wordmark_text@ == "victusOS"@,
            !b.is_complete,
    {
        BootCrossfade { wordmark_text: "victusOS", is_complete: false }
    }

    /// The discrete half of the per-frame update: when the screen has
    /// faded out (`faded_out`), the boot is complete, announced once.
    pub fn update(&mut self, faded_out: bool) -> (published: Option<ShellEvent>)
        ensures
            (!old(self).is_complete && faded_out) ==> final(self).is_complete && final(self).wordmark_text
                == old(self).wordmark_text && published == Some(ShellEvent::BootCrossfadeComplete),
            !(!old(self).is_complete && faded_out) ==> *final(self) == *old(self) && published is None,
    {
        if !self.is_complete && faded_out {
            self.is_complete = true;
            return Some(ShellEvent::BootCrossfadeComplete);
        }
        None
    }
}

/// The systemd watchdog is pinged every five seconds (half of WatchdogSec).
pub const WATCHDOG_INTERVAL_MS: u64 = 5000;

/// A watchdog ping is due after `elapsed_ms` since the last one.
pub fn watchdog_due(elapsed_ms: u64) -> (due: bool)
    ensures
        due == (elapsed_ms >= WATCHDOG_INTERVAL_MS),
{
    elapsed_ms >= WATCHDOG_INTERVAL_MS
}

} // verus!
