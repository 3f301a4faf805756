//! Power dialog with its 60-second countdown, the black system screen shown
//! while powering off, and the Control Center's toggles.
use vstd::prelude::*;
use crate::events::ShellEvent;

verus! {

pub const SHUTDOWN_MESSAGE: &'static str = "goodbye";
pub const RESTART_MESSAGE: &'static str = "i'll see you in a bit";

/// Length of the power dialog's countdown.
pub const COUNTDOWN_MS: u32 = 60000;

#[derive(PartialEq, Eq, Structural, Clone, Copy, Debug)]
pub enum PowerAction {
    Sleep,
    Restart,
    Shutdown,
}

/// The event a confirmed power action publishes.
pub open spec fn power_event(a: PowerAction) -> ShellEvent {
    match a {
        PowerAction::Sleep => ShellEvent::SystemSleep,
        PowerAction::Restart => ShellEvent::SystemRestart,
        PowerAction::Shutdown => ShellEvent::ShutdownRequested,
    }
}

/// Power management dialog; confirms its action when the countdown ends.
pub struct ShutdownScreen {
    pub is_active: bool,
    pub countdown_ms: u32,
    pub selected_action: PowerAction,
}

impl ShutdownScreen {
    pub fn new() -> (s: Self)
        ensures
            !s.is_active,
            s.countdown_ms == COUNTDOWN_MS,
            s.selected_action == PowerAction::Shutdown,
    {
        ShutdownScreen { is_active: false, countdown_ms: COUNTDOWN_MS, selected_action: PowerAction::Shutdown }
    }

    /// Opens the dialog with `action` preselected and a full countdown.
    pub fn open(&mut self, action: PowerAction)
        ensures
            final(self).is_active,
            final(self).selected_action == action,
            final(self).countdown_ms == COUNTDOWN_MS,
    {
        self.is_active = true;
        self.selected_action = action;
        self.countdown_ms = COUNTDOWN_MS;
    }

    pub fn cancel(&mut self)
        ensures
            *final(self) == (ShutdownScreen { is_active: false, ..*old(self) }),
    {
        self.is_active = false;
    }

    /// The event that carries out the selected action.
    pub fn confirm(&self) -> (published: ShellEvent)
        ensures
            published == power_event(self.selected_action),
    {
        match self.selected_action {
            PowerAction::Sleep => ShellEvent::SystemSleep,
            PowerAction::Restart => ShellEvent::SystemRestart,
            PowerAction::Shutdown => ShellEvent::ShutdownRequested,
        }
    }

    /// Counts down `dt_ms` while open; at zero the action is confirmed.
    pub fn update(&mut self, dt_ms: u32) -> (published: Option<ShellEvent>)
        ensures
            !old(self).is_active ==> *final(self) == *old(self) && published is None,
            old(self).is_active ==> {
                let left = if old(self).countdown_ms > dt_ms { old(self).countdown_ms - dt_ms } else { 0 };
                &&& *final(self) == (ShutdownScreen { countdown_ms: left as u32, ..*old(self) })
                &&& published == (if left == 0 { Some(power_event(old(self).selected_action)) } else { None })
            },
    {
        if !self.is_active {
            return None;
        }
        self.countdown_ms = if self.countdown_ms > dt_ms { self.countdown_ms - dt_ms } else { 0 };
        if self.countdown_ms == 0 {
            Some(self.confirm())
        } else {
            None
        }
    }
}

#[derive(PartialEq, Eq, Structural, Clone, Copy, Debug)]
pub enum SystemScreenMode {
    Shutdown,
    Restart,
}

/// Pure black screen shown during shutdown and restart.
pub struct SystemScreen {
    pub mode: SystemScreenMode,
    pub is_active: bool,
    pub is_invoked: bool,
}

impl SystemScreen {
    pub fn new() -> (s: Self)
        ensures
            s.mode == SystemScreenMode::Shutdown,
            !s.is_active,
            !s.is_invoked,
    {
        SystemScreen { mode: SystemScreenMode::Shutdown, is_active: false, is_invoked: false }
    }

    /// Shows the black screen and starts its slow fade in.
    pub fn show(&mut self, mode: SystemScreenMode)
        ensures
            final(self).is_active,
            final(self).mode == mode,
            !final(self).is_invoked,
    {
        self.is_active = true;
        self.mode = mode;
        self.is_invoked = false;
    }

    /// The locked string for the current mode.
    pub fn message(&self) -> (m: &'static str)
        ensures
            m@ == (if self.mode == SystemScreenMode::Shutdown { SHUTDOWN_MESSAGE@ } else { RESTART_MESSAGE@ }),
    {
        match self.mode {
            SystemScreenMode::Shutdown => SHUTDOWN_MESSAGE,
            SystemScreenMode::Restart => RESTART_MESSAGE,
        }
    }

    /// The discrete half of the per-frame update: once the black surface
    /// has faded in (`faded_in`), the power transition is dispatched once.
    pub fn update(&mut self, faded_in: bool) -> (published: Option<ShellEvent>)
        ensures
            (old(self).is_active && faded_in && !old(self).is_invoked) ==> {
                &&& *final(self) == (SystemScreen { is_invoked: true, ..*old(self) })
                &&& published == Some(if old(self).mode == SystemScreenMode::Shutdown {
                    ShellEvent::SystemShutdown
                } else {
                    ShellEvent::ShutdownRequested
                })
            },
            !(old(self).is_active && faded_in && !old(self).is_invoked) ==> *final(self) == *old(self)
                && published is None,
    {
        if !self.is_active {
            return None;
        }
        if faded_in && !self.is_invoked {
            self.is_invoked = true;
            return Some(match self.mode {
                SystemScreenMode::Shutdown => ShellEvent::SystemShutdown,
                SystemScreenMode::Restart => ShellEvent::ShutdownRequested,
            });
        }
        None
    }
}

/// On/off switches of the Control Center.
pub struct ControlCenterState {
    pub is_wifi_enabled: bool,
    pub active_wifi_ssid: Option<String>,
    pub is_bluetooth_enabled: bool,
    pub is_dark_mode: bool,
    pub is_reduced_motion: bool,
    pub is_charging: bool,
}

/// System tray popover with quick toggles.
pub struct ControlCenter {
    pub is_open: bool,
    pub state: ControlCenterState,
}

impl ControlCenter {
    pub fn new() -> (c: Self)
        ensures
            !c.is_open,
            c.state.is_wifi_enabled,
            c.state.active_wifi_ssid matches Some(s) && s@ == "vitusOS 5G"@,
            c.state.is_bluetooth_enabled,
            c.state.is_dark_mode,
            !c.state.is_reduced_motion,
            c.state.is_charging,
    {
        ControlCenter {
            is_open: false,
            state: ControlCenterState {
                is_wifi_enabled: true,
                active_wifi_ssid: Some("vitusOS 5G".to_owned()),
                is_bluetooth_enabled: true,
                is_dark_mode: true,
                is_reduced_motion: false,
                is_charging: true,
            },
        }
    }

    pub fn toggle(&mut self)
        ensures
            final(self).is_open == !old(self).is_open,
            final(self).state == old(self).state,
    {
        self.is_open = !self.is_open;
    }

    pub fn toggle_dark_mode(&mut self)
        ensures
            final(self).is_open == old(self).is_open,
            final(self).state == (ControlCenterState { is_dark_mode: !old(self).state.is_dark_mode, ..old(self).state }),
    {
        self.state.is_dark_mode = !self.state.is_dark_mode;
    }

    /// Toggles reduced motion; publishes the new setting.
    pub fn toggle_reduced_motion(&mut self) -> (published: ShellEvent)
        ensures
            final(self).is_open == old(self).is_open,
            final(self).state == (ControlCenterState {
                is_reduced_motion: !old(self).state.is_reduced_motion,
                ..old(self).state
            }),
            published == (ShellEvent::ReducedMotionChanged { enabled: !old(self).state.is_reduced_motion }),
    {
        self.state.is_reduced_motion = !self.state.is_reduced_motion;
        ShellEvent::ReducedMotionChanged { enabled: self.state.is_reduced_motion }
    }

    /// Toggles Wi-Fi; the result is the new setting, which the caller
    /// applies to the network service.
    pub fn toggle_wifi(&mut self) -> (enabled: bool)
        ensures
            final(self).is_open == old(self).is_open,
            final(self).state == (ControlCenterState { is_wifi_enabled: !old(self).state.is_wifi_enabled, ..old(self).state }),
            enabled == final(self).state.is_wifi_enabled,
    {
        self.state.is_wifi_enabled = !self.state.is_wifi_enabled;
        self.state.is_wifi_enabled
    }

    /// Toggles Bluetooth; the result is the new setting, which the caller
    /// applies to the Bluetooth service.
    pub fn toggle_bluetooth(&mut self) -> (enabled: bool)
        ensures
            final(self).is_open == old(self).is_open,
            final(self).state == (ControlCenterState {
                is_bluetooth_enabled: !old(self).state.is_bluetooth_enabled,
                ..old(self).state
            }),
            enabled == final(self).state.is_bluetooth_enabled,
    {
        self.state.is_bluetooth_enabled = !self.state.is_bluetooth_enabled;
        self.state.is_bluetooth_enabled
    }
}

} // verus!
