//! Events that shell components publish and react to, sounds they ask for,
//! and the effects a shell decision hands back to the event loop.
use vstd::prelude::*;

verus! {

/// Payload of a desktop notification.
pub struct NotificationPayload {
    pub title: String,
    pub body: String,
    pub timeout_ms: i32,
    pub is_persistent: bool,
    pub action_keys: Vec<String>,
    pub action_labels: Vec<String>,
}

/// Shell events carried by the event bus.
pub enum ShellEvent {
    BootCrossfadeComplete,
    WelcomeScreenCompleted,
    ShutdownRequested,
    SystemShutdown,
    SystemRestart,
    SystemSleep,
    DisplaySleep,
    DisplayWake,
    LockScreenActivate,
    LidClosed,
    LockScreenLocked,
    LockScreenUnlocked,
    CockpitViewOpen,
    CockpitViewClose,
    CockpitViewOpened,
    CockpitViewClosed,
    GlobalMenuActivated,
    GlobalMenuDeactivated,
    DBusMenuRegistered { app_id: String, menu_json: String },
    WindowOpened { handle: u64, app_id: String },
    WindowClosed { handle: u64 },
    WindowFocused { handle: u64, app_id: String },
    WindowMinimized { handle: u64 },
    WindowDeminimized { handle: u64 },
    FullscreenEntered { handle: u64 },
    FullscreenExited { handle: u64 },
    DesktopNext,
    DesktopPrev,
    ShowDesktopToggle,
    NotificationPosted(NotificationPayload),
    NotificationDismissed { id: u64 },
    ReducedMotionChanged { enabled: bool },
    ClipboardChanged,
    StateChanged { key: String },
    DockBounce { app_id: String },
}

/// System sounds; each plays at its own fixed volume.
#[derive(PartialEq, Eq, Structural, Clone, Copy, Debug)]
pub enum SystemSound {
    BootChime,
    LockScreen,
    UnlockScreen,
    Notification,
    AppLaunch,
    AppClose,
    DesktopSwitch,
    CockpitOpen,
    WindowOpen,
}

/// What a shell decision asks the event loop to do.
pub enum ShellEffect {
    /// Play a system sound.
    Play(SystemSound),
    /// Publish an event on the bus.
    Publish(ShellEvent),
    /// Switch the animation engine's reduced-motion mode.
    SetReducedMotion(bool),
    /// Start the native process of a Dock application.
    Launch { app_id: String },
}

} // verus!
