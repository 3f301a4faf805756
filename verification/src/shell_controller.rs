//! The shell's mode machine: it owns every shell component, routes bus
//! events and input to them, and queues the effects (sounds, events to
//! publish, processes to start) that the event loop carries out.
//!
//! Input priority, highest first: the power and system screens, the lock
//! screen, the first-boot wizard, CockpitView, the Control Center, then the
//! desktop (global menu, Panel, Dock, windows).
use vstd::prelude::*;
use crate::events::{ShellEvent, ShellEffect, SystemSound};
use crate::global_menu::{
    PanelManager, GlobalMenu, MenuNavState, focused_menu_step, menu_activated, menu_deactivated,
    menu_named_only, panels_fullscreen, menu_moved, menu_pressed, menu_takes_press, PanelEntry, panel_after_motion,
};
use crate::dock::{Dock, DockItem};
use crate::cockpit::{CockpitView, CockpitCard};
use crate::lock_screen::LockScreen;
use crate::welcome::{WelcomeScreen, CardPhase};
use crate::screens::{ControlCenter, ShutdownScreen, SystemScreen, PowerAction, SystemScreenMode, COUNTDOWN_MS};
use crate::notifications::{NotificationCenter, nc_after_post, nc_after_dismiss, same_payload, clone_payload, toast_index};
use crate::window_manager::{
    WindowManager, wm_after_remove, wm_after_focus, wm_after_update, wm_after_all_minimized,
    wm_after_cycle_next, with_minimized, fullscreen_entered, fullscreen_exited, count_visible, index_of,
};
use crate::window::AEWindow;

verus! {

/// Evdev key codes the shell reacts to.
pub const KEY_ESC: u32 = 1;
pub const KEY_BACKSPACE: u32 = 14;
pub const KEY_TAB: u32 = 15;
pub const KEY_ENTER: u32 = 28;
pub const KEY_SHOW_DESKTOP: u32 = 41;
pub const KEY_F10: u32 = 68;

/// Modifier bits.
pub const MOD_ALT: u32 = 0x08;
pub const MOD_SUPER: u32 = 0x40;

/// Evdev key codes of the modifier keys.
pub const KEY_LEFTALT: u32 = 56;
pub const KEY_RIGHTALT: u32 = 100;
pub const KEY_LEFTMETA: u32 = 125;
pub const KEY_RIGHTMETA: u32 = 126;

/// The modifier bit a key drives, 0 for a key that is no modifier.
pub open spec fn modifier_bit(keycode: u32) -> u32 {
    if keycode == KEY_LEFTALT || keycode == KEY_RIGHTALT {
        MOD_ALT
    } else if keycode == KEY_LEFTMETA || keycode == KEY_RIGHTMETA {
        MOD_SUPER
    } else {
        0
    }
}

/// The modifier mask after a key goes down or up: a modifier key sets or
/// clears its bit, any other key leaves the mask alone.
pub fn modifiers_after(mods: u32, keycode: u32, pressed: bool) -> (m: u32)
    ensures
        m == (if modifier_bit(keycode) == 0 {
            mods
        } else if pressed {
            mods | modifier_bit(keycode)
        } else {
            mods & !modifier_bit(keycode)
        }),
{
    let bit: u32 = if keycode == KEY_LEFTALT || keycode == KEY_RIGHTALT {
        MOD_ALT
    } else if keycode == KEY_LEFTMETA || keycode == KEY_RIGHTMETA {
        MOD_SUPER
    } else {
        0
    };
    if bit == 0 {
        mods
    } else if pressed {
        mods | bit
    } else {
        mods & !bit
    }
}

/// Which component receives input.
#[derive(PartialEq, Eq, Structural, Clone, Copy, Debug)]
pub enum ShellMode {
    /// Windows, Panel and Dock are interactive.
    Desktop,
    /// CockpitView is open: cards get the pointer, Esc closes it.
    CockpitView,
    /// Only password input matters.
    LockScreen,
    /// First boot: the wizard hides the shell.
    WelcomeScreen,
    /// The Control Center popover is open.
    ControlCenter,
    /// The power dialog is showing.
    ShutdownScreen,
    /// The black system screen of a power transition.
    SystemScreen,
}

/// What lies under the pointer at a button event, as the caller's hit tests
/// (in screen coordinates) found it.
pub struct PointerHit {
    /// The CockpitView card under the pointer, by window handle.
    pub cockpit_card: Option<u64>,
    /// The top item of the focused panel's menu bar under the pointer.
    pub menu_top: Option<usize>,
    /// The pointer is over the Panel strip.
    pub in_panel: bool,
    /// The Dock icon under the pointer.
    pub dock_item: Option<usize>,
    /// The first renderable window in stack order that contains the pointer.
    pub window: Option<u64>,
}

/// The shell controller.
pub struct ShellController {
    pub mode: ShellMode,
    pub panel_manager: PanelManager,
    pub dock: Dock,
    pub cockpit_view: CockpitView,
    pub lock_screen: LockScreen,
    pub welcome_screen: WelcomeScreen,
    pub control_center: ControlCenter,
    pub notification_center: NotificationCenter,
    pub shutdown_screen: ShutdownScreen,
    pub system_screen: SystemScreen,
    pub window_manager: WindowManager,
    pub first_boot_done: bool,
    /// Effects decided and not yet carried out, oldest first.
    pub outbox: Vec<ShellEffect>,
}

/// Drawn this frame: visible and not minimized.
pub open spec fn renderable(w: AEWindow) -> bool {
    w.is_visible && !w.is_minimized
}

/// `cards` are the CockpitView cards of the renderable windows of `wins`,
/// in stack order.
pub open spec fn cards_for(cards: Seq<CockpitCard>, wins: Seq<AEWindow>) -> bool {
    let r = wins.filter(|w: AEWindow| renderable(w));
    &&& cards.len() == r.len()
    &&& forall|i: int|
        0 <= i < r.len() ==> {
            &&& (#[trigger] cards[i]).window_handle == r[i].handle
            &&& cards[i].title@ == r[i].title@
            &&& cards[i].app_id@ == r[i].app_id@
        }
}

/// `b` queued exactly the effects `e` after those `a` had queued.
pub open spec fn emits(a: ShellController, b: ShellController, e: Seq<ShellEffect>) -> bool {
    b.outbox@ =~= a.outbox@ + e
}

/// `b` is `a` with CockpitView closed (and its close event queued), back on the desktop.
pub open spec fn cockpit_closed(a: ShellController, b: ShellController) -> bool {
    &&& b == (ShellController {
        mode: ShellMode::Desktop,
        cockpit_view: CockpitView { is_open: false, ..a.cockpit_view },
        outbox: b.outbox,
        ..a
    })
    &&& emits(a, b, seq![ShellEffect::Publish(ShellEvent::CockpitViewClosed)])
}

/// `b` is `a` after Show Desktop: everything is minimized when a window was
/// visible, else everything is restored.
pub open spec fn desktop_shown(a: ShellController, b: ShellController) -> bool {
    &&& b == (ShellController { window_manager: b.window_manager, ..a })
    &&& wm_after_all_minimized(a.window_manager, b.window_manager, count_visible(a.window_manager.stack()) > 0)
}

/// `b` is `a` with the window `h` fullscreen (`on`) or not, and the Panels
/// and the Dock hidden or shown with it.
pub open spec fn fullscreen_cascaded(a: ShellController, b: ShellController, h: u64, on: bool) -> bool {
    &&& b == (ShellController {
        window_manager: b.window_manager,
        panel_manager: b.panel_manager,
        dock: Dock { is_fullscreen: on, ..a.dock },
        ..a
    })
    &&& wm_after_update(
        a.window_manager,
        b.window_manager,
        h,
        |w: AEWindow| if on { fullscreen_entered(w) } else { fullscreen_exited(w) },
    )
    &&& panels_fullscreen(a.panel_manager, b.panel_manager, on)
}

/// A power event opens the power dialog for the action it asks for: a
/// restart request selects Restart, a shutdown request selects Shutdown.
pub proof fn power_dialog_matches_request(a: ShellController, b: ShellController, event: ShellEvent)
    requires
        dispatched(a, b, event),
        event == ShellEvent::SystemRestart || event == ShellEvent::SystemShutdown || event
            == ShellEvent::ShutdownRequested,
    ensures
        b.mode == ShellMode::ShutdownScreen,
        b.shutdown_screen.is_active,
        b.shutdown_screen.selected_action == (if event == ShellEvent::SystemRestart {
            PowerAction::Restart
        } else {
            PowerAction::Shutdown
        }),
{
}

/// The mode the display wakes into: a locked screen stays locked and an
/// unfinished first boot goes back to the wizard, as they outrank the desktop.
pub open spec fn mode_on_wake(a: ShellController) -> ShellMode {
    if a.lock_screen.is_active {
        ShellMode::LockScreen
    } else if !a.first_boot_done && a.welcome_screen.is_active {
        ShellMode::WelcomeScreen
    } else {
        ShellMode::Desktop
    }
}

/// `b` is `a` after the bus delivered `event`.
pub open spec fn dispatched(a: ShellController, b: ShellController, event: ShellEvent) -> bool {
    match event {
        ShellEvent::BootCrossfadeComplete => if !a.first_boot_done {
            b == (ShellController {
                mode: ShellMode::WelcomeScreen,
                welcome_screen: WelcomeScreen { is_active: true, card_phase: CardPhase::Entering, ..a.welcome_screen },
                ..a
            })
        } else {
            b == (ShellController { mode: ShellMode::Desktop, ..a })
        },
        ShellEvent::WelcomeScreenCompleted => {
            &&& b == (ShellController { first_boot_done: true, mode: ShellMode::Desktop, outbox: b.outbox, ..a })
            &&& emits(a, b, seq![ShellEffect::Play(SystemSound::BootChime)])
        },
        ShellEvent::ShutdownRequested | ShellEvent::SystemShutdown => b == (ShellController {
            mode: ShellMode::ShutdownScreen,
            shutdown_screen: ShutdownScreen {
                is_active: true,
                countdown_ms: COUNTDOWN_MS,
                selected_action: PowerAction::Shutdown,
            },
            ..a
        }),
        ShellEvent::SystemRestart => b == (ShellController {
            mode: ShellMode::ShutdownScreen,
            shutdown_screen: ShutdownScreen {
                is_active: true,
                countdown_ms: COUNTDOWN_MS,
                selected_action: PowerAction::Restart,
            },
            ..a
        }),
        ShellEvent::SystemSleep | ShellEvent::DisplaySleep => b == (ShellController {
            mode: ShellMode::SystemScreen,
            system_screen: SystemScreen { mode: SystemScreenMode::Shutdown, is_active: true, is_invoked: false },
            ..a
        }),
        ShellEvent::DisplayWake => b == (if a.mode == ShellMode::SystemScreen {
            ShellController { mode: mode_on_wake(a), ..a }
        } else {
            a
        }),
        ShellEvent::LockScreenActivate | ShellEvent::LidClosed => {
            &&& b == (ShellController {
                mode: ShellMode::LockScreen,
                lock_screen: b.lock_screen,
                outbox: b.outbox,
                ..a
            })
            &&& b.lock_screen.is_active
            &&& b.lock_screen.password_buf@.len() == 0
            &&& emits(
                a,
                b,
                seq![
                    ShellEffect::Publish(ShellEvent::LockScreenLocked),
                    ShellEffect::Play(SystemSound::LockScreen),
                ],
            )
        },
        ShellEvent::LockScreenUnlocked => {
            &&& b == (ShellController {
                mode: ShellMode::Desktop,
                lock_screen: b.lock_screen,
                outbox: b.outbox,
                ..a
            })
            &&& !b.lock_screen.is_active
            &&& b.lock_screen.password_buf@.len() == 0
            &&& emits(
                a,
                b,
                seq![
                    ShellEffect::Publish(ShellEvent::LockScreenUnlocked),
                    ShellEffect::Play(SystemSound::UnlockScreen),
                ],
            )
        },
        ShellEvent::CockpitViewOpen => if a.mode == ShellMode::Desktop {
            &&& b == (ShellController {
                cockpit_view: CockpitView { is_open: true, cards: b.cockpit_view.cards, ..a.cockpit_view },
                outbox: b.outbox,
                ..a
            })
            &&& cards_for(b.cockpit_view.cards@, a.window_manager.stack())
            &&& emits(a, b, seq![ShellEffect::Publish(ShellEvent::CockpitViewOpened)])
        } else {
            b == a
        },
        ShellEvent::CockpitViewClose => if a.mode == ShellMode::CockpitView {
            cockpit_closed(a, b)
        } else {
            b == a
        },
        ShellEvent::CockpitViewOpened => {
            &&& b == (ShellController { mode: ShellMode::CockpitView, outbox: b.outbox, ..a })
            &&& emits(a, b, seq![ShellEffect::Play(SystemSound::CockpitOpen)])
        },
        ShellEvent::CockpitViewClosed => b == (if a.mode == ShellMode::CockpitView {
            ShellController { mode: ShellMode::Desktop, ..a }
        } else {
            a
        }),
        ShellEvent::GlobalMenuActivated => {
            &&& b == (ShellController { panel_manager: b.panel_manager, ..a })
            &&& focused_menu_step(
                a.panel_manager,
                b.panel_manager,
                |x: GlobalMenu, y: GlobalMenu| menu_activated(x, y),
            )
        },
        ShellEvent::GlobalMenuDeactivated => {
            &&& b == (ShellController { panel_manager: b.panel_manager, ..a })
            &&& focused_menu_step(
                a.panel_manager,
                b.panel_manager,
                |x: GlobalMenu, y: GlobalMenu| menu_deactivated(x, y),
            )
        },
        ShellEvent::WindowOpened { handle, app_id } => {
            &&& b == (ShellController { outbox: b.outbox, ..a })
            &&& emits(a, b, seq![ShellEffect::Play(SystemSound::WindowOpen)])
        },
        ShellEvent::WindowClosed { handle } => {
            &&& b == (ShellController { window_manager: b.window_manager, ..a })
            &&& wm_after_remove(a.window_manager, b.window_manager, handle)
        },
        ShellEvent::WindowFocused { handle, app_id } => {
            &&& b == (ShellController {
                window_manager: b.window_manager,
                panel_manager: b.panel_manager,
                ..a
            })
            &&& wm_after_focus(a.window_manager, b.window_manager, handle)
            &&& focused_menu_step(
                a.panel_manager,
                b.panel_manager,
                |x: GlobalMenu, y: GlobalMenu| menu_named_only(x, y, app_id@),
            )
        },
        ShellEvent::WindowMinimized { handle } => {
            &&& b == (ShellController { window_manager: b.window_manager, outbox: b.outbox, ..a })
            &&& wm_after_update(a.window_manager, b.window_manager, handle, |w: AEWindow| with_minimized(w, true))
            &&& emits(a, b, seq![ShellEffect::Play(SystemSound::AppClose)])
        },
        ShellEvent::WindowDeminimized { handle } => {
            &&& b == (ShellController { window_manager: b.window_manager, outbox: b.outbox, ..a })
            &&& wm_after_update(a.window_manager, b.window_manager, handle, |w: AEWindow| with_minimized(w, false))
            &&& emits(a, b, seq![ShellEffect::Play(SystemSound::AppLaunch)])
        },
        ShellEvent::FullscreenEntered { handle } => fullscreen_cascaded(a, b, handle, true),
        ShellEvent::FullscreenExited { handle } => fullscreen_cascaded(a, b, handle, false),
        ShellEvent::DesktopNext | ShellEvent::DesktopPrev => {
            &&& b == (ShellController { outbox: b.outbox, ..a })
            &&& emits(a, b, seq![ShellEffect::Play(SystemSound::DesktopSwitch)])
        },
        ShellEvent::ShowDesktopToggle => desktop_shown(a, b),
        ShellEvent::NotificationPosted(payload) => {
            let n = a.outbox@.len() as int;
            &&& b == (ShellController { notification_center: b.notification_center, outbox: b.outbox, ..a })
            &&& nc_after_post(a.notification_center, b.notification_center, payload, a.notification_center.next())
            &&& b.outbox@.len() == n + 2
            &&& b.outbox@.subrange(0, n) == a.outbox@
            &&& (b.outbox@[n] matches ShellEffect::Publish(ShellEvent::NotificationPosted(q)) && same_payload(q, payload))
            &&& b.outbox@[n + 1] == ShellEffect::Play(SystemSound::Notification)
        },
        ShellEvent::NotificationDismissed { id } => {
            &&& b == (ShellController { notification_center: b.notification_center, outbox: b.outbox, ..a })
            &&& nc_after_dismiss(a.notification_center, b.notification_center, id)
            &&& emits(
                a,
                b,
                if toast_index(a.notification_center.toast_seq(), id) is Some {
                    seq![ShellEffect::Publish(ShellEvent::NotificationDismissed { id })]
                } else {
                    seq![]
                },
            )
        },
        ShellEvent::ReducedMotionChanged { enabled } => {
            &&& b == (ShellController { outbox: b.outbox, ..a })
            &&& emits(a, b, seq![ShellEffect::SetReducedMotion(enabled)])
        },
        _ => b == a,
    }
}

/// The focused window is fullscreen.
pub open spec fn focused_is_fullscreen(wm: WindowManager) -> bool {
    index_of(wm.stack(), wm.focused_id()) matches Some(i) && wm.stack()[i].is_fullscreen_active
}

/// `b` and `consumed` after a key event on the desktop.
pub open spec fn desktop_key(
    a: ShellController,
    b: ShellController,
    keycode: u32,
    modifiers: u32,
    pressed: bool,
    consumed: bool,
) -> bool {
    if !pressed {
        !consumed && b == a
    } else if keycode == KEY_TAB && modifiers & MOD_ALT != 0 {
        &&& consumed
        &&& b == (ShellController { window_manager: b.window_manager, ..a })
        &&& wm_after_cycle_next(a.window_manager, b.window_manager)
    } else if keycode == KEY_F10 {
        &&& consumed
        &&& b == (ShellController { panel_manager: b.panel_manager, ..a })
        &&& focused_menu_step(
            a.panel_manager,
            b.panel_manager,
            |x: GlobalMenu, y: GlobalMenu|
                if x.nav_state != MenuNavState::Inactive { menu_deactivated(x, y) } else { menu_activated(x, y) },
        )
    } else if keycode == KEY_ESC && a.cockpit_view.is_open {
        consumed && cockpit_closed(a, b)
    } else if keycode == KEY_ESC && focused_is_fullscreen(a.window_manager) {
        consumed && fullscreen_cascaded(a, b, a.window_manager.focused_id(), false)
    } else if keycode == KEY_SHOW_DESKTOP && modifiers & MOD_SUPER != 0 {
        consumed && desktop_shown(a, b)
    } else {
        !consumed && b == a
    }
}

/// `b` and `consumed` after a key event (`keycode`, `modifiers`, `pressed`) in `a`.
pub open spec fn key_routed(
    a: ShellController,
    b: ShellController,
    keycode: u32,
    modifiers: u32,
    pressed: bool,
    consumed: bool,
) -> bool {
    match a.mode {
        ShellMode::LockScreen => if pressed && keycode == KEY_BACKSPACE {
            &&& consumed
            &&& b == (ShellController { lock_screen: b.lock_screen, ..a })
            &&& b.lock_screen.is_active == a.lock_screen.is_active
            &&& b.lock_screen.password_buf@ == (if a.lock_screen.is_active && a.lock_screen.password_buf@.len() > 0 {
                a.lock_screen.password_buf@.drop_last()
            } else {
                a.lock_screen.password_buf@
            })
        } else if pressed && keycode == KEY_ENTER {
            &&& consumed
            &&& if a.lock_screen.password_buf@.len() > 0 {
                &&& b == (ShellController { lock_screen: b.lock_screen, outbox: b.outbox, ..a })
                &&& !b.lock_screen.is_active
                &&& b.lock_screen.password_buf@.len() == 0
                &&& emits(a, b, seq![ShellEffect::Publish(ShellEvent::LockScreenUnlocked)])
            } else {
                b == a
            }
        } else {
            !consumed && b == a
        },
        ShellMode::CockpitView => if pressed && keycode == KEY_ESC {
            consumed && cockpit_closed(a, b)
        } else {
            !consumed && b == a
        },
        ShellMode::ControlCenter => if pressed && keycode == KEY_ESC {
            &&& consumed
            &&& b == (ShellController {
                mode: ShellMode::Desktop,
                control_center: ControlCenter { is_open: !a.control_center.is_open, ..a.control_center },
                ..a
            })
        } else {
            !consumed && b == a
        },
        ShellMode::Desktop => desktop_key(a, b, keycode, modifiers, pressed, consumed),
        _ => !consumed && b == a,
    }
}

/// `b` and `consumed` after a pointer button event over `hit` in `a`.
pub open spec fn button_routed(a: ShellController, b: ShellController, pressed: bool, hit: PointerHit, consumed: bool) -> bool {
    match a.mode {
        ShellMode::CockpitView => if pressed {
            &&& consumed
            &&& if a.cockpit_view.is_open {
                &&& emits(a, b, seq![ShellEffect::Publish(ShellEvent::CockpitViewClosed)])
                &&& match hit.cockpit_card {
                    Some(h) => {
                        &&& b == (ShellController {
                            mode: ShellMode::Desktop,
                            window_manager: b.window_manager,
                            cockpit_view: CockpitView { is_open: false, ..a.cockpit_view },
                            outbox: b.outbox,
                            ..a
                        })
                        &&& wm_after_focus(a.window_manager, b.window_manager, h)
                    },
                    None => b == (ShellController {
                        cockpit_view: CockpitView { is_open: false, ..a.cockpit_view },
                        outbox: b.outbox,
                        ..a
                    }),
                }
            } else {
                b == a
            }
        } else {
            !consumed && b == a
        },
        ShellMode::ControlCenter => consumed && b == a,
        ShellMode::Desktop => if menu_takes_press(a.panel_manager, hit.menu_top, pressed) {
            &&& consumed
            &&& b == (ShellController { panel_manager: b.panel_manager, ..a })
            &&& focused_menu_step(
                a.panel_manager,
                b.panel_manager,
                |x: GlobalMenu, y: GlobalMenu| menu_pressed(x, y, hit.menu_top),
            )
        } else if hit.in_panel {
            consumed && b == a
        } else if pressed && hit.dock_item is Some && hit.dock_item.unwrap() < a.dock.items@.len() {
            let i = hit.dock_item.unwrap();
            &&& consumed
            &&& b == (ShellController { dock: b.dock, outbox: b.outbox, ..a })
            &&& b.dock == (Dock {
                items: b.dock.items,
                ..a.dock
            })
            &&& b.dock.items@ == a.dock.items@.update(i as int, DockItem { is_running: true, ..a.dock.items@[i as int] })
            &&& b.outbox@.len() == a.outbox@.len() + 1
            &&& b.outbox@.drop_last() == a.outbox@
            &&& (b.outbox@.last() matches ShellEffect::Launch { app_id } && app_id@ == a.dock.items@[i as int].app_id@)
        } else if pressed && hit.window is Some {
            &&& consumed
            &&& b == (ShellController { window_manager: b.window_manager, ..a })
            &&& wm_after_focus(a.window_manager, b.window_manager, hit.window.unwrap())
        } else {
            !consumed && b == a
        },
        _ => !consumed && b == a,
    }
}

/// Toggling Show Desktop twice, starting with a window visible and none
/// minimized, hides every window and then gives the stack back unchanged.
pub proof fn show_desktop_twice(a: ShellController, b: ShellController, c: ShellController)
    requires
        count_visible(a.window_manager.stack()) > 0,
        forall|i: int|
            0 <= i < a.window_manager.stack().len() ==> !(#[trigger] a.window_manager.stack()[i]).is_minimized,
        desktop_shown(a, b),
        desktop_shown(b, c),
    ensures
        count_visible(b.window_manager.stack()) == 0,
        c.window_manager.stack() == a.window_manager.stack(),
        c.window_manager.focused_id() == a.window_manager.focused_id(),
        c == (ShellController { window_manager: c.window_manager, ..a }),
{
    crate::window_manager::show_desktop_round_trip(a.window_manager.stack());
}

impl ShellController {
    /// The window manager's invariant holds.
    pub open spec fn wf(&self) -> bool {
        self.window_manager.wf()
    }

    /// Starts in first-boot mode with every component fresh.
    pub fn new() -> (c: Self)
        ensures
            c.wf(),
            c.mode == ShellMode::WelcomeScreen,
            !c.first_boot_done,
            c.outbox@.len() == 0,
            c.window_manager.stack().len() == 0,
            c.window_manager.focused_id() == 0,
            c.window_manager.next() == 1,
            c.panel_manager.panels@.len() == 0,
            c.dock.items@.len() == 0,
            !c.dock.is_fullscreen,
            !c.cockpit_view.is_open,
            !c.lock_screen.is_active,
            !c.welcome_screen.is_active,
            !c.control_center.is_open,
            c.notification_center.toast_seq().len() == 0,
            !c.shutdown_screen.is_active,
            !c.system_screen.is_active,
    {
        ShellController {
            mode: ShellMode::WelcomeScreen,
            panel_manager: PanelManager::new(),
            dock: Dock::new(),
            cockpit_view: CockpitView::new(),
            lock_screen: LockScreen::new(),
            welcome_screen: WelcomeScreen::new(),
            control_center: ControlCenter::new(),
            notification_center: NotificationCenter::new(),
            shutdown_screen: ShutdownScreen::new(),
            system_screen: SystemScreen::new(),
            window_manager: WindowManager::new(),
            first_boot_done: false,
            outbox: Vec::new(),
        }
    }

    /// First boot is over: the desktop appears and the boot chime plays.
    pub fn complete_first_boot(&mut self)
        ensures
            *final(self) == (ShellController {
                first_boot_done: true,
                mode: ShellMode::Desktop,
                outbox: final(self).outbox,
                ..*old(self)
            }),
            emits(*old(self), *final(self), seq![ShellEffect::Play(SystemSound::BootChime)]),
    {
        self.first_boot_done = true;
        self.mode = ShellMode::Desktop;
        self.outbox.push(ShellEffect::Play(SystemSound::BootChime));
    }

    pub fn mode(&self) -> (m: ShellMode)
        ensures
            m == self.mode,
    {
        self.mode
    }

    /// Hands the queued effects to the caller, oldest first.
    pub fn take_effects(&mut self) -> (effects: Vec<ShellEffect>)
        ensures
            effects@ == old(self).outbox@,
            *final(self) == (ShellController { outbox: final(self).outbox, ..*old(self) }),
            final(self).outbox@.len() == 0,
    {
        let mut out: Vec<ShellEffect> = Vec::new();
        std::mem::swap(&mut out, &mut self.outbox);
        out
    }

    /// CockpitView captures the renderable windows as cards and zooms out.
    fn open_cockpit_view(&mut self)
        requires
            old(self).wf(),
        ensures
            *final(self) == (ShellController {
                cockpit_view: CockpitView { is_open: true, cards: final(self).cockpit_view.cards, ..old(self).cockpit_view },
                outbox: final(self).outbox,
                ..*old(self)
            }),
            cards_for(final(self).cockpit_view.cards@, old(self).window_manager.stack()),
            emits(*old(self), *final(self), seq![ShellEffect::Publish(ShellEvent::CockpitViewOpened)]),
    {
        let wins = self.window_manager.windows();
        let ghost p = |w: AEWindow| renderable(w);
        let mut cards: Vec<CockpitCard> = Vec::new();
        let mut i: usize = 0;
        while i < wins.len()
            invariant
                0 <= i <= wins@.len(),
                p == (|w: AEWindow| renderable(w)),
                cards_for(cards@, wins@.subrange(0, i as int)),
            decreases wins@.len() - i,
        {
            proof {
                reveal_with_fuel(Seq::filter, 1);
                assert(wins@.subrange(0, i + 1).drop_last() =~= wins@.subrange(0, i as int));
            }
            let w = &wins[i];
            if w.is_renderable() {
                let card = CockpitCard::new(w.handle, w.title.as_str(), w.app_id.as_str());
                cards.push(card);
            }
            i = i + 1;
        }
        assert(wins@.subrange(0, i as int) =~= wins@);
        self.cockpit_view.set_cards(cards);
        let ev = self.cockpit_view.open();
        self.outbox.push(ShellEffect::Publish(ev));
    }

    /// Routes a bus event to the components it concerns.
    #[verifier::rlimit(40)]
    #[verifier::spinoff_prover]
    pub fn dispatch_event(&mut self, event: &ShellEvent)
        requires
            old(self).wf(),
        ensures
            final(self).wf(),
            dispatched(*old(self), *final(self), *event),
            *event == ShellEvent::SystemRestart ==> final(self).mode == ShellMode::ShutdownScreen
                && final(self).shutdown_screen.is_active && final(self).shutdown_screen.selected_action
                == PowerAction::Restart,
            (*event == ShellEvent::SystemShutdown || *event == ShellEvent::ShutdownRequested) ==> final(self).mode
                == ShellMode::ShutdownScreen && final(self).shutdown_screen.is_active
                && final(self).shutdown_screen.selected_action == PowerAction::Shutdown,
    {
        match event {
            ShellEvent::BootCrossfadeComplete => {
                if !self.first_boot_done {
                    self.welcome_screen.activate();
                    self.mode = ShellMode::WelcomeScreen;
                } else {
                    self.mode = ShellMode::Desktop;
                }
            },
            ShellEvent::WelcomeScreenCompleted => {
                self.complete_first_boot();
            },
            ShellEvent::ShutdownRequested | ShellEvent::SystemShutdown => {
                self.mode = ShellMode::ShutdownScreen;
                self.shutdown_screen.open(PowerAction::Shutdown);
            },
            ShellEvent::SystemRestart => {
                self.mode = ShellMode::ShutdownScreen;
                self.shutdown_screen.open(PowerAction::Restart);
            },
            ShellEvent::SystemSleep | ShellEvent::DisplaySleep => {
                self.mode = ShellMode::SystemScreen;
                self.system_screen.show(SystemScreenMode::Shutdown);
            },
            ShellEvent::DisplayWake => {
                if self.mode == ShellMode::SystemScreen {
                    self.mode = if self.lock_screen.is_active {
                        ShellMode::LockScreen
                    } else if !self.first_boot_done && self.welcome_screen.is_active {
                        ShellMode::WelcomeScreen
                    } else {
                        ShellMode::Desktop
                    };
                }
            },
            ShellEvent::LockScreenActivate | ShellEvent::LidClosed => {
                let ev = self.lock_screen.activate();
                self.mode = ShellMode::LockScreen;
                self.outbox.push(ShellEffect::Publish(ev));
                self.outbox.push(ShellEffect::Play(SystemSound::LockScreen));
            },
            ShellEvent::LockScreenUnlocked => {
                let ev = self.lock_screen.deactivate();
                self.mode = ShellMode::Desktop;
                self.outbox.push(ShellEffect::Publish(ev));
                self.outbox.push(ShellEffect::Play(SystemSound::UnlockScreen));
            },
            ShellEvent::CockpitViewOpen => {
                if self.mode == ShellMode::Desktop {
                    self.open_cockpit_view();
                }
            },
            ShellEvent::CockpitViewClose => {
                if self.mode == ShellMode::CockpitView {
                    let ev = self.cockpit_view.close();
                    self.mode = ShellMode::Desktop;
                    self.outbox.push(ShellEffect::Publish(ev));
                }
            },
            ShellEvent::CockpitViewOpened => {
                self.mode = ShellMode::CockpitView;
                self.outbox.push(ShellEffect::Play(SystemSound::CockpitOpen));
            },
            ShellEvent::CockpitViewClosed => {
                if self.mode == ShellMode::CockpitView {
                    self.mode = ShellMode::Desktop;
                }
            },
            ShellEvent::GlobalMenuActivated => {
                self.panel_manager.activate_focused_menu();
            },
            ShellEvent::GlobalMenuDeactivated => {
                self.panel_manager.deactivate_focused_menu();
            },
            ShellEvent::WindowOpened { .. } => {
                self.outbox.push(ShellEffect::Play(SystemSound::WindowOpen));
            },
            ShellEvent::WindowClosed { handle } => {
                self.window_manager.remove_window(*handle);
            },
            ShellEvent::WindowFocused { handle, app_id } => {
                self.window_manager.focus(*handle);
                self.panel_manager.on_no_menu(app_id.as_str());
            },
            ShellEvent::WindowMinimized { handle } => {
                self.window_manager.minimize_window(*handle);
                self.outbox.push(ShellEffect::Play(SystemSound::AppClose));
            },
            ShellEvent::WindowDeminimized { handle } => {
                self.window_manager.restore_window(*handle);
                self.outbox.push(ShellEffect::Play(SystemSound::AppLaunch));
            },
            ShellEvent::FullscreenEntered { handle } => {
                self.window_manager.set_window_fullscreen(*handle, true);
                self.panel_manager.set_fullscreen_mode(true);
                self.dock.enter_fullscreen_mode();
            },
            ShellEvent::FullscreenExited { handle } => {
                self.window_manager.set_window_fullscreen(*handle, false);
                self.panel_manager.set_fullscreen_mode(false);
                self.dock.exit_fullscreen_mode();
            },
            ShellEvent::DesktopNext | ShellEvent::DesktopPrev => {
                self.outbox.push(ShellEffect::Play(SystemSound::DesktopSwitch));
            },
            ShellEvent::ShowDesktopToggle => {
                self.toggle_show_desktop();
            },
            ShellEvent::NotificationPosted(payload) => {
                let (_id, ev) = self.notification_center.post(clone_payload(payload));
                self.outbox.push(ShellEffect::Publish(ev));
                self.outbox.push(ShellEffect::Play(SystemSound::Notification));
                assert(self.outbox@.subrange(0, old(self).outbox@.len() as int) =~= old(self).outbox@);
            },
            ShellEvent::NotificationDismissed { id } => {
                if let Some(ev) = self.notification_center.dismiss(*id) {
                    self.outbox.push(ShellEffect::Publish(ev));
                }
            },
            ShellEvent::ReducedMotionChanged { enabled } => {
                self.outbox.push(ShellEffect::SetReducedMotion(*enabled));
            },
            _ => {},
        }
    }

    /// Show Desktop: minimizes everything while a window is visible, else
    /// restores everything.
    fn toggle_show_desktop(&mut self)
        requires
            old(self).wf(),
        ensures
            final(self).wf(),
            desktop_shown(*old(self), *final(self)),
    {
        if self.window_manager.visible_window_count() > 0 {
            self.window_manager.minimize_all();
        } else {
            self.window_manager.restore_all();
        }
    }

    /// Routes a key event; true when the shell consumed it.
    pub fn on_key(&mut self, keycode: u32, modifiers: u32, pressed: bool) -> (consumed: bool)
        requires
            old(self).wf(),
        ensures
            final(self).wf(),
            key_routed(*old(self), *final(self), keycode, modifiers, pressed, consumed),
    {
        match self.mode {
            ShellMode::ShutdownScreen | ShellMode::SystemScreen | ShellMode::WelcomeScreen => {
                return false;
            },
            ShellMode::LockScreen => {
                if pressed && keycode == KEY_BACKSPACE {
                    self.lock_screen.backspace();
                    return true;
                }
                if pressed && keycode == KEY_ENTER {
                    if let Some(ev) = self.lock_screen.submit_password() {
                        self.outbox.push(ShellEffect::Publish(ev));
                    }
                    return true;
                }
                return false;
            },
            ShellMode::CockpitView => {
                if pressed && keycode == KEY_ESC {
                    let ev = self.cockpit_view.close();
                    self.mode = ShellMode::Desktop;
                    self.outbox.push(ShellEffect::Publish(ev));
                    return true;
                }
                return false;
            },
            ShellMode::ControlCenter => {
                if pressed && keycode == KEY_ESC {
                    self.control_center.toggle();
                    self.mode = ShellMode::Desktop;
                    return true;
                }
                return false;
            },
            ShellMode::Desktop => {},
        }
        if !pressed {
            return false;
        }
        if keycode == KEY_TAB && modifiers & MOD_ALT != 0 {
            self.window_manager.cycle_focus_next();
            return true;
        }
        if keycode == KEY_F10 {
            self.panel_manager.toggle_focused_menu();
            return true;
        }
        if keycode == KEY_ESC {
            if self.cockpit_view.is_open {
                let ev = self.cockpit_view.close();
                self.mode = ShellMode::Desktop;
                self.outbox.push(ShellEffect::Publish(ev));
                return true;
            }
            let fullscreen = match self.window_manager.focused() {
                Some(w) => w.is_fullscreen(),
                None => false,
            };
            if fullscreen {
                let h = self.window_manager.focused_handle();
                self.window_manager.set_window_fullscreen(h, false);
                self.panel_manager.set_fullscreen_mode(false);
                self.dock.exit_fullscreen_mode();
                return true;
            }
        }
        if keycode == KEY_SHOW_DESKTOP && modifiers & MOD_SUPER != 0 {
            self.toggle_show_desktop();
            return true;
        }
        false
    }

    /// Pointer motion: on the desktop the panels auto-hide by it
    /// (`in_hot_zone`: the pointer is at the top edge) and the focused
    /// panel's menu bar follows it (`menu_top` and `menu_sub_row` as the
    /// caller's hit tests found them); power, lock and first-boot screens
    /// ignore it, CockpitView and the Control Center track it themselves.
    pub fn on_pointer_motion(&mut self, in_hot_zone: bool, menu_top: Option<usize>, menu_sub_row: Option<usize>)
        requires
            old(self).wf(),
        ensures
            final(self).wf(),
            old(self).mode == ShellMode::Desktop ==> {
                &&& *final(self) == (ShellController { panel_manager: final(self).panel_manager, ..*old(self) })
                &&& exists|mid: PanelManager|
                    {
                        &&& #[trigger] mid.panels@ == old(self).panel_manager.panels@.map_values(
                            |e: PanelEntry| panel_after_motion(e, in_hot_zone),
                        )
                        &&& mid.primary_output_id == old(self).panel_manager.primary_output_id
                        &&& mid.focused_output_id == old(self).panel_manager.focused_output_id
                        &&& mid.focus_handle == old(self).panel_manager.focus_handle
                        &&& focused_menu_step(
                            mid,
                            final(self).panel_manager,
                            |x: GlobalMenu, y: GlobalMenu| menu_moved(x, y, menu_top, menu_sub_row),
                        )
                    }
            },
            old(self).mode != ShellMode::Desktop ==> *final(self) == *old(self),
    {
        if self.mode == ShellMode::Desktop {
            self.panel_manager.panels_pointer_motion(in_hot_zone);
            let ghost mid = self.panel_manager;
            self.panel_manager.on_menu_pointer_motion(menu_top, menu_sub_row);
            assert(mid.panels@ == old(self).panel_manager.panels@.map_values(
                |e: PanelEntry| panel_after_motion(e, in_hot_zone),
            ));
        }
    }

    /// Routes a pointer button event over what the caller's hit tests found;
    /// true when the shell consumed it.
    pub fn on_pointer_button(&mut self, pressed: bool, hit: PointerHit) -> (consumed: bool)
        requires
            old(self).wf(),
        ensures
            final(self).wf(),
            button_routed(*old(self), *final(self), pressed, hit, consumed),
    {
        match self.mode {
            ShellMode::CockpitView => {
                if pressed {
                    let (target, ev) = self.cockpit_view.on_pointer_button(hit.cockpit_card, true);
                    if let Some(e) = ev {
                        self.outbox.push(ShellEffect::Publish(e));
                    }
                    if let Some(h) = target {
                        self.window_manager.focus(h);
                        self.mode = ShellMode::Desktop;
                    }
                    return true;
                }
                return false;
            },
            ShellMode::ControlCenter => {
                return true;
            },
            ShellMode::Desktop => {},
            _ => {
                return false;
            },
        }
        if self.panel_manager.on_menu_pointer_button(hit.menu_top, pressed) {
            return true;
        }
        if hit.in_panel {
            return true;
        }
        if pressed {
            if let Some(i) = hit.dock_item {
                if i < self.dock.items.len() {
                    let app_id = self.dock.items[i].app_id.clone();
                    self.dock.launch_item(i);
                    self.outbox.push(ShellEffect::Launch { app_id });
                    assert(self.outbox@.drop_last() =~= old(self).outbox@);
                    return true;
                }
            }
            if let Some(h) = hit.window {
                self.window_manager.focus(h);
                return true;
            }
        }
        false
    }

    /// Power, system, lock and first-boot screens block window interaction.
    pub fn blocks_window_input(&self) -> (b: bool)
        ensures
            b == (self.mode == ShellMode::LockScreen || self.mode == ShellMode::WelcomeScreen
                || self.mode == ShellMode::ShutdownScreen || self.mode == ShellMode::SystemScreen),
    {
        match self.mode {
            ShellMode::LockScreen | ShellMode::WelcomeScreen | ShellMode::ShutdownScreen
            | ShellMode::SystemScreen => true,
            _ => false,
        }
    }

    /// The focused window's handle, if any.
    pub fn focused_window(&self) -> (r: Option<u64>)
        ensures
            r == (if self.window_manager.focused_id() == 0 {
                None
            } else {
                Some(self.window_manager.focused_id())
            }),
    {
        let h = self.window_manager.focused_handle();
        if h == 0 {
            None
        } else {
            Some(h)
        }
    }

    /// Number of visible, non-minimized windows.
    pub fn visible_window_count(&self) -> (n: usize)
        ensures
            n == count_visible(self.window_manager.stack()),
    {
        self.window_manager.visible_window_count()
    }
}

} // verus!
