use animus::events::{NotificationPayload, ShellEffect, ShellEvent, SystemSound};
use animus::global_menu::{MenuItem, MenuNavState};
use animus::shell_controller::{PointerHit, ShellController, ShellMode, KEY_ESC, KEY_SHOW_DESKTOP, KEY_TAB, MOD_ALT, MOD_SUPER};

fn no_hit() -> PointerHit {
    PointerHit { cockpit_card: None, menu_top: None, in_panel: false, dock_item: None, window: None }
}

#[test]
fn shell_controller_starts_in_welcome_mode() {
    let ctrl = ShellController::new();
    assert_eq!(ctrl.mode(), ShellMode::WelcomeScreen);
}

#[test]
fn complete_first_boot_transitions_to_desktop() {
    let mut ctrl = ShellController::new();
    ctrl.complete_first_boot();
    assert_eq!(ctrl.mode(), ShellMode::Desktop);
    assert!(ctrl.first_boot_done);
    let effects = ctrl.take_effects();
    assert_eq!(effects.len(), 1);
    assert!(matches!(effects[0], ShellEffect::Play(SystemSound::BootChime)));
    assert!(ctrl.take_effects().is_empty());
}

#[test]
fn boot_crossfade_complete_starts_welcome_screen() {
    let mut ctrl = ShellController::new();
    ctrl.dispatch_event(&ShellEvent::BootCrossfadeComplete);
    assert_eq!(ctrl.mode, ShellMode::WelcomeScreen);
    assert!(ctrl.welcome_screen.is_active);
}

#[test]
fn welcome_screen_completed_transitions_to_desktop() {
    let mut ctrl = ShellController::new();
    ctrl.dispatch_event(&ShellEvent::BootCrossfadeComplete);
    ctrl.dispatch_event(&ShellEvent::WelcomeScreenCompleted);
    assert_eq!(ctrl.mode(), ShellMode::Desktop);
}

#[test]
fn lock_screen_activation() {
    let mut ctrl = ShellController::new();
    ctrl.complete_first_boot();
    ctrl.dispatch_event(&ShellEvent::LockScreenActivate);
    assert_eq!(ctrl.mode(), ShellMode::LockScreen);
    assert!(ctrl.lock_screen.is_active);
}

#[test]
fn lock_screen_unlock_returns_to_desktop() {
    let mut ctrl = ShellController::new();
    ctrl.complete_first_boot();
    ctrl.dispatch_event(&ShellEvent::LockScreenActivate);
    ctrl.dispatch_event(&ShellEvent::LockScreenUnlocked);
    assert_eq!(ctrl.mode(), ShellMode::Desktop);
    assert!(!ctrl.lock_screen.is_active);
}

#[test]
fn cockpit_view_open_close() {
    let mut ctrl = ShellController::new();
    ctrl.complete_first_boot();

    ctrl.window_manager.create_window("App", "app");

    ctrl.dispatch_event(&ShellEvent::CockpitViewOpen);
    assert_eq!(ctrl.cockpit_view.cards.len(), 1);
    ctrl.dispatch_event(&ShellEvent::CockpitViewOpened);
    assert_eq!(ctrl.mode(), ShellMode::CockpitView);

    ctrl.on_key(KEY_ESC, 0, true);
    assert_eq!(ctrl.mode(), ShellMode::Desktop);
}

#[test]
fn alt_tab_cycles_focus() {
    let mut ctrl = ShellController::new();
    ctrl.complete_first_boot();

    let h1 = ctrl.window_manager.create_window("A", "a");
    let h2 = ctrl.window_manager.create_window("B", "b");

    assert_eq!(ctrl.focused_window(), Some(h2));

    assert!(ctrl.on_key(KEY_TAB, MOD_ALT, true));
    assert_eq!(ctrl.focused_window(), Some(h1));
}

#[test]
fn show_desktop_toggle() {
    let mut ctrl = ShellController::new();
    ctrl.complete_first_boot();

    ctrl.window_manager.create_window("A", "a");
    assert_eq!(ctrl.visible_window_count(), 1);

    ctrl.on_key(KEY_SHOW_DESKTOP, MOD_SUPER, true);
    assert_eq!(ctrl.visible_window_count(), 0);

    ctrl.on_key(KEY_SHOW_DESKTOP, MOD_SUPER, true);
    assert_eq!(ctrl.visible_window_count(), 1);
}

#[test]
fn fullscreen_enter_exit_cascades() {
    let mut ctrl = ShellController::new();
    ctrl.complete_first_boot();

    ctrl.panel_manager.on_output_added(1, true);
    let h = ctrl.window_manager.create_window("App", "app");

    ctrl.dispatch_event(&ShellEvent::FullscreenEntered { handle: h });
    assert!(ctrl.window_manager.get_window(h).unwrap().is_fullscreen());
    assert!(ctrl.dock.is_fullscreen);
    assert!(ctrl.panel_manager.panels[0].panel.is_fullscreen);

    ctrl.dispatch_event(&ShellEvent::FullscreenExited { handle: h });
    assert!(!ctrl.window_manager.get_window(h).unwrap().is_fullscreen());
    assert!(!ctrl.dock.is_fullscreen);
    assert!(!ctrl.panel_manager.panels[0].panel.is_fullscreen);
}

#[test]
fn pointer_motion_in_cockpit_mode_routes_to_cards() {
    let mut ctrl = ShellController::new();
    ctrl.complete_first_boot();
    let h = ctrl.window_manager.create_window("App", "app");
    ctrl.dispatch_event(&ShellEvent::CockpitViewOpen);
    ctrl.dispatch_event(&ShellEvent::CockpitViewOpened);
    assert_eq!(ctrl.mode(), ShellMode::CockpitView);

    ctrl.on_pointer_motion(false, Some(0), None);
    assert_eq!(ctrl.mode(), ShellMode::CockpitView);
    assert!(ctrl.cockpit_view.is_open);
    assert_eq!(ctrl.focused_window(), Some(h));
}

#[test]
fn cockpit_card_click_focuses_the_window() {
    let mut ctrl = ShellController::new();
    ctrl.complete_first_boot();
    let h = ctrl.window_manager.create_window("App", "app");
    ctrl.dispatch_event(&ShellEvent::CockpitViewOpen);
    ctrl.dispatch_event(&ShellEvent::CockpitViewOpened);
    let hit = PointerHit { cockpit_card: Some(h), ..no_hit() };
    assert!(ctrl.on_pointer_button(true, hit));
    assert_eq!(ctrl.mode(), ShellMode::Desktop);
    assert_eq!(ctrl.focused_window(), Some(h));
}

#[test]
fn display_wake_returns_to_the_active_lock_screen() {
    let mut ctrl = ShellController::new();
    ctrl.complete_first_boot();
    ctrl.dispatch_event(&ShellEvent::LockScreenActivate);
    ctrl.dispatch_event(&ShellEvent::DisplaySleep);
    assert!(ctrl.lock_screen.is_active);
    ctrl.dispatch_event(&ShellEvent::DisplayWake);
    assert_eq!(ctrl.mode(), ShellMode::LockScreen);
}

#[test]
fn display_wake_without_lock_returns_to_desktop() {
    let mut ctrl = ShellController::new();
    ctrl.complete_first_boot();
    ctrl.dispatch_event(&ShellEvent::DisplaySleep);
    ctrl.dispatch_event(&ShellEvent::DisplayWake);
    assert_eq!(ctrl.mode(), ShellMode::Desktop);
}

#[test]
fn shutdown_blocks_all_input() {
    let mut ctrl = ShellController::new();
    ctrl.complete_first_boot();
    ctrl.dispatch_event(&ShellEvent::SystemShutdown);
    assert_eq!(ctrl.mode(), ShellMode::ShutdownScreen);
    assert!(ctrl.blocks_window_input());

    assert!(!ctrl.on_pointer_button(true, no_hit()));
    assert!(!ctrl.on_key(KEY_TAB, MOD_ALT, true));
}

#[test]
fn window_focus_routes_global_menu_name() {
    let mut ctrl = ShellController::new();
    ctrl.complete_first_boot();
    ctrl.panel_manager.on_output_added(1, true);

    let h = ctrl.window_manager.create_window("TestApp", "testapp");
    ctrl.dispatch_event(&ShellEvent::WindowFocused { handle: h, app_id: "testapp".to_string() });

    let panel = ctrl.panel_manager.focused_panel().unwrap();
    assert_eq!(panel.global_menu.app_name, "testapp");
}

#[test]
fn reduced_motion_propagates() {
    let mut ctrl = ShellController::new();
    ctrl.dispatch_event(&ShellEvent::ReducedMotionChanged { enabled: true });
    ctrl.dispatch_event(&ShellEvent::ReducedMotionChanged { enabled: false });
    let effects = ctrl.take_effects();
    assert_eq!(effects.len(), 2);
    assert!(matches!(effects[0], ShellEffect::SetReducedMotion(true)));
    assert!(matches!(effects[1], ShellEffect::SetReducedMotion(false)));
}

#[test]
fn complete_first_boot_then_show_desktop_twice_restores() {
    let mut ctrl = ShellController::new();
    ctrl.complete_first_boot();
    let a = ctrl.window_manager.create_window("A", "a");
    let b = ctrl.window_manager.create_window("B", "b");
    ctrl.dispatch_event(&ShellEvent::ShowDesktopToggle);
    assert_eq!(ctrl.visible_window_count(), 0);
    ctrl.dispatch_event(&ShellEvent::ShowDesktopToggle);
    assert_eq!(ctrl.visible_window_count(), 2);
    assert!(!ctrl.window_manager.get_window(a).unwrap().is_minimized);
    assert!(!ctrl.window_manager.get_window(b).unwrap().is_minimized);
}

#[test]
fn lock_screen_keys_edit_the_password() {
    let mut ctrl = ShellController::new();
    ctrl.complete_first_boot();
    ctrl.dispatch_event(&ShellEvent::LockScreenActivate);
    ctrl.lock_screen.input_char('a');
    ctrl.lock_screen.input_char('b');
    assert!(ctrl.on_key(14, 0, true));
    assert_eq!(ctrl.lock_screen.password_buf, "a");
    assert!(ctrl.blocks_window_input());
}

#[test]
fn notification_posted_through_controller() {
    let mut ctrl = ShellController::new();
    ctrl.complete_first_boot();
    ctrl.take_effects();
    ctrl.dispatch_event(&ShellEvent::NotificationPosted(NotificationPayload {
        title: "Hi".to_string(),
        body: String::new(),
        timeout_ms: 0,
        is_persistent: false,
        action_keys: Vec::new(),
        action_labels: Vec::new(),
    }));
    assert_eq!(ctrl.notification_center.live_count(), 1);
    let effects = ctrl.take_effects();
    assert!(matches!(effects.last(), Some(ShellEffect::Play(SystemSound::Notification))));
}

#[test]
fn desktop_click_on_window_focuses_it() {
    let mut ctrl = ShellController::new();
    ctrl.complete_first_boot();
    let a = ctrl.window_manager.create_window("A", "a");
    let _b = ctrl.window_manager.create_window("B", "b");
    let hit = PointerHit { window: Some(a), ..no_hit() };
    assert!(ctrl.on_pointer_button(true, hit));
    assert_eq!(ctrl.focused_window(), Some(a));
}

#[test]
fn menu_bar_takes_clicks_when_active() {
    let mut ctrl = ShellController::new();
    ctrl.complete_first_boot();
    ctrl.panel_manager.on_output_added(1, true);
    ctrl.panel_manager.on_menu_registered(
        "App",
        vec![
            MenuItem::new("File").with_sub_items(vec![MenuItem::new("New")]),
            MenuItem::new("Edit").with_sub_items(vec![MenuItem::new("Cut")]),
        ],
    );
    let h = ctrl.window_manager.create_window("A", "a");
    // Inactive menu: the click goes on to the window.
    let hit = PointerHit { menu_top: Some(0), window: Some(h), ..no_hit() };
    assert!(ctrl.on_pointer_button(true, hit));
    assert_eq!(ctrl.panel_manager.focused_panel().unwrap().global_menu.nav_state, MenuNavState::Inactive);

    ctrl.on_key(68, 0, true);
    assert!(ctrl.panel_manager.focused_panel().unwrap().global_menu.is_active());
    let hit = PointerHit { menu_top: Some(1), ..no_hit() };
    assert!(ctrl.on_pointer_button(true, hit));
    let gm = &ctrl.panel_manager.focused_panel().unwrap().global_menu;
    assert_eq!(gm.nav_state, MenuNavState::OpenSubmenu);
    assert_eq!(gm.open_submenu.as_ref().unwrap().parent_index, 1);

    ctrl.on_pointer_motion(false, Some(0), None);
    let gm = &ctrl.panel_manager.focused_panel().unwrap().global_menu;
    assert_eq!(gm.open_submenu.as_ref().unwrap().parent_index, 0);
    assert_eq!(gm.kb_top_index, Some(0));

    // A click away from the bar closes the menu.
    assert!(ctrl.on_pointer_button(true, no_hit()));
    assert!(!ctrl.panel_manager.focused_panel().unwrap().global_menu.is_active());
}

#[test]
fn fullscreen_panel_auto_hides_by_pointer() {
    let mut ctrl = ShellController::new();
    ctrl.complete_first_boot();
    ctrl.panel_manager.on_output_added(1, true);
    let h = ctrl.window_manager.create_window("App", "app");
    ctrl.on_pointer_motion(false, None, None);
    assert!(!ctrl.panel_manager.panels[0].panel.slides_out);
    ctrl.dispatch_event(&ShellEvent::FullscreenEntered { handle: h });
    ctrl.on_pointer_motion(false, None, None);
    assert!(ctrl.panel_manager.panels[0].panel.slides_out);
    ctrl.on_pointer_motion(true, None, None);
    assert!(!ctrl.panel_manager.panels[0].panel.slides_out);
    ctrl.on_pointer_motion(false, None, None);
    ctrl.dispatch_event(&ShellEvent::FullscreenExited { handle: h });
    assert!(!ctrl.panel_manager.panels[0].panel.slides_out);
}
