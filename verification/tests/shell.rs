use animus::cockpit::{card_grid, card_slot, CockpitCard, CockpitView};
use animus::dock::{Dock, DockItem};
use animus::events::{NotificationPayload, ShellEvent};
use animus::global_menu::{GlobalMenu, MenuItem, MenuNavState, PanelManager};
use animus::lock_screen::LockScreen;
use animus::login_manager::{watchdog_due, AELoginManager, BootCrossfade, WATCHDOG_INTERVAL_MS};
use animus::notifications::{timeout_ms_for, NotificationCenter, MAX_ACTION_BUTTONS};
use animus::panel::Panel;
use animus::personality::strings;
use animus::personality::PersonalityCounter;
use animus::screens::{
    ControlCenter, PowerAction, ShutdownScreen, SystemScreen, SystemScreenMode, RESTART_MESSAGE, SHUTDOWN_MESSAGE,
};
use animus::welcome::{CardPhase, ContinueButtonState, PassphraseStrength, WelcomeScreen, WizardStep};

#[test]
fn test_personality_strings_exact() {
    assert_eq!(strings::SHUTDOWN, "goodbye");
    assert_eq!(strings::RESTART, "i'll see you in a bit");
    assert_eq!(strings::WELCOME_STEP3_TITLE, "you're all set");
    assert_eq!(strings::WELCOME_STEP3_BUTTON, "let's go");
    assert_eq!(strings::FILER_EMPTY_FOLDER, "nothing here yet");
    assert_eq!(strings::PATHFINDER_FIRST_OPEN, "what are you looking for?");
}

#[test]
fn test_cockpitview_one_window_counter() {
    let mut counter = PersonalityCounter::new();

    assert!(counter.should_show_cockpit_one_window());
    assert!(counter.should_show_cockpit_one_window());
    assert!(counter.should_show_cockpit_one_window());
    assert!(!counter.should_show_cockpit_one_window());
    assert!(!counter.should_show_cockpit_one_window());
}

#[test]
fn test_cockpit_view_sentinel_and_transitions() {
    let mut cockpit = CockpitView::new();
    assert!(matches!(cockpit.open(), ShellEvent::CockpitViewOpened));
    assert!(cockpit.is_open);
    assert!(matches!(cockpit.close(), ShellEvent::CockpitViewClosed));
    assert!(!cockpit.is_open);
}

fn three_cards() -> Vec<CockpitCard> {
    vec![CockpitCard::new(1, "A", "a"), CockpitCard::new(2, "B", "b"), CockpitCard::new(3, "C", "c")]
}

#[test]
fn cockpit_open_with_cards_layouts_them() {
    let mut cockpit = CockpitView::new();
    cockpit.set_cards(three_cards());
    cockpit.open();
    assert!(cockpit.is_open);
    assert_eq!(cockpit.cards.len(), 3);
    assert_eq!(cockpit.cards[1].window_handle, 2);
}

#[test]
fn cockpit_click_card_focuses_and_closes() {
    let mut cockpit = CockpitView::new();
    cockpit.set_cards(vec![CockpitCard::new(1, "A", "a")]);
    cockpit.open();
    let (handle, ev) = cockpit.on_pointer_button(Some(1), true);
    assert_eq!(handle, Some(1));
    assert!(matches!(ev, Some(ShellEvent::CockpitViewClosed)));
    assert!(!cockpit.is_open);
}

#[test]
fn cockpit_click_outside_closes() {
    let mut cockpit = CockpitView::new();
    cockpit.set_cards(vec![CockpitCard::new(1, "A", "a")]);
    cockpit.open();
    let (handle, _) = cockpit.on_pointer_button(None, true);
    assert_eq!(handle, None);
    assert!(!cockpit.is_open);
}

#[test]
fn cockpit_closed_ignores_clicks() {
    let mut cockpit = CockpitView::new();
    let (handle, ev) = cockpit.on_pointer_button(Some(1), true);
    assert_eq!(handle, None);
    assert!(ev.is_none());
    cockpit.open();
    let (handle, ev) = cockpit.on_pointer_button(Some(1), false);
    assert!(handle.is_none() && ev.is_none());
    assert!(cockpit.is_open);
}

#[test]
fn test_control_center_state_and_toggle() {
    let mut cc = ControlCenter::new();

    assert!(!cc.is_open);
    cc.toggle();
    assert!(cc.is_open);

    let ev = cc.toggle_reduced_motion();
    assert!(cc.state.is_reduced_motion);
    assert!(matches!(ev, ShellEvent::ReducedMotionChanged { enabled: true }));
    assert_eq!(cc.state.active_wifi_ssid.as_deref(), Some("vitusOS 5G"));
    assert!(!cc.toggle_wifi());
    assert!(!cc.toggle_bluetooth());
    cc.toggle_dark_mode();
    assert!(!cc.state.is_dark_mode);
}

#[test]
fn test_dock_magnification_and_launch() {
    let mut dock = Dock::new();
    dock.add_item(DockItem::new("filer", "Files", "assets/icons/dock/filer.svg"));
    dock.add_item(DockItem::new("terminow", "Terminow", "assets/icons/dock/terminow.svg"));

    assert!(dock.launch_item(0));
    assert!(dock.items[0].is_running);
    assert!(!dock.items[1].is_running);
    assert!(!dock.launch_item(5));
    dock.enter_fullscreen_mode();
    assert!(dock.is_fullscreen);
    dock.exit_fullscreen_mode();
    assert!(!dock.is_fullscreen);
}

fn make_test_menu() -> Vec<MenuItem> {
    vec![
        MenuItem::new("File").with_sub_items(vec![
            MenuItem::new("New").with_shortcut("Ctrl+N"),
            MenuItem::new("Open").with_shortcut("Ctrl+O"),
            MenuItem::separator(),
            MenuItem::new("Save").with_shortcut("Ctrl+S"),
        ]),
        MenuItem::new("Edit").with_sub_items(vec![
            MenuItem::new("Cut").with_shortcut("Ctrl+X"),
            MenuItem::new("Copy").with_shortcut("Ctrl+C"),
            MenuItem::new("Paste").with_shortcut("Ctrl+V"),
        ]),
        MenuItem::new("View").with_sub_items(vec![
            MenuItem::new("Zoom In").with_shortcut("Ctrl++"),
            MenuItem::new("Zoom Out").with_shortcut("Ctrl+-"),
        ]),
    ]
}

#[test]
fn global_menu_activate_deactivate() {
    let mut menu = GlobalMenu::new();
    assert_eq!(menu.nav_state, MenuNavState::Inactive);
    assert!(!menu.is_active());

    menu.set_menu_from_json("TestApp", make_test_menu());
    menu.activate();
    assert_eq!(menu.nav_state, MenuNavState::Active);
    assert!(menu.is_active());
    assert_eq!(menu.kb_top_index, Some(0));

    menu.deactivate();
    assert_eq!(menu.nav_state, MenuNavState::Inactive);
    assert!(!menu.is_active());
}

#[test]
fn global_menu_keyboard_arrow_navigation() {
    let mut menu = GlobalMenu::new();
    menu.set_menu_from_json("TestApp", make_test_menu());
    menu.activate();
    assert_eq!(menu.kb_top_index, Some(0));

    menu.on_key(0xff53, true);
    assert_eq!(menu.kb_top_index, Some(1));

    menu.on_key(0xff53, true);
    assert_eq!(menu.kb_top_index, Some(2));

    menu.on_key(0xff53, true);
    assert_eq!(menu.kb_top_index, Some(0));

    menu.on_key(0xff51, true);
    assert_eq!(menu.kb_top_index, Some(2));
}

#[test]
fn global_menu_open_submenu_and_navigate() {
    let mut menu = GlobalMenu::new();
    menu.set_menu_from_json("TestApp", make_test_menu());
    menu.activate();
    assert_eq!(menu.kb_top_index, Some(0));

    menu.on_key(0xff54, true);
    assert_eq!(menu.nav_state, MenuNavState::OpenSubmenu);
    assert!(menu.open_submenu.is_some());
    let sm = menu.open_submenu.as_ref().unwrap();
    assert_eq!(sm.parent_index, 0);
    assert_eq!(sm.items.len(), 4);
    assert_eq!(sm.hover_index, Some(0));

    menu.on_key(0xff54, true);
    assert_eq!(menu.open_submenu.as_ref().unwrap().hover_index, Some(1));

    menu.on_key(0xff54, true);
    assert_eq!(menu.open_submenu.as_ref().unwrap().hover_index, Some(3));

    menu.on_key(0xff52, true);
    assert_eq!(menu.open_submenu.as_ref().unwrap().hover_index, Some(1));

    menu.on_key(0xff1b, true);
    assert_eq!(menu.nav_state, MenuNavState::Active);
    assert!(menu.open_submenu.is_none());
}

#[test]
fn global_menu_letter_jump() {
    let mut menu = GlobalMenu::new();
    menu.set_menu_from_json("TestApp", make_test_menu());
    menu.activate();
    menu.on_key(0xff54, true);

    menu.on_key(b'o' as u32, true);
    assert_eq!(menu.open_submenu.as_ref().unwrap().hover_index, Some(1));

    menu.on_key(b's' as u32, true);
    assert_eq!(menu.open_submenu.as_ref().unwrap().hover_index, Some(3));
}

#[test]
fn global_menu_app_name_only_fallback() {
    let mut menu = GlobalMenu::new();
    menu.set_app_name_only("SimpleApp");
    assert!(!menu.has_menu);
    assert_eq!(menu.app_name, "SimpleApp");
    assert_eq!(menu.items.len(), 0);

    menu.activate();
    assert_eq!(menu.kb_top_index, None);
}

#[test]
fn global_menu_arrow_right_in_submenu_moves_to_next_top() {
    let mut menu = GlobalMenu::new();
    menu.set_menu_from_json("TestApp", make_test_menu());
    menu.activate();
    menu.on_key(0xff54, true);
    assert_eq!(menu.nav_state, MenuNavState::OpenSubmenu);

    menu.on_key(0xff53, true);
    assert_eq!(menu.nav_state, MenuNavState::OpenSubmenu);
    assert_eq!(menu.open_submenu.as_ref().unwrap().parent_index, 1);
}

#[test]
fn global_menu_keys_pass_through_when_inactive() {
    let mut menu = GlobalMenu::new();
    menu.set_menu_from_json("TestApp", make_test_menu());
    assert!(!menu.on_key(0xff54, true));
    assert_eq!(menu.nav_state, MenuNavState::Inactive);
    menu.activate();
    assert!(menu.on_key(0xff1b, true));
    assert_eq!(menu.nav_state, MenuNavState::Inactive);
}

#[test]
fn panel_manager_multi_monitor() {
    let mut pm = PanelManager::new();

    pm.on_output_added(1, true);
    assert_eq!(pm.panels.len(), 1);
    assert!(pm.panels[0].is_primary);
    assert_eq!(pm.primary_output_id, Some(1));

    pm.on_output_added(2, false);
    assert_eq!(pm.panels.len(), 2);

    pm.on_window_focused(42, 2);
    assert_eq!(pm.focused_output_id, Some(2));
    assert_eq!(pm.focus_handle, 42);

    pm.on_menu_registered("TestApp", make_test_menu());
    let focused = pm.focused_panel().unwrap();
    assert!(focused.global_menu.has_menu);

    let primary = pm.primary_panel().unwrap();
    assert!(!primary.global_menu.has_menu);

    pm.on_output_removed(2);
    assert_eq!(pm.panels.len(), 1);
    assert_eq!(pm.focused_output_id, Some(1));
}

#[test]
fn panel_manager_primary_promotion() {
    let mut pm = PanelManager::new();
    pm.on_output_added(1, true);
    pm.on_output_added(2, false);

    pm.on_output_removed(1);
    assert_eq!(pm.panels.len(), 1);
    assert_eq!(pm.primary_output_id, Some(2));
    assert!(pm.panels[0].is_primary);
}

#[test]
fn panel_manager_focused_menu_toggle_and_fullscreen() {
    let mut pm = PanelManager::new();
    pm.on_output_added(1, true);
    pm.on_window_focused(7, 1);
    pm.on_menu_registered("TestApp", make_test_menu());
    pm.toggle_focused_menu();
    assert!(pm.focused_panel().unwrap().global_menu.is_active());
    pm.toggle_focused_menu();
    assert!(!pm.focused_panel().unwrap().global_menu.is_active());
    pm.on_no_menu("Plain");
    assert!(!pm.focused_panel().unwrap().global_menu.has_menu);
    assert_eq!(pm.focused_panel().unwrap().global_menu.app_name, "Plain");
    pm.set_fullscreen_mode(true);
    assert!(pm.panel_for_output(1).unwrap().panel.is_fullscreen);
    assert!(pm.panel_for_output(9).is_none());
}

#[test]
fn test_panel_fullscreen_auto_hide() {
    let mut panel = Panel::new();
    assert!(!panel.is_fullscreen);
    assert!(!panel.slides_out);

    panel.enter_fullscreen_mode();
    assert!(panel.is_fullscreen);

    panel.on_pointer_motion(false);
    assert!(panel.slides_out);

    panel.on_pointer_motion(true);
    assert!(!panel.slides_out);

    panel.exit_fullscreen_mode();
    assert!(!panel.is_fullscreen);
}

#[test]
fn test_panel_non_fullscreen_always_visible() {
    let mut panel = Panel::new();
    panel.on_pointer_motion(true);
    assert!(!panel.slides_out);
    panel.on_pointer_motion(false);
    assert!(!panel.slides_out);
    assert!(panel.is_clock_visible);
    assert_eq!(panel.focused_app_title, "Filer");
}

#[test]
fn test_lock_screen_lifecycle_and_shake() {
    let mut lock = LockScreen::new();

    assert!(!lock.is_active);
    assert!(matches!(lock.activate(), ShellEvent::LockScreenLocked));
    assert!(lock.is_active);

    assert!(lock.submit_password().is_none());
    assert!(lock.is_active);

    for c in ['v', 'i', 't', 'u', 's'] {
        lock.input_char(c);
    }
    assert_eq!(lock.password_buf, "vitus");
    lock.backspace();
    assert_eq!(lock.password_buf, "vitu");
    assert!(matches!(lock.submit_password(), Some(ShellEvent::LockScreenUnlocked)));

    assert!(!lock.is_active);
    assert!(lock.password_buf.is_empty());
}

#[test]
fn lock_screen_ignores_typing_when_inactive() {
    let mut lock = LockScreen::new();
    lock.input_char('x');
    lock.backspace();
    assert!(lock.password_buf.is_empty());
    lock.activate();
    lock.backspace();
    assert!(lock.password_buf.is_empty());
    lock.input_char('a');
    assert!(matches!(lock.deactivate(), ShellEvent::LockScreenUnlocked));
    assert!(lock.password_buf.is_empty());
}

#[test]
fn test_login_manager_session_start() {
    let mut login = AELoginManager::new();

    assert!(!login.is_session_active);
    assert_eq!(login.users.len(), 1);

    let ev = login.authenticate_and_start("test_password");
    assert!(login.is_session_active);
    assert!(matches!(ev, Some(ShellEvent::WelcomeScreenCompleted)));
}

#[test]
fn login_manager_rejects_empty_password_and_selects_users() {
    let mut login = AELoginManager::new();
    assert!(login.authenticate_and_start("").is_none());
    assert!(!login.is_session_active);
    assert_eq!(login.selected_username(), "krisna");
    login.select_user(3);
    assert_eq!(login.selected_user_idx, 0);
    assert!(login.start_session(false).is_none());
}

#[test]
fn boot_crossfade_and_watchdog() {
    let mut b = BootCrossfade::new();
    assert_eq!(b.wordmark_text, "victusOS");
    assert!(b.update(false).is_none());
    assert!(matches!(b.update(true), Some(ShellEvent::BootCrossfadeComplete)));
    assert!(b.is_complete);
    assert!(b.update(true).is_none());
    assert!(!watchdog_due(WATCHDOG_INTERVAL_MS - 1));
    assert!(watchdog_due(WATCHDOG_INTERVAL_MS));
}

fn payload(title: &str, timeout_ms: i32, persistent: bool, keys: &[&str], labels: &[&str]) -> NotificationPayload {
    NotificationPayload {
        title: title.to_string(),
        body: String::new(),
        timeout_ms,
        is_persistent: persistent,
        action_keys: keys.iter().map(|s| s.to_string()).collect(),
        action_labels: labels.iter().map(|s| s.to_string()).collect(),
    }
}

#[test]
fn test_notification_lifecycle() {
    let mut nc = NotificationCenter::new();
    let (id, ev) = nc.post(payload("Test", 3000, false, &["ok"], &["OK"]));
    assert!(matches!(ev, ShellEvent::NotificationPosted(_)));
    assert_eq!(nc.live_count(), 1);

    nc.update(100);
    assert_eq!(nc.toasts()[0].remaining_ms, Some(2900));

    let ev = nc.dismiss(id);
    assert!(matches!(ev, Some(ShellEvent::NotificationDismissed { id: i }) if i == id));
    assert!(nc.toasts()[0].is_dismissing);
}

#[test]
fn test_action_buttons_max_2() {
    let mut nc = NotificationCenter::new();
    nc.post(payload("Test", 5000, false, &["a", "b", "c"], &["A", "B", "C"]));
    assert_eq!(nc.toasts()[0].actions.len(), MAX_ACTION_BUTTONS);
    assert_eq!(nc.toasts()[0].actions[1].label, "B");
    assert_eq!(nc.toasts()[0].default_action_key.as_deref(), None);
}

#[test]
fn test_persistent_notification() {
    let mut nc = NotificationCenter::new();
    let (id, _) = nc.post(payload("Critical", -1, true, &[], &[]));

    for _ in 0..100 {
        assert!(nc.update(100).is_empty());
    }
    assert_eq!(nc.live_count(), 1);

    nc.dismiss(id);
    nc.remove_faded(&vec![id]);
    assert_eq!(nc.live_count(), 0);
}

#[test]
fn test_auto_dismiss_timeout() {
    let mut nc = NotificationCenter::new();
    let (id, _) = nc.post(payload("Test", 100, false, &[], &[]));
    let mut expired = Vec::new();
    for _ in 0..20 {
        expired.extend(nc.update(100));
    }
    assert_eq!(expired, vec![id]);
    assert!(nc.toasts()[0].is_dismissing);
}

#[test]
fn test_click_dismisses_and_activates() {
    let mut nc = NotificationCenter::new();
    let (id, _) = nc.post(payload("Test", 5000, false, &["default"], &["Open"]));
    assert_eq!(nc.toasts()[0].default_action_key.as_deref(), Some("default"));
    assert!(nc.on_click(id).is_some());
    assert!(nc.toasts()[0].is_dismissing);
    assert!(nc.on_action_click(id + 7, "x").is_none());
}

#[test]
fn test_stacking() {
    let mut nc = NotificationCenter::new();
    let (a, _) = nc.post(payload("First", 5000, false, &[], &[]));
    let (b, _) = nc.post(payload("Second", 5000, false, &[], &[]));
    nc.update(100);
    assert_eq!(nc.toasts().len(), 2);
    assert_eq!(nc.toasts()[0].id, a);
    assert_eq!(nc.toasts()[1].id, b);
    assert_eq!(b, a + 1);
}

#[test]
fn notification_timeouts_exact() {
    assert_eq!(timeout_ms_for(-1), None);
    assert_eq!(timeout_ms_for(0), Some(5000));
    assert_eq!(timeout_ms_for(3000), Some(3000));
    assert_eq!(timeout_ms_for(99999), Some(30000));
}

#[test]
fn test_shutdown_screen_countdown_and_cancel() {
    let mut screen = ShutdownScreen::new();

    assert!(!screen.is_active);
    screen.open(PowerAction::Restart);
    assert!(screen.is_active);
    assert_eq!(screen.selected_action, PowerAction::Restart);

    assert!(screen.update(1000).is_none());
    assert_eq!(screen.countdown_ms, 59000);

    screen.cancel();
    assert!(!screen.is_active);
}

#[test]
fn shutdown_countdown_expiry_fires_action() {
    let mut screen = ShutdownScreen::new();
    screen.open(PowerAction::Sleep);
    assert!(matches!(screen.update(60000), Some(ShellEvent::SystemSleep)));
    assert_eq!(screen.countdown_ms, 0);
    screen.open(PowerAction::Shutdown);
    assert!(matches!(screen.confirm(), ShellEvent::ShutdownRequested));
    screen.open(PowerAction::Restart);
    assert!(matches!(screen.confirm(), ShellEvent::SystemRestart));
    let mut idle = ShutdownScreen::new();
    assert!(idle.update(70000).is_none());
    assert_eq!(idle.countdown_ms, 60000);
}

#[test]
fn test_system_screen_exact_strings_and_fade() {
    let mut screen = SystemScreen::new();

    assert_eq!(SHUTDOWN_MESSAGE, "goodbye");
    assert_eq!(RESTART_MESSAGE, "i'll see you in a bit");

    screen.show(SystemScreenMode::Shutdown);
    assert_eq!(screen.message(), "goodbye");
    assert!(screen.is_active);

    assert!(screen.update(false).is_none());
    assert!(matches!(screen.update(true), Some(ShellEvent::SystemShutdown)));
    assert!(screen.is_invoked);
    assert!(screen.update(true).is_none());

    screen.show(SystemScreenMode::Restart);
    assert_eq!(screen.message(), "i'll see you in a bit");
    assert!(matches!(screen.update(true), Some(ShellEvent::ShutdownRequested)));
}

#[test]
fn passphrase_strength_levels() {
    assert_eq!(PassphraseStrength::calculate(""), PassphraseStrength::TooShort);
    assert_eq!(PassphraseStrength::calculate("short"), PassphraseStrength::TooShort);
    assert_eq!(PassphraseStrength::calculate("12345678"), PassphraseStrength::Fair);
    assert_eq!(PassphraseStrength::calculate("password"), PassphraseStrength::Weak);
    assert_eq!(PassphraseStrength::calculate("Password1"), PassphraseStrength::Good);
    assert_eq!(PassphraseStrength::calculate("Password!"), PassphraseStrength::Fair);
    assert_eq!(PassphraseStrength::calculate("P@ssw0rd!"), PassphraseStrength::Strong);
}

#[test]
fn vault_step_continue_disabled_initially() {
    let s = WelcomeScreen::new();
    assert_eq!(s.continue_button_state, ContinueButtonState::Disabled);
    assert!(!s.can_continue());
}

#[test]
fn vault_step_continue_enables_on_match() {
    let mut s = WelcomeScreen::new();
    s.set_passphrase1("StrongPass123!".to_string());
    assert_eq!(s.passphrase_strength, PassphraseStrength::Strong);
    assert!(!s.can_continue());

    s.set_passphrase2("StrongPass123!".to_string());
    assert_eq!(s.continue_button_state, ContinueButtonState::Enabled);
    assert!(s.can_continue());
}

#[test]
fn vault_step_mismatch_shake() {
    let mut s = WelcomeScreen::new();
    s.set_passphrase1("password123".to_string());
    s.set_passphrase2("password456".to_string());
    assert_eq!(s.continue_button_state, ContinueButtonState::Disabled);

    s.trigger_mismatch_shake();
    assert_eq!(s.continue_button_state, ContinueButtonState::Shake);

    s.update(false, true);
    assert_eq!(s.continue_button_state, ContinueButtonState::Shake);
    s.set_passphrase2("password123".to_string());
    assert_eq!(s.continue_button_state, ContinueButtonState::Enabled);
}

#[test]
fn vault_step_short_passphrase_disabled() {
    let mut s = WelcomeScreen::new();
    s.set_passphrase1("short".to_string());
    s.set_passphrase2("short".to_string());
    assert_eq!(s.continue_button_state, ContinueButtonState::Disabled);
    assert!(!s.can_continue());
}

#[test]
fn wizard_step_progression() {
    let mut s = WelcomeScreen::new();
    s.activate();
    assert_eq!(s.current_step, WizardStep::VaultSetup);
    assert_eq!(s.card_phase, CardPhase::Entering);

    s.update(true, true);
    assert_eq!(s.card_phase, CardPhase::Active);

    s.set_passphrase1("MyP@ssw0rd!".to_string());
    s.set_passphrase2("MyP@ssw0rd!".to_string());
    assert!(!s.next_step());
    assert_eq!(s.current_step, WizardStep::WallpaperPick);
    assert_eq!(s.active_dot, 1);
    assert!(s.passphrase1.is_empty() && s.passphrase2.is_empty());

    assert!(!s.next_step());
    assert_eq!(s.current_step, WizardStep::Done);
    assert_eq!(s.active_dot, 2);
}

#[test]
fn wallpaper_selection() {
    let mut s = WelcomeScreen::new();
    s.current_step = WizardStep::WallpaperPick;

    s.select_wallpaper(1);
    assert_eq!(s.selected_wallpaper, 1);

    s.select_wallpaper(2);
    assert_eq!(s.selected_wallpaper, 2);

    s.select_wallpaper(3);
    assert_eq!(s.selected_wallpaper, 2);
    s.set_custom_wallpaper("/home/me/bg.png".to_string());
    assert_eq!(s.custom_wallpaper_path.as_deref(), Some("/home/me/bg.png"));
    s.select_wallpaper(0);
    assert!(s.custom_wallpaper_path.is_none());
}

#[test]
fn wallpaper_skip_allowed() {
    let mut s = WelcomeScreen::new();
    s.current_step = WizardStep::WallpaperPick;

    s.skip_step();
    assert_eq!(s.current_step, WizardStep::Done);
}

#[test]
fn vault_setup_cannot_skip() {
    let mut s = WelcomeScreen::new();
    s.current_step = WizardStep::VaultSetup;

    s.skip_step();
    assert_eq!(s.current_step, WizardStep::VaultSetup);
}

#[test]
fn complete_triggers_exit() {
    let mut s = WelcomeScreen::new();
    s.activate();
    s.update(true, true);
    assert_eq!(s.card_phase, CardPhase::Active);

    s.current_step = WizardStep::Done;
    assert!(s.next_step());
    assert_eq!(s.card_phase, CardPhase::Exiting);

    s.update(true, true);
    assert_eq!(s.card_phase, CardPhase::Complete);
    assert!(!s.is_active);
    assert!(s.is_complete());
}

#[test]
fn passphrase_visibility_toggle() {
    let mut s = WelcomeScreen::new();
    assert!(!s.passphrase_visible);
    s.toggle_passphrase_visibility();
    assert!(s.passphrase_visible);
    s.toggle_passphrase_visibility();
    assert!(!s.passphrase_visible);
}

#[test]
fn passphrase_trimmed_on_input() {
    let mut s = WelcomeScreen::new();
    s.set_passphrase1("  hello123  ".to_string());
    assert_eq!(s.passphrase1, "hello123");
    assert_eq!(s.passphrase_strength, PassphraseStrength::Fair);
}

#[test]
fn card_entrance_animation() {
    let mut s = WelcomeScreen::new();
    s.activate();
    s.update(false, false);
    assert_eq!(s.card_phase, CardPhase::Entering);
    s.update(true, false);
    assert_eq!(s.card_phase, CardPhase::Active);
}

#[test]
fn passphrase_strength_counts_characters() {
    assert_eq!(PassphraseStrength::calculate("ééééé"), PassphraseStrength::TooShort);
    assert_eq!(PassphraseStrength::calculate("éééééééé"), PassphraseStrength::Weak);
    assert_eq!(PassphraseStrength::calculate("abcdefgh").level(), 1);
    assert_eq!(PassphraseStrength::calculate("Abcdefg1!").level(), 4);
}

#[test]
fn cockpit_card_grid_shape_and_slots() {
    assert_eq!(card_grid(3, 5), (3, 1));
    assert_eq!(card_grid(7, 3), (3, 3));
    assert_eq!(card_grid(5, 0), (1, 5));
    assert_eq!(card_grid(0, 4), (0, 0));
    assert_eq!(card_slot(4, 3), (1, 1));
    assert_eq!(card_slot(0, 3), (0, 0));
    assert_eq!(card_slot(2, 3), (0, 2));
}

#[test]
fn global_menu_pointer_hover_and_click() {
    let mut menu = GlobalMenu::new();
    menu.set_menu_from_json("TestApp", make_test_menu());
    menu.on_pointer_motion(Some(1), None);
    assert_eq!(menu.hover_top_index, None);
    assert!(!menu.on_pointer_button(Some(1), true));

    menu.activate();
    menu.on_pointer_motion(Some(2), None);
    assert_eq!(menu.kb_top_index, Some(2));
    assert!(menu.on_pointer_button(Some(0), true));
    assert_eq!(menu.nav_state, MenuNavState::OpenSubmenu);
    assert_eq!(menu.open_submenu.as_ref().unwrap().parent_index, 0);

    menu.on_pointer_motion(None, Some(2));
    assert_eq!(menu.open_submenu.as_ref().unwrap().hover_index, Some(0));
    menu.on_pointer_motion(None, Some(3));
    assert_eq!(menu.open_submenu.as_ref().unwrap().hover_index, Some(3));

    menu.on_pointer_motion(Some(1), None);
    assert_eq!(menu.open_submenu.as_ref().unwrap().parent_index, 1);

    assert!(menu.on_pointer_button(Some(1), true));
    assert_eq!(menu.nav_state, MenuNavState::Active);
    assert!(menu.open_submenu.is_none());

    assert!(!menu.on_pointer_button(Some(1), false));
    assert!(menu.on_pointer_button(None, true));
    assert_eq!(menu.nav_state, MenuNavState::Inactive);
}

fn menu_nav_consistent(menu: &GlobalMenu) -> bool {
    (menu.nav_state == MenuNavState::OpenSubmenu) == menu.open_submenu.is_some()
        && (menu.nav_state != MenuNavState::Inactive
            || (menu.kb_top_index.is_none() && menu.hover_top_index.is_none() && menu.open_submenu.is_none()))
        && menu.open_submenu.as_ref().map_or(true, |o| !o.items.is_empty())
}

#[test]
fn global_menu_keys_keep_navigation_consistent_and_copy_submenus() {
    let mut menu = GlobalMenu::new();
    menu.set_menu_from_json("TestApp", make_test_menu());
    menu.activate();
    let keys = [
        animus::keysym::XK_DOWN,
        animus::keysym::XK_DOWN,
        animus::keysym::XK_RIGHT,
        animus::keysym::XK_LEFT,
        animus::keysym::XK_UP,
        animus::keysym::XK_ESCAPE,
        animus::keysym::XK_RETURN,
        animus::keysym::XK_RETURN,
        animus::keysym::XK_ESCAPE,
    ];
    for key in keys {
        menu.on_key(key, true);
        assert!(menu_nav_consistent(&menu));
        if let Some(open) = &menu.open_submenu {
            let parent = &menu.items[open.parent_index];
            assert_eq!(open.items.len(), parent.sub_items.len());
            for (copy, item) in open.items.iter().zip(parent.sub_items.iter()) {
                assert_eq!(copy.label, item.label);
                assert_eq!(copy.shortcut, item.shortcut);
                assert_eq!(copy.is_separator, item.is_separator);
            }
        }
    }
    assert_eq!(menu.nav_state, MenuNavState::Inactive);
}

#[test]
fn global_menu_released_key_changes_nothing() {
    let mut menu = GlobalMenu::new();
    menu.set_menu_from_json("TestApp", make_test_menu());
    menu.activate();
    menu.on_key(animus::keysym::XK_DOWN, true);
    let hover = menu.open_submenu.as_ref().unwrap().hover_index;
    assert!(!menu.on_key(animus::keysym::XK_DOWN, false));
    assert_eq!(menu.nav_state, MenuNavState::OpenSubmenu);
    assert_eq!(menu.open_submenu.as_ref().unwrap().hover_index, hover);
    menu.deactivate();
    assert!(!menu.on_key(animus::keysym::XK_DOWN, true));
    assert_eq!(menu.nav_state, MenuNavState::Inactive);
}

#[test]
fn lock_screen_activation_clears_typed_password() {
    let mut lock = LockScreen::new();
    lock.activate();
    lock.input_char('x');
    lock.input_char('y');
    assert_eq!(lock.password_buf, "xy");
    lock.activate();
    assert!(lock.is_active);
    assert_eq!(lock.password_buf, "");
}

#[test]
fn passphrase_is_trimmed_of_unicode_whitespace() {
    let mut w = WelcomeScreen::new();
    w.set_passphrase1("\u{3000}\u{85} Abcdefg1!\t\u{2029}".to_string());
    assert_eq!(w.passphrase1, "Abcdefg1!");
    assert_eq!(w.passphrase_strength, PassphraseStrength::Strong);
}
