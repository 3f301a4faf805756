use animus::events::ShellEvent;
use animus::window::{AEWindow, TITLE_TRUNCATE_SUFFIX};
use animus::window_manager::{detect_snap_zone, SnapZone, WindowManager};
use animus::workspace::{VirtualDesktopManager, MAX_DESKTOPS};

/// Characters that fit in a title bar `width` pixels wide (136 px of
/// buttons and padding, about 7 px per character), as the renderer measures.
fn room_for(width: f32) -> Option<usize> {
    let available = width - 136.0;
    if available <= 0.0 {
        None
    } else {
        Some((available / 7.0) as usize)
    }
}

#[test]
fn test_title_truncation() {
    let mut win = AEWindow::new(1, "A very long title that should be truncated", "test");
    let truncated = win.truncated_title(room_for(300.0));
    assert!(truncated.ends_with(TITLE_TRUNCATE_SUFFIX));
    assert!(truncated.len() < win.title.len());
    assert_eq!(truncated, "A very long title th...");

    win.title = "Hi".to_string();
    assert_eq!(win.truncated_title(room_for(300.0)), "Hi");
}

#[test]
fn title_truncation_edges() {
    let win = AEWindow::new(1, "abcdef", "test");
    assert_eq!(win.truncated_title(None), "");
    assert_eq!(win.truncated_title(Some(6)), "abcdef");
    assert_eq!(win.truncated_title(Some(5)), "ab...");
    assert_eq!(win.truncated_title(Some(2)), "...");
    let empty = AEWindow::new(2, "", "test");
    assert_eq!(empty.truncated_title(Some(10)), "");
}

#[test]
fn test_fullscreen_lifecycle() {
    let mut win = AEWindow::new(1, "Test", "test");
    assert!(!win.is_fullscreen());

    win.enter_fullscreen();
    assert!(win.is_fullscreen());
    assert!(win.is_visible);

    win.exit_fullscreen();
    assert!(!win.is_fullscreen());
}

#[test]
fn test_minimize_restore() {
    let mut win = AEWindow::new(1, "Test", "test");
    assert!(!win.is_minimized);
    assert!(win.is_renderable());

    win.minimize();
    assert!(win.is_minimized);
    assert!(!win.is_renderable());

    win.restore();
    assert!(!win.is_minimized);
    assert!(win.is_renderable());
}

#[test]
fn window_creation_and_focus() {
    let mut wm = WindowManager::new();
    let h1 = wm.create_window("App 1", "app1");
    let h2 = wm.create_window("App 2", "app2");

    assert_eq!(wm.window_count(), 2);
    assert_eq!(wm.focused_handle(), h2);

    wm.focus(h1);
    assert_eq!(wm.focused_handle(), h1);
    assert!(wm.get_window(h1).unwrap().is_focused);
    assert!(!wm.get_window(h2).unwrap().is_focused);
}

#[test]
fn raise_and_lower() {
    let mut wm = WindowManager::new();
    let h1 = wm.create_window("A", "a");
    let _h2 = wm.create_window("B", "b");
    let h3 = wm.create_window("C", "c");

    assert_eq!(wm.windows()[2].handle, h3);

    wm.raise(h1);
    assert_eq!(wm.windows()[2].handle, h1);

    wm.lower(h1);
    assert_eq!(wm.windows()[0].handle, h1);
}

#[test]
fn focus_moves_to_top_z() {
    let mut wm = WindowManager::new();
    let h1 = wm.create_window("A", "a");
    let _h2 = wm.create_window("B", "b");

    wm.focus(h1);
    assert_eq!(wm.windows()[1].handle, h1);
    assert_eq!(wm.focused_handle(), h1);
}

#[test]
fn cycle_focus_next_prev() {
    let mut wm = WindowManager::new();
    let h1 = wm.create_window("A", "a");
    let h2 = wm.create_window("B", "b");
    let h3 = wm.create_window("C", "c");

    assert_eq!(wm.focused_handle(), h3);

    wm.cycle_focus_next();
    assert_eq!(wm.focused_handle(), h1);

    wm.cycle_focus_next();
    assert_eq!(wm.focused_handle(), h2);

    wm.cycle_focus_prev();
    assert_eq!(wm.focused_handle(), h1);
}

#[test]
fn remove_window_refocuses() {
    let mut wm = WindowManager::new();
    let h1 = wm.create_window("A", "a");
    let h2 = wm.create_window("B", "b");

    wm.remove_window(h2);
    assert_eq!(wm.window_count(), 1);
    assert_eq!(wm.focused_handle(), h1);
    assert!(wm.get_window(h1).unwrap().is_focused);
    wm.remove_window(h1);
    assert_eq!(wm.focused_handle(), 0);
    assert!(wm.focused().is_none());
}

#[test]
fn snap_zone_detection() {
    // 1920 x 1080 screen, 28 px panel, 20 px threshold.
    let zone = |x: f32, y: f32| detect_snap_zone(x < 20.0, x > 1900.0, y < 48.0, y > 1060.0);
    assert_eq!(zone(5.0, 500.0), SnapZone::Left);
    assert_eq!(zone(1915.0, 500.0), SnapZone::Right);
    assert_eq!(zone(960.0, 30.0), SnapZone::Maximize);
    assert_eq!(zone(5.0, 30.0), SnapZone::TopLeft);
    assert_eq!(zone(1915.0, 30.0), SnapZone::TopRight);
    assert_eq!(zone(960.0, 540.0), SnapZone::NoZone);
    assert_eq!(zone(5.0, 1070.0), SnapZone::BottomLeft);
    assert_eq!(zone(1915.0, 1070.0), SnapZone::BottomRight);
}

#[test]
fn snap_window_to_left() {
    let mut wm = WindowManager::new();
    let h = wm.create_window("A", "a");
    assert!(wm.snap_window(h, SnapZone::Left));
    assert!(!wm.snap_window(h, SnapZone::NoZone));
    assert!(!wm.snap_window(h + 1, SnapZone::Left));
}

#[test]
fn snap_window_maximize() {
    let mut wm = WindowManager::new();
    let h = wm.create_window("A", "a");
    assert!(wm.snap_window(h, SnapZone::Maximize));
}

#[test]
fn minimize_all_and_restore_all() {
    let mut wm = WindowManager::new();
    let h1 = wm.create_window("A", "a");
    let h2 = wm.create_window("B", "b");

    assert_eq!(wm.visible_window_count(), 2);

    wm.minimize_all();
    assert_eq!(wm.visible_window_count(), 0);
    assert!(wm.get_window(h1).unwrap().is_minimized);
    assert!(wm.get_window(h2).unwrap().is_minimized);

    wm.restore_all();
    assert_eq!(wm.visible_window_count(), 2);
    assert!(!wm.get_window(h1).unwrap().is_minimized);
}

#[test]
fn show_desktop_round_trip_restores_only_what_it_hid() {
    let mut wm = WindowManager::new();
    let h1 = wm.create_window("A", "a");
    let h2 = wm.create_window("B", "b");
    wm.minimize_window(h1);
    assert_eq!(wm.visible_window_count(), 1);
    wm.minimize_all();
    wm.restore_all();
    assert!(!wm.get_window(h1).unwrap().is_minimized);
    assert!(!wm.get_window(h2).unwrap().is_minimized);
    wm.restore_window(h1);
    assert_eq!(wm.visible_window_count(), 2);
}

#[test]
fn fullscreen_window_flag_through_manager() {
    let mut wm = WindowManager::new();
    let h = wm.create_window("A", "a");
    wm.set_window_fullscreen(h, true);
    assert!(wm.get_window(h).unwrap().is_fullscreen());
    wm.set_window_fullscreen(h, false);
    assert!(!wm.get_window(h).unwrap().is_fullscreen());
}

#[test]
fn cycle_focus_with_one_window_is_a_no_op() {
    let mut wm = WindowManager::new();
    let h = wm.create_window("A", "a");
    wm.cycle_focus_next();
    wm.cycle_focus_prev();
    assert_eq!(wm.focused_handle(), h);
    assert_eq!(wm.windows().len(), 1);
    assert_eq!(wm.focused().unwrap().app_id, "a");
}

fn key_of(e: Option<ShellEvent>) -> Option<String> {
    match e {
        Some(ShellEvent::StateChanged { key }) => Some(key),
        _ => None,
    }
}

#[test]
fn test_virtual_desktop_switching() {
    let mut vdm = VirtualDesktopManager::new();

    assert_eq!(vdm.current_index(), 0);
    assert_eq!(vdm.count(), 1);

    vdm.add_desktop();
    vdm.add_desktop();
    assert_eq!(vdm.count(), 3);

    assert_eq!(key_of(vdm.switch_next()), Some("active_workspace:1".to_string()));
    assert_eq!(vdm.current_index(), 1);
    assert_eq!(vdm.previous_index(), 0);

    assert_eq!(key_of(vdm.switch_prev()), Some("active_workspace:0".to_string()));
    assert_eq!(vdm.current_index(), 0);
    assert_eq!(vdm.previous_index(), 1);
}

#[test]
fn test_boundary_bounce() {
    let mut vdm = VirtualDesktopManager::new();
    vdm.add_desktop();

    assert!(vdm.switch_prev().is_none());
    assert!(vdm.is_bouncing());
    assert_eq!(vdm.current_index(), 0);
    vdm.end_bounce();
    assert!(!vdm.is_bouncing());
    vdm.switch_next();
    assert!(vdm.is_at_right_boundary());
    assert!(vdm.switch_next().is_none());
    assert!(vdm.is_bouncing());
    assert_eq!(vdm.current_index(), 1);
}

#[test]
fn test_window_assignment() {
    let mut vdm = VirtualDesktopManager::new();
    vdm.add_desktop();

    vdm.assign_window(1001, 1);
    assert_eq!(vdm.desktop_for_window(1001), 1);
    assert!(!vdm.window_visible_on_current(1001));

    vdm.switch_next();
    assert!(vdm.window_visible_on_current(1001));
    assert_eq!(vdm.desktop_for_window(9999), 0);
}

#[test]
fn test_add_remove_desktop() {
    let mut vdm = VirtualDesktopManager::new();

    assert_eq!(key_of(vdm.add_desktop()), Some("desktop_count".to_string()));
    assert_eq!(vdm.count(), 2);

    assert_eq!(key_of(vdm.remove_desktop(1)), Some("desktop_count".to_string()));
    assert_eq!(vdm.count(), 1);

    assert!(vdm.remove_desktop(0).is_none());
    assert_eq!(vdm.count(), 1);
}

#[test]
fn remove_desktop_moves_windows_and_clamps_current() {
    let mut vdm = VirtualDesktopManager::new();
    vdm.add_desktop();
    vdm.add_desktop();
    vdm.assign_window(1, 1);
    vdm.assign_window(2, 2);
    vdm.switch_to(2);
    vdm.remove_desktop(1);
    assert_eq!(vdm.desktop_for_window(1), 0);
    assert_eq!(vdm.desktop_for_window(2), 1);
    assert_eq!(vdm.current_index(), 1);
    assert!(vdm.remove_desktop(5).is_none());
    assert!(vdm.switch_to(9).is_none());
    assert!(vdm.switch_to(1).is_none());
}

#[test]
fn test_rename_desktop() {
    let mut vdm = VirtualDesktopManager::new();

    vdm.add_desktop();
    vdm.rename_desktop(1, "Code");
    assert_eq!(vdm.name_for_desktop(1), "Code");

    vdm.rename_desktop(1, "");
    assert_eq!(vdm.name_for_desktop(1), "Desktop 2");

    vdm.rename_desktop(0, "abcdefghijklmnopqrstuvwxyz0123");
    assert_eq!(vdm.name_for_desktop(0), "abcdefghijklmnopqrstuvwx");
    assert_eq!(vdm.name_for_desktop(4), "Desktop 5");
}

#[test]
fn test_max_desktops() {
    let mut vdm = VirtualDesktopManager::new();

    for _ in 0..10 {
        vdm.add_desktop();
    }
    assert_eq!(vdm.count(), MAX_DESKTOPS);
    assert!(vdm.add_desktop().is_none());
}

#[test]
fn dock_overlap_detection() {
    let mut wm = WindowManager::new();
    let h1 = wm.create_window("A", "a");
    // Window at y=0, 800 tall: its bottom (800) stays above the dock (1060 - 4).
    let reaching: Vec<u64> = if 0.0 + 800.0 > 1060.0 - 4.0 { vec![h1] } else { vec![] };
    assert!(!wm.any_window_overlaps_dock(&reaching));
    // Moved down to y=1000: bottom 1800 reaches into the dock.
    let reaching: Vec<u64> = if 1000.0 + 800.0 > 1060.0 - 4.0 { vec![h1] } else { vec![] };
    assert!(wm.any_window_overlaps_dock(&reaching));
    wm.minimize_window(h1);
    assert!(!wm.any_window_overlaps_dock(&reaching));
}

#[test]
fn fullscreen_window_skips_dock_overlap() {
    let mut wm = WindowManager::new();
    let h = wm.create_window("A", "a");
    wm.set_window_fullscreen(h, true);
    assert!(!wm.any_window_overlaps_dock(&vec![h]));
    wm.set_window_fullscreen(h, false);
    assert!(wm.any_window_overlaps_dock(&vec![h]));
}

#[test]
fn focus_raises_window_and_keeps_others_in_order() {
    let mut wm = WindowManager::new();
    let a = wm.create_window("A", "a");
    let b = wm.create_window("B", "b");
    let c = wm.create_window("C", "c");
    wm.focus(a);
    let order: Vec<u64> = wm.windows().iter().map(|w| w.handle).collect();
    assert_eq!(order, vec![b, c, a]);
    assert_eq!(wm.focused_handle(), a);
    assert!(wm.get_window(a).unwrap().is_focused);
    assert_eq!(wm.windows().iter().filter(|w| w.is_focused).count(), 1);
    wm.focus(c);
    let order: Vec<u64> = wm.windows().iter().map(|w| w.handle).collect();
    assert_eq!(order, vec![b, a, c]);
    assert!(!wm.get_window(a).unwrap().is_focused);
}
