use animus::app_index::{AppEntry, AppIndexCache, InstallState, PackageFormat};
use animus::button::{AEButton, ButtonSize, ButtonStyle};
use animus::context_menu::{AEContextMenu, ContextMenuItem, ContextMenuItemType, ITEM_HEIGHT, PADDING_V, SEPARATOR_HEIGHT};
use animus::dropdown::{AEDropdown, DropdownItem};
use animus::popover::AEPopover;
use animus::sheet::AESheet;
use animus::text_field::AETextField;
use animus::tooltip::{AETooltip, DWELL_DELAY_US};

fn make_items() -> Vec<ContextMenuItem> {
    vec![
        ContextMenuItem::new("Cut").with_shortcut("Ctrl+X"),
        ContextMenuItem::new("Copy").with_shortcut("Ctrl+C"),
        ContextMenuItem::separator(),
        ContextMenuItem::new("Paste").with_shortcut("Ctrl+V"),
    ]
}

#[test]
fn context_menu_show_dismiss() {
    let mut m: AEContextMenu = AEContextMenu::new();
    assert!(!m.is_visible);

    m.show(make_items());
    assert!(m.is_visible);
    assert_eq!(m.items.len(), 4);
    assert!(m.height > 0);

    m.dismiss();
    assert!(!m.is_visible);
}

#[test]
fn context_menu_keyboard_navigation() {
    let mut m: AEContextMenu = AEContextMenu::new();
    m.show(make_items());

    m.on_key(0xff54, 0, true);
    assert_eq!(m.hovered_index, Some(0));

    m.on_key(0xff54, 0, true);
    assert_eq!(m.hovered_index, Some(1));

    m.on_key(0xff54, 0, true);
    assert_eq!(m.hovered_index, Some(3));

    m.on_key(0xff52, 0, true);
    assert_eq!(m.hovered_index, Some(1));
}

#[test]
fn context_menu_esc_dismisses() {
    let mut m: AEContextMenu = AEContextMenu::new();
    m.show(make_items());
    assert!(m.is_visible);

    m.on_key(0xff1b, 0, true);
    assert!(!m.is_visible);
}

#[test]
fn context_menu_height_counts_rows_and_separators() {
    let mut m: AEContextMenu = AEContextMenu::new();
    m.show(make_items());
    assert_eq!(m.height, 3 * ITEM_HEIGHT + SEPARATOR_HEIGHT + 2 * PADDING_V);
    assert_eq!(m.height, 107);
}

#[test]
fn context_menu_return_chooses_highlighted_row() {
    let mut m: AEContextMenu = AEContextMenu::new();
    m.show(make_items());
    assert!(!m.on_key(0xff0d, 0, true));
    m.on_key(0xff54, 0, true);
    m.on_key(0xff54, 0, true);
    assert!(m.on_key(0xff0d, 0, true));
    assert_eq!(m.chosen_index, Some(1));
    assert!(!m.is_visible);
    assert_eq!(m.hovered_index, None);
}

#[test]
fn context_menu_down_stops_at_last_row() {
    let mut m: AEContextMenu = AEContextMenu::new();
    m.show(make_items());
    for _ in 0..6 {
        m.on_key(0xff54, 0, true);
    }
    assert_eq!(m.hovered_index, Some(3));
}

#[test]
fn context_menu_separator_and_disabled_rows_do_not_highlight() {
    let mut m: AEContextMenu = AEContextMenu::new();
    let mut items = make_items();
    items[1].is_enabled = false;
    m.show(items);
    m.on_pointer_motion(Some(2));
    assert_eq!(m.hovered_index, None);
    m.on_pointer_motion(Some(1));
    assert_eq!(m.hovered_index, None);
    m.on_pointer_motion(Some(0));
    assert_eq!(m.hovered_index, Some(0));
    m.on_key(0xff54, 0, true);
    assert_eq!(m.hovered_index, Some(3));
    m.on_pointer_motion(Some(9));
    assert_eq!(m.hovered_index, None);
}

#[test]
fn context_menu_click_outside_and_on_row() {
    let mut m: AEContextMenu = AEContextMenu::new();
    m.show(make_items());
    assert!(!m.on_pointer_button(true, Some(2), true));
    assert!(m.is_visible);
    assert!(m.on_pointer_button(true, Some(3), true));
    assert_eq!(m.chosen_index, Some(3));
    assert!(!m.is_visible);

    m.show(make_items());
    assert!(m.on_pointer_button(false, None, true));
    assert!(!m.is_visible);
    assert_eq!(m.chosen_index, None);
}

#[test]
fn context_menu_hidden_ignores_input() {
    let mut m: AEContextMenu = AEContextMenu::new();
    assert!(!m.on_key(0xff54, 0, true));
    assert!(!m.on_pointer_button(false, None, true));
    assert_eq!(m.hovered_index, None);
}

#[test]
fn context_menu_item_builders() {
    let c: ContextMenuItem = ContextMenuItem::checkbox("Wrap", true);
    assert_eq!(c.label, "Wrap");
    assert!(matches!(c.item_type, ContextMenuItemType::Checkbox { checked: true }));
    let s: ContextMenuItem = ContextMenuItem::separator();
    assert!(matches!(s.item_type, ContextMenuItemType::Separator));
    let n: ContextMenuItem = ContextMenuItem::new("Cut").with_shortcut("Ctrl+X");
    assert_eq!(n.shortcut.as_deref(), Some("Ctrl+X"));
    assert!(n.is_enabled);
}

fn dropdown_items() -> Vec<DropdownItem> {
    vec![DropdownItem::new("Cut"), DropdownItem::new("Copy"), DropdownItem::new("Paste")]
}

#[test]
fn dropdown_open_dismiss() {
    let mut d: AEDropdown = AEDropdown::new(dropdown_items());
    assert!(!d.is_visible);

    d.open();
    assert!(d.is_visible);

    d.dismiss();
    assert!(!d.is_visible);
}

#[test]
fn dropdown_item_hover_and_select() {
    let mut d: AEDropdown = AEDropdown::new(dropdown_items());
    d.open();

    d.on_pointer_motion(Some(0));
    assert_eq!(d.hovered_index, Some(0));

    d.on_pointer_motion(Some(1));
    assert_eq!(d.hovered_index, Some(1));

    let triggered = d.on_pointer_button(true, Some(0), true);
    assert!(triggered);
    assert!(!d.is_visible);
    assert_eq!(d.chosen_index, Some(0));
}

#[test]
fn dropdown_dismiss_on_outside_click() {
    let mut d: AEDropdown = AEDropdown::new(dropdown_items());
    d.open();

    let triggered = d.on_pointer_button(false, None, true);
    assert!(triggered);
    assert!(!d.is_visible);
    assert_eq!(d.chosen_index, None);
}

#[test]
fn dropdown_motion_past_last_row_clears_hover() {
    let mut d: AEDropdown = AEDropdown::new(dropdown_items());
    d.open();
    d.on_pointer_motion(Some(2));
    assert_eq!(d.hovered_index, Some(2));
    d.on_pointer_motion(Some(3));
    assert_eq!(d.hovered_index, None);
}

#[test]
fn button_click_is_release_inside() {
    let mut b = AEButton::new("OK", ButtonSize::Medium, ButtonStyle::Primary);
    assert_eq!(ButtonSize::Small.height(), 24);
    assert_eq!(ButtonSize::Medium.height(), 32);
    assert_eq!(ButtonSize::Large.height(), 40);
    assert!(!b.on_pointer_button(true, true));
    assert!(b.is_pressed);
    assert!(b.on_pointer_button(true, false));
    assert!(!b.is_pressed);
    assert!(!b.on_pointer_button(false, false));
}

fn ids(v: &[AppEntry]) -> Vec<String> {
    v.iter().map(|e| e.app_id.clone()).collect()
}

#[test]
fn app_index_default_catalog() {
    let c = AppIndexCache::new();
    assert_eq!(c.len(), 7);
    let vlc = c.get("vlc").unwrap();
    assert_eq!(vlc.display_name, "VLC Media Player");
    assert_eq!(vlc.install_state, InstallState::Available);
    assert!(c.get("nope").is_none());
    assert_eq!(PackageFormat::Deb.label(), "Ubuntu .deb");
    assert_eq!(PackageFormat::Flatpak.source_name(), "Flathub");
    assert_eq!(PackageFormat::Snap.source_name(), "Snapcraft");
}

#[test]
fn app_index_insert_then_get_and_replace() {
    let mut c = AppIndexCache::new();
    let mut e = animus::app_index::clone_entry(&c.get("filer").unwrap());
    e.app_id = "notes".to_string();
    e.display_name = "Notes".to_string();
    c.insert(e);
    assert_eq!(c.len(), 8);
    assert_eq!(c.get("notes").unwrap().display_name, "Notes");
    let mut e2 = c.get("notes").unwrap();
    e2.display_name = "Notes 2".to_string();
    c.insert(e2);
    assert_eq!(c.len(), 8);
    assert_eq!(c.get("notes").unwrap().display_name, "Notes 2");
}

#[test]
fn app_index_format_and_install_state() {
    let mut c = AppIndexCache::new();
    c.set_package_format("vlc", PackageFormat::Snap);
    assert_eq!(c.get("vlc").unwrap().selected_format, PackageFormat::Snap);
    c.set_package_format("filer", PackageFormat::Flatpak);
    assert_eq!(c.get("filer").unwrap().selected_format, PackageFormat::Deb);
    c.update_install_state("vlc", InstallState::Failed, Some("network".to_string()));
    let v = c.get("vlc").unwrap();
    assert_eq!(v.install_state, InstallState::Failed);
    assert_eq!(v.install_error.as_deref(), Some("network"));
    c.update_install_state("missing", InstallState::Installed, None);
    assert_eq!(c.len(), 7);
}

#[test]
fn app_index_search_scores_and_order() {
    let c = AppIndexCache::new();
    assert!(c.search("").is_empty());
    assert!(c.search("   ").is_empty());
    assert_eq!(ids(&c.search("vlc")), vec!["vlc"]);
    assert_eq!(ids(&c.search("  Terminal ")), vec!["terminow"]);
    assert_eq!(ids(&c.search("FILES")), vec!["filer"]);
    let r = ids(&c.search("fi"));
    assert_eq!(r.len(), 4);
    assert_eq!(r[0], "filer");
    assert_eq!(r[1], "pathfinder");
    assert!(r[2..].contains(&"zen-browser".to_string()));
    assert!(r[2..].contains(&"settings".to_string()));
    let v = ids(&c.search("video"));
    assert_eq!(v.len(), 2);
    assert!(v.contains(&"vlc".to_string()) && v.contains(&"obs-studio".to_string()));
    assert!(c.search("xyzzy").is_empty());
}

#[test]
fn context_menu_row_at_offsets() {
    let mut m: AEContextMenu = AEContextMenu::new();
    m.show(make_items());
    assert_eq!(m.row_at(0), None);
    assert_eq!(m.row_at(4), Some(0));
    assert_eq!(m.row_at(33), Some(0));
    assert_eq!(m.row_at(34), Some(1));
    assert_eq!(m.row_at(64), Some(2));
    assert_eq!(m.row_at(72), Some(2));
    assert_eq!(m.row_at(73), Some(3));
    assert_eq!(m.row_at(102), Some(3));
    assert_eq!(m.row_at(103), None);
    assert_eq!(m.row_at(u64::MAX), None);
}

#[test]
fn text_field_focus_follows_presses() {
    let mut f = AETextField::new("Search");
    assert_eq!(f.placeholder, "Search");
    assert!(!f.is_focused);
    f.on_pointer_button(true, true);
    assert!(f.is_focused);
    f.on_pointer_button(false, false);
    assert!(f.is_focused);
    f.on_key(0x61, 0, true);
    assert!(f.value.is_empty());
    f.on_pointer_button(false, true);
    assert!(!f.is_focused);
}

#[test]
fn button_hover_follows_pointer() {
    let mut b = AEButton::new("OK", ButtonSize::Small, ButtonStyle::GhostStyle);
    assert!(!b.is_hovered);
    b.on_pointer_motion(true);
    assert!(b.is_hovered);
    b.on_pointer_button(true, true);
    assert!(b.is_hovered && b.is_pressed);
    b.on_pointer_motion(false);
    assert!(!b.is_hovered);
}

#[test]
fn popover_open_dismiss_cycle() {
    let mut p = AEPopover::new();
    assert!(!p.is_visible);
    p.open();
    assert!(p.is_visible);
    p.dismiss();
    assert!(!p.is_visible);
}

#[test]
fn popover_hit_test() {
    let mut p = AEPopover::new();
    p.open();
    assert!(!p.on_pointer_button(true, true));
    assert!(p.is_visible);
    assert!(!p.on_pointer_button(false, false));
    assert!(p.is_visible);
}

#[test]
fn popover_dismiss_on_outside_click() {
    let mut p = AEPopover::new();
    p.open();
    let triggered = p.on_pointer_button(false, true);
    assert!(triggered);
    assert!(!p.is_visible);
    assert!(!p.on_pointer_button(false, true));
}

#[test]
fn sheet_open_dismiss_cycle() {
    let mut s = AESheet::new("Settings");
    assert!(!s.is_visible);
    s.open();
    assert!(s.is_visible);
    s.dismiss();
    assert!(!s.is_visible);
    assert_eq!(s.title, "Settings");
}

#[test]
fn sheet_not_dismissed_by_outside_click() {
    let mut s = AESheet::new("Settings");
    s.open();
    assert!(s.is_visible);
    s.dismiss();
    assert!(!s.is_visible);
}

/// One frame at 60 Hz, in microseconds.
const FRAME_US: u64 = 16_667;

#[test]
fn tooltip_dwell_then_show() {
    let mut t = AETooltip::new("Help text");
    t.begin_dwell(true, 200.0 > 60.0);
    assert!(!t.is_visible);
    for _ in 0..31 {
        t.tick(FRAME_US);
    }
    assert!(t.is_visible);
    assert!(t.is_above);
    assert!(!t.is_dwelling);
}

#[test]
fn tooltip_cancel_before_dwell() {
    let mut t = AETooltip::new("Help");
    t.begin_dwell(true, true);
    for _ in 0..10 {
        t.tick(FRAME_US);
    }
    assert!(!t.is_visible);
    t.cancel_dwell();
    for _ in 0..60 {
        t.tick(FRAME_US);
    }
    assert!(!t.is_visible);
}

#[test]
fn tooltip_positioning_above_and_below() {
    let mut t = AETooltip::new("Help");
    t.begin_dwell(true, true);
    t.tick(DWELL_DELAY_US);
    assert!(t.is_visible && t.is_above);

    let mut low = AETooltip::new("Help");
    low.begin_dwell(true, false);
    low.tick(DWELL_DELAY_US);
    assert!(low.is_visible && !low.is_above);

    let mut below = AETooltip::new("Help");
    below.begin_dwell(false, true);
    below.tick(DWELL_DELAY_US - 1);
    assert!(!below.is_visible);
    below.tick(1);
    assert!(below.is_visible && !below.is_above);
    below.tick(u64::MAX);
    assert!(below.is_visible);
}

#[test]
fn sidebar_toggles() {
    let mut s = animus::surface::AESidebar::new();
    assert!(!s.is_collapsed);
    s.toggle();
    assert!(s.is_collapsed);
    s.toggle();
    assert!(!s.is_collapsed);
}

#[test]
fn populating_defaults_twice_changes_nothing() {
    let mut once = AppIndexCache::new();
    once.populate_default_system_apps();
    let mut twice = AppIndexCache::new();
    twice.populate_default_system_apps();
    twice.populate_default_system_apps();
    assert_eq!(once.len(), 7);
    assert_eq!(twice.len(), once.len());
    for id in ["zen-browser", "filer", "pathfinder", "terminow", "settings", "vlc", "obs-studio"] {
        let a = once.get(id).unwrap();
        let b = twice.get(id).unwrap();
        assert_eq!(a.display_name, b.display_name);
        assert_eq!(a.exec_path, b.exec_path);
        assert_eq!(a.keywords, b.keywords);
    }
}
