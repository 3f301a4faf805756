//! The Dock: launcher icons with running indicators and badges.
use vstd::prelude::*;

verus! {

pub struct DockItem {
    pub app_id: String,
    pub display_name: String,
    pub icon_path: String,
    pub is_running: bool,
    pub badge_count: Option<u32>,
}

impl DockItem {
    pub fn new(app_id: &str, display_name: &str, icon_path: &str) -> (d: Self)
        ensures
            d.app_id@ == app_id@,
            d.display_name@ == display_name@,
            d.icon_path@ == icon_path@,
            !d.is_running,
            d.badge_count is None,
    {
        DockItem {
            app_id: app_id.to_owned(),
            display_name: display_name.to_owned(),
            icon_path: icon_path.to_owned(),
            is_running: false,
            badge_count: None,
        }
    }
}

pub struct Dock {
    pub items: Vec<DockItem>,
    /// A window is fullscreen: the Dock auto-hides.
    pub is_fullscreen: bool,
}

impl Dock {
    pub fn new() -> (d: Self)
        ensures
            d.items@.len() == 0,
            !d.is_fullscreen,
    {
        Dock { items: Vec::new(), is_fullscreen: false }
    }

    pub fn add_item(&mut self, item: DockItem)
        ensures
            final(self).items@ == old(self).items@.push(item),
            final(self).is_fullscreen == old(self).is_fullscreen,
    {
        self.items.push(item);
    }

    /// User clicked icon `idx`: it bounces and is marked running; the caller
    /// starts the application's process. False when there is no such icon.
    pub fn launch_item(&mut self, idx: usize) -> (launched: bool)
        ensures
            launched == (idx < old(self).items@.len()),
            final(self).is_fullscreen == old(self).is_fullscreen,
            final(self).items@ == (if launched {
                old(self).items@.update(idx as int, DockItem { is_running: true, ..old(self).items@[idx as int] })
            } else {
                old(self).items@
            }),
    {
        if idx < self.items.len() {
            self.items[idx].is_running = true;
            return true;
        }
        false
    }

    pub fn enter_fullscreen_mode(&mut self)
        ensures
            final(self).items == old(self).items,
            final(self).is_fullscreen,
    {
        self.is_fullscreen = true;
    }

    pub fn exit_fullscreen_mode(&mut self)
        ensures
            final(self).items == old(self).items,
            !final(self).is_fullscreen,
    {
        self.is_fullscreen = false;
    }
}

} // verus!
