//! The ae-shell protocol: native surfaces give the compositor their
//! application menu, Dock badge, blur altitude and attention requests.
//! Menu JSON is parsed by the caller into `AppMenuDefinition`.
use vstd::prelude::*;
use crate::chars::{char_vec, chars_equal};
use crate::events::ShellEvent;

verus! {

/// Depth of a surface, which sets its background blur.
#[derive(PartialEq, Eq, Structural, Clone, Copy, Debug)]
pub enum SurfaceAltitude {
    Grounded,
    Low,
    Mid,
    High,
    Floating,
}

/// The altitude a protocol number asks for (unknown numbers give Mid).
pub open spec fn altitude_of(n: u32) -> SurfaceAltitude {
    if n == 0 {
        SurfaceAltitude::Grounded
    } else if n == 1 {
        SurfaceAltitude::Low
    } else if n == 2 {
        SurfaceAltitude::Mid
    } else if n == 3 {
        SurfaceAltitude::High
    } else if n == 4 {
        SurfaceAltitude::Floating
    } else {
        SurfaceAltitude::Mid
    }
}

impl SurfaceAltitude {
    /// Blur radius in pixels.
    pub fn blur_radius(self) -> (r: u32)
        ensures
            r == (match self {
                SurfaceAltitude::Grounded => 0u32,
                SurfaceAltitude::Low => 8u32,
                SurfaceAltitude::Mid => 20u32,
                SurfaceAltitude::High => 32u32,
                SurfaceAltitude::Floating => 48u32,
            }),
    {
        match self {
            SurfaceAltitude::Grounded => 0,
            SurfaceAltitude::Low => 8,
            SurfaceAltitude::Mid => 20,
            SurfaceAltitude::High => 32,
            SurfaceAltitude::Floating => 48,
        }
    }
}

/// An application menu as a native app declares it.
pub struct AppMenuDefinition {
    pub app_name: String,
    pub menus: Vec<MenuGroup>,
}

pub struct MenuGroup {
    pub title: String,
    pub items: Vec<MenuItem>,
}

pub struct MenuItem {
    pub label: String,
    pub action_id: String,
    pub shortcut: Option<String>,
    pub enabled: bool,
    pub is_separator: bool,
}

/// One native surface.
pub struct AeSurfaceState {
    pub surface_id: u32,
    pub app_id: String,
    pub altitude: SurfaceAltitude,
    pub badge_count: u32,
    pub menu: Option<AppMenuDefinition>,
    pub is_requesting_attention: bool,
    pub attention_critical: bool,
}

impl AeSurfaceState {
    /// A surface at Mid altitude with no badge, menu or attention request.
    pub fn new(surface_id: u32, app_id: &str) -> (s: Self)
        ensures
            s.surface_id == surface_id,
            s.app_id@ == app_id@,
            s.altitude == SurfaceAltitude::Mid,
            s.badge_count == 0,
            s.menu is None,
            !s.is_requesting_attention,
            !s.attention_critical,
    {
        AeSurfaceState {
            surface_id,
            app_id: app_id.to_owned(),
            altitude: SurfaceAltitude::Mid,
            badge_count: 0,
            menu: None,
            is_requesting_attention: false,
            attention_critical: false,
        }
    }

    /// `set_application_menu`: the parsed menu replaces the old one; a menu
    /// that did not parse (`None`) leaves it as it was.
    pub fn handle_set_menu(&mut self, menu: Option<AppMenuDefinition>)
        ensures
            *final(self) == (match menu {
                Some(m) => AeSurfaceState { menu: Some(m), ..*old(self) },
                None => *old(self),
            }),
    {
        if let Some(m) = menu {
            self.menu = Some(m);
        }
    }

    /// `set_badge_count`: 0 removes the badge.
    pub fn handle_set_badge(&mut self, count: u32)
        ensures
            *final(self) == (AeSurfaceState { badge_count: count, ..*old(self) }),
    {
        self.badge_count = count;
    }

    /// `set_altitude`.
    pub fn handle_set_altitude(&mut self, altitude: u32)
        ensures
            *final(self) == (AeSurfaceState { altitude: altitude_of(altitude), ..*old(self) }),
    {
        self.altitude = match altitude {
            0 => SurfaceAltitude::Grounded,
            1 => SurfaceAltitude::Low,
            2 => SurfaceAltitude::Mid,
            3 => SurfaceAltitude::High,
            4 => SurfaceAltitude::Floating,
            _ => SurfaceAltitude::Mid,
        };
    }

    /// `request_attention`: type 1 is critical, others gentle.
    pub fn handle_request_attention(&mut self, attention_type: u32)
        ensures
            *final(self) == (AeSurfaceState {
                is_requesting_attention: true,
                attention_critical: attention_type == 1,
                ..*old(self)
            }),
    {
        self.is_requesting_attention = true;
        self.attention_critical = attention_type == 1;
    }
}

/// Index of the first surface with `id` at `k` or later.
pub open spec fn find_surface_from(s: Seq<AeSurfaceState>, id: u32, k: int) -> Option<int>
    decreases s.len() - k,
{
    if 0 <= k && k < s.len() {
        if s[k].surface_id == id { Some(k) } else { find_surface_from(s, id, k + 1) }
    } else {
        None
    }
}

pub open spec fn find_surface(s: Seq<AeSurfaceState>, id: u32) -> Option<int> {
    find_surface_from(s, id, 0)
}

/// Index of the first surface of application `app` at `k` or later.
pub open spec fn find_app_surface_from(s: Seq<AeSurfaceState>, app: Seq<char>, k: int) -> Option<int>
    decreases s.len() - k,
{
    if 0 <= k && k < s.len() {
        if s[k].app_id@ == app { Some(k) } else { find_app_surface_from(s, app, k + 1) }
    } else {
        None
    }
}

/// The ae-shell manager: one state per registered surface.
pub struct AeShellManager {
    pub surfaces: Vec<AeSurfaceState>,
}

impl AeShellManager {
    pub fn new() -> (m: Self)
        ensures
            m.surfaces@.len() == 0,
    {
        AeShellManager { surfaces: Vec::new() }
    }

    fn position(&self, surface_id: u32) -> (r: Option<usize>)
        ensures
            r matches Some(i) ==> find_surface(self.surfaces@, surface_id) == Some(i as int) && i
                < self.surfaces@.len(),
            r is None ==> find_surface(self.surfaces@, surface_id) is None,
    {
        let mut i: usize = 0;
        while i < self.surfaces.len()
            invariant
                0 <= i <= self.surfaces@.len(),
                find_surface(self.surfaces@, surface_id) == find_surface_from(self.surfaces@, surface_id, i as int),
            decreases self.surfaces@.len() - i,
        {
            if self.surfaces[i].surface_id == surface_id {
                return Some(i);
            }
            i = i + 1;
        }
        None
    }

    /// A client asked for an ae_surface: a fresh state replaces any old one.
    pub fn register_surface(&mut self, surface_id: u32, app_id: &str)
        ensures
            final(self).surfaces@.len() == (if find_surface(old(self).surfaces@, surface_id) is Some {
                old(self).surfaces@.len()
            } else {
                old(self).surfaces@.len() + 1
            }),
            ({
                let i = match find_surface(old(self).surfaces@, surface_id) {
                    Some(i) => i,
                    None => old(self).surfaces@.len() as int,
                };
                let s = final(self).surfaces@[i];
                &&& forall|j: int| 0 <= j < old(self).surfaces@.len() && j != i ==> #[trigger] final(self).surfaces@[j]
                    == old(self).surfaces@[j]
                &&& s.surface_id == surface_id
                &&& s.app_id@ == app_id@
                &&& s.altitude == SurfaceAltitude::Mid
                &&& s.badge_count == 0
                &&& s.menu is None
                &&& !s.is_requesting_attention
                &&& !s.attention_critical
            }),
    {
        let state = AeSurfaceState::new(surface_id, app_id);
        match self.position(surface_id) {
            Some(i) => self.surfaces.set(i, state),
            None => self.surfaces.push(state),
        }
    }

    /// The menu of a surface, for the Panel.
    pub fn get_menu_for_surface(&self, surface_id: u32) -> (r: Option<&AppMenuDefinition>)
        ensures
            r == (match find_surface(self.surfaces@, surface_id) {
                Some(i) => match self.surfaces@[i].menu {
                    Some(m) => Some(&m),
                    None => None,
                },
                None => None,
            }),
    {
        match self.position(surface_id) {
            Some(i) => match &self.surfaces[i].menu {
                Some(m) => Some(m),
                None => None,
            },
            None => None,
        }
    }

    /// The Dock badge of an application (0 without one).
    pub fn get_badge_for_app(&self, app_id: &str) -> (n: u32)
        ensures
            n == (match find_app_surface_from(self.surfaces@, app_id@, 0) {
                Some(i) => self.surfaces@[i].badge_count,
                None => 0,
            }),
    {
        let want = char_vec(app_id);
        let mut i: usize = 0;
        while i < self.surfaces.len()
            invariant
                0 <= i <= self.surfaces@.len(),
                want@ == app_id@,
                find_app_surface_from(self.surfaces@, app_id@, 0) == find_app_surface_from(
                    self.surfaces@,
                    app_id@,
                    i as int,
                ),
            decreases self.surfaces@.len() - i,
        {
            let a = char_vec(self.surfaces[i].app_id.as_str());
            if chars_equal(&a, &want) {
                return self.surfaces[i].badge_count;
            }
            i = i + 1;
        }
        0
    }

    /// The surfaces asking for attention, for the Dock's bounce.
    pub fn surfaces_requesting_attention(&self) -> (r: Vec<&AeSurfaceState>)
        ensures
            r@.map_values(|s: &AeSurfaceState| *s) == self.surfaces@.filter(
                |s: AeSurfaceState| s.is_requesting_attention,
            ),
    {
        let ghost p = |s: AeSurfaceState| s.is_requesting_attention;
        let mut out: Vec<&AeSurfaceState> = Vec::new();
        let mut i: usize = 0;
        while i < self.surfaces.len()
            invariant
                0 <= i <= self.surfaces@.len(),
                p == (|s: AeSurfaceState| s.is_requesting_attention),
                out@.map_values(|s: &AeSurfaceState| *s) == self.surfaces@.subrange(0, i as int).filter(p),
            decreases self.surfaces@.len() - i,
        {
            proof {
                reveal_with_fuel(Seq::filter, 1);
                assert(self.surfaces@.subrange(0, i + 1).drop_last() =~= self.surfaces@.subrange(0, i as int));
            }
            let ghost before = out@;
            if self.surfaces[i].is_requesting_attention {
                out.push(&self.surfaces[i]);
                assert(out@.map_values(|s: &AeSurfaceState| *s) =~= before.map_values(|s: &AeSurfaceState| *s).push(
                    self.surfaces@[i as int],
                ));
            }
            i = i + 1;
        }
        assert(self.surfaces@.subrange(0, i as int) =~= self.surfaces@);
        out
    }

    /// The Dock played the bounce: the request is cleared.
    pub fn clear_attention(&mut self, surface_id: u32)
        ensures
            final(self).surfaces@ == (match find_surface(old(self).surfaces@, surface_id) {
                Some(i) => old(self).surfaces@.update(
                    i,
                    AeSurfaceState { is_requesting_attention: false, ..old(self).surfaces@[i] },
                ),
                None => old(self).surfaces@,
            }),
    {
        if let Some(i) = self.position(surface_id) {
            self.surfaces[i].is_requesting_attention = false;
        }
    }
}

/// A native surface as the bus-facing protocol manager tracks it.
pub struct AESurfaceState {
    pub surface_id: u64,
    pub app_id: String,
    pub menu_json: Option<String>,
    pub badge_count: i32,
    pub attention_requested: bool,
}

/// Index of the first protocol surface with `id` at `k` or later.
pub open spec fn find_proto_from(s: Seq<AESurfaceState>, id: u64, k: int) -> Option<int>
    decreases s.len() - k,
{
    if 0 <= k && k < s.len() {
        if s[k].surface_id == id { Some(k) } else { find_proto_from(s, id, k + 1) }
    } else {
        None
    }
}

pub open spec fn find_proto(s: Seq<AESurfaceState>, id: u64) -> Option<int> {
    find_proto_from(s, id, 0)
}

/// The protocol manager that turns surface requests into bus events.
pub struct AEShellProtocolManager {
    surfaces: Vec<AESurfaceState>,
}

impl AEShellProtocolManager {
    pub closed spec fn surface_seq(&self) -> Seq<AESurfaceState> {
        self.surfaces@
    }

    pub fn new() -> (m: Self)
        ensures
            m.surface_seq().len() == 0,
    {
        AEShellProtocolManager { surfaces: Vec::new() }
    }

    fn position(&self, surface_id: u64) -> (r: Option<usize>)
        ensures
            r matches Some(i) ==> find_proto(self.surfaces@, surface_id) == Some(i as int) && i < self.surfaces@.len(),
            r is None ==> find_proto(self.surfaces@, surface_id) is None,
    {
        let mut i: usize = 0;
        while i < self.surfaces.len()
            invariant
                0 <= i <= self.surfaces@.len(),
                find_proto(self.surfaces@, surface_id) == find_proto_from(self.surfaces@, surface_id, i as int),
            decreases self.surfaces@.len() - i,
        {
            if self.surfaces[i].surface_id == surface_id {
                return Some(i);
            }
            i = i + 1;
        }
        None
    }

    /// The state of a surface.
    pub fn surface(&self, surface_id: u64) -> (r: Option<&AESurfaceState>)
        ensures
            r == (match find_proto(self.surface_seq(), surface_id) {
                Some(i) => Some(&self.surface_seq()[i]),
                None => None,
            }),
    {
        match self.position(surface_id) {
            Some(i) => Some(&self.surfaces[i]),
            None => None,
        }
    }

    /// Registers a surface: no menu, no badge, no attention request.
    pub fn register_surface(&mut self, surface_id: u64, app_id: String)
        ensures
            ({
                let st = AESurfaceState {
                    surface_id,
                    app_id,
                    menu_json: None,
                    badge_count: 0,
                    attention_requested: false,
                };
                final(self).surface_seq() == match find_proto(old(self).surface_seq(), surface_id) {
                    Some(i) => old(self).surface_seq().update(i, st),
                    None => old(self).surface_seq().push(st),
                }
            }),
    {
        let state = AESurfaceState { surface_id, app_id, menu_json: None, badge_count: 0, attention_requested: false };
        match self.position(surface_id) {
            Some(i) => self.surfaces.set(i, state),
            None => self.surfaces.push(state),
        }
    }

    /// `set_application_menu`: stores the JSON and returns the event that
    /// hands it to the global menu.
    pub fn set_application_menu(&mut self, surface_id: u64, menu_json: String) -> (published: Option<ShellEvent>)
        ensures
            match find_proto(old(self).surface_seq(), surface_id) {
                Some(i) => {
                    &&& final(self).surface_seq().len() == old(self).surface_seq().len()
                    &&& forall|j: int| 0 <= j < old(self).surface_seq().len() && j != i ==> #[trigger] final(self).surface_seq()[j]
                        == old(self).surface_seq()[j]
                    &&& final(self).surface_seq()[i].surface_id == old(self).surface_seq()[i].surface_id
                    &&& final(self).surface_seq()[i].app_id == old(self).surface_seq()[i].app_id
                    &&& final(self).surface_seq()[i].badge_count == old(self).surface_seq()[i].badge_count
                    &&& final(self).surface_seq()[i].attention_requested == old(self).surface_seq()[i].attention_requested
                    &&& final(self).surface_seq()[i].menu_json matches Some(m) && m@ == menu_json@
                    &&& published matches Some(ShellEvent::DBusMenuRegistered { app_id, menu_json: m })
                        && app_id@ == old(self).surface_seq()[i].app_id@ && m@ == menu_json@
                },
                None => final(self).surface_seq() == old(self).surface_seq() && published is None,
            },
    {
        match self.position(surface_id) {
            Some(i) => {
                let app_id = self.surfaces[i].app_id.clone();
                self.surfaces[i].menu_json = Some(menu_json.clone());
                Some(ShellEvent::DBusMenuRegistered { app_id, menu_json })
            },
            None => None,
        }
    }

    /// `set_badge_count`: -1 (or below) clears the badge.
    pub fn set_badge_count(&mut self, surface_id: u64, count: i32)
        ensures
            final(self).surface_seq() == (match find_proto(old(self).surface_seq(), surface_id) {
                Some(i) => old(self).surface_seq().update(
                    i,
                    AESurfaceState {
                        badge_count: if count < -1 { -1i32 } else { count },
                        ..old(self).surface_seq()[i]
                    },
                ),
                None => old(self).surface_seq(),
            }),
    {
        if let Some(i) = self.position(surface_id) {
            self.surfaces[i].badge_count = if count < -1 { -1 } else { count };
        }
    }

    /// `request_attention`: marks the surface and returns the Dock bounce event.
    pub fn request_attention(&mut self, surface_id: u64) -> (published: Option<ShellEvent>)
        ensures
            match find_proto(old(self).surface_seq(), surface_id) {
                Some(i) => {
                    &&& final(self).surface_seq() == old(self).surface_seq().update(
                        i,
                        AESurfaceState { attention_requested: true, ..old(self).surface_seq()[i] },
                    )
                    &&& published matches Some(ShellEvent::DockBounce { app_id }) && app_id@
                        == old(self).surface_seq()[i].app_id@
                },
                None => final(self).surface_seq() == old(self).surface_seq() && published is None,
            },
    {
        match self.position(surface_id) {
            Some(i) => {
                self.surfaces[i].attention_requested = true;
                let app_id = self.surfaces[i].app_id.clone();
                Some(ShellEvent::DockBounce { app_id })
            },
            None => None,
        }
    }

    /// Forgets a surface.
    pub fn destroy_surface(&mut self, surface_id: u64)
        ensures
            final(self).surface_seq() == (match find_proto(old(self).surface_seq(), surface_id) {
                Some(i) => old(self).surface_seq().remove(i),
                None => old(self).surface_seq(),
            }),
    {
        if let Some(i) = self.position(surface_id) {
            self.surfaces.remove(i);
        }
    }
}

} // verus!
