//! The Wayland side of the compositor: the display socket's location, the
//! input seat's focus, and the outputs' arrangement side by side.
use vstd::prelude::*;
use crate::text::string_push;

verus! {

/// Where the display socket lives when `XDG_RUNTIME_DIR` is unset.
pub const DEFAULT_RUNTIME_DIR: &'static str = "/run/user/1000";

/// The Wayland display socket.
pub struct WaylandDisplay {
    /// Name of the socket file (e.g. "wayland-vitusos-1").
    pub socket_name: String,
    /// The `XDG_RUNTIME_DIR` the socket lives in.
    pub runtime_dir: String,
    /// Full path native applications connect to.
    pub socket_path: String,
}

/// Dispatching client messages failed.
#[derive(PartialEq, Eq, Structural, Clone, Copy, Debug)]
pub enum DisplayError {
    Dispatch,
}

fn push_str(s: &mut String, t: &str)
    ensures
        final(s)@ == old(s)@ + t@,
{
    let chars = crate::chars::char_vec(t);
    let ghost start = s@;
    let mut i: usize = 0;
    while i < chars.len()
        invariant
            0 <= i <= chars@.len(),
            chars@ == t@,
            s@ == start + chars@.subrange(0, i as int),
        decreases chars@.len() - i,
    {
        string_push(s, chars[i]);
        i = i + 1;
        assert(s@ =~= start + chars@.subrange(0, i as int));
    }
    assert(chars@.subrange(0, i as int) =~= chars@);
}

impl WaylandDisplay {
    /// The display for socket `socket_name` in `runtime_dir` (the value of
    /// `XDG_RUNTIME_DIR`; `None` takes the default). The caller exports
    /// `WAYLAND_DISPLAY` so that child processes find it.
    pub fn new(socket_name: &str, runtime_dir: Option<&str>) -> (d: Self)
        ensures
            d.socket_name@ == socket_name@,
            d.runtime_dir@ == (match runtime_dir {
                Some(r) => r@,
                None => DEFAULT_RUNTIME_DIR@,
            }),
            d.socket_path@ == d.runtime_dir@ + "/"@ + socket_name@,
    {
        let dir: String = match runtime_dir {
            Some(r) => r.to_owned(),
            None => DEFAULT_RUNTIME_DIR.to_owned(),
        };
        let mut path = dir.clone();
        push_str(&mut path, "/");
        push_str(&mut path, socket_name);
        WaylandDisplay { socket_name: socket_name.to_owned(), runtime_dir: dir, socket_path: path }
    }

    /// Once per frame after compositing: frame callbacks are released.
    /// Nothing is buffered here, so there is nothing to flush.
    pub fn flush_clients(&self) {
    }

    /// Dispatches pending client messages; returns how many were handled.
    /// No client protocol objects are served here, so none are pending.
    pub fn dispatch_events(&self) -> (r: Result<usize, DisplayError>)
        ensures
            r == Ok::<usize, DisplayError>(0),
    {
        Ok(0)
    }
}

#[derive(PartialEq, Eq, Structural, Clone, Copy, Debug)]
pub enum KeyState {
    Released,
    Pressed,
}

impl KeyState {
    /// The `wl_keyboard.key` state number.
    pub fn code(self) -> (c: u32)
        ensures
            c == (if self == KeyState::Pressed { 1u32 } else { 0u32 }),
    {
        match self {
            KeyState::Released => 0,
            KeyState::Pressed => 1,
        }
    }
}

#[derive(PartialEq, Eq, Structural, Clone, Copy, Debug)]
pub enum PointerButton {
    Left,
    Right,
    Middle,
    Back,
    Forward,
}

impl PointerButton {
    /// The button for an evdev code from libinput: left, right and middle
    /// are told apart, any other button counts as left.
    pub fn from_code(code: u32) -> (b: Self)
        ensures
            b == (if code == 0x111 {
                PointerButton::Right
            } else if code == 0x112 {
                PointerButton::Middle
            } else {
                PointerButton::Left
            }),
    {
        if code == 0x111 {
            PointerButton::Right
        } else if code == 0x112 {
            PointerButton::Middle
        } else {
            PointerButton::Left
        }
    }

    /// The evdev button code.
    pub fn code(self) -> (c: u32)
        ensures
            c == (match self {
                PointerButton::Left => 0x110u32,
                PointerButton::Right => 0x111u32,
                PointerButton::Middle => 0x112u32,
                PointerButton::Back => 0x116u32,
                PointerButton::Forward => 0x115u32,
            }),
    {
        match self {
            PointerButton::Left => 0x110,
            PointerButton::Right => 0x111,
            PointerButton::Middle => 0x112,
            PointerButton::Back => 0x116,
            PointerButton::Forward => 0x115,
        }
    }
}

#[derive(PartialEq, Eq, Structural, Clone, Copy, Debug)]
pub enum ButtonState {
    Released,
    Pressed,
}

impl ButtonState {
    /// The `wl_pointer.button` state number.
    pub fn code(self) -> (c: u32)
        ensures
            c == (if self == ButtonState::Pressed { 1u32 } else { 0u32 }),
    {
        match self {
            ButtonState::Released => 0,
            ButtonState::Pressed => 1,
        }
    }
}

/// Modifier keys held, as XKB reports them.
#[derive(PartialEq, Eq, Structural, Clone, Copy, Debug, Default)]
pub struct ModifierState {
    pub shift: bool,
    pub ctrl: bool,
    pub alt: bool,
    pub super_key: bool,
    pub caps_lock: bool,
}

/// The input seat: which surfaces have pointer and keyboard focus. The
/// pointer position (fractional) is the caller's.
pub struct AnimusSeat {
    pub name: String,
    pub pointer_focus: Option<u32>,
    pub modifiers: ModifierState,
    pub focused_keyboard_surface: Option<u32>,
    pub libinput_active: bool,
}

impl AnimusSeat {
    pub fn new(name: &str) -> (s: Self)
        ensures
            s.name@ == name@,
            s.pointer_focus is None,
            s.modifiers == (ModifierState { shift: false, ctrl: false, alt: false, super_key: false, caps_lock: false }),
            s.focused_keyboard_surface is None,
            !s.libinput_active,
    {
        AnimusSeat {
            name: name.to_owned(),
            pointer_focus: None,
            modifiers: ModifierState { shift: false, ctrl: false, alt: false, super_key: false, caps_lock: false },
            focused_keyboard_surface: None,
            libinput_active: false,
        }
    }

    /// libinput is reading the seat's devices.
    pub fn initialize_libinput(&mut self)
        ensures
            *final(self) == (AnimusSeat { libinput_active: true, ..*old(self) }),
    {
        self.libinput_active = true;
    }

    /// The pointer moved over `surface_under`: pointer focus follows it.
    /// True when the focus changed (leave and enter events go out).
    pub fn dispatch_pointer_motion(&mut self, surface_under: Option<u32>) -> (changed: bool)
        ensures
            changed == (surface_under != old(self).pointer_focus),
            *final(self) == (AnimusSeat { pointer_focus: surface_under, ..*old(self) }),
    {
        if surface_under != self.pointer_focus {
            self.pointer_focus = surface_under;
            return true;
        }
        false
    }

    /// The surface a pointer button event goes to.
    pub fn dispatch_pointer_button(&self, button: PointerButton, state: ButtonState, serial: u32) -> (target: Option<u32>)
        ensures
            target == self.pointer_focus,
    {
        self.pointer_focus
    }

    /// The surface a key event goes to.
    pub fn dispatch_key(&self, key_code: u32, state: KeyState, serial: u32) -> (target: Option<u32>)
        ensures
            target == self.focused_keyboard_surface,
    {
        self.focused_keyboard_surface
    }

    pub fn update_modifiers(&mut self, mods: ModifierState)
        ensures
            *final(self) == (AnimusSeat { modifiers: mods, ..*old(self) }),
    {
        self.modifiers = mods;
    }

    /// Keyboard focus moves to `surface_id` (leave, then enter).
    pub fn set_keyboard_focus(&mut self, surface_id: Option<u32>, serial: u32)
        ensures
            *final(self) == (AnimusSeat { focused_keyboard_surface: surface_id, ..*old(self) }),
    {
        self.focused_keyboard_surface = surface_id;
    }
}

#[derive(PartialEq, Eq, Structural, Clone, Copy, Debug)]
pub enum OutputTransform {
    Normal,
    Rotated90,
    Rotated180,
    Rotated270,
    Flipped,
    Flipped90,
    Flipped180,
    Flipped270,
}

/// A monitor.
pub struct AnimusOutput {
    pub id: u32,
    pub connector: String,
    pub make: String,
    pub model: String,
    pub width: u32,
    pub height: u32,
    pub phys_width_mm: u32,
    pub phys_height_mm: u32,
    /// Refresh rate in mHz (60000 is 60 Hz).
    pub refresh_mhz: u32,
    pub scale: u32,
    /// The fractional scale in halves: 2 is 1.0x, 3 is 1.5x, 4 is 2.0x.
    pub scale_halves: u32,
    pub x: i32,
    pub y: i32,
    pub transform: OutputTransform,
    pub is_primary: bool,
}

impl AnimusOutput {
    /// An output from the DRM mode: a generic 24" panel at the origin,
    /// primary when its id is 0.
    pub fn new(id: u32, connector: &str, width: u32, height: u32, refresh_mhz: u32) -> (o: Self)
        ensures
            o.id == id,
            o.connector@ == connector@,
            o.make@ == "Generic"@,
            o.model@ == "Display"@,
            o.width == width && o.height == height,
            o.phys_width_mm == 527 && o.phys_height_mm == 296,
            o.refresh_mhz == refresh_mhz,
            o.scale == 1,
            o.scale_halves == 2,
            o.x == 0 && o.y == 0,
            o.transform == OutputTransform::Normal,
            o.is_primary == (id == 0),
    {
        AnimusOutput {
            id,
            connector: connector.to_owned(),
            make: "Generic".to_owned(),
            model: "Display".to_owned(),
            width,
            height,
            phys_width_mm: 527,
            phys_height_mm: 296,
            refresh_mhz,
            scale: 1,
            scale_halves: 2,
            x: 0,
            y: 0,
            transform: OutputTransform::Normal,
            is_primary: id == 0,
        }
    }

    /// Takes the make, model and physical size read from the EDID and
    /// picks the scale from the DPI (width in pixels per inch of physical
    /// width): 2.0x above 192 DPI, 1.5x from 144 DPI, else 1.0x. An unknown
    /// physical width counts as 96 DPI.
    pub fn update_from_edid(&mut self, make: &str, model: &str, phys_w_mm: u32, phys_h_mm: u32)
        ensures
            final(self).make@ == make@,
            final(self).model@ == model@,
            final(self).phys_width_mm == phys_w_mm,
            final(self).phys_height_mm == phys_h_mm,
            final(self).scale_halves == scale_halves_for(old(self).width, phys_w_mm),
            final(self).scale == (if scale_halves_for(old(self).width, phys_w_mm) == 4 { 2u32 } else { 1u32 }),
            final(self).id == old(self).id,
            final(self).connector == old(self).connector,
            final(self).width == old(self).width,
            final(self).height == old(self).height,
            final(self).refresh_mhz == old(self).refresh_mhz,
            final(self).x == old(self).x,
            final(self).y == old(self).y,
            final(self).transform == old(self).transform,
            final(self).is_primary == old(self).is_primary,
    {
        self.make = make.to_owned();
        self.model = model.to_owned();
        self.phys_width_mm = phys_w_mm;
        self.phys_height_mm = phys_h_mm;
        let w = self.width as u64;
        let p = phys_w_mm as u64;
        if p > 0 && w * 254 > 1920 * p {
            self.scale = 2;
            self.scale_halves = 4;
        } else if p > 0 && w * 254 >= 1440 * p {
            self.scale = 1;
            self.scale_halves = 3;
        } else {
            self.scale = 1;
            self.scale_halves = 2;
        }
    }

    /// Width in logical pixels: the width divided by the fractional scale,
    /// rounded down and held to the `u32` range.
    pub fn logical_width(&self) -> (w: u32)
        ensures
            w == logical_extent(self.width, self.scale_halves),
    {
        logical_extent_of(self.width, self.scale_halves)
    }

    /// Height in logical pixels: the height divided by the fractional
    /// scale, rounded down and held to the `u32` range.
    pub fn logical_height(&self) -> (h: u32)
        ensures
            h == logical_extent(self.height, self.scale_halves),
    {
        logical_extent_of(self.height, self.scale_halves)
    }
}

/// `px` pixels at a fractional scale of `halves` halves, in logical pixels:
/// rounded down, held to the `u32` range; at a zero scale, no pixels stay
/// none and any others fill the range.
pub open spec fn logical_extent(px: u32, halves: u32) -> u32 {
    if halves == 0 {
        if px == 0 { 0 } else { u32::MAX }
    } else if (px * 2) / (halves as int) > u32::MAX {
        u32::MAX
    } else {
        ((px * 2) / (halves as int)) as u32
    }
}

fn logical_extent_of(px: u32, halves: u32) -> (r: u32)
    ensures
        r == logical_extent(px, halves),
{
    if halves == 0 {
        if px == 0 { 0 } else { u32::MAX }
    } else {
        let q: u64 = (px as u64) * 2 / (halves as u64);
        if q > 0xffff_ffffu64 { u32::MAX } else { q as u32 }
    }
}

/// The fractional scale in halves for a panel `width` pixels wide and
/// `phys_w_mm` millimetres wide: the DPI is `width * 25.4 / phys_w_mm`.
pub open spec fn scale_halves_for(width: u32, phys_w_mm: u32) -> u32 {
    if phys_w_mm > 0 && width * 254 > 1920 * phys_w_mm {
        4
    } else if phys_w_mm > 0 && width * 254 >= 1440 * phys_w_mm {
        3
    } else {
        2
    }
}

/// The right edge of an output in compositor space.
pub open spec fn right_edge(o: AnimusOutput) -> int {
    o.x + (o.width as i32)
}

/// The bottom edge of an output in compositor space.
pub open spec fn bottom_edge(o: AnimusOutput) -> int {
    o.y + (o.height as i32)
}

/// The largest right edge, 1920 with no outputs.
pub open spec fn max_right(s: Seq<AnimusOutput>) -> int
    decreases s.len(),
{
    if s.len() == 0 {
        1920
    } else if s.len() == 1 {
        right_edge(s[0])
    } else {
        vstd::math::max(max_right(s.drop_last()), right_edge(s.last()))
    }
}

/// The largest bottom edge, 1080 with no outputs.
pub open spec fn max_bottom(s: Seq<AnimusOutput>) -> int
    decreases s.len(),
{
    if s.len() == 0 {
        1080
    } else if s.len() == 1 {
        bottom_edge(s[0])
    } else {
        vstd::math::max(max_bottom(s.drop_last()), bottom_edge(s.last()))
    }
}

/// Every output's edges are `i32` values.
pub open spec fn edges_fit(s: Seq<AnimusOutput>) -> bool {
    forall|i: int|
        0 <= i < s.len() ==> i32::MIN <= right_edge(#[trigger] s[i]) <= i32::MAX && i32::MIN <= bottom_edge(s[i])
            <= i32::MAX
}

/// Index of the first primary output at `k` or later.
pub open spec fn first_primary_from(s: Seq<AnimusOutput>, k: int) -> Option<int>
    decreases s.len() - k,
{
    if 0 <= k && k < s.len() {
        if s[k].is_primary { Some(k) } else { first_primary_from(s, k + 1) }
    } else {
        None
    }
}

/// The outputs, arranged left to right.
pub struct OutputManager {
    pub outputs: Vec<AnimusOutput>,
}

impl OutputManager {
    pub fn new() -> (m: Self)
        ensures
            m.outputs@.len() == 0,
    {
        OutputManager { outputs: Vec::new() }
    }

    /// A monitor connected: it is placed right of the last one.
    pub fn add_output(&mut self, output: AnimusOutput)
        requires
            old(self).outputs@.len() > 0 ==> i32::MIN <= right_edge(old(self).outputs@.last()) <= i32::MAX,
        ensures
            final(self).outputs@.len() == old(self).outputs@.len() + 1,
            final(self).outputs@.drop_last() == old(self).outputs@,
            final(self).outputs@.last() == (if old(self).outputs@.len() > 0 {
                AnimusOutput { x: right_edge(old(self).outputs@.last()) as i32, ..output }
            } else {
                output
            }),
    {
        let ghost before = self.outputs@;
        let n = self.outputs.len();
        if n > 0 {
            let x_offset = self.outputs[n - 1].x + (self.outputs[n - 1].width as i32);
            let mut new_output = output;
            new_output.x = x_offset;
            self.outputs.push(new_output);
        } else {
            self.outputs.push(output);
        }
        assert(self.outputs@.drop_last() =~= before);
    }

    /// The first output marked primary, else the first output.
    pub fn primary(&self) -> (r: Option<&AnimusOutput>)
        ensures
            match first_primary_from(self.outputs@, 0) {
                Some(i) => r == Some(&self.outputs@[i]),
                None => if self.outputs@.len() > 0 { r == Some(&self.outputs@[0]) } else { r is None },
            },
    {
        let mut i: usize = 0;
        while i < self.outputs.len()
            invariant
                0 <= i <= self.outputs@.len(),
                first_primary_from(self.outputs@, 0) == first_primary_from(self.outputs@, i as int),
            decreases self.outputs@.len() - i,
        {
            if self.outputs[i].is_primary {
                return Some(&self.outputs[i]);
            }
            i = i + 1;
        }
        if self.outputs.len() > 0 {
            Some(&self.outputs[0])
        } else {
            None
        }
    }

    /// Width and height of the box from the origin that holds every output
    /// (1920x1080 with none).
    pub fn total_bounds(&self) -> (r: (u32, u32))
        requires
            edges_fit(self.outputs@),
        ensures
            r == ((max_right(self.outputs@) as i32) as u32, (max_bottom(self.outputs@) as i32) as u32),
    {
        let n = self.outputs.len();
        if n == 0 {
            return (1920, 1080);
        }
        let mut w: i32 = self.outputs[0].x + (self.outputs[0].width as i32);
        let mut h: i32 = self.outputs[0].y + (self.outputs[0].height as i32);
        let mut i: usize = 1;
        while i < n
            invariant
                n == self.outputs@.len(),
                1 <= i <= n,
                edges_fit(self.outputs@),
                w == max_right(self.outputs@.subrange(0, i as int)),
                h == max_bottom(self.outputs@.subrange(0, i as int)),
            decreases n - i,
        {
            proof {
                assert(self.outputs@.subrange(0, i + 1).drop_last() =~= self.outputs@.subrange(0, i as int));
            }
            let r = self.outputs[i].x + (self.outputs[i].width as i32);
            let b = self.outputs[i].y + (self.outputs[i].height as i32);
            if r > w {
                w = r;
            }
            if b > h {
                h = b;
            }
            i = i + 1;
        }
        assert(self.outputs@.subrange(0, i as int) =~= self.outputs@);
        (w as u32, h as u32)
    }
}

} // verus!
