//! Rendering backends: the bare-metal DRM/KMS one and the windowed one for
//! development. Device access goes through the caller; this holds their
//! state and the decisions: which device, which monitors get a CRTC, when
//! the scanout buffers are reallocated, and how a frame is copied into a
//! buffer whose rows are padded.
use vstd::prelude::*;
use crate::chars::{char_vec, starts_with, is_prefix};
use crate::text::string_push;

verus! {

/// What every backend tells the compositor.
pub trait AnimusBackend {
    /// Identifier for logs and crash reports.
    fn name(&self) -> &'static str;

    /// A GPU render device is available.
    fn has_gpu(&self) -> bool;

    /// Asks for a frame on the next vblank or redraw.
    fn schedule_frame(&mut self);

    /// Output width, height and refresh rate in Hz.
    fn output_geometry(&self) -> (u32, u32, u32);
}

/// Why a backend could not start.
#[derive(PartialEq, Eq, Structural, Clone, Copy, Debug)]
pub enum BackendError {
    /// `/dev/dri` could not be read.
    NoDrmSubsystem,
    /// No `card*` node in `/dev/dri`.
    NoCardDevice,
    /// An entry of `/dev/dri` could not be read before a `card*` node was found.
    DirEntry,
}

/// The windowed backend used under WSLg or a desktop session.
pub struct AnimusWinitBackend {
    pub width: u32,
    pub height: u32,
    pub is_initialized: bool,
    /// The socket native applications connect to.
    pub wayland_socket_name: String,
}

impl AnimusWinitBackend {
    /// A `width` x `height` window; the compositor's socket is
    /// `wayland-vitusos-1`. (The caller points `WAYLAND_DISPLAY` at WSLg
    /// when it runs there.)
    pub fn new(width: u32, height: u32) -> (r: Result<Self, BackendError>)
        ensures
            r matches Ok(b) && b.width == width && b.height == height && b.is_initialized
                && b.wayland_socket_name@ == "wayland-vitusos-1"@,
    {
        Ok(AnimusWinitBackend {
            width,
            height,
            is_initialized: true,
            wayland_socket_name: "wayland-vitusos-1".to_owned(),
        })
    }
}

impl AnimusBackend for AnimusWinitBackend {
    fn name(&self) -> (n: &'static str)
        ensures
            n@ == "winit-wslg"@,
    {
        "winit-wslg"
    }

    fn has_gpu(&self) -> (b: bool)
        ensures
            !b,
    {
        false
    }

    fn schedule_frame(&mut self)
        ensures
            *final(self) == *old(self),
    {
    }

    fn output_geometry(&self) -> (g: (u32, u32, u32))
        ensures
            g == (self.width, self.height, 60u32),
    {
        (self.width, self.height, 60)
    }
}

/// A connector as the DRM device reports it.
pub struct ConnectorInfo {
    pub connected: bool,
    /// Its preferred mode (the first one listed): width, height and
    /// vertical refresh, or `None` when it lists no mode.
    pub preferred_mode: Option<(u16, u16, u32)>,
}

/// The connectors that get a CRTC: each connected one with a mode, in
/// order, while CRTCs last. Returns their indices.
pub open spec fn served_connectors(s: Seq<ConnectorInfo>, crtcs: nat) -> Seq<int>
    decreases s.len(),
{
    if s.len() == 0 {
        Seq::empty()
    } else {
        let before = served_connectors(s.drop_last(), crtcs);
        if s.last().connected && s.last().preferred_mode is Some && before.len() < crtcs {
            before.push(s.len() - 1)
        } else {
            before
        }
    }
}

/// The last connected connector with a mode (whose mode sets the output
/// size, whether or not it got a CRTC).
pub open spec fn last_usable(s: Seq<ConnectorInfo>) -> Option<int>
    decreases s.len(),
{
    if s.len() == 0 {
        None
    } else if s.last().connected && s.last().preferred_mode is Some {
        Some(s.len() - 1)
    } else {
        last_usable(s.drop_last())
    }
}

/// The refresh rate a mode gives: its vertical refresh, at least 60 Hz.
pub open spec fn refresh_of(vrefresh: u32) -> u32 {
    if vrefresh < 60 { 60 } else { vrefresh }
}

/// Row `y` of a frame `row_bytes` wide fits in the source, and at
/// `y * pitch` in the destination.
pub open spec fn row_fits(src_len: int, dst_len: int, row_bytes: int, pitch: int, y: int) -> bool {
    y * row_bytes + row_bytes <= src_len && y * pitch + row_bytes <= dst_len
}

/// The buffer after copying `h` rows of `row_bytes` bytes from `src` into
/// `dst`, row `y` going to offset `y * pitch`; rows that do not fit in
/// either buffer are skipped, and the padding after each row is left alone.
pub open spec fn blitted(dst: Seq<u8>, src: Seq<u8>, row_bytes: int, h: int, pitch: int) -> Seq<u8> {
    Seq::new(
        dst.len(),
        |i: int|
            {
                let y = i / pitch;
                let off = i % pitch;
                if pitch > 0 && y < h && off < row_bytes && row_fits(src.len() as int, dst.len() as int, row_bytes, pitch, y) {
                    src[y * row_bytes + off]
                } else {
                    dst[i]
                }
            },
    )
}

/// Position `i` lies in row `y`'s copied part exactly when it is at most
/// `row_bytes` past the row's start.
proof fn lemma_row_position(i: int, y: int, row_bytes: int, pitch: int)
    requires
        0 <= i,
        0 <= y,
        0 <= row_bytes <= pitch,
        pitch > 0,
    ensures
        (i / pitch == y && i % pitch < row_bytes) <==> (y * pitch <= i < y * pitch + row_bytes),
        (y * pitch <= i < y * pitch + row_bytes) ==> i % pitch == i - y * pitch,
{
    vstd::arithmetic::div_mod::lemma_fundamental_div_mod(i, pitch);
    let q = i / pitch;
    let r = i % pitch;
    assert(i == pitch * q + r);
    assert(0 <= r < pitch);
    if y * pitch <= i < y * pitch + row_bytes {
        vstd::arithmetic::div_mod::lemma_fundamental_div_mod_converse(i, pitch, y, i - y * pitch);
    }
    if q == y && r < row_bytes {
        assert(pitch * q == y * pitch) by (nonlinear_arith)
            requires
                q == y,
        ;
    }
}

/// Copies a frame into a scanout buffer. When rows are not padded and the
/// buffer holds the whole frame, `src` is copied in one piece; otherwise
/// row by row (`h` rows of `width` 4-byte pixels) at `pitch` bytes apart.
pub fn blit_rows(dst: &mut Vec<u8>, src: &[u8], width: usize, h: usize, pitch: usize)
    requires
        width * 4 <= usize::MAX,
        pitch >= width * 4,
        h * pitch <= usize::MAX,
        h * (width * 4) <= usize::MAX,
    ensures
        final(dst)@ == (if pitch == width * 4 && old(dst)@.len() >= src@.len() {
            src@ + old(dst)@.subrange(src@.len() as int, old(dst)@.len() as int)
        } else {
            blitted(old(dst)@, src@, (width * 4) as int, h as int, pitch as int)
        }),
{
    let row_bytes = width * 4;
    if pitch == row_bytes && dst.len() >= src.len() {
        let mut i: usize = 0;
        while i < src.len()
            invariant
                0 <= i <= src@.len(),
                src@.len() <= dst@.len(),
                dst@.len() == old(dst)@.len(),
                forall|k: int| 0 <= k < i ==> #[trigger] dst@[k] == src@[k],
                forall|k: int| i <= k < dst@.len() ==> #[trigger] dst@[k] == old(dst)@[k],
            decreases src@.len() - i,
        {
            dst.set(i, src[i]);
            i = i + 1;
        }
        assert(dst@ =~= src@ + old(dst)@.subrange(src@.len() as int, old(dst)@.len() as int));
        return;
    }
    let ghost d0 = old(dst)@;
    let mut y: usize = 0;
    while y < h
        invariant
            0 <= y <= h,
            row_bytes == width * 4,
            pitch >= row_bytes,
            h * pitch <= usize::MAX,
            h * row_bytes <= usize::MAX,
            dst@.len() == d0.len(),
            d0 == old(dst)@,
            dst@ == blitted(d0, src@, row_bytes as int, y as int, pitch as int),
        decreases h - y,
    {
        assert(y * pitch <= h * pitch) by (nonlinear_arith)
            requires
                y < h,
        ;
        assert(y * row_bytes + row_bytes <= h * row_bytes) by (nonlinear_arith)
            requires
                y < h,
        ;
        let src_start = y * row_bytes;
        let src_end = src_start + row_bytes;
        let dst_start = y * pitch;
        let dlen = dst.len();
        let fits = src_end <= src.len() && dst_start <= dlen && row_bytes <= dlen - dst_start;
        let ghost before = dst@;
        if fits {
            let mut k: usize = 0;
            while k < row_bytes
                invariant
                    0 <= k <= row_bytes,
                    src_end == src_start + row_bytes,
                    src_end <= src@.len(),
                    dst_start + row_bytes <= dlen,
                    dst@.len() == dlen,
                    dlen == before.len(),
                    forall|m: int| 0 <= m < k ==> #[trigger] dst@[dst_start + m] == src@[src_start + m],
                    forall|m: int|
                        0 <= m < dst@.len() && !(dst_start <= m < dst_start + k) ==> #[trigger] dst@[m] == before[m],
                decreases row_bytes - k,
            {
                dst.set(dst_start + k, src[src_start + k]);
                k = k + 1;
            }
        }
        proof {
            lemma_blit_step(d0, src@, row_bytes as int, y as int, pitch as int, before, dst@, fits);
        }
        y = y + 1;
    }
}

proof fn lemma_blit_step(
    d0: Seq<u8>,
    src: Seq<u8>,
    row_bytes: int,
    y: int,
    pitch: int,
    before: Seq<u8>,
    after: Seq<u8>,
    fits: bool,
)
    requires
        0 <= y,
        0 <= row_bytes <= pitch,
        before == blitted(d0, src, row_bytes, y, pitch),
        after.len() == before.len(),
        before.len() == d0.len(),
        fits == row_fits(src.len() as int, d0.len() as int, row_bytes, pitch, y),
        fits ==> forall|m: int| 0 <= m < row_bytes ==> #[trigger] after[y * pitch + m] == src[y * row_bytes + m],
        fits ==> forall|m: int|
            0 <= m < after.len() && !(y * pitch <= m < y * pitch + row_bytes) ==> #[trigger] after[m] == before[m],
        !fits ==> after == before,
    ensures
        after == blitted(d0, src, row_bytes, y + 1, pitch),
{
    let next = blitted(d0, src, row_bytes, y + 1, pitch);
    assert forall|i: int| 0 <= i < after.len() implies after[i] == next[i] by {
        if pitch > 0 {
            lemma_row_position(i, y, row_bytes, pitch);
            let q = i / pitch;
            let r = i % pitch;
            if q == y && r < row_bytes {
                if fits {
                    assert(after[y * pitch + r] == src[y * row_bytes + r]);
                    assert(y * pitch + r == i);
                }
            } else {
                if fits {
                    assert(after[i] == before[i]);
                }
            }
        }
    }
    assert(after =~= next);
}

/// A directory entry ends the search for a device: it could not be read
/// (`None`) or it is named `card*`.
pub open spec fn ends_search(e: Option<Seq<char>>) -> bool {
    match e {
        Some(n) => is_prefix("card"@, n),
        None => true,
    }
}

/// Index of the first directory entry that could not be read or is named
/// `card*`.
pub open spec fn first_card(entries: Seq<Option<Seq<char>>>) -> Option<int>
    decreases entries.len(),
{
    if entries.len() == 0 {
        None
    } else {
        match first_card(entries.drop_last()) {
            Some(i) => Some(i),
            None => if ends_search(entries.last()) { Some(entries.len() - 1) } else { None },
        }
    }
}

/// A directory entry by the name it was read with, `None` when unreadable.
pub open spec fn entry_view(e: Option<String>) -> Option<Seq<char>> {
    match e {
        Some(n) => Some(n@),
        None => None,
    }
}

/// A scanout buffer of the double-buffered pair, by its size (the DRM
/// dumb-buffer and framebuffer handles belong to the caller).
pub struct DumbScanoutBuffer {
    pub width: u32,
    pub height: u32,
}

/// The bare-metal DRM/KMS backend's state.
pub struct AnimusDrmBackend {
    pub drm_path: String,
    pub width: u32,
    pub height: u32,
    pub refresh_hz: u32,
    pub is_initialized: bool,
    pub disable_connectors: bool,
    /// Monitors with a DRM surface.
    pub surface_count: usize,
    /// The allocated scanout buffers (two when allocated).
    pub scanout_buffers: Vec<DumbScanoutBuffer>,
    /// The buffer on screen (0 or 1).
    pub current_buffer_idx: usize,
}

impl AnimusDrmBackend {
    /// Picks the first `card*` device among the entries of `/dev/dri` (in
    /// the order the directory lists them, each `None` when it could not be
    /// read; `None` when the directory could not be read) and prepares an
    /// uninitialized backend for it. An unreadable entry before the first
    /// `card*` one is an error.
    pub fn new(dri_entries: Option<Vec<Option<String>>>) -> (r: Result<Self, BackendError>)
        ensures
            match dri_entries {
                None => r == Err::<Self, BackendError>(BackendError::NoDrmSubsystem),
                Some(names) => match first_card(names@.map_values(|n: Option<String>| entry_view(n))) {
                    None => r == Err::<Self, BackendError>(BackendError::NoCardDevice),
                    Some(i) => match names@[i] {
                        None => r == Err::<Self, BackendError>(BackendError::DirEntry),
                        Some(card) => r matches Ok(b) && {
                        &&& b.drm_path@ == "/dev/dri/"@ + card@
                        &&& b.width == 1920 && b.height == 1080 && b.refresh_hz == 144
                        &&& !b.is_initialized
                        &&& !b.disable_connectors
                        &&& b.surface_count == 0
                        &&& b.scanout_buffers@.len() == 0
                        &&& b.current_buffer_idx == 0
                        },
                    },
                },
            },
    {
        let names = match dri_entries {
            None => {
                return Err(BackendError::NoDrmSubsystem);
            },
            Some(n) => n,
        };
        let ghost views = names@.map_values(|n: Option<String>| entry_view(n));
        let card = char_vec("card");
        let mut i: usize = 0;
        while i < names.len()
            invariant
                0 <= i <= names@.len(),
                card@ == "card"@,
                dri_entries == Some(names),
                views == names@.map_values(|n: Option<String>| entry_view(n)),
                first_card(views.subrange(0, i as int)) is None,
            decreases names@.len() - i,
        {
            proof {
                assert(views.subrange(0, i + 1).drop_last() =~= views.subrange(0, i as int));
            }
            let name = match &names[i] {
                Some(n) => char_vec(n.as_str()),
                None => {
                    proof {
                        lemma_first_card_prefix(views, i as int);
                        lemma_first_card_extend(views, i + 1, i as int);
                    }
                    return Err(BackendError::DirEntry);
                },
            };
            if starts_with(&name, &card) {
                proof {
                    lemma_first_card_prefix(views, i as int);
                    lemma_first_card_extend(views, i + 1, i as int);
                }
                let mut path = String::from_str("/dev/dri/");
                let mut k: usize = 0;
                while k < name.len()
                    invariant
                        0 <= k <= name@.len(),
                        path@ == "/dev/dri/"@ + name@.subrange(0, k as int),
                    decreases name@.len() - k,
                {
                    string_push(&mut path, name[k]);
                    k = k + 1;
                    assert(path@ =~= "/dev/dri/"@ + name@.subrange(0, k as int));
                }
                assert(name@.subrange(0, k as int) =~= name@);
                return Ok(AnimusDrmBackend {
                    drm_path: path,
                    width: 1920,
                    height: 1080,
                    refresh_hz: 144,
                    is_initialized: false,
                    disable_connectors: false,
                    surface_count: 0,
                    scanout_buffers: Vec::new(),
                    current_buffer_idx: 0,
                });
            }
            i = i + 1;
        }
        assert(views.subrange(0, i as int) =~= views);
        Err(BackendError::NoCardDevice)
    }

    /// The device was opened and its connectors enumerated: each
    /// connected connector with a mode gets the next CRTC while any is
    /// left, the output takes the size of the last such connector's
    /// preferred mode (refresh at least 60 Hz). Returns the connectors to
    /// create surfaces on.
    pub fn initialize(&mut self, connectors: &Vec<ConnectorInfo>, crtc_count: usize) -> (served: Vec<usize>)
        ensures
            served@.map_values(|i: usize| i as int) == served_connectors(connectors@, crtc_count as nat),
            final(self).is_initialized,
            final(self).surface_count == served@.len(),
            final(self).drm_path == old(self).drm_path,
            final(self).disable_connectors == old(self).disable_connectors,
            final(self).scanout_buffers == old(self).scanout_buffers,
            final(self).current_buffer_idx == old(self).current_buffer_idx,
            match last_usable(connectors@) {
                Some(k) => {
                    let m = connectors@[k].preferred_mode.unwrap();
                    &&& final(self).width == m.0 as u32
                    &&& final(self).height == m.1 as u32
                    &&& final(self).refresh_hz == refresh_of(m.2)
                },
                None => {
                    &&& final(self).width == old(self).width
                    &&& final(self).height == old(self).height
                    &&& final(self).refresh_hz == old(self).refresh_hz
                },
            },
    {
        let mut served: Vec<usize> = Vec::new();
        let mut i: usize = 0;
        while i < connectors.len()
            invariant
                0 <= i <= connectors@.len(),
                served@.map_values(|j: usize| j as int) == served_connectors(connectors@.subrange(0, i as int), crtc_count as nat),
                served@.len() <= crtc_count,
                self.drm_path == old(self).drm_path,
                self.disable_connectors == old(self).disable_connectors,
                self.scanout_buffers == old(self).scanout_buffers,
                self.current_buffer_idx == old(self).current_buffer_idx,
                self.is_initialized == old(self).is_initialized,
                self.surface_count == old(self).surface_count,
                match last_usable(connectors@.subrange(0, i as int)) {
                    Some(k) => {
                        let m = connectors@[k].preferred_mode.unwrap();
                        &&& self.width == m.0 as u32
                        &&& self.height == m.1 as u32
                        &&& self.refresh_hz == refresh_of(m.2)
                    },
                    None => {
                        &&& self.width == old(self).width
                        &&& self.height == old(self).height
                        &&& self.refresh_hz == old(self).refresh_hz
                    },
                },
            decreases connectors@.len() - i,
        {
            proof {
                assert(connectors@.subrange(0, i + 1).drop_last() =~= connectors@.subrange(0, i as int));
            }
            let c = &connectors[i];
            if c.connected {
                if let Some((w, h, vrefresh)) = c.preferred_mode {
                    self.width = w as u32;
                    self.height = h as u32;
                    self.refresh_hz = if vrefresh < 60 { 60 } else { vrefresh };
                    if served.len() < crtc_count {
                        let ghost before = served@;
                        served.push(i);
                        assert(served@.map_values(|j: usize| j as int) =~= before.map_values(|j: usize| j as int).push(
                            i as int,
                        ));
                    }
                }
            }
            i = i + 1;
        }
        assert(connectors@.subrange(0, i as int) =~= connectors@);
        self.surface_count = served.len();
        self.is_initialized = true;
        served
    }

    /// The two scanout buffers must be (re)allocated for a `width` x
    /// `height` frame.
    pub fn needs_scanout_buffers(&self, width: u32, height: u32) -> (b: bool)
        ensures
            b == !(self.scanout_buffers@.len() == 2 && self.scanout_buffers@[0] == (DumbScanoutBuffer { width, height })),
    {
        !(self.scanout_buffers.len() == 2 && self.scanout_buffers[0].width == width && self.scanout_buffers[0].height
            == height)
    }

    /// Two scanout buffers of `width` x `height` were allocated; the first
    /// is on screen.
    pub fn record_scanout_buffers(&mut self, width: u32, height: u32)
        ensures
            final(self).scanout_buffers@ == seq![DumbScanoutBuffer { width, height }, DumbScanoutBuffer { width, height }],
            final(self).current_buffer_idx == 0,
            final(self).drm_path == old(self).drm_path,
            final(self).width == old(self).width,
            final(self).height == old(self).height,
            final(self).refresh_hz == old(self).refresh_hz,
            final(self).is_initialized == old(self).is_initialized,
            final(self).surface_count == old(self).surface_count,
    {
        self.scanout_buffers = Vec::new();
        self.scanout_buffers.push(DumbScanoutBuffer { width, height });
        self.scanout_buffers.push(DumbScanoutBuffer { width, height });
        self.current_buffer_idx = 0;
    }

    /// The buffer to draw the next `width` x `height` frame into (the one
    /// not on screen), or `None` when nothing is presented: the backend is
    /// not initialized, or the frame is empty.
    pub fn back_buffer_for(&self, width: u32, height: u32) -> (r: Option<usize>)
        requires
            self.current_buffer_idx <= 1,
        ensures
            r == (if !self.is_initialized || width == 0 || height == 0 {
                None
            } else {
                Some((1 - self.current_buffer_idx) as usize)
            }),
    {
        if !self.is_initialized || width == 0 || height == 0 {
            return None;
        }
        Some(1 - self.current_buffer_idx)
    }

    /// The page flip to `back` was issued: it is now on screen.
    pub fn flipped(&mut self, back: usize)
        ensures
            *final(self) == (AnimusDrmBackend { current_buffer_idx: back, ..*old(self) }),
    {
        self.current_buffer_idx = back;
    }
}

proof fn lemma_first_card_extend(views: Seq<Option<Seq<char>>>, k: int, i: int)
    requires
        0 <= k <= views.len(),
        first_card(views.subrange(0, k)) == Some(i),
    ensures
        first_card(views) == Some(i),
    decreases views.len() - k,
{
    if k < views.len() {
        assert(views.subrange(0, k + 1).drop_last() =~= views.subrange(0, k));
        lemma_first_card_extend(views, k + 1, i);
    } else {
        assert(views.subrange(0, k) =~= views);
    }
}

proof fn lemma_first_card_prefix(views: Seq<Option<Seq<char>>>, i: int)
    requires
        0 <= i < views.len(),
        first_card(views.subrange(0, i)) is None,
        ends_search(views[i]),
    ensures
        first_card(views.subrange(0, i + 1)) == Some(i),
{
    assert(views.subrange(0, i + 1).drop_last() =~= views.subrange(0, i));
}

impl AnimusBackend for AnimusDrmBackend {
    fn name(&self) -> (n: &'static str)
        ensures
            n@ == "drm-kms"@,
    {
        "drm-kms"
    }

    fn has_gpu(&self) -> (b: bool)
        ensures
            b == self.is_initialized,
    {
        self.is_initialized
    }

    fn schedule_frame(&mut self)
        ensures
            *final(self) == *old(self),
    {
    }

    fn output_geometry(&self) -> (g: (u32, u32, u32))
        ensures
            g == (self.width, self.height, self.refresh_hz),
    {
        (self.width, self.height, self.refresh_hz)
    }
}

} // verus!
