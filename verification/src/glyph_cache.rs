//! Rasterized glyph bitmaps keyed by codepoint, point size and DPI scale
//! packed into a `u64`. Glyphs of Latin Basic (U+0020..=U+007F) are never
//! evicted.
use vstd::prelude::*;
use crate::snapshot_cache::{instant_now, instant_duration_since, duration_as_millis};
use crate::keyed::{find_by, store_by, store_then_find};

verus! {

pub const LATIN_BASIC_START: u32 = 0x0020;
pub const LATIN_BASIC_END: u32 = 0x007F;

pub struct CachedGlyph {
    pub bitmap: Vec<u8>,
    pub width: u32,
    pub rows: u32,
    pub bearing_x: i32,
    pub bearing_y: i32,
    pub advance_x: i32,
    pub atlas_x: u16,
    pub atlas_y: u16,
    pub in_atlas: bool,
    pub last_access: Option<std::time::Instant>,
}

impl CachedGlyph {
    /// An empty glyph, not in the atlas, never accessed.
    pub fn empty() -> (g: Self)
        ensures
            g.bitmap@.len() == 0,
            g.width == 0 && g.rows == 0,
            g.bearing_x == 0 && g.bearing_y == 0 && g.advance_x == 0,
            g.atlas_x == 0 && g.atlas_y == 0,
            !g.in_atlas,
            g.last_access is None,
    {
        CachedGlyph {
            bitmap: Vec::new(),
            width: 0,
            rows: 0,
            bearing_x: 0,
            bearing_y: 0,
            advance_x: 0,
            atlas_x: 0,
            atlas_y: 0,
            in_atlas: false,
            last_access: None,
        }
    }
}

pub struct GlyphSlot {
    pub key: u64,
    pub glyph: CachedGlyph,
}

/// What a glyph holds, leaving out when it was last read.
pub open spec fn glyph_content(g: CachedGlyph) -> (Seq<u8>, u32, u32, i32, i32, i32, u16, u16, bool) {
    (g.bitmap@, g.width, g.rows, g.bearing_x, g.bearing_y, g.advance_x, g.atlas_x, g.atlas_y, g.in_atlas)
}

/// The cache as (key, content) pairs, in insertion order.
pub open spec fn glyph_pairs(s: Seq<GlyphSlot>) -> Seq<(u64, (Seq<u8>, u32, u32, i32, i32, i32, u16, u16, bool))> {
    s.map_values(|x: GlyphSlot| (x.key, glyph_content(x.glyph)))
}

/// The packed key of a glyph: codepoint in the upper 32 bits, point size
/// (points times 256, 20 bits) in bits 12 to 31, DPI scale (scale times 128,
/// 12 bits) in the low 12 bits.
pub open spec fn glyph_key(codepoint: u32, pt_q: u32, dpi_q: u32) -> u64 {
    ((codepoint as u64) << 32u64) | (((pt_q as u64) & 0xf_ffffu64) << 12u64) | ((dpi_q as u64) & 0xfffu64)
}

/// The codepoint a key was made from.
pub open spec fn key_codepoint(key: u64) -> u64 {
    key >> 32u64
}

/// Glyphs of Latin Basic are kept through every eviction.
pub open spec fn is_latin_key(key: u64) -> bool {
    LATIN_BASIC_START <= key_codepoint(key) && key_codepoint(key) <= LATIN_BASIC_END
}

/// The pairs left after dropping the keys in `stale`, Latin Basic excepted.
pub open spec fn without_stale(
    s: Seq<(u64, (Seq<u8>, u32, u32, i32, i32, i32, u16, u16, bool))>,
    stale: Seq<u64>,
) -> Seq<(u64, (Seq<u8>, u32, u32, i32, i32, i32, u16, u16, bool))> {
    s.filter(|e: (u64, (Seq<u8>, u32, u32, i32, i32, i32, u16, u16, bool))| is_latin_key(e.0) || !stale.contains(e.0))
}

/// The keys whose age is known and at least `threshold_ms`, in order.
/// Each entry of `ages` is a key with the time since its glyph was last
/// read, `None` for a glyph never read.
pub open spec fn stale_list(ages: Seq<(u64, Option<u64>)>, threshold_ms: u64) -> Seq<u64>
    decreases ages.len(),
{
    if ages.len() == 0 {
        Seq::empty()
    } else {
        let rest = stale_list(ages.drop_last(), threshold_ms);
        if ages.last().1 matches Some(a) && a >= threshold_ms {
            rest.push(ages.last().0)
        } else {
            rest
        }
    }
}

/// The keys whose age is known and at least `threshold_ms`, in the order
/// of `ages`; a glyph never read is never stale.
pub fn stale_keys(ages: &Vec<(u64, Option<u64>)>, threshold_ms: u64) -> (r: Vec<u64>)
    ensures
        r@ == stale_list(ages@, threshold_ms),
{
    let mut r: Vec<u64> = Vec::new();
    let mut i: usize = 0;
    while i < ages.len()
        invariant
            0 <= i <= ages@.len(),
            r@ == stale_list(ages@.subrange(0, i as int), threshold_ms),
        decreases ages@.len() - i,
    {
        proof {
            assert(ages@.subrange(0, i + 1).drop_last() =~= ages@.subrange(0, i as int));
        }
        let (key, age) = ages[i];
        if let Some(a) = age {
            if a >= threshold_ms {
                r.push(key);
            }
        }
        i = i + 1;
    }
    assert(ages@.subrange(0, i as int) =~= ages@);
    r
}

/// Sum of the bitmap sizes.
pub open spec fn bitmap_bytes(s: Seq<(u64, (Seq<u8>, u32, u32, i32, i32, i32, u16, u16, bool))>) -> nat
    decreases s.len(),
{
    if s.len() == 0 {
        0
    } else {
        bitmap_bytes(s.drop_last()) + s.last().1.0.len()
    }
}

/// Index of the first glyph with `key` at `k` or later.
pub open spec fn find_glyph_from(s: Seq<(u64, (Seq<u8>, u32, u32, i32, i32, i32, u16, u16, bool))>, key: u64, k: int) -> Option<int>
    decreases s.len() - k,
{
    if 0 <= k && k < s.len() {
        if s[k].0 == key { Some(k) } else { find_glyph_from(s, key, k + 1) }
    } else {
        None
    }
}

pub open spec fn find_glyph(s: Seq<(u64, (Seq<u8>, u32, u32, i32, i32, i32, u16, u16, bool))>, key: u64) -> Option<int> {
    find_glyph_from(s, key, 0)
}

/// Packs a glyph key from the codepoint and the already quantized point
/// size (points times 256) and DPI scale (scale times 128).
pub fn make_key(codepoint: u32, pt_q: u32, dpi_q: u32) -> (k: u64)
    ensures
        k == glyph_key(codepoint, pt_q, dpi_q),
{
    ((codepoint as u64) << 32u64) | (((pt_q as u64) & 0xf_ffffu64) << 12u64) | ((dpi_q as u64) & 0xfffu64)
}

/// A key keeps its codepoint.
pub proof fn key_keeps_codepoint(codepoint: u32, pt_q: u32, dpi_q: u32)
    ensures
        key_codepoint(glyph_key(codepoint, pt_q, dpi_q)) == codepoint,
{
    let c = codepoint as u64;
    let p = pt_q as u64;
    let d = dpi_q as u64;
    assert(((c << 32u64) | ((p & 0xf_ffffu64) << 12u64) | (d & 0xfffu64)) >> 32u64 == c) by (bit_vector)
        requires
            c < 0x1_0000_0000u64,
    ;
}

/// Glyphs that differ in codepoint, point size or DPI scale get different
/// keys, for point sizes below 4096 points and scales below 32.
pub proof fn keys_tell_glyphs_apart(c1: u32, p1: u32, d1: u32, c2: u32, p2: u32, d2: u32)
    requires
        p1 < 0x10_0000,
        p2 < 0x10_0000,
        d1 < 0x1000,
        d2 < 0x1000,
        (c1, p1, d1) != (c2, p2, d2),
    ensures
        glyph_key(c1, p1, d1) != glyph_key(c2, p2, d2),
{
    let a = c1 as u64;
    let b = p1 as u64;
    let e = d1 as u64;
    let x = c2 as u64;
    let y = p2 as u64;
    let z = d2 as u64;
    assert(((a << 32u64) | ((b & 0xf_ffffu64) << 12u64) | (e & 0xfffu64)) == ((x << 32u64) | ((y
        & 0xf_ffffu64) << 12u64) | (z & 0xfffu64)) ==> a == x && b == y && e == z) by (bit_vector)
        requires
            a < 0x1_0000_0000u64,
            x < 0x1_0000_0000u64,
            b < 0x10_0000u64,
            y < 0x10_0000u64,
            e < 0x1000u64,
            z < 0x1000u64,
    ;
}

fn latin_key(key: u64) -> (b: bool)
    ensures
        b == is_latin_key(key),
{
    let cp = key >> 32u64;
    (LATIN_BASIC_START as u64) <= cp && cp <= (LATIN_BASIC_END as u64)
}

/// The cache after storing content `c` under `key`: the glyph with that
/// key is replaced, or the new one is appended.
pub open spec fn glyph_stored(s: Seq<(u64, (Seq<u8>, u32, u32, i32, i32, i32, u16, u16, bool))>, key: u64, c: (Seq<u8>, u32, u32, i32, i32, i32, u16, u16, bool)) -> Seq<(u64, (Seq<u8>, u32, u32, i32, i32, i32, u16, u16, bool))> {
    match find_glyph(s, key) {
        Some(i) => s.update(i, (key, c)),
        None => s.push((key, c)),
    }
}

/// The key a glyph is stored under.
pub open spec fn glyph_key_of() -> spec_fn((u64, (Seq<u8>, u32, u32, i32, i32, i32, u16, u16, bool))) -> u64 {
    |e: (u64, (Seq<u8>, u32, u32, i32, i32, i32, u16, u16, bool))| e.0
}

proof fn lemma_find_glyph_by(s: Seq<(u64, (Seq<u8>, u32, u32, i32, i32, i32, u16, u16, bool))>, key: u64, k: int)
    requires
        0 <= k,
    ensures
        find_glyph_from(s, key, k) == find_by(s, glyph_key_of(), key, k),
    decreases s.len() - k,
{
    if k < s.len() {
        lemma_find_glyph_by(s, key, k + 1);
    }
}

/// Reading a key right after storing a glyph under it finds that glyph;
/// every other key finds what it found before.
pub proof fn glyph_put_then_get(s: Seq<(u64, (Seq<u8>, u32, u32, i32, i32, i32, u16, u16, bool))>, key: u64, c: (Seq<u8>, u32, u32, i32, i32, i32, u16, u16, bool), other: u64)
    ensures
        find_glyph(glyph_stored(s, key, c), key) matches Some(j) && glyph_stored(s, key, c)[j] == (key, c),
        other != key ==> find_glyph(glyph_stored(s, key, c), other) == find_glyph(s, other),
        other != key ==> (find_glyph(s, other) matches Some(j) ==> glyph_stored(s, key, c)[j] == s[j]),
{
    let t = glyph_stored(s, key, c);
    lemma_find_glyph_by(s, key, 0);
    lemma_find_glyph_by(s, other, 0);
    lemma_find_glyph_by(t, key, 0);
    lemma_find_glyph_by(t, other, 0);
    assert(t == store_by(s, glyph_key_of(), (key, c)));
    store_then_find(s, glyph_key_of(), (key, c));
    if other != key {
        assert(find_by(t, glyph_key_of(), other, 0) == find_by(s, glyph_key_of(), other, 0));
    }
}

/// The glyph cache.
pub struct GlyphCache {
    glyphs: Vec<GlyphSlot>,
}

impl GlyphCache {
    pub closed spec fn pairs(&self) -> Seq<(u64, (Seq<u8>, u32, u32, i32, i32, i32, u16, u16, bool))> {
        glyph_pairs(self.glyphs@)
    }

    /// Whether each glyph, in the order of `pairs`, has ever been read.
    pub closed spec fn ever_read(&self) -> Seq<bool> {
        self.glyphs@.map_values(|x: GlyphSlot| x.glyph.last_access is Some)
    }

    /// There is one read flag per glyph.
    pub proof fn ever_read_aligned(&self)
        ensures
            self.ever_read().len() == self.pairs().len(),
    {
    }

    pub fn new() -> (c: Self)
        ensures
            c.pairs().len() == 0,
            c.ever_read().len() == 0,
    {
        GlyphCache { glyphs: Vec::new() }
    }

    fn position(&self, key: u64) -> (r: Option<usize>)
        ensures
            r matches Some(i) ==> find_glyph(self.pairs(), key) == Some(i as int) && i < self.glyphs@.len()
                && self.glyphs@[i as int].key == key,
            r is None ==> find_glyph(self.pairs(), key) is None,
    {
        let ghost s = self.pairs();
        let mut i: usize = 0;
        while i < self.glyphs.len()
            invariant
                0 <= i <= self.glyphs@.len(),
                s == glyph_pairs(self.glyphs@),
                find_glyph(s, key) == find_glyph_from(s, key, i as int),
            decreases self.glyphs@.len() - i,
        {
            if self.glyphs[i].key == key {
                return Some(i);
            }
            i = i + 1;
        }
        None
    }

    /// A copy of the glyph with `key`; the read is recorded as its last access.
    pub fn get(&mut self, key: u64) -> (r: Option<CachedGlyph>)
        ensures
            final(self).pairs() == old(self).pairs(),
            final(self).ever_read() == (match find_glyph(old(self).pairs(), key) {
                Some(i) => old(self).ever_read().update(i, true),
                None => old(self).ever_read(),
            }),
            match find_glyph(old(self).pairs(), key) {
                Some(i) => r matches Some(g) && glyph_content(g) == old(self).pairs()[i].1,
                None => r is None,
            },
    {
        match self.position(key) {
            Some(i) => {
                let now = instant_now();
                let ghost before = self.glyphs@;
                self.glyphs[i].glyph.last_access = Some(now);
                assert(glyph_pairs(self.glyphs@) =~= glyph_pairs(before));
                assert(self.ever_read() =~= old(self).ever_read().update(i as int, true));
                let g = &self.glyphs[i].glyph;
                Some(CachedGlyph {
                    bitmap: g.bitmap.clone(),
                    width: g.width,
                    rows: g.rows,
                    bearing_x: g.bearing_x,
                    bearing_y: g.bearing_y,
                    advance_x: g.advance_x,
                    atlas_x: g.atlas_x,
                    atlas_y: g.atlas_y,
                    in_atlas: g.in_atlas,
                    last_access: g.last_access,
                })
            },
            None => None,
        }
    }

    /// Caches `glyph` under `key`, replacing an older one.
    pub fn put(&mut self, key: u64, glyph: CachedGlyph)
        ensures
            final(self).pairs() == glyph_stored(old(self).pairs(), key, glyph_content(glyph)),
            final(self).ever_read() == (match find_glyph(old(self).pairs(), key) {
                Some(i) => old(self).ever_read().update(i, true),
                None => old(self).ever_read().push(true),
            }),
    {
        let mut glyph = glyph;
        glyph.last_access = Some(instant_now());
        let slot = GlyphSlot { key, glyph };
        let ghost before = self.glyphs@;
        match self.position(key) {
            Some(i) => {
                self.glyphs.set(i, slot);
                assert(glyph_pairs(self.glyphs@) =~= glyph_pairs(before).update(i as int, (key, glyph_content(slot.glyph))));
                assert(self.ever_read() =~= old(self).ever_read().update(i as int, true));
            },
            None => {
                self.glyphs.push(slot);
                assert(glyph_pairs(self.glyphs@) =~= glyph_pairs(before).push((key, glyph_content(slot.glyph))));
                assert(self.ever_read() =~= old(self).ever_read().push(true));
            },
        }
    }

    /// Records where the glyph with `key` sits in the atlas.
    pub fn mark_in_atlas(&mut self, key: u64, atlas_x: u16, atlas_y: u16)
        ensures
            final(self).pairs() == (match find_glyph(old(self).pairs(), key) {
                Some(i) => {
                    let c = old(self).pairs()[i].1;
                    old(self).pairs().update(i, (key, (c.0, c.1, c.2, c.3, c.4, c.5, atlas_x, atlas_y, true)))
                },
                None => old(self).pairs(),
            }),
    {
        if let Some(i) = self.position(key) {
            let ghost before = self.glyphs@;
            let mut slot = self.glyphs.remove(i);
            slot.glyph.atlas_x = atlas_x;
            slot.glyph.atlas_y = atlas_y;
            slot.glyph.in_atlas = true;
            self.glyphs.insert(i, slot);
            proof {
                assert(self.glyphs@ =~= before.update(i as int, slot));
                let c = glyph_pairs(before)[i as int].1;
                assert(glyph_pairs(self.glyphs@) =~= glyph_pairs(before).update(
                    i as int,
                    (key, (c.0, c.1, c.2, c.3, c.4, c.5, atlas_x, atlas_y, true)),
                ));
            }
        }
    }

    /// Drops the glyphs for which `evict` holds of their key and that are
    /// not Latin Basic; returns how many went.
    fn evict_where(&mut self, evict: Ghost<spec_fn(u64) -> bool>, stale: &Vec<u64>, all: bool) -> (n: usize)
        requires
            forall|k: u64| #[trigger] evict@(k) == (all || stale@.contains(k)),
        ensures
            final(self).pairs() == old(self).pairs().filter(
                |e: (u64, (Seq<u8>, u32, u32, i32, i32, i32, u16, u16, bool))| is_latin_key(e.0) || !evict@(e.0),
            ),
            n == old(self).pairs().len() - final(self).pairs().len(),
    {
        let ghost p = |e: (u64, (Seq<u8>, u32, u32, i32, i32, i32, u16, u16, bool))| is_latin_key(e.0) || !evict@(e.0);
        let ghost all_pairs = glyph_pairs(self.glyphs@);
        let mut rest: Vec<GlyphSlot> = Vec::new();
        std::mem::swap(&mut rest, &mut self.glyphs);
        let ghost orig = rest@;
        let n0 = rest.len();
        let mut kept: Vec<GlyphSlot> = Vec::new();
        let mut removed: usize = 0;
        let ghost mut i: int = 0;
        while rest.len() > 0
            invariant
                0 <= i <= orig.len(),
                all_pairs == glyph_pairs(orig),
                rest@ == orig.subrange(i, orig.len() as int),
                p == (|e: (u64, (Seq<u8>, u32, u32, i32, i32, i32, u16, u16, bool))| is_latin_key(e.0) || !evict@(e.0)),
                forall|k: u64| #[trigger] evict@(k) == (all || stale@.contains(k)),
                glyph_pairs(kept@) == all_pairs.subrange(0, i).filter(p),
                removed + kept@.len() == i,
                orig.len() == n0,
            decreases rest@.len(),
        {
            proof {
                reveal_with_fuel(Seq::filter, 1);
                assert(all_pairs.subrange(0, i + 1).drop_last() =~= all_pairs.subrange(0, i));
            }
            let e = rest.remove(0);
            proof {
                assert(e == orig[i]);
            }
            let mut drop = all;
            if !drop {
                let mut j: usize = 0;
                while j < stale.len()
                    invariant
                        0 <= j <= stale@.len(),
                        drop == (exists|m: int| 0 <= m < j && stale@[m] == e.key),
                    decreases stale@.len() - j,
                {
                    if stale[j] == e.key {
                        drop = true;
                    }
                    j = j + 1;
                }
                proof {
                    if stale@.contains(e.key) {
                        let m = choose|m: int| 0 <= m < stale@.len() && stale@[m] == e.key;
                    }
                }
            }
            let ghost before = kept@;
            if latin_key(e.key) || !drop {
                kept.push(e);
                assert(glyph_pairs(kept@) =~= glyph_pairs(before).push((e.key, glyph_content(e.glyph))));
            } else {
                removed = removed + 1;
            }
            proof {
                i = i + 1;
                assert(rest@ =~= orig.subrange(i, orig.len() as int));
            }
        }
        assert(all_pairs.subrange(0, i) =~= all_pairs);
        self.glyphs = kept;
        removed
    }

    /// Drops every glyph outside Latin Basic; returns how many went.
    pub fn evict_all(&mut self) -> (n: usize)
        ensures
            final(self).pairs() == old(self).pairs().filter(
                |e: (u64, (Seq<u8>, u32, u32, i32, i32, i32, u16, u16, bool))| is_latin_key(e.0),
            ),
            n == old(self).pairs().len() - final(self).pairs().len(),
    {
        let no_keys: Vec<u64> = Vec::new();
        let n = self.evict_where(Ghost(|k: u64| true), &no_keys, true);
        assert((|e: (u64, (Seq<u8>, u32, u32, i32, i32, i32, u16, u16, bool))| is_latin_key(e.0) || !(|k: u64| true)(e.0))
            =~= (|e: (u64, (Seq<u8>, u32, u32, i32, i32, i32, u16, u16, bool))| is_latin_key(e.0)));
        n
    }

    /// Drops the glyphs with a key in `stale` (those unread for too long,
    /// as the caller's clock says), except Latin Basic; returns how many went.
    pub fn evict_stale(&mut self, stale: &Vec<u64>) -> (n: usize)
        ensures
            final(self).pairs() == old(self).pairs().filter(
                |e: (u64, (Seq<u8>, u32, u32, i32, i32, i32, u16, u16, bool))| is_latin_key(e.0) || !stale@.contains(e.0),
            ),
            n == old(self).pairs().len() - final(self).pairs().len(),
    {
        let n = self.evict_where(Ghost(|k: u64| stale@.contains(k)), stale, false);
        assert((|e: (u64, (Seq<u8>, u32, u32, i32, i32, i32, u16, u16, bool))| is_latin_key(e.0) || !(|k: u64| stale@.contains(k))(e.0))
            =~= (|e: (u64, (Seq<u8>, u32, u32, i32, i32, i32, u16, u16, bool))| is_latin_key(e.0) || !stale@.contains(e.0)));
        n
    }

    /// Drops the glyphs outside Latin Basic that were last read at least
    /// `age_threshold_ms` milliseconds ago by the clock; a glyph never read
    /// stays. Returns how many went. The ages are the clock's readings, one
    /// per glyph in order: known exactly where the glyph was read.
    pub fn evict_older_than(&mut self, age_threshold_ms: u64) -> (n: usize)
        ensures
            exists|ages: Seq<(u64, Option<u64>)>|
                {
                    &&& ages.len() == old(self).pairs().len()
                    &&& forall|i: int| 0 <= i < ages.len() ==> (#[trigger] ages[i]).0 == old(self).pairs()[i].0
                        && (ages[i].1 is Some <==> old(self).ever_read()[i])
                    &&& final(self).pairs() == #[trigger] without_stale(
                        old(self).pairs(),
                        stale_list(ages, age_threshold_ms),
                    )
                },
            n == old(self).pairs().len() - final(self).pairs().len(),
    {
        let now = instant_now();
        let mut ages: Vec<(u64, Option<u64>)> = Vec::new();
        let mut i: usize = 0;
        while i < self.glyphs.len()
            invariant
                0 <= i <= self.glyphs@.len(),
                ages@.len() == i,
                forall|j: int| 0 <= j < i ==> (#[trigger] ages@[j]).0 == self.glyphs@[j].key
                    && (ages@[j].1 is Some <==> self.glyphs@[j].glyph.last_access is Some),
            decreases self.glyphs@.len() - i,
        {
            let key = self.glyphs[i].key;
            match &self.glyphs[i].glyph.last_access {
                Some(t) => {
                    let ms = duration_as_millis(&instant_duration_since(&now, t));
                    let age: u64 = if ms > 0xffff_ffff_ffff_ffffu128 { 0xffff_ffff_ffff_ffffu64 } else { ms as u64 };
                    ages.push((key, Some(age)));
                },
                None => {
                    ages.push((key, None));
                },
            }
            i = i + 1;
        }
        let stale = stale_keys(&ages, age_threshold_ms);
        let n = self.evict_stale(&stale);
        proof {
            assert forall|j: int| 0 <= j < ages@.len() implies (#[trigger] ages@[j]).0 == old(self).pairs()[j].0
                && (ages@[j].1 is Some <==> old(self).ever_read()[j]) by {
            }
            assert(self.pairs() == without_stale(old(self).pairs(), stale_list(ages@, age_threshold_ms)));
        }
        n
    }

    /// Total size of the bitmaps in bytes.
    pub fn byte_size(&self) -> (n: usize)
        requires
            bitmap_bytes(self.pairs()) <= usize::MAX,
        ensures
            n == bitmap_bytes(self.pairs()),
    {
        let ghost s = self.pairs();
        let mut total: usize = 0;
        let mut i: usize = 0;
        while i < self.glyphs.len()
            invariant
                0 <= i <= self.glyphs@.len(),
                s == glyph_pairs(self.glyphs@),
                bitmap_bytes(s) <= usize::MAX,
                total == bitmap_bytes(s.subrange(0, i as int)),
            decreases self.glyphs@.len() - i,
        {
            proof {
                assert(s.subrange(0, i + 1).drop_last() =~= s.subrange(0, i as int));
                lemma_bitmap_bytes_prefix(s, i + 1);
            }
            total = total + self.glyphs[i].glyph.bitmap.len();
            i = i + 1;
        }
        assert(s.subrange(0, i as int) =~= s);
        total
    }

    pub fn entry_count(&self) -> (n: usize)
        ensures
            n == self.pairs().len(),
    {
        self.glyphs.len()
    }
}

/// A Latin Basic glyph outlives every eviction.
pub proof fn latin_glyph_survives(
    s: Seq<(u64, (Seq<u8>, u32, u32, i32, i32, i32, u16, u16, bool))>,
    i: int,
    evict: spec_fn(u64) -> bool,
)
    requires
        0 <= i < s.len(),
        is_latin_key(s[i].0),
    ensures
        s.filter(|e: (u64, (Seq<u8>, u32, u32, i32, i32, i32, u16, u16, bool))| is_latin_key(e.0)).contains(s[i]),
        s.filter(|e: (u64, (Seq<u8>, u32, u32, i32, i32, i32, u16, u16, bool))| is_latin_key(e.0) || !evict(e.0)).contains(
            s[i],
        ),
{
    s.lemma_filter_contains(|e: (u64, (Seq<u8>, u32, u32, i32, i32, i32, u16, u16, bool))| is_latin_key(e.0), i);
    s.lemma_filter_contains(
        |e: (u64, (Seq<u8>, u32, u32, i32, i32, i32, u16, u16, bool))| is_latin_key(e.0) || !evict(e.0),
        i,
    );
}

proof fn lemma_bitmap_bytes_prefix(s: Seq<(u64, (Seq<u8>, u32, u32, i32, i32, i32, u16, u16, bool))>, k: int)
    requires
        0 <= k <= s.len(),
    ensures
        bitmap_bytes(s.subrange(0, k)) <= bitmap_bytes(s),
    decreases s.len() - k,
{
    if k < s.len() {
        lemma_bitmap_bytes_prefix(s, k + 1);
        assert(s.subrange(0, k + 1).drop_last() =~= s.subrange(0, k));
    } else {
        assert(s.subrange(0, k) =~= s);
    }
}

} // verus!
