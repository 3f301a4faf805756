//! The cross-subsystem cache manager: it owns every cache and answers
//! memory pressure, store path changes and the screen locking by evicting.
use vstd::prelude::*;
use crate::chars::{char_vec, chars_equal};
use crate::glyph_cache::{GlyphCache, is_latin_key, bitmap_bytes};
use crate::shader_cache::ShaderCache;
use crate::tint_cache::TintCache;
use crate::app_index::AppIndexCache;
use crate::icon_cache::{IconCache, DEFAULT_MAX_ICONS};
use crate::snapshot_cache::SnapshotCache;

verus! {

/// Memory pressure levels, from none to critical.
#[derive(PartialEq, Eq, Structural, Clone, Copy, Debug)]
pub enum PressureLevel {
    Normal,
    Low,
    Medium,
    Critical,
}

impl PressureLevel {
    /// The level's number, 0 (normal) to 3 (critical).
    pub fn code(self) -> (c: u8)
        ensures
            c == (match self {
                PressureLevel::Normal => 0u8,
                PressureLevel::Low => 1u8,
                PressureLevel::Medium => 2u8,
                PressureLevel::Critical => 3u8,
            }),
    {
        match self {
            PressureLevel::Normal => 0,
            PressureLevel::Low => 1,
            PressureLevel::Medium => 2,
            PressureLevel::Critical => 3,
        }
    }
}

/// What one pressure response evicted: the number of glyphs, and 1 for
/// each other cache that was emptied.
#[derive(PartialEq, Eq, Structural, Clone, Copy, Debug, Default)]
pub struct EvictionStats {
    pub glyphs_evicted: usize,
    pub icons_evicted: usize,
    pub tints_evicted: usize,
    pub snapshots_evicted: usize,
}

/// Sizes and counters reported to the supervisor (the hit rate is the
/// caller's division of the two counters).
#[derive(PartialEq, Eq, Structural, Clone, Copy, Debug)]
pub struct CacheStatus {
    pub glyphs_bytes: usize,
    pub shaders_bytes: usize,
    pub tints_count: usize,
    pub apps_count: usize,
    pub icons_count: usize,
    pub snapshots_count: usize,
    pub total_bytes: usize,
    pub hit_count: u64,
    pub miss_count: u64,
    pub last_pressure: u8,
}

/// The cache manager; `T` is the wallpaper tint result type.
pub struct CacheKeepr<T> {
    pub glyphs: GlyphCache,
    pub shaders: ShaderCache,
    pub tints: TintCache<T>,
    pub apps: AppIndexCache,
    pub icons: IconCache,
    pub snapshots: SnapshotCache,
    pub hit_count: u64,
    pub miss_count: u64,
    pub last_pressure: PressureLevel,
}

impl<T: Copy> CacheKeepr<T> {
    pub open spec fn hits(&self) -> u64 {
        self.hit_count
    }

    pub open spec fn misses(&self) -> u64 {
        self.miss_count
    }

    pub open spec fn pressure(&self) -> PressureLevel {
        self.last_pressure
    }

    /// Empty caches (the app index holds its defaults) for the given
    /// store path.
    pub fn new(store_path: &str) -> (c: Self)
        ensures
            c.glyphs.pairs().len() == 0,
            c.shaders.store_path() == store_path@,
            c.shaders.bytes().len() == 0,
            c.tints.pairs().len() == 0,
            c.apps.wf(),
            c.icons.contents().len() == 0,
            c.icons.capacity() == DEFAULT_MAX_ICONS,
            c.snapshots.sizes().len() == 0,
            c.hits() == 0,
            c.misses() == 0,
            c.pressure() == PressureLevel::Normal,
    {
        CacheKeepr {
            glyphs: GlyphCache::new(),
            shaders: ShaderCache::new(store_path),
            tints: TintCache::new(),
            apps: AppIndexCache::new(),
            icons: IconCache::new(DEFAULT_MAX_ICONS),
            snapshots: SnapshotCache::new(),
            hit_count: 0,
            miss_count: 0,
            last_pressure: PressureLevel::Normal,
        }
    }

    /// Counts a cache hit (the counter wraps).
    pub fn record_hit(&mut self)
        ensures
            final(self).hits() == (if old(self).hits() == u64::MAX { 0 } else { old(self).hits() + 1 }),
            final(self).misses() == old(self).misses(),
            final(self).pressure() == old(self).pressure(),
    {
        self.hit_count = if self.hit_count == u64::MAX { 0 } else { self.hit_count + 1 };
    }

    /// Counts a cache miss (the counter wraps).
    pub fn record_miss(&mut self)
        ensures
            final(self).misses() == (if old(self).misses() == u64::MAX { 0 } else { old(self).misses() + 1 }),
            final(self).hits() == old(self).hits(),
            final(self).pressure() == old(self).pressure(),
    {
        self.miss_count = if self.miss_count == u64::MAX { 0 } else { self.miss_count + 1 };
    }

    /// Evicts by pressure: Low empties tints and snapshots; Medium icons and
    /// tints; Critical everything but the app index, the shader blob and
    /// the Latin Basic glyphs.
    pub fn on_pressure_changed(&mut self, level: PressureLevel) -> (stats: EvictionStats)
        requires
            old(self).apps.wf(),
        ensures
            final(self).apps == old(self).apps,
            final(self).shaders == old(self).shaders,
            final(self).hits() == old(self).hits(),
            final(self).misses() == old(self).misses(),
            final(self).pressure() == level,
            final(self).glyphs.pairs() == (if level == PressureLevel::Critical {
                old(self).glyphs.pairs().filter(|e: (u64, (Seq<u8>, u32, u32, i32, i32, i32, u16, u16, bool))| is_latin_key(e.0))
            } else {
                old(self).glyphs.pairs()
            }),
            final(self).tints.pairs() == (if level == PressureLevel::Normal {
                old(self).tints.pairs()
            } else {
                Seq::empty()
            }),
            final(self).snapshots.sizes() == (if level == PressureLevel::Low || level == PressureLevel::Critical {
                Seq::empty()
            } else {
                old(self).snapshots.sizes()
            }),
            final(self).icons.capacity() == old(self).icons.capacity(),
            final(self).icons.contents() == (if level == PressureLevel::Medium || level == PressureLevel::Critical {
                Seq::empty()
            } else {
                old(self).icons.contents()
            }),
            stats == (match level {
                PressureLevel::Normal => EvictionStats { glyphs_evicted: 0, icons_evicted: 0, tints_evicted: 0, snapshots_evicted: 0 },
                PressureLevel::Low => EvictionStats { glyphs_evicted: 0, icons_evicted: 0, tints_evicted: 1, snapshots_evicted: 1 },
                PressureLevel::Medium => EvictionStats { glyphs_evicted: 0, icons_evicted: 1, tints_evicted: 1, snapshots_evicted: 0 },
                PressureLevel::Critical => EvictionStats {
                    glyphs_evicted: (old(self).glyphs.pairs().len() - final(self).glyphs.pairs().len()) as usize,
                    icons_evicted: 1,
                    tints_evicted: 1,
                    snapshots_evicted: 1,
                },
            }),
    {
        self.last_pressure = level;
        let mut stats = EvictionStats { glyphs_evicted: 0, icons_evicted: 0, tints_evicted: 0, snapshots_evicted: 0 };
        match level {
            PressureLevel::Low => {
                self.tints.evict_all();
                self.snapshots.evict_all();
                stats.tints_evicted = 1;
                stats.snapshots_evicted = 1;
            },
            PressureLevel::Medium => {
                self.icons.evict_all();
                self.tints.evict_all();
                stats.icons_evicted = 1;
                stats.tints_evicted = 1;
            },
            PressureLevel::Critical => {
                let g = self.glyphs.evict_all();
                self.icons.evict_all();
                self.tints.evict_all();
                self.snapshots.evict_all();
                stats.glyphs_evicted = g;
                stats.icons_evicted = 1;
                stats.tints_evicted = 1;
                stats.snapshots_evicted = 1;
            },
            PressureLevel::Normal => {},
        }
        stats
    }

    /// A component's store path changed: the caches built from it are
    /// dropped. True when the shader blob was invalidated (the caller then
    /// deletes its files).
    pub fn on_store_path_changed(&mut self, component: &str, new_path: &str) -> (shader_invalidated: bool)
        ensures
            final(self).apps == old(self).apps,
            final(self).tints == old(self).tints,
            final(self).snapshots == old(self).snapshots,
            final(self).hits() == old(self).hits(),
            final(self).misses() == old(self).misses(),
            final(self).pressure() == old(self).pressure(),
            final(self).icons.capacity() == old(self).icons.capacity(),
            if component@ == "animus-engine"@ {
                &&& shader_invalidated == (old(self).shaders.store_path() != new_path@)
                &&& final(self).shaders.store_path() == new_path@
                &&& shader_invalidated ==> final(self).shaders.bytes().len() == 0
                &&& !shader_invalidated ==> final(self).shaders == old(self).shaders
                &&& final(self).glyphs.pairs() == old(self).glyphs.pairs().filter(
                    |e: (u64, (Seq<u8>, u32, u32, i32, i32, i32, u16, u16, bool))| is_latin_key(e.0),
                )
                &&& final(self).icons == old(self).icons
            } else if component@ == "apps"@ || component@ == "icons"@ {
                &&& !shader_invalidated
                &&& final(self).shaders == old(self).shaders
                &&& final(self).glyphs == old(self).glyphs
                &&& final(self).icons.contents().len() == 0
            } else if component@ == "fonts"@ {
                &&& !shader_invalidated
                &&& final(self).shaders == old(self).shaders
                &&& final(self).glyphs.pairs() == old(self).glyphs.pairs().filter(
                    |e: (u64, (Seq<u8>, u32, u32, i32, i32, i32, u16, u16, bool))| is_latin_key(e.0),
                )
                &&& final(self).icons == old(self).icons
            } else {
                &&& !shader_invalidated
                &&& final(self).shaders == old(self).shaders
                &&& final(self).glyphs == old(self).glyphs
                &&& final(self).icons == old(self).icons
            },
    {
        let c = char_vec(component);
        let engine = char_vec("animus-engine");
        let apps = char_vec("apps");
        let fonts = char_vec("fonts");
        let icons = char_vec("icons");
        if chars_equal(&c, &engine) {
            let changed = self.shaders.update_store_path(new_path);
            self.glyphs.evict_all();
            changed
        } else if chars_equal(&c, &apps) || chars_equal(&c, &icons) {
            self.icons.evict_all();
            false
        } else if chars_equal(&c, &fonts) {
            self.glyphs.evict_all();
            false
        } else {
            false
        }
    }

    /// The screen locked: thumbnails of windows are dropped (privacy).
    pub fn on_lock_screen(&mut self)
        ensures
            final(self).snapshots.sizes().len() == 0,
            final(self).glyphs == old(self).glyphs,
            final(self).shaders == old(self).shaders,
            final(self).tints == old(self).tints,
            final(self).apps == old(self).apps,
            final(self).icons == old(self).icons,
            final(self).hits() == old(self).hits(),
            final(self).misses() == old(self).misses(),
            final(self).pressure() == old(self).pressure(),
    {
        self.snapshots.evict_all();
    }

    /// The supervisor's report.
    pub fn status(&self) -> (s: CacheStatus)
        requires
            bitmap_bytes(self.glyphs.pairs()) + self.shaders.recorded_size() <= usize::MAX,
        ensures
            s.glyphs_bytes == bitmap_bytes(self.glyphs.pairs()),
            s.shaders_bytes == self.shaders.recorded_size(),
            s.total_bytes == s.glyphs_bytes + s.shaders_bytes,
            s.tints_count == self.tints.pairs().len(),
            s.apps_count == 0,
            s.icons_count == 0,
            s.snapshots_count == self.snapshots.sizes().len(),
            s.hit_count == self.hits(),
            s.miss_count == self.misses(),
            s.last_pressure == (match self.pressure() {
                PressureLevel::Normal => 0u8,
                PressureLevel::Low => 1u8,
                PressureLevel::Medium => 2u8,
                PressureLevel::Critical => 3u8,
            }),
    {
        let glyphs_bytes = self.glyphs.byte_size();
        let shaders_bytes = self.shaders.byte_size();
        CacheStatus {
            glyphs_bytes,
            shaders_bytes,
            tints_count: self.tints.entry_count(),
            apps_count: 0,
            icons_count: 0,
            snapshots_count: self.snapshots.count(),
            total_bytes: glyphs_bytes + shaders_bytes,
            hit_count: self.hit_count,
            miss_count: self.miss_count,
            last_pressure: self.last_pressure.code(),
        }
    }
}

} // verus!
