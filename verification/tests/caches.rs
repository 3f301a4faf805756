use animus::cache_keepr::{CacheKeepr, PressureLevel};
use animus::glyph_cache::{make_key, stale_keys, CachedGlyph, GlyphCache};
use animus::icon_cache::{CachedIcon, IconCache};
use animus::shader_cache::{ShaderCache, ShaderLoad};
use animus::snapshot_cache::SnapshotCache;
use animus::tint_cache::{TintCache, TINT_MAX_ENTRIES};

#[derive(Clone, Copy, Debug, PartialEq)]
struct TintResult {
    r: f32,
    g: f32,
    b: f32,
    luminosity_boost: f32,
    chroma_reduce: f32,
    alpha: f32,
}

fn zero_tint() -> TintResult {
    TintResult { r: 0.0, g: 0.0, b: 0.0, luminosity_boost: 0.0, chroma_reduce: 0.0, alpha: 0.0 }
}

fn glyph_with(bytes: usize) -> CachedGlyph {
    let mut g = CachedGlyph::empty();
    g.bitmap = vec![0xFF; bytes];
    g.width = 10;
    g.rows = 10;
    g
}

/// Key for 14 pt at scale 1.0, quantized as the renderer does.
fn key14(codepoint: u32) -> u64 {
    make_key(codepoint, 14 * 256, 128)
}

#[test]
fn test_cache_keepr_pressure_eviction() {
    let mut ck: CacheKeepr<TintResult> = CacheKeepr::new("/usr/bin/test");

    ck.glyphs.put(key14(0x0041), CachedGlyph::empty());
    ck.tints.put(
        "/wp/test.jpg",
        TintResult { r: 0.5, g: 0.3, b: 0.1, luminosity_boost: 0.08, chroma_reduce: 0.15, alpha: 0.22 },
    );
    ck.snapshots.put(1, 800, 600);

    let _stats = ck.on_pressure_changed(PressureLevel::Low);
    assert_eq!(ck.tints.entry_count(), 0);
    assert_eq!(ck.snapshots.count(), 0);
}

#[test]
fn test_cache_keepr_lock_screen() {
    let mut ck: CacheKeepr<TintResult> = CacheKeepr::new("/usr/bin/test");
    ck.snapshots.put(1, 800, 600);
    ck.snapshots.put(2, 1920, 1080);
    assert_eq!(ck.snapshots.count(), 2);

    ck.on_lock_screen();
    assert_eq!(ck.snapshots.count(), 0);
}

#[test]
fn test_cache_keepr_hit_miss() {
    let mut ck: CacheKeepr<TintResult> = CacheKeepr::new("/usr/bin/test");
    ck.record_hit();
    ck.record_hit();
    ck.record_miss();

    let status = ck.status();
    assert_eq!(status.hit_count, 2);
    assert_eq!(status.miss_count, 1);
    let hit_rate = status.hit_count as f64 / (status.hit_count + status.miss_count) as f64;
    assert!((hit_rate - (2.0 / 3.0)).abs() < 0.01);
}

#[test]
fn cache_keepr_pressure_levels_stats() {
    let mut ck: CacheKeepr<TintResult> = CacheKeepr::new("/usr/bin/test");
    ck.glyphs.put(key14(0x0041), CachedGlyph::empty());
    ck.glyphs.put(key14(0x00C0), CachedGlyph::empty());
    ck.icons.insert("/icons/a.png".to_string(), CachedIcon { width: 1, height: 1, rgba_bytes: vec![0; 4] });
    ck.tints.put("/wp/a.jpg", zero_tint());
    ck.snapshots.put(7, 10, 10);

    let s = ck.on_pressure_changed(PressureLevel::Normal);
    assert_eq!((s.glyphs_evicted, s.icons_evicted, s.tints_evicted, s.snapshots_evicted), (0, 0, 0, 0));
    assert_eq!(ck.tints.entry_count(), 1);

    let s = ck.on_pressure_changed(PressureLevel::Medium);
    assert_eq!((s.glyphs_evicted, s.icons_evicted, s.tints_evicted, s.snapshots_evicted), (0, 1, 1, 0));
    assert_eq!(ck.icons.len(), 0);
    assert_eq!(ck.snapshots.count(), 1);
    assert_eq!(ck.glyphs.entry_count(), 2);

    let s = ck.on_pressure_changed(PressureLevel::Critical);
    assert_eq!((s.glyphs_evicted, s.icons_evicted, s.tints_evicted, s.snapshots_evicted), (1, 1, 1, 1));
    assert_eq!(ck.glyphs.entry_count(), 1);
    assert_eq!(ck.snapshots.count(), 0);
    assert_eq!(ck.status().last_pressure, PressureLevel::Critical.code());
    assert_eq!(ck.apps.len(), 7);
}

#[test]
fn cache_keepr_store_path_changes() {
    let mut ck: CacheKeepr<TintResult> = CacheKeepr::new("/nix/store/a");
    ck.glyphs.put(key14(0x4E00), CachedGlyph::empty());
    ck.icons.insert("/icons/a.png".to_string(), CachedIcon { width: 1, height: 1, rgba_bytes: vec![0; 4] });
    assert!(!ck.on_store_path_changed("animus-engine", "/nix/store/a"));
    assert_eq!(ck.glyphs.entry_count(), 0);
    assert!(ck.on_store_path_changed("animus-engine", "/nix/store/b"));
    assert!(!ck.on_store_path_changed("icons", "/x"));
    assert_eq!(ck.icons.len(), 0);
    assert!(!ck.on_store_path_changed("unknown", "/x"));
}

#[test]
fn test_glyph_cache_put_get() {
    let mut cache = GlyphCache::new();
    let key = key14(0x0041);
    cache.put(key, glyph_with(100));
    assert!(cache.get(key).is_some());
    assert_eq!(cache.entry_count(), 1);
    assert_eq!(cache.byte_size(), 100);
}

#[test]
fn test_latin_basic_never_evicted() {
    let mut cache = GlyphCache::new();
    let latin_key = key14(0x0041);
    cache.put(latin_key, CachedGlyph::empty());
    let extended_key = key14(0x00C0);
    cache.put(extended_key, CachedGlyph::empty());

    let evicted = cache.evict_all();
    assert_eq!(evicted, 1);
    assert!(cache.get(latin_key).is_some());
    assert!(cache.get(extended_key).is_none());
}

#[test]
fn glyph_key_packing_exact() {
    assert_eq!(make_key(0x41, 14 * 256, 128), 0x0000_0041_00E0_0080);
    assert_eq!(make_key(0x41, 0, 0x1FF) & 0xFFF, 0x1FF);
    assert_eq!(key14(0x00C0) >> 32, 0xC0);
}

#[test]
fn glyph_keys_differ_by_dpi_scale_and_size() {
    let one = make_key(0x41, 3584, 128);
    let three = make_key(0x41, 3584, 384);
    assert_ne!(one, three);
    assert_ne!(make_key(0x41, 3584, 256), make_key(0x41, 3584, 0));
    assert_ne!(make_key(0x41, 3584, 128), make_key(0x41, 3840, 128));
    assert_eq!(one >> 32, 0x41);
    assert_eq!(three >> 32, 0x41);
}

#[test]
fn stale_keys_picks_known_ages_at_or_over_threshold() {
    let ages = vec![(1u64, Some(500u64)), (2, None), (3, Some(1000)), (4, Some(999)), (5, Some(2000))];
    assert_eq!(stale_keys(&ages, 1000), vec![3, 5]);
    assert_eq!(stale_keys(&ages, 0), vec![1, 3, 4, 5]);
    assert_eq!(stale_keys(&ages, u64::MAX), Vec::<u64>::new());
    assert_eq!(stale_keys(&Vec::new(), 0), Vec::<u64>::new());
}

#[test]
fn glyph_cache_mark_in_atlas_and_stale() {
    let mut cache = GlyphCache::new();
    let a = key14(0x0041);
    let b = key14(0x00C0);
    cache.put(a, glyph_with(4));
    cache.put(b, glyph_with(6));
    cache.put(b, glyph_with(8));
    assert_eq!(cache.entry_count(), 2);
    assert_eq!(cache.byte_size(), 12);
    cache.mark_in_atlas(b, 3, 5);
    let g = cache.get(b).unwrap();
    assert!(g.in_atlas);
    assert_eq!((g.atlas_x, g.atlas_y), (3, 5));
    assert_eq!(cache.evict_stale(&vec![a, b]), 1);
    assert!(cache.get(a).is_some());
    assert!(cache.get(b).is_none());
}

#[test]
fn test_shader_cache_store_path_match() {
    let mut cache = ShaderCache::new("/usr/bin/animus-compositor");
    assert_eq!(cache.load(None, None), ShaderLoad::Fresh);
    assert!(cache.is_empty());
}

#[test]
fn test_shader_cache_invalidation() {
    let mut cache = ShaderCache::new("/path/old");
    cache.invalidate();
    assert!(cache.is_empty());
    assert_eq!(cache.byte_size(), 0);
}

#[test]
fn shader_cache_load_matching_and_mismatched_paths() {
    let mut cache = ShaderCache::new("/path/a");
    assert_eq!(cache.load(Some(" /path/a\n"), Some(vec![1, 2, 3])), ShaderLoad::Loaded);
    assert_eq!(cache.byte_size(), 3);
    assert_eq!(cache.blob(), &[1, 2, 3]);
    assert_eq!(cache.load(Some("/path/b"), Some(vec![9])), ShaderLoad::Invalidated);
    assert!(cache.is_empty());
    assert_eq!(cache.byte_size(), 0);
    assert!(!cache.update_store_path("/path/a"));
    assert!(cache.update_store_path("/path/c"));
}

#[test]
fn test_snapshot_cache() {
    let mut cache = SnapshotCache::new();
    cache.put(1, 800, 600);
    cache.put(2, 1920, 1080);
    assert_eq!(cache.count(), 2);
    assert_eq!(cache.get(1), Some((800, 600)));
    cache.remove(1);
    assert_eq!(cache.count(), 1);
    cache.evict_all();
    assert_eq!(cache.count(), 0);
}

#[test]
fn snapshot_cache_put_replaces() {
    let mut cache = SnapshotCache::new();
    cache.put(1, 800, 600);
    cache.put(1, 640, 480);
    assert_eq!(cache.count(), 1);
    assert_eq!(cache.get(1), Some((640, 480)));
    assert_eq!(cache.get(2), None);
}

#[test]
fn test_tint_cache_put_get() {
    let mut cache: TintCache<TintResult> = TintCache::new();
    let result = TintResult { r: 0.5, g: 0.3, b: 0.1, luminosity_boost: 0.08, chroma_reduce: 0.15, alpha: 0.22 };
    cache.put("/usr/share/wallpapers/mars.jpg", result);
    assert!(cache.get("/usr/share/wallpapers/mars.jpg").is_some());
    assert!(cache.get("/usr/share/wallpapers/other.jpg").is_none());
}

#[test]
fn test_tint_cache_max_entries() {
    let mut cache: TintCache<TintResult> = TintCache::new();
    for i in 0..12 {
        cache.put(&format!("/wp/{}.jpg", i), zero_tint());
    }
    assert_eq!(cache.entry_count(), TINT_MAX_ENTRIES);
    assert!(cache.get("/wp/0.jpg").is_none());
    assert!(cache.get("/wp/11.jpg").is_some());
}

#[test]
fn test_tint_cache_evict_stale() {
    let mut cache: TintCache<TintResult> = TintCache::new();
    cache.put("/wp/a.jpg", zero_tint());
    cache.put("/wp/b.jpg", zero_tint());
    cache.evict_stale("/wp/a.jpg");
    assert_eq!(cache.entry_count(), 1);
    assert!(cache.get("/wp/a.jpg").is_some());
    assert!(cache.get("/wp/b.jpg").is_none());
}

#[test]
fn tint_cache_put_replaces_and_moves_to_back() {
    let mut cache: TintCache<u32> = TintCache::new();
    for i in 0..8u32 {
        cache.put(&format!("/wp/{}.jpg", i), i);
    }
    cache.put("/wp/0.jpg", 100);
    assert_eq!(cache.entry_count(), 8);
    cache.put("/wp/8.jpg", 8);
    assert_eq!(cache.get("/wp/0.jpg"), Some(100));
    assert_eq!(cache.get("/wp/1.jpg"), None);
    cache.evict_all();
    assert_eq!(cache.entry_count(), 0);
}

#[test]
fn icon_cache_full_cache_is_emptied_first() {
    let mut cache = IconCache::new(2);
    let icon = || CachedIcon { width: 1, height: 1, rgba_bytes: vec![0; 4] };
    cache.insert("/a".to_string(), icon());
    cache.insert("/b".to_string(), icon());
    assert_eq!(cache.len(), 2);
    cache.insert("/c".to_string(), icon());
    assert_eq!(cache.len(), 1);
    assert!(cache.get("/a").is_none());
    assert_eq!(cache.get("/c").unwrap().rgba_bytes.len(), 4);
    let d = IconCache::default();
    assert_eq!(d.len(), 0);
}

#[test]
fn glyph_cache_evict_older_than_keeps_latin() {
    let mut cache = GlyphCache::new();
    cache.put(key14(0x0041), glyph_with(1));
    cache.put(key14(0x00C0), glyph_with(2));
    cache.put(key14(0x4E00), glyph_with(3));
    assert_eq!(cache.evict_older_than(u64::MAX), 0);
    assert_eq!(cache.entry_count(), 3);
    assert_eq!(cache.evict_older_than(0), 2);
    assert_eq!(cache.entry_count(), 1);
    assert!(cache.get(key14(0x0041)).is_some());
}
