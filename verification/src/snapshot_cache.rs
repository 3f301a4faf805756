//! CockpitView window thumbnails, one per window handle. Evicted under low
//! memory and always when the screen locks (privacy).
use vstd::prelude::*;
use crate::keyed::{find_by, store_by, store_then_find};

verus! {

#[verifier::external_type_specification]
#[verifier::external_body]
pub struct ExInstant(std::time::Instant);

/// Calls `std::time::Instant::now`. Nothing is stated of the clock reading.
#[verifier::external_body]
pub(crate) fn instant_now() -> (t: std::time::Instant) {
    std::time::Instant::now()
}

/// Calls `std::time::Instant::saturating_duration_since`: the time from
/// `earlier` to `now`, zero when `earlier` is later. Nothing is stated of it.
#[verifier::external_body]
pub(crate) fn instant_duration_since(now: &std::time::Instant, earlier: &std::time::Instant) -> (d: std::time::Duration) {
    now.saturating_duration_since(*earlier)
}

/// Calls `std::time::Duration::as_millis`: whole milliseconds of `d`.
/// Nothing is stated of it.
#[verifier::external_body]
pub(crate) fn duration_as_millis(d: &std::time::Duration) -> (ms: u128) {
    d.as_millis()
}

pub struct SnapshotEntry {
    pub width: u32,
    pub height: u32,
    pub captured_at: std::time::Instant,
}

/// A thumbnail with the window it shows.
pub struct SnapshotSlot {
    pub window_handle: u64,
    pub entry: SnapshotEntry,
}

/// The thumbnails as (window handle, width, height), in insertion order.
pub open spec fn snapshot_sizes(s: Seq<SnapshotSlot>) -> Seq<(u64, u32, u32)> {
    s.map_values(|x: SnapshotSlot| (x.window_handle, x.entry.width, x.entry.height))
}

/// Index of the first thumbnail of window `h` at `k` or later.
pub open spec fn find_snapshot_from(s: Seq<(u64, u32, u32)>, h: u64, k: int) -> Option<int>
    decreases s.len() - k,
{
    if 0 <= k && k < s.len() {
        if s[k].0 == h { Some(k) } else { find_snapshot_from(s, h, k + 1) }
    } else {
        None
    }
}

/// Index of the thumbnail of window `h`.
pub open spec fn find_snapshot(s: Seq<(u64, u32, u32)>, h: u64) -> Option<int> {
    find_snapshot_from(s, h, 0)
}

/// The thumbnails after storing one of window `h`: its older one is
/// replaced, or it is appended.
pub open spec fn snapshot_stored(s: Seq<(u64, u32, u32)>, h: u64, width: u32, height: u32) -> Seq<(u64, u32, u32)> {
    match find_snapshot(s, h) {
        Some(i) => s.update(i, (h, width, height)),
        None => s.push((h, width, height)),
    }
}

/// The thumbnail size stored for window `h`.
pub open spec fn snapshot_lookup(s: Seq<(u64, u32, u32)>, h: u64) -> Option<(u32, u32)> {
    match find_snapshot(s, h) {
        Some(i) => Some((s[i].1, s[i].2)),
        None => None,
    }
}

/// The window handle a thumbnail is stored under.
pub open spec fn snapshot_key() -> spec_fn((u64, u32, u32)) -> u64 {
    |x: (u64, u32, u32)| x.0
}

proof fn lemma_find_snapshot_by(s: Seq<(u64, u32, u32)>, h: u64, k: int)
    requires
        0 <= k,
    ensures
        find_snapshot_from(s, h, k) == find_by(s, snapshot_key(), h, k),
    decreases s.len() - k,
{
    if k < s.len() {
        lemma_find_snapshot_by(s, h, k + 1);
    }
}

/// Reading a window's thumbnail size right after storing it gives the
/// stored size; every other window's thumbnail is unchanged.
pub proof fn snapshot_put_then_get(s: Seq<(u64, u32, u32)>, h: u64, width: u32, height: u32, other: u64)
    ensures
        snapshot_lookup(snapshot_stored(s, h, width, height), h) == Some((width, height)),
        other != h ==> snapshot_lookup(snapshot_stored(s, h, width, height), other) == snapshot_lookup(s, other),
{
    let t = snapshot_stored(s, h, width, height);
    lemma_find_snapshot_by(s, h, 0);
    lemma_find_snapshot_by(s, other, 0);
    lemma_find_snapshot_by(t, h, 0);
    lemma_find_snapshot_by(t, other, 0);
    assert(t == store_by(s, snapshot_key(), (h, width, height)));
    store_then_find(s, snapshot_key(), (h, width, height));
    if other != h {
        assert(find_by(t, snapshot_key(), other, 0) == find_by(s, snapshot_key(), other, 0));
    }
}

/// The thumbnail cache.
pub struct SnapshotCache {
    snapshots: Vec<SnapshotSlot>,
}

impl SnapshotCache {
    /// The cached thumbnails as (window handle, width, height).
    pub closed spec fn sizes(&self) -> Seq<(u64, u32, u32)> {
        snapshot_sizes(self.snapshots@)
    }

    pub fn new() -> (c: Self)
        ensures
            c.sizes().len() == 0,
    {
        SnapshotCache { snapshots: Vec::new() }
    }

    fn position(&self, window_handle: u64) -> (r: Option<usize>)
        ensures
            r matches Some(i) ==> find_snapshot(self.sizes(), window_handle) == Some(i as int) && i < self.snapshots@.len(),
            r is None ==> find_snapshot(self.sizes(), window_handle) is None,
    {
        let ghost s = self.sizes();
        let mut i: usize = 0;
        while i < self.snapshots.len()
            invariant
                0 <= i <= self.snapshots@.len(),
                s == snapshot_sizes(self.snapshots@),
                find_snapshot(s, window_handle) == find_snapshot_from(s, window_handle, i as int),
            decreases self.snapshots@.len() - i,
        {
            if self.snapshots[i].window_handle == window_handle {
                return Some(i);
            }
            i = i + 1;
        }
        None
    }

    /// Stores the thumbnail size of a window, replacing its older one.
    pub fn put(&mut self, window_handle: u64, width: u32, height: u32)
        ensures
            final(self).sizes() == snapshot_stored(old(self).sizes(), window_handle, width, height),
    {
        let slot = SnapshotSlot {
            window_handle,
            entry: SnapshotEntry { width, height, captured_at: instant_now() },
        };
        let ghost before = self.snapshots@;
        match self.position(window_handle) {
            Some(i) => {
                self.snapshots.set(i, slot);
                assert(snapshot_sizes(self.snapshots@) =~= snapshot_sizes(before).update(
                    i as int,
                    (window_handle, width, height),
                ));
            },
            None => {
                self.snapshots.push(slot);
                assert(snapshot_sizes(self.snapshots@) =~= snapshot_sizes(before).push((window_handle, width, height)));
            },
        }
    }

    /// The thumbnail size of a window.
    pub fn get(&self, window_handle: u64) -> (r: Option<(u32, u32)>)
        ensures
            r == snapshot_lookup(self.sizes(), window_handle),
    {
        match self.position(window_handle) {
            Some(i) => Some((self.snapshots[i].entry.width, self.snapshots[i].entry.height)),
            None => None,
        }
    }

    /// Drops every thumbnail.
    pub fn evict_all(&mut self)
        ensures
            final(self).sizes().len() == 0,
    {
        self.snapshots.clear();
    }

    /// Drops the thumbnail of a window.
    pub fn remove(&mut self, window_handle: u64)
        ensures
            final(self).sizes() == (match find_snapshot(old(self).sizes(), window_handle) {
                Some(i) => old(self).sizes().remove(i),
                None => old(self).sizes(),
            }),
    {
        let ghost before = self.snapshots@;
        if let Some(i) = self.position(window_handle) {
            self.snapshots.remove(i);
            assert(snapshot_sizes(self.snapshots@) =~= snapshot_sizes(before).remove(i as int));
        }
    }

    pub fn count(&self) -> (n: usize)
        ensures
            n == self.sizes().len(),
    {
        self.snapshots.len()
    }
}

} // verus!
