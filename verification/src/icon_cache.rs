//! Decoded icons keyed by their file path, bounded: when full, the cache
//! is emptied before the next insertion.
use vstd::prelude::*;
use crate::keyed::{find_by, lemma_find_by, store_by, store_then_find};
use crate::chars::{char_vec, chars_equal};

verus! {

pub const DEFAULT_MAX_ICONS: usize = 256;

pub struct CachedIcon {
    pub width: u32,
    pub height: u32,
    pub rgba_bytes: Vec<u8>,
}

pub struct IconSlot {
    pub path: String,
    pub icon: CachedIcon,
}

/// The cache as (path, width, height, pixels), in insertion order.
pub open spec fn icon_contents(s: Seq<IconSlot>) -> Seq<(Seq<char>, u32, u32, Seq<u8>)> {
    s.map_values(|x: IconSlot| (x.path@, x.icon.width, x.icon.height, x.icon.rgba_bytes@))
}

/// Index of the first icon for `path` at `k` or later.
pub open spec fn find_icon_from(s: Seq<(Seq<char>, u32, u32, Seq<u8>)>, path: Seq<char>, k: int) -> Option<int>
    decreases s.len() - k,
{
    if 0 <= k && k < s.len() {
        if s[k].0 == path { Some(k) } else { find_icon_from(s, path, k + 1) }
    } else {
        None
    }
}

/// Index of the icon for `path`.
pub open spec fn find_icon(s: Seq<(Seq<char>, u32, u32, Seq<u8>)>, path: Seq<char>) -> Option<int> {
    find_icon_from(s, path, 0)
}

/// The cache after inserting `item` into contents `s` with room for
/// `cap` icons: a full cache is emptied first, then the icon for the same
/// path is replaced or the new one appended.
pub open spec fn icon_inserted(s: Seq<(Seq<char>, u32, u32, Seq<u8>)>, cap: usize, item: (Seq<char>, u32, u32, Seq<u8>)) -> Seq<(Seq<char>, u32, u32, Seq<u8>)> {
    let base = if s.len() >= cap { Seq::empty() } else { s };
    match find_icon(base, item.0) {
        Some(i) => base.update(i, item),
        None => base.push(item),
    }
}

/// The path an icon is stored under.
pub open spec fn icon_key() -> spec_fn((Seq<char>, u32, u32, Seq<u8>)) -> Seq<char> {
    |x: (Seq<char>, u32, u32, Seq<u8>)| x.0
}

proof fn lemma_find_icon_by(s: Seq<(Seq<char>, u32, u32, Seq<u8>)>, path: Seq<char>, k: int)
    requires
        0 <= k,
    ensures
        find_icon_from(s, path, k) == find_by(s, icon_key(), path, k),
    decreases s.len() - k,
{
    if k < s.len() {
        lemma_find_icon_by(s, path, k + 1);
    }
}

/// Reading a path right after inserting an icon for it gives that icon,
/// and the cache holds at most its capacity (one when the capacity is zero).
pub proof fn icon_insert_then_get(s: Seq<(Seq<char>, u32, u32, Seq<u8>)>, cap: usize, item: (Seq<char>, u32, u32, Seq<u8>))
    ensures
        find_icon(icon_inserted(s, cap, item), item.0) matches Some(j) && icon_inserted(s, cap, item)[j] == item,
        s.len() <= vstd::math::max(cap as int, 1) ==> icon_inserted(s, cap, item).len() <= vstd::math::max(cap as int, 1),
{
    let base = if s.len() >= cap { Seq::<(Seq<char>, u32, u32, Seq<u8>)>::empty() } else { s };
    let t = icon_inserted(s, cap, item);
    lemma_find_icon_by(base, item.0, 0);
    lemma_find_icon_by(t, item.0, 0);
    assert(t == store_by(base, icon_key(), item));
    store_then_find(base, icon_key(), item);
    lemma_find_by(base, icon_key(), item.0, 0);
    assert(t.len() <= base.len() + 1);
    assert(base.len() == 0 || base.len() < cap);
}

/// The icon cache.
pub struct IconCache {
    icons: Vec<IconSlot>,
    max_entries: usize,
}

impl IconCache {
    pub closed spec fn contents(&self) -> Seq<(Seq<char>, u32, u32, Seq<u8>)> {
        icon_contents(self.icons@)
    }

    pub closed spec fn capacity(&self) -> usize {
        self.max_entries
    }

    pub fn new(max_entries: usize) -> (c: Self)
        ensures
            c.contents().len() == 0,
            c.capacity() == max_entries,
    {
        IconCache { icons: Vec::new(), max_entries }
    }

    fn position(&self, path: &str) -> (r: Option<usize>)
        ensures
            r matches Some(i) ==> find_icon(self.contents(), path@) == Some(i as int) && i < self.icons@.len(),
            r is None ==> find_icon(self.contents(), path@) is None,
    {
        let want = char_vec(path);
        let ghost s = self.contents();
        let mut i: usize = 0;
        while i < self.icons.len()
            invariant
                0 <= i <= self.icons@.len(),
                want@ == path@,
                s == icon_contents(self.icons@),
                find_icon(s, path@) == find_icon_from(s, path@, i as int),
            decreases self.icons@.len() - i,
        {
            let p = char_vec(self.icons[i].path.as_str());
            if chars_equal(&p, &want) {
                return Some(i);
            }
            i = i + 1;
        }
        None
    }

    /// Caches `icon` for `icon_path`; a full cache is emptied first.
    pub fn insert(&mut self, icon_path: String, icon: CachedIcon)
        ensures
            final(self).capacity() == old(self).capacity(),
            old(self).contents().len() <= vstd::math::max(old(self).capacity() as int, 1) ==> final(self).contents().len()
                <= vstd::math::max(old(self).capacity() as int, 1),
            final(self).contents() == icon_inserted(
                old(self).contents(),
                old(self).capacity(),
                (icon_path@, icon.width, icon.height, icon.rgba_bytes@),
            ),
    {
        if self.icons.len() >= self.max_entries {
            self.icons.clear();
            assert(icon_contents(self.icons@) =~= Seq::empty());
        }
        let ghost before = self.icons@;
        let pos = self.position(icon_path.as_str());
        let slot = IconSlot { path: icon_path, icon };
        match pos {
            Some(i) => {
                self.icons.set(i, slot);
                assert(icon_contents(self.icons@) =~= icon_contents(before).update(
                    i as int,
                    (slot.path@, slot.icon.width, slot.icon.height, slot.icon.rgba_bytes@),
                ));
            },
            None => {
                self.icons.push(slot);
                assert(icon_contents(self.icons@) =~= icon_contents(before).push(
                    (slot.path@, slot.icon.width, slot.icon.height, slot.icon.rgba_bytes@),
                ));
            },
        }
    }

    /// A copy of the icon cached for `icon_path`.
    pub fn get(&self, icon_path: &str) -> (r: Option<CachedIcon>)
        ensures
            match find_icon(self.contents(), icon_path@) {
                Some(i) => r matches Some(c) && c.width == self.contents()[i].1 && c.height == self.contents()[i].2
                    && c.rgba_bytes@ == self.contents()[i].3,
                None => r is None,
            },
    {
        match self.position(icon_path) {
            Some(i) => {
                let c = &self.icons[i].icon;
                Some(CachedIcon { width: c.width, height: c.height, rgba_bytes: c.rgba_bytes.clone() })
            },
            None => None,
        }
    }

    /// Drops every icon.
    pub fn evict_all(&mut self)
        ensures
            final(self).contents().len() == 0,
            final(self).capacity() == old(self).capacity(),
    {
        self.icons.clear();
    }

    pub fn len(&self) -> (n: usize)
        ensures
            n == self.contents().len(),
    {
        self.icons.len()
    }
}

impl Default for IconCache {
    fn default() -> (c: Self)
        ensures
            c.contents().len() == 0,
            c.capacity() == DEFAULT_MAX_ICONS,
    {
        IconCache::new(DEFAULT_MAX_ICONS)
    }
}

} // verus!
