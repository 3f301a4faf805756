//! Wallpaper tint results cached per wallpaper path: at most eight, the
//! oldest leaving first. `T` is the sampler's result type.
use vstd::prelude::*;
use crate::chars::{char_vec, chars_equal};

verus! {

pub const TINT_MAX_ENTRIES: usize = 8;

pub struct TintEntry<T> {
    pub path: String,
    pub result: T,
}

/// The cache as (path, result) pairs, oldest first.
pub open spec fn tint_pairs<T>(s: Seq<TintEntry<T>>) -> Seq<(Seq<char>, T)> {
    s.map_values(|e: TintEntry<T>| (e.path@, e.result))
}

/// The result cached for `path`, if any.
pub open spec fn tint_lookup<T>(s: Seq<(Seq<char>, T)>, path: Seq<char>) -> Option<T>
    decreases s.len(),
{
    if s.len() == 0 {
        None
    } else if s[0].0 == path {
        Some(s[0].1)
    } else {
        tint_lookup(s.drop_first(), path)
    }
}

/// The pairs for another path than `path`.
pub open spec fn other_path<T>(path: Seq<char>) -> spec_fn((Seq<char>, T)) -> bool {
    |e: (Seq<char>, T)| e.0 != path
}

/// The pairs after `put(path, result)`: any pair for `path` goes, the new
/// one is appended, and past eight the oldest is dropped.
pub open spec fn tint_put<T>(s: Seq<(Seq<char>, T)>, path: Seq<char>, result: T) -> Seq<(Seq<char>, T)> {
    let pushed = s.filter(other_path(path)).push((path, result));
    if pushed.len() > TINT_MAX_ENTRIES {
        pushed.drop_first()
    } else {
        pushed
    }
}

proof fn lemma_lookup_absent<T>(s: Seq<(Seq<char>, T)>, path: Seq<char>)
    requires
        forall|i: int| 0 <= i < s.len() ==> (#[trigger] s[i]).0 != path,
    ensures
        tint_lookup(s, path) is None,
    decreases s.len(),
{
    if s.len() > 0 {
        assert forall|i: int| 0 <= i < s.drop_first().len() implies (#[trigger] s.drop_first()[i]).0 != path by {
            assert(s.drop_first()[i] == s[i + 1]);
        }
        lemma_lookup_absent(s.drop_first(), path);
    }
}

proof fn lemma_lookup_last<T>(s: Seq<(Seq<char>, T)>, path: Seq<char>)
    requires
        s.len() > 0,
        s.last().0 == path,
        forall|i: int| 0 <= i < s.len() - 1 ==> (#[trigger] s[i]).0 != path,
    ensures
        tint_lookup(s, path) == Some(s.last().1),
    decreases s.len(),
{
    if s.len() > 1 {
        assert forall|i: int| 0 <= i < s.drop_first().len() - 1 implies (#[trigger] s.drop_first()[i]).0 != path by {
            assert(s.drop_first()[i] == s[i + 1]);
        }
        lemma_lookup_last(s.drop_first(), path);
    }
}

proof fn lemma_lookup_index<T>(s: Seq<(Seq<char>, T)>, path: Seq<char>, k: int)
    requires
        0 <= k < s.len(),
        s[k].0 == path,
        forall|i: int| 0 <= i < k ==> (#[trigger] s[i]).0 != path,
    ensures
        tint_lookup(s, path) == Some(s[k].1),
    decreases k,
{
    if k > 0 {
        assert forall|i: int| 0 <= i < k - 1 implies (#[trigger] s.drop_first()[i]).0 != path by {
            assert(s.drop_first()[i] == s[i + 1]);
        }
        lemma_lookup_index(s.drop_first(), path, k - 1);
    }
}

/// Reading a path right after caching a result for it gives that result,
/// and a cache of at most eight entries stays so.
pub proof fn tint_put_then_lookup<T>(s: Seq<(Seq<char>, T)>, path: Seq<char>, result: T)
    ensures
        tint_lookup(tint_put(s, path, result), path) == Some(result),
        s.len() <= TINT_MAX_ENTRIES ==> tint_put(s, path, result).len() <= TINT_MAX_ENTRIES,
{
    let kept = s.filter(other_path(path));
    let pushed = kept.push((path, result));
    assert forall|i: int| 0 <= i < kept.len() implies (#[trigger] kept[i]).0 != path by {
        s.lemma_filter_pred(other_path(path), i);
    }
    s.lemma_filter_len(other_path(path));
    let r = tint_put(s, path, result);
    if pushed.len() > TINT_MAX_ENTRIES {
        assert(r == pushed.drop_first());
        assert forall|i: int| 0 <= i < r.len() - 1 implies (#[trigger] r[i]).0 != path by {
            assert(r[i] == pushed[i + 1]);
            assert(pushed[i + 1] == kept[i + 1]);
        }
    } else {
        assert(r == pushed);
        assert forall|i: int| 0 <= i < r.len() - 1 implies (#[trigger] r[i]).0 != path by {
            assert(r[i] == kept[i]);
        }
    }
    lemma_lookup_last(r, path);
}

/// The tint cache.
pub struct TintCache<T> {
    entries: Vec<TintEntry<T>>,
}

impl<T: Copy> TintCache<T> {
    /// The cached (path, result) pairs, oldest first.
    pub closed spec fn pairs(&self) -> Seq<(Seq<char>, T)> {
        tint_pairs(self.entries@)
    }

    pub fn new() -> (c: Self)
        ensures
            c.pairs().len() == 0,
    {
        TintCache { entries: Vec::new() }
    }

    /// The result cached for `wallpaper_path`.
    pub fn get(&self, wallpaper_path: &str) -> (r: Option<T>)
        ensures
            r == tint_lookup(self.pairs(), wallpaper_path@),
    {
        let want = char_vec(wallpaper_path);
        let ghost s = tint_pairs(self.entries@);
        let mut i: usize = 0;
        while i < self.entries.len()
            invariant
                0 <= i <= self.entries@.len(),
                s == tint_pairs(self.entries@),
                want@ == wallpaper_path@,
                forall|j: int| 0 <= j < i ==> (#[trigger] s[j]).0 != wallpaper_path@,
            decreases self.entries@.len() - i,
        {
            let p = char_vec(self.entries[i].path.as_str());
            if chars_equal(&p, &want) {
                proof {
                    lemma_lookup_index(s, wallpaper_path@, i as int);
                }
                return Some(self.entries[i].result);
            }
            i = i + 1;
        }
        proof {
            lemma_lookup_absent(s, wallpaper_path@);
        }
        None
    }

    /// Caches `result` for `wallpaper_path`, replacing an older result for
    /// it; past eight entries the oldest goes.
    pub fn put(&mut self, wallpaper_path: &str, result: T)
        ensures
            final(self).pairs() == tint_put(old(self).pairs(), wallpaper_path@, result),
    {
        let want = char_vec(wallpaper_path);
        let ghost p = other_path::<T>(wallpaper_path@);
        let ghost all = tint_pairs(self.entries@);
        let mut rest: Vec<TintEntry<T>> = Vec::new();
        std::mem::swap(&mut rest, &mut self.entries);
        let ghost orig = rest@;
        let mut kept: Vec<TintEntry<T>> = Vec::new();
        let ghost mut i: int = 0;
        while rest.len() > 0
            invariant
                0 <= i <= orig.len(),
                all == tint_pairs(orig),
                want@ == wallpaper_path@,
                rest@ == orig.subrange(i, orig.len() as int),
                p == other_path::<T>(wallpaper_path@),
                tint_pairs(kept@) == all.subrange(0, i).filter(p),
            decreases rest@.len(),
        {
            proof {
                reveal_with_fuel(Seq::filter, 1);
                assert(all.subrange(0, i + 1).drop_last() =~= all.subrange(0, i));
            }
            let e = rest.remove(0);
            proof {
                assert(e == orig[i]);
                assert(all.subrange(0, i + 1).last() == (e.path@, e.result));
            }
            let ep = char_vec(e.path.as_str());
            let ghost before = kept@;
            if !chars_equal(&ep, &want) {
                kept.push(e);
                assert(tint_pairs(kept@) =~= tint_pairs(before).push((e.path@, e.result)));
            }
            proof {
                i = i + 1;
                assert(rest@ =~= orig.subrange(i, orig.len() as int));
            }
        }
        assert(all.subrange(0, i) =~= all);
        let ghost before = kept@;
        kept.push(TintEntry { path: wallpaper_path.to_owned(), result });
        assert(tint_pairs(kept@) =~= tint_pairs(before).push((wallpaper_path@, result)));
        if kept.len() > TINT_MAX_ENTRIES {
            let ghost b2 = kept@;
            kept.remove(0);
            assert(tint_pairs(kept@) =~= tint_pairs(b2).drop_first());
        }
        self.entries = kept;
    }

    /// Forgets everything (memory pressure).
    pub fn evict_all(&mut self)
        ensures
            final(self).pairs().len() == 0,
    {
        self.entries.clear();
    }

    /// Keeps only the result for the current wallpaper.
    pub fn evict_stale(&mut self, current_wallpaper: &str)
        ensures
            final(self).pairs() == old(self).pairs().filter(|e: (Seq<char>, T)| e.0 == current_wallpaper@),
    {
        let want = char_vec(current_wallpaper);
        let ghost p = |e: (Seq<char>, T)| e.0 == current_wallpaper@;
        let ghost all = tint_pairs(self.entries@);
        let mut rest: Vec<TintEntry<T>> = Vec::new();
        std::mem::swap(&mut rest, &mut self.entries);
        let ghost orig = rest@;
        let mut kept: Vec<TintEntry<T>> = Vec::new();
        let ghost mut i: int = 0;
        while rest.len() > 0
            invariant
                0 <= i <= orig.len(),
                all == tint_pairs(orig),
                want@ == current_wallpaper@,
                rest@ == orig.subrange(i, orig.len() as int),
                p == (|e: (Seq<char>, T)| e.0 == current_wallpaper@),
                tint_pairs(kept@) == all.subrange(0, i).filter(p),
            decreases rest@.len(),
        {
            proof {
                reveal_with_fuel(Seq::filter, 1);
                assert(all.subrange(0, i + 1).drop_last() =~= all.subrange(0, i));
            }
            let e = rest.remove(0);
            proof {
                assert(e == orig[i]);
                assert(all.subrange(0, i + 1).last() == (e.path@, e.result));
            }
            let ep = char_vec(e.path.as_str());
            let ghost before = kept@;
            if chars_equal(&ep, &want) {
                kept.push(e);
                assert(tint_pairs(kept@) =~= tint_pairs(before).push((e.path@, e.result)));
            }
            proof {
                i = i + 1;
                assert(rest@ =~= orig.subrange(i, orig.len() as int));
            }
        }
        assert(all.subrange(0, i) =~= all);
        self.entries = kept;
    }

    pub fn entry_count(&self) -> (n: usize)
        ensures
            n == self.pairs().len(),
    {
        self.entries.len()
    }
}

} // verus!
