//! Sequences used as maps: the first entry with a given key is the one
//! that counts, and storing under a key replaces that entry or appends.
use vstd::prelude::*;

verus! {

/// Index of the first entry at `k` or later whose key is `key`.
pub open spec fn find_by<T, K>(s: Seq<T>, key_of: spec_fn(T) -> K, key: K, k: int) -> Option<int>
    decreases s.len() - k,
{
    if 0 <= k < s.len() {
        if key_of(s[k]) == key { Some(k) } else { find_by(s, key_of, key, k + 1) }
    } else {
        None
    }
}

/// `s` after storing `v` under its key: the entry with that key is
/// replaced, or `v` is appended when there is none.
pub open spec fn store_by<T, K>(s: Seq<T>, key_of: spec_fn(T) -> K, v: T) -> Seq<T> {
    match find_by(s, key_of, key_of(v), 0) {
        Some(i) => s.update(i, v),
        None => s.push(v),
    }
}

pub proof fn lemma_find_by<T, K>(s: Seq<T>, key_of: spec_fn(T) -> K, key: K, k: int)
    requires
        0 <= k,
    ensures
        find_by(s, key_of, key, k) matches Some(i) ==> k <= i < s.len() && key_of(s[i]) == key && forall|j: int|
            k <= j < i ==> key_of(#[trigger] s[j]) != key,
        find_by(s, key_of, key, k) is None ==> forall|j: int| k <= j < s.len() ==> key_of(#[trigger] s[j]) != key,
    decreases s.len() - k,
{
    if k < s.len() {
        lemma_find_by(s, key_of, key, k + 1);
    }
}

/// The search finds the first matching entry.
pub proof fn lemma_find_by_first<T, K>(s: Seq<T>, key_of: spec_fn(T) -> K, key: K, k: int, i: int)
    requires
        0 <= k <= i < s.len(),
        key_of(s[i]) == key,
        forall|j: int| k <= j < i ==> key_of(#[trigger] s[j]) != key,
    ensures
        find_by(s, key_of, key, k) == Some(i),
    decreases i - k,
{
    if k < i {
        lemma_find_by_first(s, key_of, key, k + 1, i);
    }
}

/// Two sequences that agree on which entries carry `key` give the same search.
proof fn lemma_find_by_same<T, K>(s: Seq<T>, t: Seq<T>, key_of: spec_fn(T) -> K, key: K, k: int)
    requires
        0 <= k,
        s.len() == t.len(),
        forall|j: int| 0 <= j < s.len() ==> (key_of(#[trigger] s[j]) == key) == (key_of(t[j]) == key),
    ensures
        find_by(s, key_of, key, k) == find_by(t, key_of, key, k),
    decreases s.len() - k,
{
    if k < s.len() {
        lemma_find_by_same(s, t, key_of, key, k + 1);
    }
}

/// Appending an entry with another key leaves a search unchanged.
proof fn lemma_find_by_push_other<T, K>(s: Seq<T>, key_of: spec_fn(T) -> K, key: K, v: T, k: int)
    requires
        0 <= k,
        key_of(v) != key,
    ensures
        find_by(s.push(v), key_of, key, k) == find_by(s, key_of, key, k),
    decreases s.len() - k,
{
    if k < s.len() {
        assert(s.push(v)[k] == s[k]);
        lemma_find_by_push_other(s, key_of, key, v, k + 1);
    } else if k == s.len() {
        assert(s.push(v)[k] == v);
        assert(find_by(s.push(v), key_of, key, k + 1) is None);
    }
}

/// After storing `v`, looking up its key gives `v`, and every other key
/// gives what it gave before.
pub proof fn store_then_find<T, K>(s: Seq<T>, key_of: spec_fn(T) -> K, v: T)
    ensures
        find_by(store_by(s, key_of, v), key_of, key_of(v), 0) matches Some(j) && store_by(s, key_of, v)[j] == v,
        forall|other: K|
            other != key_of(v) ==> #[trigger] find_by(store_by(s, key_of, v), key_of, other, 0) == find_by(
                s,
                key_of,
                other,
                0,
            ) && (find_by(s, key_of, other, 0) matches Some(j) ==> store_by(s, key_of, v)[j] == s[j]),
{
    let key = key_of(v);
    let t = store_by(s, key_of, v);
    lemma_find_by(s, key_of, key, 0);
    match find_by(s, key_of, key, 0) {
        Some(i) => {
            lemma_find_by_first(t, key_of, key, 0, i);
            assert forall|other: K| other != key implies #[trigger] find_by(t, key_of, other, 0) == find_by(
                s,
                key_of,
                other,
                0,
            ) && (find_by(s, key_of, other, 0) matches Some(j) ==> t[j] == s[j]) by {
                lemma_find_by_same(s, t, key_of, other, 0);
                lemma_find_by(s, key_of, other, 0);
            }
        },
        None => {
            lemma_find_by_first(t, key_of, key, 0, s.len() as int);
            assert forall|other: K| other != key implies #[trigger] find_by(t, key_of, other, 0) == find_by(
                s,
                key_of,
                other,
                0,
            ) && (find_by(s, key_of, other, 0) matches Some(j) ==> t[j] == s[j]) by {
                lemma_find_by_push_other(s, key_of, other, v, 0);
                lemma_find_by(s, key_of, other, 0);
            }
        },
    }
}

} // verus!
