//! Tables with one entry per key, modelled as sequences: placing an entry
//! replaces the one with the same key in place, or appends it.

use vstd::prelude::*;

verus! {

/// No two entries of `s` share a key.
pub open spec fn keys_unique<V, K>(s: Seq<V>, key: spec_fn(V) -> K) -> bool {
    forall|i: int, j: int|
        0 <= i < s.len() && 0 <= j < s.len() && i != j ==> key(#[trigger] s[i]) != key(
            #[trigger] s[j],
        )
}

/// Some entry of `s` has key `k`.
pub open spec fn has_key<V, K>(s: Seq<V>, k: K, key: spec_fn(V) -> K) -> bool {
    exists|i: int| 0 <= i < s.len() && key(#[trigger] s[i]) == k
}

/// An index of `s` whose entry has key `k`.
pub open spec fn key_index<V, K>(s: Seq<V>, k: K, key: spec_fn(V) -> K) -> int {
    choose|i: int| 0 <= i < s.len() && key(#[trigger] s[i]) == k
}

/// `s` with `x` placed: over the entry with the same key, or at the end.
pub open spec fn place<V, K>(s: Seq<V>, x: V, key: spec_fn(V) -> K) -> Seq<V> {
    if has_key(s, key(x), key) {
        s.update(key_index(s, key(x), key), x)
    } else {
        s.push(x)
    }
}

/// The table built by placing the entries of `s` in order: the last entry
/// of each key wins, at the position where that key first appeared.
pub open spec fn table_of<V, K>(s: Seq<V>, key: spec_fn(V) -> K) -> Seq<V>
    decreases s.len(),
{
    if s.len() == 0 {
        Seq::empty()
    } else {
        place(table_of(s.drop_last(), key), s.last(), key)
    }
}

pub proof fn lemma_place_unique<V, K>(s: Seq<V>, x: V, key: spec_fn(V) -> K)
    requires
        keys_unique(s, key),
    ensures
        keys_unique(place(s, x, key), key),
        forall|k: K| has_key(place(s, x, key), k, key) <==> (has_key(s, k, key) || k == key(x)),
        forall|i: int|
            0 <= i < place(s, x, key).len() ==> (#[trigger] place(s, x, key)[i] == x || exists|
                j: int,
            | 0 <= j < s.len() && place(s, x, key)[i] == s[j]),
{
    let t = place(s, x, key);
    if has_key(s, key(x), key) {
        let m = key_index(s, key(x), key);
        assert forall|k: K| has_key(t, k, key) <==> (has_key(s, k, key) || k == key(x)) by {
            if has_key(s, k, key) {
                let i = choose|i: int| 0 <= i < s.len() && key(#[trigger] s[i]) == k;
                if i == m {
                    assert(key(t[m]) == key(x));
                } else {
                    assert(key(t[i]) == k);
                }
            }
            if k == key(x) {
                assert(key(t[m]) == k);
            }
            if has_key(t, k, key) {
                let i = choose|i: int| 0 <= i < t.len() && key(#[trigger] t[i]) == k;
                if i != m {
                    assert(key(s[i]) == k);
                }
            }
        }
        assert forall|i: int| 0 <= i < t.len() implies (#[trigger] t[i] == x || exists|j: int|
            0 <= j < s.len() && t[i] == s[j]) by {
            if i != m {
                assert(t[i] == s[i]);
            }
        }
    } else {
        assert forall|i: int, j: int|
            0 <= i < t.len() && 0 <= j < t.len() && i != j implies key(#[trigger] t[i]) != key(
            #[trigger] t[j],
        ) by {
            if i == s.len() as int {
                assert(key(t[j]) == key(s[j]));
            } else if j == s.len() as int {
                assert(key(t[i]) == key(s[i]));
            }
        }
        assert forall|k: K| has_key(t, k, key) <==> (has_key(s, k, key) || k == key(x)) by {
            if has_key(s, k, key) {
                let i = choose|i: int| 0 <= i < s.len() && key(#[trigger] s[i]) == k;
                assert(key(t[i]) == k);
            }
            if k == key(x) {
                assert(key(t[s.len() as int]) == k);
            }
            if has_key(t, k, key) {
                let i = choose|i: int| 0 <= i < t.len() && key(#[trigger] t[i]) == k;
                if i < s.len() {
                    assert(key(s[i]) == k);
                }
            }
        }
        assert forall|i: int| 0 <= i < t.len() implies (#[trigger] t[i] == x || exists|j: int|
            0 <= j < s.len() && t[i] == s[j]) by {
            if i < s.len() {
                assert(t[i] == s[i]);
            }
        }
    }
}

/// A built table has unique keys; it holds exactly the keys of its source,
/// and each of its entries is an entry of the source.
pub proof fn lemma_table_of<V, K>(s: Seq<V>, key: spec_fn(V) -> K)
    ensures
        keys_unique(table_of(s, key), key),
        forall|k: K| has_key(table_of(s, key), k, key) <==> has_key(s, k, key),
        forall|i: int|
            0 <= i < table_of(s, key).len() ==> exists|j: int|
                0 <= j < s.len() && #[trigger] table_of(s, key)[i] == s[j],
    decreases s.len(),
{
    if s.len() > 0 {
        let p = s.drop_last();
        lemma_table_of(p, key);
        lemma_place_unique(table_of(p, key), s.last(), key);
        let t = table_of(s, key);
        assert forall|k: K| has_key(t, k, key) <==> has_key(s, k, key) by {
            if has_key(p, k, key) {
                let i = choose|i: int| 0 <= i < p.len() && key(#[trigger] p[i]) == k;
                assert(s[i] == p[i]);
            }
            if k == key(s.last()) {
                assert(s[s.len() - 1] == s.last());
            }
            if has_key(s, k, key) {
                let i = choose|i: int| 0 <= i < s.len() && key(#[trigger] s[i]) == k;
                if i < s.len() - 1 {
                    assert(p[i] == s[i]);
                }
            }
        }
        assert forall|i: int| 0 <= i < t.len() implies exists|j: int|
            0 <= j < s.len() && #[trigger] t[i] == s[j] by {
            if t[i] == s.last() {
                assert(t[i] == s[s.len() - 1]);
            } else {
                let j = choose|j: int| 0 <= j < table_of(p, key).len() && t[i] == table_of(p, key)[j];
                let l = choose|l: int| 0 <= l < p.len() && #[trigger] table_of(p, key)[j] == p[l];
                assert(t[i] == s[l]);
            }
        }
    }
}

} // verus!
