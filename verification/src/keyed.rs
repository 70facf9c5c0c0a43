//! Sequences of entries keyed by text, each key at most once: lookup, insertion in
//! place of an entry with the same key, and removal.
use vstd::prelude::*;

verus! {

/// Whether no key occurs twice.
pub open spec fn keys_distinct<V>(s: Seq<(Seq<char>, V)>) -> bool {
    forall|i: int, j: int| 0 <= i < j < s.len() ==> s[i].0 != s[j].0
}

/// Position of the entry with key `k`, if any.
pub open spec fn key_index<V>(s: Seq<(Seq<char>, V)>, k: Seq<char>) -> Option<int> {
    if exists|i: int| 0 <= i < s.len() && s[i].0 == k {
        Some(choose|i: int| 0 <= i < s.len() && s[i].0 == k)
    } else {
        None
    }
}

/// Entries after storing `v` under `k`: in place of the entry with that key, or last.
pub open spec fn upsert_kv<V>(s: Seq<(Seq<char>, V)>, k: Seq<char>, v: V) -> Seq<(Seq<char>, V)> {
    match key_index(s, k) {
        Some(i) => s.update(i, (k, v)),
        None => s.push((k, v)),
    }
}

/// Where an entry stored under `k` goes.
pub open spec fn upsert_kv_position<V>(s: Seq<(Seq<char>, V)>, k: Seq<char>) -> int {
    match key_index(s, k) {
        Some(i) => i,
        None => s.len() as int,
    }
}

/// Entries without the one with key `k`.
pub open spec fn remove_kv<V>(s: Seq<(Seq<char>, V)>, k: Seq<char>) -> Seq<(Seq<char>, V)> {
    match key_index(s, k) {
        Some(i) => s.remove(i),
        None => s,
    }
}

/// The position found by [`key_index`] is the only one with its key.
pub(crate) proof fn lemma_key_index_unique<V>(s: Seq<(Seq<char>, V)>, k: Seq<char>, i: int)
    requires
        keys_distinct(s),
        0 <= i < s.len(),
        s[i].0 == k,
    ensures
        key_index(s, k) == Some(i),
{
    let c = choose|j: int| 0 <= j < s.len() && s[j].0 == k;
    if c != i {
        if c < i {
            assert(s[c].0 != s[i].0);
        } else {
            assert(s[i].0 != s[c].0);
        }
    }
}

/// Storing keeps keys distinct, and the stored entry is found at its position.
pub(crate) proof fn lemma_upsert_kv<V>(s: Seq<(Seq<char>, V)>, k: Seq<char>, v: V)
    requires
        keys_distinct(s),
    ensures
        keys_distinct(upsert_kv(s, k, v)),
        upsert_kv(s, k, v)[upsert_kv_position(s, k)] == (k, v),
        0 <= upsert_kv_position(s, k) < upsert_kv(s, k, v).len(),
{
    let a = upsert_kv(s, k, v);
    match key_index(s, k) {
        Some(i) => {
            assert forall|x: int, y: int| 0 <= x < y < a.len() implies a[x].0 != a[y].0 by {
                assert(a[x].0 == s[x].0);
                assert(a[y].0 == s[y].0);
            }
        },
        None => {
            assert forall|x: int, y: int| 0 <= x < y < a.len() implies a[x].0 != a[y].0 by {
                if y == s.len() {
                    assert(a[x] == s[x]);
                    assert(!(0 <= x < s.len() && s[x].0 == k));
                } else {
                    assert(a[x] == s[x] && a[y] == s[y]);
                }
            }
        },
    }
}

/// Replacing the value at a position keeps keys distinct.
pub(crate) proof fn lemma_update_value<V>(s: Seq<(Seq<char>, V)>, i: int, v: V)
    requires
        keys_distinct(s),
        0 <= i < s.len(),
    ensures
        keys_distinct(s.update(i, (s[i].0, v))),
{
    let a = s.update(i, (s[i].0, v));
    assert forall|x: int, y: int| 0 <= x < y < a.len() implies a[x].0 != a[y].0 by {
        assert(a[x].0 == s[x].0);
        assert(a[y].0 == s[y].0);
    }
}

/// Removing an entry keeps keys distinct.
pub(crate) proof fn lemma_remove_kv<V>(s: Seq<(Seq<char>, V)>, k: Seq<char>)
    requires
        keys_distinct(s),
    ensures
        keys_distinct(remove_kv(s, k)),
{
    match key_index(s, k) {
        Some(i) => {
            let a = s.remove(i);
            assert forall|x: int, y: int| 0 <= x < y < a.len() implies a[x].0 != a[y].0 by {
                let sx = if x < i { x } else { x + 1 };
                let sy = if y < i { y } else { y + 1 };
                assert(a[x] == s[sx] && a[y] == s[sy]);
            }
        },
        None => {},
    }
}

} // verus!
