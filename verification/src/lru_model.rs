//! A bounded recency-ordered map, as a mathematical object.
//!
//! Entries are kept most recently used first. The `lru` crate's cache is specified
//! against these functions.

use vstd::prelude::*;

verus! {

/// The value stored under `key`, if any.
pub open spec fn lookup<V>(e: Seq<(Seq<char>, V)>, key: Seq<char>) -> Option<V>
    decreases e.len(),
{
    if e.len() == 0 {
        None
    } else if e[0].0 == key {
        Some(e[0].1)
    } else {
        lookup(e.drop_first(), key)
    }
}

/// The entries without the one stored under `key`, in the same order.
pub open spec fn without<V>(e: Seq<(Seq<char>, V)>, key: Seq<char>) -> Seq<(Seq<char>, V)>
    decreases e.len(),
{
    if e.len() == 0 {
        e
    } else if e[0].0 == key {
        without(e.drop_first(), key)
    } else {
        seq![e[0]] + without(e.drop_first(), key)
    }
}

/// The entries after a use of `key`: its entry, if any, moves to the front.
pub open spec fn promoted<V>(e: Seq<(Seq<char>, V)>, key: Seq<char>) -> Seq<(Seq<char>, V)> {
    match lookup(e, key) {
        Some(v) => seq![(key, v)] + without(e, key),
        None => e,
    }
}

/// The entries after storing `v` under `key` with room for `cap` entries: a known key is
/// replaced and moved to the front; a new key goes to the front, and pushes out the least
/// recently used entry when there is no room.
pub open spec fn stored<V>(e: Seq<(Seq<char>, V)>, cap: nat, key: Seq<char>, v: V) -> Seq<
    (Seq<char>, V),
> {
    if lookup(e, key) is Some {
        seq![(key, v)] + without(e, key)
    } else if e.len() == cap {
        seq![(key, v)] + e.drop_last()
    } else {
        seq![(key, v)] + e
    }
}

/// No key occurs twice.
pub open spec fn distinct_keys<V>(e: Seq<(Seq<char>, V)>) -> bool {
    forall|i: int, j: int| 0 <= i < j < e.len() ==> (#[trigger] e[i]).0 != (#[trigger] e[j]).0
}

/// A legal content for a cache with room for `cap` entries.
pub open spec fn bounded<V>(e: Seq<(Seq<char>, V)>, cap: nat) -> bool {
    distinct_keys(e) && e.len() <= cap && cap >= 1
}

/// `lookup` finds exactly the keys that occur.
pub proof fn lemma_lookup_index<V>(e: Seq<(Seq<char>, V)>, key: Seq<char>)
    ensures
        lookup(e, key) is Some <==> exists|i: int| 0 <= i < e.len() && (#[trigger] e[i]).0 == key,
        distinct_keys(e) ==> forall|i: int|
            0 <= i < e.len() && (#[trigger] e[i]).0 == key ==> lookup(e, key) == Some(e[i].1),
    decreases e.len(),
{
    if e.len() > 0 {
        let t = e.drop_first();
        lemma_lookup_index(t, key);
        assert forall|i: int| 0 <= i < t.len() implies t[i] == e[i + 1] by {}
        if e[0].0 != key {
            if lookup(t, key) is Some {
                let j = choose|j: int| 0 <= j < t.len() && (#[trigger] t[j]).0 == key;
                assert(e[j + 1].0 == key);
            }
            if exists|i: int| 0 <= i < e.len() && (#[trigger] e[i]).0 == key {
                let i = choose|i: int| 0 <= i < e.len() && (#[trigger] e[i]).0 == key;
                assert(t[i - 1].0 == key);
            }
        } else {
            assert(e[0].0 == key);
        }
        if distinct_keys(e) {
            assert(distinct_keys(t)) by {
                assert forall|i: int, j: int| 0 <= i < j < t.len() implies (#[trigger] t[i]).0 != (
                #[trigger] t[j]).0 by {
                    assert(e[i + 1].0 != e[j + 1].0);
                }
            }
            assert forall|i: int| 0 <= i < e.len() && (#[trigger] e[i]).0 == key implies lookup(
                e,
                key,
            ) == Some(e[i].1) by {
                if i > 0 {
                    assert(e[0].0 != e[i].0);
                    assert(t[i - 1].0 == key);
                }
            }
        }
    }
}

/// Removing a key leaves every other key alone.
pub proof fn lemma_without<V>(e: Seq<(Seq<char>, V)>, key: Seq<char>)
    ensures
        lookup(without(e, key), key) is None,
        forall|k: Seq<char>| k != key ==> #[trigger] lookup(without(e, key), k) == lookup(e, k),
        without(e, key).len() <= e.len(),
        lookup(e, key) is Some ==> without(e, key).len() < e.len(),
        lookup(e, key) is None ==> without(e, key) == e,
        distinct_keys(e) ==> distinct_keys(without(e, key)),
        forall|i: int|
            0 <= i < without(e, key).len() ==> (#[trigger] without(e, key)[i]).0 != key
                && e.contains(without(e, key)[i]),
    decreases e.len(),
{
    if e.len() > 0 {
        let t = e.drop_first();
        let w = without(t, key);
        lemma_without(t, key);
        assert forall|i: int| 0 <= i < t.len() implies t[i] == e[i + 1] by {}
        assert forall|x: (Seq<char>, V)| t.contains(x) implies e.contains(x) by {
            let i = choose|i: int| 0 <= i < t.len() && t[i] == x;
            assert(e[i + 1] == x);
        }
        assert(e.contains(e[0]));
        if e[0].0 == key {
            assert(without(e, key) == w);
        } else {
            let r = seq![e[0]] + w;
            assert(without(e, key) == r);
            assert(r.drop_first() =~= w);
            assert(e =~= seq![e[0]] + t);
            assert forall|k: Seq<char>| k != key implies #[trigger] lookup(r, k) == lookup(
                e,
                k,
            ) by {
                assert(lookup(w, k) == lookup(t, k));
                assert(r[0] == e[0]);
                assert(lookup(r, k) == if e[0].0 == k {
                    Some(e[0].1)
                } else {
                    lookup(r.drop_first(), k)
                });
            }
            assert forall|i: int| 0 <= i < r.len() implies (#[trigger] r[i]).0 != key
                && e.contains(r[i]) by {
                if i > 0 {
                    assert(r[i] == w[i - 1]);
                    assert(t.contains(w[i - 1]));
                }
            }
        }
        if distinct_keys(e) {
            assert(distinct_keys(t)) by {
                assert forall|i: int, j: int| 0 <= i < j < t.len() implies (#[trigger] t[i]).0 != (
                #[trigger] t[j]).0 by {
                    assert(e[i + 1].0 != e[j + 1].0);
                }
            }
            if e[0].0 != key {
                let r = without(e, key);
                assert forall|i: int, j: int| 0 <= i < j < r.len() implies (#[trigger] r[i]).0 != (
                #[trigger] r[j]).0 by {
                    if i == 0 {
                        assert(r[j] == w[j - 1]);
                        assert(t.contains(w[j - 1]));
                        let m = choose|m: int| 0 <= m < t.len() && t[m] == w[j - 1];
                        assert(e[0].0 != e[m + 1].0);
                    } else {
                        assert(r[i] == w[i - 1] && r[j] == w[j - 1]);
                    }
                }
            }
        }
    }
}

/// Putting a fresh key in front.
proof fn lemma_front<V>(w: Seq<(Seq<char>, V)>, key: Seq<char>, v: V)
    requires
        lookup(w, key) is None,
    ensures
        lookup(seq![(key, v)] + w, key) == Some(v),
        forall|k: Seq<char>| k != key ==> #[trigger] lookup(seq![(key, v)] + w, k) == lookup(w, k),
        distinct_keys(w) ==> distinct_keys(seq![(key, v)] + w),
{
    let r = seq![(key, v)] + w;
    assert(r.drop_first() =~= w);
    assert(r[0] == (key, v));
    lemma_lookup_index(w, key);
    if distinct_keys(w) {
        assert forall|i: int, j: int| 0 <= i < j < r.len() implies (#[trigger] r[i]).0 != (
        #[trigger] r[j]).0 by {
            assert(r[j] == w[j - 1]);
            if i > 0 {
                assert(r[i] == w[i - 1]);
            }
        }
    }
}

/// Dropping the last entry forgets its key and no other.
proof fn lemma_drop_last<V>(e: Seq<(Seq<char>, V)>, k: Seq<char>)
    requires
        e.len() > 0,
        distinct_keys(e),
    ensures
        distinct_keys(e.drop_last()),
        lookup(e.drop_last(), k) == if k == e.last().0 {
            None
        } else {
            lookup(e, k)
        },
{
    let d = e.drop_last();
    lemma_lookup_index(e, k);
    lemma_lookup_index(d, k);
    assert forall|i: int| 0 <= i < d.len() implies d[i] == e[i] by {}
    assert(distinct_keys(d));
    if lookup(d, k) is Some {
        let i = choose|i: int| 0 <= i < d.len() && (#[trigger] d[i]).0 == k;
        assert(e[i].0 == k);
        assert(e[i].0 != e[e.len() - 1].0);
    } else if k != e.last().0 && lookup(e, k) is Some {
        let i = choose|i: int| 0 <= i < e.len() && (#[trigger] e[i]).0 == k;
        assert(i != e.len() - 1);
        assert(d[i].0 == k);
    }
}

/// Using a key changes no value and keeps the cache legal.
pub proof fn lemma_promoted<V>(e: Seq<(Seq<char>, V)>, cap: nat, key: Seq<char>)
    requires
        bounded(e, cap),
    ensures
        bounded(promoted(e, key), cap),
        forall|k: Seq<char>| #[trigger] lookup(promoted(e, key), k) == lookup(e, k),
{
    lemma_without(e, key);
    match lookup(e, key) {
        Some(v) => lemma_front(without(e, key), key, v),
        None => {},
    }
}

/// Storing a value: the key holds it, the cache stays legal, and another key keeps its
/// value unless it was the least recently used one of a full cache.
pub proof fn lemma_stored<V>(e: Seq<(Seq<char>, V)>, cap: nat, key: Seq<char>, v: V)
    requires
        bounded(e, cap),
    ensures
        bounded(stored(e, cap, key, v), cap),
        lookup(stored(e, cap, key, v), key) == Some(v),
        forall|k: Seq<char>|
            k != key ==> #[trigger] lookup(stored(e, cap, key, v), k) == (if lookup(e, key) is None
                && e.len() == cap && k == e.last().0 {
                None
            } else {
                lookup(e, k)
            }),
{
    lemma_without(e, key);
    if lookup(e, key) is Some {
        lemma_front(without(e, key), key, v);
    } else if e.len() == cap {
        lemma_drop_last(e, key);
        lemma_front(e.drop_last(), key, v);
        assert forall|k: Seq<char>| k != key implies #[trigger] lookup(
            stored(e, cap, key, v),
            k,
        ) == (if k == e.last().0 {
            None
        } else {
            lookup(e, k)
        }) by {
            lemma_drop_last(e, k);
        }
    } else {
        lemma_front(e, key, v);
    }
}

/// Removing a key keeps the cache legal.
pub proof fn lemma_removed<V>(e: Seq<(Seq<char>, V)>, cap: nat, key: Seq<char>)
    requires
        bounded(e, cap),
    ensures
        bounded(without(e, key), cap),
        lookup(without(e, key), key) is None,
        forall|k: Seq<char>| k != key ==> #[trigger] lookup(without(e, key), k) == lookup(e, k),
{
    lemma_without(e, key);
}

} // verus!
