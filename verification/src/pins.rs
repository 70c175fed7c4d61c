//! Reference counts that keep chunk files from being removed.

use vstd::prelude::*;

use crate::text;

verus! {

/// What a pin refers to: a hash within a backend and, if it has one, a namespace.
#[derive(Debug, Clone, PartialEq, Eq)]
pub struct PinKey {
    pub backend: String,
    pub namespace: Option<String>,
    pub hash: String,
}

/// The abstract pin key.
pub struct PinKeyView {
    pub backend: Seq<char>,
    pub namespace: Option<Seq<char>>,
    pub hash: Seq<char>,
}

impl View for PinKey {
    type V = PinKeyView;

    open spec fn view(&self) -> PinKeyView {
        PinKeyView {
            backend: self.backend@,
            namespace: match self.namespace {
                Some(ns) => Some(ns@),
                None => None,
            },
            hash: self.hash@,
        }
    }
}

impl PinKey {
    /// Builds a key.
    pub fn new(backend: &str, namespace: Option<&str>, hash: &str) -> (r: Self)
        ensures
            r@ == (PinKeyView {
                backend: backend@,
                namespace: match namespace {
                    Some(ns) => Some(ns@),
                    None => None,
                },
                hash: hash@,
            }),
    {
        PinKey {
            backend: backend.to_owned(),
            namespace: match namespace {
                Some(ns) => Some(ns.to_owned()),
                None => None,
            },
            hash: hash.to_owned(),
        }
    }

    /// A copy.
    fn copy(&self) -> (r: Self)
        ensures
            r@ == self@,
    {
        PinKey {
            backend: self.backend.clone(),
            namespace: text::clone_opt(&self.namespace),
            hash: self.hash.clone(),
        }
    }

    /// Whether two keys are equal.
    fn same(&self, other: &PinKey) -> (r: bool)
        ensures
            r == (self@ == other@),
    {
        let namespaces = match (&self.namespace, &other.namespace) {
            (Some(a), Some(b)) => text::same(a.as_str(), b.as_str()),
            (None, None) => true,
            _ => false,
        };
        namespaces && text::same(self.backend.as_str(), other.backend.as_str()) && text::same(
            self.hash.as_str(),
            other.hash.as_str(),
        )
    }
}

/// Pins by key, with how often each is held.
pub struct PinTable {
    rows: Vec<(PinKey, u32)>,
}

/// The count of a key in a sequence of rows.
pub open spec fn row_count(rows: Seq<(PinKey, u32)>, key: PinKeyView) -> nat
    decreases rows.len(),
{
    if rows.len() == 0 {
        0
    } else if rows.last().0@ == key {
        rows.last().1 as nat
    } else {
        row_count(rows.drop_last(), key)
    }
}

/// No key twice, and no row that counts nothing.
pub open spec fn rows_wf(rows: Seq<(PinKey, u32)>) -> bool {
    &&& forall|i: int, j: int|
        0 <= i < j < rows.len() ==> (#[trigger] rows[i]).0@ != (#[trigger] rows[j]).0@
    &&& forall|i: int| 0 <= i < rows.len() ==> (#[trigger] rows[i]).1 > 0
}

/// A row's count is its key's count; a key without a row counts zero.
proof fn lemma_row_count(rows: Seq<(PinKey, u32)>, key: PinKeyView)
    requires
        rows_wf(rows),
    ensures
        forall|i: int|
            0 <= i < rows.len() && (#[trigger] rows[i]).0@ == key ==> row_count(rows, key)
                == rows[i].1,
        (forall|i: int| 0 <= i < rows.len() ==> (#[trigger] rows[i]).0@ != key) ==> row_count(
            rows,
            key,
        ) == 0,
    decreases rows.len(),
{
    if rows.len() > 0 {
        let d = rows.drop_last();
        assert forall|i: int, j: int| 0 <= i < j < d.len() implies (#[trigger] d[i]).0@ != (
        #[trigger] d[j]).0@ by {
            assert(rows[i].0@ != rows[j].0@);
        }
        assert forall|i: int| 0 <= i < d.len() implies (#[trigger] d[i]).1 > 0 by {
            assert(rows[i].1 > 0);
        }
        lemma_row_count(d, key);
        assert forall|i: int| 0 <= i < rows.len() && (#[trigger] rows[i]).0@ == key implies row_count(
            rows,
            key,
        ) == rows[i].1 by {
            if i < d.len() {
                assert(d[i] == rows[i]);
                assert(rows[i].0@ != rows[rows.len() - 1].0@);
            }
        }
        if forall|i: int| 0 <= i < rows.len() ==> (#[trigger] rows[i]).0@ != key {
            assert forall|i: int| 0 <= i < d.len() implies (#[trigger] d[i]).0@ != key by {
                assert(rows[i].0@ != key);
            }
            assert(rows[rows.len() - 1].0@ != key);
        }
    }
}

/// `after` holds one pin of `key` more than `before`, and is otherwise the same.
pub open spec fn pinned_once_more(before: PinTable, after: PinTable, key: PinKeyView) -> bool {
    forall|k: PinKeyView| #[trigger]
        after.count(k) == before.count(k) + if k == key {
            1int
        } else {
            0
        }
}

/// `after` holds one pin of `key` less than `before`, if there was one, and is otherwise the
/// same.
pub open spec fn pinned_once_less(before: PinTable, after: PinTable, key: PinKeyView) -> bool {
    forall|k: PinKeyView| #[trigger]
        after.count(k) == if k == key && before.count(k) > 0 {
            before.count(k) - 1
        } else {
            before.count(k) as int
        }
}

/// Giving a pin back undoes taking it: every key is pinned as often as before.
pub proof fn law_unpin_undoes_pin(t0: PinTable, t1: PinTable, t2: PinTable, key: PinKeyView)
    requires
        pinned_once_more(t0, t1, key),
        pinned_once_less(t1, t2, key),
    ensures
        forall|k: PinKeyView| #[trigger] t2.count(k) == t0.count(k),
{
    assert forall|k: PinKeyView| #[trigger] t2.count(k) == t0.count(k) by {
        let _ = t1.count(k);
    }
}

/// A key stays pinned while any of its overlapping pins is held.
pub proof fn law_overlapping_pins(
    t0: PinTable,
    t1: PinTable,
    t2: PinTable,
    t3: PinTable,
    key: PinKeyView,
)
    requires
        pinned_once_more(t0, t1, key),
        pinned_once_more(t1, t2, key),
        pinned_once_less(t2, t3, key),
    ensures
        t3.count(key) > 0,
{
    let _ = t1.count(key);
    let _ = t2.count(key);
}

/// Pinning or unpinning one key changes no other: pins are scoped by backend, namespace and
/// hash.
pub proof fn law_pins_are_scoped(
    before: PinTable,
    after: PinTable,
    key: PinKeyView,
    other: PinKeyView,
)
    requires
        pinned_once_more(before, after, key) || pinned_once_less(before, after, key),
        other.backend != key.backend || other.namespace != key.namespace || other.hash != key.hash,
    ensures
        after.count(other) == before.count(other),
{
    let _ = after.count(other);
}

impl PinTable {
    /// The table can be used.
    pub closed spec fn wf(&self) -> bool {
        rows_wf(self.rows@)
    }

    /// How often a key is pinned.
    pub closed spec fn count(&self, key: PinKeyView) -> nat {
        row_count(self.rows@, key)
    }

    /// A table without pins.
    pub fn new() -> (r: Self)
        ensures
            r.wf(),
            forall|k: PinKeyView| #[trigger] r.count(k) == 0,
    {
        PinTable { rows: Vec::new() }
    }

    fn position(&self, key: &PinKey) -> (r: Option<usize>)
        requires
            self.wf(),
        ensures
            match r {
                Some(i) => i < self.rows@.len() && self.rows@[i as int].0@ == key@ && self.count(
                    key@,
                ) == self.rows@[i as int].1,
                None => self.count(key@) == 0 && forall|i: int|
                    0 <= i < self.rows@.len() ==> (#[trigger] self.rows@[i]).0@ != key@,
            },
    {
        proof {
            lemma_row_count(self.rows@, key@);
        }
        let mut i: usize = 0;
        while i < self.rows.len()
            invariant
                i <= self.rows@.len(),
                forall|j: int|
                    0 <= j < self.rows@.len() && (#[trigger] self.rows@[j]).0@ == key@
                        ==> self.count(key@) == self.rows@[j].1,
                forall|j: int| 0 <= j < i ==> (#[trigger] self.rows@[j]).0@ != key@,
                (forall|j: int| 0 <= j < self.rows@.len() ==> (#[trigger] self.rows@[j]).0@ != key@)
                    ==> self.count(key@) == 0,
            decreases self.rows@.len() - i,
        {
            if self.rows[i].0.same(key) {
                return Some(i);
            }
            i += 1;
        }
        None
    }

    /// How often a key is pinned.
    pub fn times_pinned(&self, key: &PinKey) -> (r: u32)
        requires
            self.wf(),
        ensures
            r == self.count(key@),
    {
        match self.position(key) {
            Some(i) => self.rows[i].1,
            None => 0,
        }
    }

    /// Whether a key is pinned.
    pub fn is_pinned(&self, key: &PinKey) -> (r: bool)
        requires
            self.wf(),
        ensures
            r == (self.count(key@) > 0),
    {
        match self.position(key) {
            Some(i) => {
                assert(self.rows@[i as int].1 > 0);
                true
            },
            None => false,
        }
    }

    /// Pins a key once more.
    pub fn pin(&mut self, key: &PinKey)
        requires
            old(self).wf(),
            old(self).count(key@) < u32::MAX,
        ensures
            final(self).wf(),
            pinned_once_more(*old(self), *final(self), key@),
    {
        let ghost before = self.rows@;
        match self.position(key) {
            Some(i) => {
                let row = self.rows.remove(i);
                let n: u32 = row.1 + 1;
                self.rows.insert(i, (row.0, n));
                proof {
                    assert(self.rows@ =~= before.update(i as int, (row.0, n)));
                    lemma_updated(before, self.rows@, i as int);
                }
            },
            None => {
                self.rows.push((key.copy(), 1));
                proof {
                    let rows = self.rows@;
                    assert(rows.drop_last() =~= before);
                    assert(rows_wf(rows)) by {
                        assert forall|i: int, j: int| 0 <= i < j < rows.len() implies (
                        #[trigger] rows[i]).0@ != (#[trigger] rows[j]).0@ by {
                            assert(rows[i] == before[i]);
                            if j < before.len() {
                                assert(rows[j] == before[j]);
                            }
                        }
                        assert forall|i: int| 0 <= i < rows.len() implies (#[trigger] rows[i]).1
                            > 0 by {
                            if i < before.len() {
                                assert(rows[i] == before[i]);
                            }
                        }
                    }
                }
            },
        }
    }

    /// Gives one pin of a key back; a key without a pin is left alone.
    pub fn unpin(&mut self, key: &PinKey)
        requires
            old(self).wf(),
        ensures
            final(self).wf(),
            pinned_once_less(*old(self), *final(self), key@),
    {
        let ghost before = self.rows@;
        match self.position(key) {
            Some(i) => {
                assert(before[i as int].1 > 0);
                let row = self.rows.remove(i);
                if row.1 > 1 {
                    let n: u32 = row.1 - 1;
                    self.rows.insert(i, (row.0, n));
                    proof {
                        assert(self.rows@ =~= before.update(i as int, (row.0, n)));
                        lemma_updated(before, self.rows@, i as int);
                    }
                } else {
                    proof {
                        assert(self.rows@ =~= before.remove(i as int));
                        lemma_removed(before, self.rows@, i as int);
                    }
                }
            },
            None => {},
        }
    }
}

/// Changing one row's count changes that key's count and no other.
proof fn lemma_updated(before: Seq<(PinKey, u32)>, after: Seq<(PinKey, u32)>, i: int)
    requires
        rows_wf(before),
        0 <= i < before.len(),
        after.len() == before.len(),
        after[i].0@ == before[i].0@,
        after[i].1 > 0,
        forall|j: int| 0 <= j < before.len() && j != i ==> after[j] == before[j],
    ensures
        rows_wf(after),
        row_count(after, before[i].0@) == after[i].1,
        forall|k: PinKeyView|
            k != before[i].0@ ==> #[trigger] row_count(after, k) == row_count(before, k),
{
    assert forall|a: int, b: int| 0 <= a < b < after.len() implies (#[trigger] after[a]).0@ != (
    #[trigger] after[b]).0@ by {
        assert(before[a].0@ != before[b].0@);
    }
    assert forall|a: int| 0 <= a < after.len() implies (#[trigger] after[a]).1 > 0 by {
        assert(before[a].1 > 0);
    }
    lemma_row_count(after, before[i].0@);
    assert forall|k: PinKeyView| k != before[i].0@ implies #[trigger] row_count(after, k)
        == row_count(before, k) by {
        lemma_row_count(after, k);
        lemma_row_count(before, k);
        if exists|j: int| 0 <= j < before.len() && (#[trigger] before[j]).0@ == k {
            let j = choose|j: int| 0 <= j < before.len() && (#[trigger] before[j]).0@ == k;
            assert(after[j].0@ == k);
        } else {
            assert forall|j: int| 0 <= j < after.len() implies (#[trigger] after[j]).0@ != k by {
                assert(before[j].0@ != k);
            }
        }
    }
}

/// Removing a row zeroes that key's count and no other.
proof fn lemma_removed(before: Seq<(PinKey, u32)>, after: Seq<(PinKey, u32)>, i: int)
    requires
        rows_wf(before),
        0 <= i < before.len(),
        after == before.remove(i),
    ensures
        rows_wf(after),
        row_count(after, before[i].0@) == 0,
        forall|k: PinKeyView|
            k != before[i].0@ ==> #[trigger] row_count(after, k) == row_count(before, k),
{
    assert forall|a: int, b: int| 0 <= a < b < after.len() implies (#[trigger] after[a]).0@ != (
    #[trigger] after[b]).0@ by {
        let pa = if a < i { a } else { a + 1 };
        let pb = if b < i { b } else { b + 1 };
        assert(before[pa].0@ != before[pb].0@);
    }
    assert forall|a: int| 0 <= a < after.len() implies (#[trigger] after[a]).1 > 0 by {
        let pa = if a < i { a } else { a + 1 };
        assert(before[pa].1 > 0);
    }
    lemma_row_count(after, before[i].0@);
    assert forall|a: int| 0 <= a < after.len() implies (#[trigger] after[a]).0@
        != before[i].0@ by {
        let pa = if a < i { a } else { a + 1 };
        if pa < i {
            assert(before[pa].0@ != before[i].0@);
        } else {
            assert(before[i].0@ != before[pa].0@);
        }
    }
    assert forall|k: PinKeyView| k != before[i].0@ implies #[trigger] row_count(after, k)
        == row_count(before, k) by {
        lemma_row_count(after, k);
        lemma_row_count(before, k);
        if exists|j: int| 0 <= j < before.len() && (#[trigger] before[j]).0@ == k {
            let j = choose|j: int| 0 <= j < before.len() && (#[trigger] before[j]).0@ == k;
            let nj = if j < i { j } else { j - 1 };
            assert(after[nj].0@ == k);
        } else {
            assert forall|a: int| 0 <= a < after.len() implies (#[trigger] after[a]).0@ != k by {
                let pa = if a < i { a } else { a + 1 };
                assert(before[pa].0@ != k);
            }
        }
    }
}

} // verus!
