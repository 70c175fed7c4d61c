//! A table from names to values, kept in lexicographic order of the names.

use vstd::prelude::*;

use crate::text;

verus! {

/// Lexicographic order by code point.
pub open spec fn precedes(a: Seq<char>, b: Seq<char>) -> bool
    decreases a.len(),
{
    if b.len() == 0 {
        false
    } else if a.len() == 0 {
        true
    } else {
        a[0] < b[0] || (a[0] == b[0] && precedes(a.drop_first(), b.drop_first()))
    }
}

/// No text precedes itself.
pub proof fn lemma_irreflexive(a: Seq<char>)
    ensures
        !precedes(a, a),
    decreases a.len(),
{
    if a.len() > 0 {
        lemma_irreflexive(a.drop_first());
    }
}

/// The order is transitive.
pub proof fn lemma_transitive(a: Seq<char>, b: Seq<char>, c: Seq<char>)
    requires
        precedes(a, b),
        precedes(b, c),
    ensures
        precedes(a, c),
    decreases a.len(),
{
    if a.len() > 0 && a[0] == b[0] && b[0] == c[0] {
        lemma_transitive(a.drop_first(), b.drop_first(), c.drop_first());
    }
}

/// Two different texts are in order one way or the other.
pub proof fn lemma_total(a: Seq<char>, b: Seq<char>)
    ensures
        a == b || precedes(a, b) || precedes(b, a),
    decreases a.len(),
{
    if a.len() > 0 && b.len() > 0 && a[0] == b[0] {
        lemma_total(a.drop_first(), b.drop_first());
        if a.drop_first() == b.drop_first() {
            assert(a =~= seq![a[0]] + a.drop_first());
            assert(b =~= seq![b[0]] + b.drop_first());
        }
    } else if a.len() == 0 && b.len() == 0 {
        assert(a =~= b);
    }
}

/// A shared beginning does not decide the order.
proof fn lemma_skip_equal(a: Seq<char>, b: Seq<char>, n: int)
    requires
        0 <= n <= a.len(),
        n <= b.len(),
        forall|i: int| 0 <= i < n ==> a[i] == b[i],
    ensures
        precedes(a, b) == precedes(a.skip(n), b.skip(n)),
    decreases n,
{
    if n == 0 {
        assert(a.skip(0) =~= a);
        assert(b.skip(0) =~= b);
    } else {
        assert(a[0] == b[0]);
        lemma_skip_equal(a.drop_first(), b.drop_first(), n - 1);
        assert(a.drop_first().skip(n - 1) =~= a.skip(n));
        assert(b.drop_first().skip(n - 1) =~= b.skip(n));
    }
}

/// Whether `a` comes strictly before `b`.
pub fn comes_before(a: &str, b: &str) -> (r: bool)
    ensures
        r == precedes(a@, b@),
{
    let x = text::chars_of(a);
    let y = text::chars_of(b);
    let mut i: usize = 0;
    while i < x.len() && i < y.len()
        invariant
            x@ == a@,
            y@ == b@,
            i <= x@.len(),
            i <= y@.len(),
            forall|j: int| 0 <= j < i ==> x@[j] == y@[j],
        decreases x@.len() - i,
    {
        if x[i] != y[i] {
            proof {
                lemma_skip_equal(x@, y@, i as int);
                assert(x@.skip(i as int)[0] == x@[i as int]);
                assert(y@.skip(i as int)[0] == y@[i as int]);
            }
            return x[i] < y[i];
        }
        i += 1;
    }
    proof {
        lemma_skip_equal(x@, y@, i as int);
    }
    i < y.len()
}

/// Values by name; names are distinct and in lexicographic order.
#[derive(Debug, Clone)]
pub struct NameTable<V> {
    rows: Vec<(String, V)>,
}

/// The value stored under a name in a sequence of rows.
pub open spec fn row_map<V>(rows: Seq<(String, V)>) -> Map<Seq<char>, V> {
    Map::new(
        |k: Seq<char>| exists|i: int| 0 <= i < rows.len() && (#[trigger] rows[i]).0@ == k,
        |k: Seq<char>|
            rows[choose|i: int| 0 <= i < rows.len() && (#[trigger] rows[i]).0@ == k].1,
    )
}

/// The rows are in strict order of their names.
pub open spec fn in_order<V>(rows: Seq<(String, V)>) -> bool {
    forall|i: int, j: int|
        0 <= i < j < rows.len() ==> precedes((#[trigger] rows[i]).0@, (#[trigger] rows[j]).0@)
}

/// In ordered rows, each row is what its name maps to.
proof fn lemma_row<V>(rows: Seq<(String, V)>, i: int)
    requires
        in_order(rows),
        0 <= i < rows.len(),
    ensures
        row_map(rows).contains_key(rows[i].0@),
        row_map(rows)[rows[i].0@] == rows[i].1,
{
    let k = rows[i].0@;
    let j = choose|j: int| 0 <= j < rows.len() && (#[trigger] rows[j]).0@ == k;
    assert(rows[i].0@ == k);
    lemma_irreflexive(k);
    if j < i {
        assert(precedes(rows[j].0@, rows[i].0@));
    } else if i < j {
        assert(precedes(rows[i].0@, rows[j].0@));
    }
}

impl<V> View for NameTable<V> {
    type V = Map<Seq<char>, V>;

    closed spec fn view(&self) -> Map<Seq<char>, V> {
        row_map(self.rows@)
    }
}

impl<V> NameTable<V> {
    /// Names are distinct and in order.
    pub closed spec fn wf(&self) -> bool {
        in_order(self.rows@)
    }

    /// The names, in order.
    pub closed spec fn names(&self) -> Seq<Seq<char>> {
        self.rows@.map_values(|row: (String, V)| row.0@)
    }

    /// The names are exactly the keys, each once, in strict order.
    pub proof fn lemma_names(&self)
        requires
            self.wf(),
        ensures
            forall|i: int, j: int|
                0 <= i < j < self.names().len() ==> precedes(
                    #[trigger] self.names()[i],
                    #[trigger] self.names()[j],
                ),
            forall|k: Seq<char>| #[trigger] self@.contains_key(k) <==> self.names().contains(k),
            self.names().no_duplicates(),
            self@.dom() =~= self.names().to_set(),
    {
        let names = self.names();
        assert forall|i: int, j: int| 0 <= i < j < names.len() implies precedes(
            #[trigger] names[i],
            #[trigger] names[j],
        ) by {
            assert(precedes(self.rows@[i].0@, self.rows@[j].0@));
        }
        assert forall|k: Seq<char>| #[trigger] self@.contains_key(k) <==> names.contains(k) by {
            if self@.contains_key(k) {
                let i = choose|i: int|
                    0 <= i < self.rows@.len() && (#[trigger] self.rows@[i]).0@ == k;
                assert(names[i] == k);
            }
            if names.contains(k) {
                let i = choose|i: int| 0 <= i < names.len() && names[i] == k;
                assert(self.rows@[i].0@ == k);
            }
        }
        assert forall|i: int, j: int|
            0 <= i < names.len() && 0 <= j < names.len() && i != j implies names[i]
            != names[j] by {
            lemma_irreflexive(names[i]);
            if i < j {
                assert(precedes(names[i], names[j]));
            } else {
                assert(precedes(names[j], names[i]));
            }
        }
    }

    /// An empty table.
    pub fn new() -> (r: Self)
        ensures
            r.wf(),
            r@ == Map::<Seq<char>, V>::empty(),
            r.names().len() == 0,
    {
        let r = NameTable { rows: Vec::new() };
        assert(r@ =~= Map::<Seq<char>, V>::empty());
        r
    }

    /// How many names there are.
    pub fn len(&self) -> (r: usize)
        ensures
            r == self.names().len(),
    {
        self.rows.len()
    }

    /// The name in row `i`.
    pub fn name_at(&self, i: usize) -> (r: &str)
        requires
            i < self.names().len(),
        ensures
            r@ == self.names()[i as int],
    {
        self.rows[i].0.as_str()
    }

    /// The value in row `i`.
    pub fn value_at(&self, i: usize) -> (r: &V)
        requires
            self.wf(),
            i < self.names().len(),
        ensures
            self@.contains_key(self.names()[i as int]),
            *r == self@[self.names()[i as int]],
    {
        proof {
            lemma_row(self.rows@, i as int);
        }
        &self.rows[i].1
    }

    /// The row of `name`, or the row where it belongs.
    fn position(&self, name: &str) -> (r: (bool, usize))
        requires
            self.wf(),
        ensures
            r.1 <= self.rows@.len(),
            r.0 ==> r.1 < self.rows@.len() && self.rows@[r.1 as int].0@ == name@,
            !r.0 ==> !self@.contains_key(name@),
            forall|i: int| 0 <= i < r.1 ==> precedes((#[trigger] self.rows@[i]).0@, name@),
            !r.0 ==> forall|i: int|
                r.1 <= i < self.rows@.len() ==> precedes(name@, (#[trigger] self.rows@[i]).0@),
    {
        let mut i: usize = 0;
        while i < self.rows.len()
            invariant
                self.wf(),
                i <= self.rows@.len(),
                forall|j: int| 0 <= j < i ==> precedes((#[trigger] self.rows@[j]).0@, name@),
            decreases self.rows@.len() - i,
        {
            if text::same(self.rows[i].0.as_str(), name) {
                return (true, i);
            }
            if comes_before(name, self.rows[i].0.as_str()) {
                proof {
                    assert forall|j: int| i <= j < self.rows@.len() implies precedes(
                        name@,
                        (#[trigger] self.rows@[j]).0@,
                    ) by {
                        if i < j {
                            lemma_transitive(
                                name@,
                                self.rows@[i as int].0@,
                                self.rows@[j].0@,
                            );
                        }
                    }
                    lemma_irreflexive(name@);
                }
                return (false, i);
            }
            proof {
                lemma_total(name@, self.rows@[i as int].0@);
            }
            i += 1;
        }
        proof {
            lemma_irreflexive(name@);
        }
        (false, i)
    }

    /// The value stored under `name`.
    pub fn get(&self, name: &str) -> (r: Option<&V>)
        requires
            self.wf(),
        ensures
            r is Some <==> self@.contains_key(name@),
            r matches Some(v) ==> *v == self@[name@],
    {
        let (found, i) = self.position(name);
        if found {
            proof {
                lemma_row(self.rows@, i as int);
            }
            Some(&self.rows[i].1)
        } else {
            None
        }
    }

    /// Stores `value` under `name`, replacing what was there.
    pub fn insert(&mut self, name: &str, value: V)
        requires
            old(self).wf(),
        ensures
            final(self).wf(),
            final(self)@ == old(self)@.insert(name@, value),
    {
        let (found, i) = self.position(name);
        let ghost before = self.rows@;
        if found {
            let kept = self.rows.remove(i);
            self.rows.insert(i, (kept.0, value));
            proof {
                assert(self.rows@ =~= before.update(i as int, (kept.0, value)));
                assert(in_order(self.rows@)) by {
                    assert forall|a: int, b: int| 0 <= a < b < self.rows@.len() implies precedes(
                        (#[trigger] self.rows@[a]).0@,
                        (#[trigger] self.rows@[b]).0@,
                    ) by {
                        assert(precedes(before[a].0@, before[b].0@));
                    }
                }
            }
        } else {
            self.rows.insert(i, (name.to_owned(), value));
            proof {
                assert(in_order(self.rows@)) by {
                    assert forall|a: int, b: int| 0 <= a < b < self.rows@.len() implies precedes(
                        (#[trigger] self.rows@[a]).0@,
                        (#[trigger] self.rows@[b]).0@,
                    ) by {
                        let pa = if a < i { a } else { a - 1 };
                        let pb = if b < i { b } else { b - 1 };
                        if a != i {
                            assert(self.rows@[a] == before[pa]);
                        }
                        if b != i {
                            assert(self.rows@[b] == before[pb]);
                        }
                        if a != i && b != i {
                            assert(precedes(before[pa].0@, before[pb].0@));
                        }
                    }
                }
            }
        }
        proof {
            let rows = self.rows@;
            let was = row_map(before);
            assert(rows[i as int].0@ == name@ && rows[i as int].1 == value);
            lemma_row(rows, i as int);
            assert forall|k: Seq<char>| row_map(rows).contains_key(k) <==> #[trigger] was.insert(
                name@,
                value,
            ).contains_key(k) by {
                if was.contains_key(k) {
                    let a = choose|a: int| 0 <= a < before.len() && (#[trigger] before[a]).0@ == k;
                    let na = if found || a < i { a } else { a + 1 };
                    assert(rows[na].0@ == k);
                }
                if row_map(rows).contains_key(k) && k != name@ {
                    let a = choose|a: int| 0 <= a < rows.len() && (#[trigger] rows[a]).0@ == k;
                    let pa = if found || a < i { a } else { a - 1 };
                    assert(before[pa].0@ == k);
                }
            }
            assert forall|k: Seq<char>| row_map(rows).contains_key(k) implies #[trigger] row_map(
                rows,
            )[k] == was.insert(name@, value)[k] by {
                if k != name@ {
                    let a = choose|a: int| 0 <= a < rows.len() && (#[trigger] rows[a]).0@ == k;
                    let pa = if found || a < i { a } else { a - 1 };
                    assert(before[pa].0@ == k && before[pa].1 == rows[a].1);
                    lemma_row(rows, a);
                    lemma_row(before, pa);
                }
            }
            assert(self@ =~= old(self)@.insert(name@, value));
        }
    }
}

} // verus!
