//! A bounded ring of recently evicted chunks, for measuring how soon a chunk is missed
//! after its eviction.

use std::collections::VecDeque;
use vstd::prelude::*;

verus! {

/// A 32-byte chunk hash.
pub type GhostHash = [u8; 32];

/// Evictions in order, oldest first: the hash and the second it was evicted at.
pub struct GhostList {
    backend: String,
    capacity: usize,
    ring: VecDeque<(GhostHash, u64)>,
}

/// The most recent eviction of `hash` in a ring.
pub open spec fn latest(ring: Seq<(Seq<u8>, u64)>, hash: Seq<u8>) -> Option<u64>
    decreases ring.len(),
{
    if ring.len() == 0 {
        None
    } else if ring.last().0 == hash {
        Some(ring.last().1)
    } else {
        latest(ring.drop_last(), hash)
    }
}

/// A ring after one more eviction, with room for `capacity` entries.
pub open spec fn ring_after(
    ring: Seq<(Seq<u8>, u64)>,
    capacity: nat,
    hash: Seq<u8>,
    at: u64,
) -> Seq<(Seq<u8>, u64)> {
    if capacity == 0 {
        ring
    } else if ring.len() == capacity {
        ring.push((hash, at)).drop_first()
    } else {
        ring.push((hash, at))
    }
}

/// The different hashes in a ring.
pub open spec fn hashes(ring: Seq<(Seq<u8>, u64)>) -> Set<Seq<u8>> {
    ring.map_values(|e: (Seq<u8>, u64)| e.0).to_set()
}

/// The view of ring entries.
pub open spec fn entry_views(entries: Seq<(GhostHash, u64)>) -> Seq<(Seq<u8>, u64)> {
    entries.map_values(|e: (GhostHash, u64)| (e.0@, e.1))
}

/// Seconds from `at` to `now`, zero if the clock went back.
pub open spec fn age(now: u64, at: u64) -> u64 {
    if now >= at {
        (now - at) as u64
    } else {
        0
    }
}

/// Whether two hashes are equal.
fn same_hash(a: &GhostHash, b: &GhostHash) -> (r: bool)
    ensures
        r == (a@ == b@),
{
    let mut i: usize = 0;
    while i < 32
        invariant
            i <= 32,
            forall|j: int| 0 <= j < i ==> a@[j] == b@[j],
        decreases 32 - i,
    {
        if a[i] != b[i] {
            return false;
        }
        i += 1;
    }
    assert(a@ =~= b@);
    true
}

impl View for GhostList {
    type V = Seq<(Seq<u8>, u64)>;

    closed spec fn view(&self) -> Seq<(Seq<u8>, u64)> {
        entry_views(self.ring@)
    }
}

impl GhostList {
    /// The name of the backend.
    pub closed spec fn label(&self) -> Seq<char> {
        self.backend@
    }

    /// The largest number of entries.
    pub closed spec fn room(&self) -> nat {
        self.capacity as nat
    }

    /// The ring never outgrows its capacity.
    pub open spec fn wf(&self) -> bool {
        self@.len() <= self.room()
    }

    /// An empty ring. A capacity of zero switches it off.
    pub fn new(backend: String, capacity: usize) -> (r: Self)
        ensures
            r.wf(),
            r@ == Seq::<(Seq<u8>, u64)>::empty(),
            r.label() == backend@,
            r.room() == capacity,
    {
        let r = GhostList { backend, capacity, ring: VecDeque::new() };
        assert(r@ =~= Seq::<(Seq<u8>, u64)>::empty());
        r
    }

    /// The name of the backend.
    pub fn backend(&self) -> (r: &str)
        ensures
            r@ == self.label(),
    {
        self.backend.as_str()
    }

    /// The largest number of entries.
    pub fn capacity(&self) -> (r: usize)
        ensures
            r == self.room(),
    {
        self.capacity
    }

    /// Records an eviction; a full ring loses its oldest entry.
    pub fn insert(&mut self, hash: GhostHash, evicted_at_unix: u64)
        requires
            old(self).wf(),
        ensures
            final(self).wf(),
            final(self)@ == ring_after(old(self)@, old(self).room(), hash@, evicted_at_unix),
            final(self).label() == old(self).label(),
            final(self).room() == old(self).room(),
    {
        if self.capacity == 0 {
            return;
        }
        let ghost before = self.ring@;
        if self.ring.len() == self.capacity {
            let _ = self.ring.pop_front();
        }
        self.ring.push_back((hash, evicted_at_unix));
        assert(self@ =~= ring_after(
            entry_views(before),
            self.capacity as nat,
            hash@,
            evicted_at_unix,
        ));
    }

    /// Seconds since the most recent recorded eviction of `hash`, if it is in the ring.
    pub fn lookup(&self, hash: &GhostHash, now_unix_secs: u64) -> (r: Option<u64>)
        requires
            self.wf(),
        ensures
            r == match latest(self@, hash@) {
                Some(at) => Some(age(now_unix_secs, at)),
                None => None,
            },
    {
        let mut n: usize = self.ring.len();
        assert(self@.take(n as int) =~= self@);
        while n > 0
            invariant
                n <= self.ring@.len(),
                self@.len() == self.ring@.len(),
                latest(self@, hash@) == latest(self@.take(n as int), hash@),
            decreases n,
        {
            let entry = &self.ring[n - 1];
            proof {
                let t = self@.take(n as int);
                assert(t.last() == (entry.0@, entry.1));
                assert(t.drop_last() =~= self@.take(n - 1));
            }
            if same_hash(&entry.0, hash) {
                let at: u64 = entry.1;
                return if now_unix_secs >= at {
                    Some(now_unix_secs - at)
                } else {
                    Some(0)
                };
            }
            n -= 1;
        }
        None
    }

    /// The number of different hashes in the ring.
    pub fn len(&self) -> (r: usize)
        requires
            self.wf(),
        ensures
            r == hashes(self@).len(),
    {
        let mut count: usize = 0;
        let mut i: usize = 0;
        proof {
            assert(self@.take(0).map_values(|e: (Seq<u8>, u64)| e.0) =~= Seq::<Seq<u8>>::empty());
            assert(hashes(self@.take(0)) =~= Set::<Seq<u8>>::empty());
        }
        while i < self.ring.len()
            invariant
                i <= self.ring@.len(),
                self@.len() == self.ring@.len(),
                count <= i,
                hashes(self@.take(i as int)).finite(),
                count == hashes(self@.take(i as int)).len(),
            decreases self.ring@.len() - i,
        {
            let mut seen = false;
            let mut j: usize = 0;
            while j < i
                invariant
                    j <= i,
                    i < self.ring@.len(),
                    self@.len() == self.ring@.len(),
                    seen == exists|k: int| 0 <= k < j && (#[trigger] self@[k]).0 == self@[i as int].0,
                decreases i - j,
            {
                if same_hash(&self.ring[j].0, &self.ring[i].0) {
                    assert(self@[j as int].0 == self@[i as int].0);
                    seen = true;
                }
                j += 1;
            }
            proof {
                lemma_hashes_step(self@, i as int);
            }
            if !seen {
                count += 1;
            }
            i += 1;
        }
        assert(self@.take(i as int) =~= self@);
        count
    }
}

/// One more entry adds its hash to the set.
proof fn lemma_hashes_step(ring: Seq<(Seq<u8>, u64)>, i: int)
    requires
        0 <= i < ring.len(),
    ensures
        hashes(ring.take(i + 1)) == hashes(ring.take(i)).insert(ring[i].0),
        hashes(ring.take(i)).contains(ring[i].0) <==> exists|k: int|
            0 <= k < i && (#[trigger] ring[k]).0 == ring[i].0,
{
    let f = |e: (Seq<u8>, u64)| e.0;
    let a = ring.take(i).map_values(f);
    let b = ring.take(i + 1).map_values(f);
    assert(b =~= a.push(ring[i].0));
    assert forall|x: Seq<u8>| hashes(ring.take(i + 1)).contains(x) <==> #[trigger] hashes(
        ring.take(i),
    ).insert(ring[i].0).contains(x) by {
        if b.contains(x) {
            let k = choose|k: int| 0 <= k < b.len() && b[k] == x;
            if k < i {
                assert(a[k] == x);
            }
        }
        if a.contains(x) {
            let k = choose|k: int| 0 <= k < a.len() && a[k] == x;
            assert(b[k] == x);
        }
        assert(b[i] == ring[i].0);
    }
    assert(hashes(ring.take(i + 1)) =~= hashes(ring.take(i)).insert(ring[i].0));
    if a.contains(ring[i].0) {
        let k = choose|k: int| 0 <= k < a.len() && a[k] == ring[i].0;
        assert(ring[k].0 == ring[i].0);
    }
    if exists|k: int| 0 <= k < i && (#[trigger] ring[k]).0 == ring[i].0 {
        let k = choose|k: int| 0 <= k < i && (#[trigger] ring[k]).0 == ring[i].0;
        assert(a[k] == ring[i].0);
    }
}

/// Dropping the oldest entry changes nothing for a hash that also occurs later.
proof fn lemma_latest_drop_first(ring: Seq<(Seq<u8>, u64)>, hash: Seq<u8>)
    requires
        ring.len() > 0,
    ensures
        latest(ring.drop_first(), hash) == if ring[0].0 == hash && latest(
            ring.drop_first(),
            hash,
        ) is None {
            None
        } else {
            latest(ring, hash)
        },
        latest(ring.drop_first(), hash) is Some ==> latest(ring.drop_first(), hash) == latest(
            ring,
            hash,
        ),
    decreases ring.len(),
{
    let t = ring.drop_first();
    if ring.len() == 1 {
        assert(t.len() == 0);
        assert(latest(ring.drop_last(), hash) is None);
    } else {
        assert(t.last() == ring.last());
        assert(t.drop_last() =~= ring.drop_last().drop_first());
        assert(ring.drop_last()[0] == ring[0]);
        lemma_latest_drop_first(ring.drop_last(), hash);
    }
}

/// A hash is found exactly when it is in the ring.
pub proof fn law_found_iff_in_ring(ring: Seq<(Seq<u8>, u64)>, hash: Seq<u8>)
    ensures
        latest(ring, hash) is Some <==> exists|i: int|
            0 <= i < ring.len() && (#[trigger] ring[i]).0 == hash,
    decreases ring.len(),
{
    if ring.len() > 0 {
        let d = ring.drop_last();
        law_found_iff_in_ring(d, hash);
        if latest(d, hash) is Some {
            let i = choose|i: int| 0 <= i < d.len() && (#[trigger] d[i]).0 == hash;
            assert(ring[i].0 == hash);
        }
        if exists|i: int| 0 <= i < ring.len() && (#[trigger] ring[i]).0 == hash {
            let i = choose|i: int| 0 <= i < ring.len() && (#[trigger] ring[i]).0 == hash;
            if i < d.len() {
                assert(d[i].0 == hash);
            }
        }
    }
}

/// With any room at all, an eviction is found right after it was recorded, with its own
/// time; and a hash other than the one pushed out keeps what was known of it.
pub proof fn law_latest_eviction_wins(
    ring: Seq<(Seq<u8>, u64)>,
    capacity: nat,
    hash: Seq<u8>,
    at: u64,
    other: Seq<u8>,
)
    requires
        ring.len() <= capacity,
        capacity >= 1,
    ensures
        latest(ring_after(ring, capacity, hash, at), hash) == Some(at),
        ring_after(ring, capacity, hash, at).len() <= capacity,
        other != hash && (ring.len() < capacity || ring[0].0 != other) ==> latest(
            ring_after(ring, capacity, hash, at),
            other,
        ) == latest(ring, other),
{
    let pushed = ring.push((hash, at));
    assert(pushed.drop_last() =~= ring);
    assert(pushed.last() == (hash, at));
    if ring.len() == capacity {
        let r = pushed.drop_first();
        assert(r.last() == (hash, at));
        assert(r.drop_last() =~= ring.drop_first());
        lemma_latest_drop_first(ring, other);
    }
}

/// A hash whose most recent record is not the oldest entry survives the overflow: only a
/// hash that occurs nowhere else leaves with the oldest entry.
pub proof fn law_refreshed_hash_survives_overflow(
    ring: Seq<(Seq<u8>, u64)>,
    capacity: nat,
    hash: Seq<u8>,
    at: u64,
    other: Seq<u8>,
)
    requires
        ring.len() == capacity,
        capacity >= 1,
        other != hash,
    ensures
        latest(ring_after(ring, capacity, hash, at), other) == latest(ring.drop_first(), other),
        latest(ring.drop_first(), other) is Some ==> latest(
            ring_after(ring, capacity, hash, at),
            other,
        ) == latest(ring, other),
{
    let r = ring.push((hash, at)).drop_first();
    assert(r.last() == (hash, at));
    assert(r.drop_last() =~= ring.drop_first());
    lemma_latest_drop_first(ring, other);
}

/// Without capacity nothing is ever recorded.
pub proof fn law_zero_capacity_records_nothing(hash: Seq<u8>, at: u64)
    ensures
        ring_after(Seq::empty(), 0, hash, at) == Seq::<(Seq<u8>, u64)>::empty(),
        latest(Seq::empty(), hash) is None,
{
}

} // verus!
