//! Laws of the ring of evictions: what is found in it, and for how long.

use vstd::prelude::*;

use crate::ghost::{self, GhostHash, GhostList};

verus! {

/// An entry with no later entry of the same hash is the latest of it.
proof fn lemma_latest(ring: Seq<(Seq<u8>, u64)>, hash: Seq<u8>, i: int)
    requires
        0 <= i < ring.len(),
        ring[i].0 == hash,
        forall|j: int| i < j < ring.len() ==> (#[trigger] ring[j]).0 != hash,
    ensures
        ghost::latest(ring, hash) == Some(ring[i].1),
    decreases ring.len(),
{
    if i < ring.len() - 1 {
        let front = ring.drop_last();
        assert(ring[ring.len() - 1].0 != hash);
        assert forall|j: int| i < j < front.len() implies (#[trigger] front[j]).0 != hash by {
            assert(ring[j].0 != hash);
        }
        lemma_latest(front, hash, i);
    }
}

/// A lookup tells the seconds since the latest recorded eviction of a hash, none where the
/// clock went back, and finds nothing exactly if the hash is not in the ring.
pub proof fn law_lookups_find_the_latest_eviction(
    g: GhostList,
    hash: GhostHash,
    now: u64,
    i: int,
    r: Option<u64>,
)
    requires
        call_ensures(GhostList::lookup, (&g, &hash, now), r),
    ensures
        0 <= i < g@.len() && g@[i].0 == hash@ && (forall|j: int|
            i < j < g@.len() ==> (#[trigger] g@[j]).0 != hash@) ==> (r matches Some(age) && (now
            >= g@[i].1 ==> age == now - g@[i].1) && (now < g@[i].1 ==> age == 0)),
        r is None <==> forall|j: int| 0 <= j < g@.len() ==> (#[trigger] g@[j]).0 != hash@,
{
    if 0 <= i < g@.len() && g@[i].0 == hash@ && (forall|j: int|
        i < j < g@.len() ==> (#[trigger] g@[j]).0 != hash@) {
        lemma_latest(g@, hash@, i);
    }
    ghost::law_found_iff_in_ring(g@, hash@);
}

/// An eviction that was just recorded is found with its own time, in any ring with room.
pub proof fn law_recorded_evictions_are_found(
    g: &mut GhostList,
    hash: GhostHash,
    at: u64,
    now: u64,
    r: Option<u64>,
    room: usize,
)
    requires
        old(g).wf(),
        call_ensures(GhostList::capacity, (&*old(g),), room),
        room > 0,
        call_ensures(GhostList::insert, (g, hash, at), ()),
        call_ensures(GhostList::lookup, (&*final(g), &hash, now), r),
    ensures
        r matches Some(age) && (now >= at ==> age == now - at) && (now < at ==> age == 0),
{
    ghost::law_latest_eviction_wins(old(g)@, old(g).room(), hash@, at, hash@);
}

/// Recording an eviction adds it at the end. Only a ring that is full loses anything, and that
/// is its oldest entry; a ring without room stays as it is.
pub proof fn law_only_the_oldest_is_lost(
    g: &mut GhostList,
    hash: GhostHash,
    at: u64,
    room: usize,
    room_after: usize,
)
    requires
        old(g).wf(),
        call_ensures(GhostList::capacity, (&*old(g),), room),
        call_ensures(GhostList::insert, (g, hash, at), ()),
        call_ensures(GhostList::capacity, (&*final(g),), room_after),
    ensures
        room_after == room,
        room == 0 ==> final(g)@ == old(g)@,
        0 < room && old(g)@.len() < room ==> final(g)@ == old(g)@.push((hash@, at)),
        0 < room && old(g)@.len() == room ==> final(g)@ == old(g)@.skip(1).push((hash@, at)),
        final(g)@.len() <= room,
{
    if 0 < room && old(g)@.len() == room {
        assert(old(g)@.push((hash@, at)).drop_first() =~= old(g)@.skip(1).push((hash@, at)));
    }
}

/// The ring counts different hashes: none at first, one more for a hash that is new to a ring
/// with a place left, and no more for one that it holds already.
pub proof fn law_hashes_are_counted_once(
    backend: String,
    capacity: usize,
    fresh: GhostList,
    none: usize,
    g: &mut GhostList,
    hash: GhostHash,
    at: u64,
    now: u64,
    known: Option<u64>,
    before: usize,
    after: usize,
)
    requires
        call_ensures(GhostList::new, (backend, capacity), fresh),
        call_ensures(GhostList::len, (&fresh,), none),
        old(g).wf(),
        old(g)@.len() < old(g).room(),
        call_ensures(GhostList::lookup, (&*old(g), &hash, now), known),
        call_ensures(GhostList::len, (&*old(g),), before),
        call_ensures(GhostList::insert, (g, hash, at), ()),
        call_ensures(GhostList::len, (&*final(g),), after),
    ensures
        none == 0,
        known is None ==> after == before + 1,
        known is Some ==> after == before,
        fresh.label() == backend@,
{
    let f = |e: (Seq<u8>, u64)| e.0;
    assert(fresh@.map_values(f) =~= Seq::<Seq<u8>>::empty());
    assert(ghost::hashes(fresh@) =~= Set::<Seq<u8>>::empty());
    let ring = old(g)@;
    let grown = final(g)@;
    assert(grown == ring.push((hash@, at)));
    let a = ring.map_values(f);
    let b = grown.map_values(f);
    assert(b =~= a.push(hash@));
    assert(ghost::hashes(grown) =~= ghost::hashes(ring).insert(hash@)) by {
        assert forall|x: Seq<u8>|
            #[trigger] b.contains(x) <==> (a.contains(x) || x == hash@) by {
            if b.contains(x) {
                let k = choose|k: int| 0 <= k < b.len() && b[k] == x;
                if k < a.len() {
                    assert(a[k] == x);
                }
            }
            if a.contains(x) {
                let k = choose|k: int| 0 <= k < a.len() && a[k] == x;
                assert(b[k] == x);
            }
            assert(b[a.len() as int] == hash@);
        }
    }
    ghost::law_found_iff_in_ring(ring, hash@);
    assert(ghost::hashes(ring).contains(hash@) <==> known is Some) by {
        if known is Some {
            let i = choose|i: int| 0 <= i < ring.len() && (#[trigger] ring[i]).0 == hash@;
            assert(a[i] == hash@);
        }
        if a.contains(hash@) {
            let k = choose|k: int| 0 <= k < a.len() && a[k] == hash@;
            assert(ring[k].0 == hash@);
        }
    }
    assert(ghost::hashes(ring).finite()) by {
        vstd::seq_lib::seq_to_set_is_finite(a);
    }
}

} // verus!
