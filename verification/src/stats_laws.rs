//! Laws of the in-process counters: what each call counts, and what it leaves alone.

use vstd::prelude::*;

use crate::live_stats::{
    ChunkCounters,
    ChunkSnapshot,
    LiveStats,
    LiveStatsSnapshot,
    PoolCounters,
    PoolSnapshot,
    StorageCounters,
    StorageSnapshot,
};
use crate::table::NameTable;

verus! {

/// Whether `after` is `before` and `n` more, where a counter that runs over starts again.
pub open spec fn grown(before: u64, n: u64, after: u64) -> bool {
    &&& before + n <= u64::MAX ==> after == before + n
    &&& before + n > u64::MAX ==> after == before + n - u64::MAX - 1
}

proof fn lemma_grown(before: u64, n: u64)
    ensures
        grown(before, n, crate::live_stats::wrapped_sum(before, n)),
{
    let m = 0x1_0000_0000_0000_0000int;
    if before + n < m {
        assert((before + n) % m == before + n);
    } else {
        assert((before + n) % m == before + n - m) by (nonlinear_arith)
            requires
                m <= before + n < 2 * m,
                m == 0x1_0000_0000_0000_0000int,
        ;
    }
}

/// Before anything is counted every counter of every backend is zero.
pub proof fn law_counters_start_at_zero(
    s: LiveStats,
    backend: &str,
    storage: StorageCounters,
    pool: PoolCounters,
    chunk: ChunkCounters,
    all: LiveStatsSnapshot,
)
    requires
        call_ensures(LiveStats::default, (), s),
        call_ensures(LiveStats::storage_for, (&s, backend), storage),
        call_ensures(LiveStats::pool_for, (&s, backend), pool),
        call_ensures(LiveStats::chunk_for, (&s, backend), chunk),
        call_ensures(LiveStats::snapshot, (&s,), all),
    ensures
        storage.put_ops == 0 && storage.get_ops == 0 && storage.put_bytes == 0 && storage.get_bytes
            == 0 && storage.errors == 0,
        pool.waits_total == 0 && pool.waiters_now == 0,
        chunk.logical_bytes == 0 && chunk.unique_bytes == 0,
        all.audit_entries_total == 0,
{
}

/// A request counts under its backend: a put or a get by its operation, its bytes only if it
/// went well, and an error if it did not.
pub proof fn law_requests_are_counted(
    s: &mut LiveStats,
    backend: &str,
    op: &str,
    outcome: &str,
    bytes: u64,
    before: StorageCounters,
    after: StorageCounters,
)
    requires
        call_ensures(LiveStats::storage_for, (&*old(s), backend), before),
        call_ensures(LiveStats::record_storage_op, (s, backend, op, outcome, bytes), ()),
        call_ensures(LiveStats::storage_for, (&*final(s), backend), after),
    ensures
        op@ == "put"@ ==> grown(before.put_ops, 1, after.put_ops),
        op@ != "put"@ ==> after.put_ops == before.put_ops,
        op@ == "get"@ ==> grown(before.get_ops, 1, after.get_ops),
        op@ != "get"@ ==> after.get_ops == before.get_ops,
        op@ == "put"@ && outcome@ == "ok"@ ==> grown(before.put_bytes, bytes, after.put_bytes),
        op@ != "put"@ || outcome@ != "ok"@ ==> after.put_bytes == before.put_bytes,
        op@ == "get"@ && outcome@ == "ok"@ ==> grown(before.get_bytes, bytes, after.get_bytes),
        op@ != "get"@ || outcome@ != "ok"@ ==> after.get_bytes == before.get_bytes,
        outcome@ == "error"@ ==> grown(before.errors, 1, after.errors),
        outcome@ != "error"@ ==> after.errors == before.errors,
{
    reveal_strlit("put");
    reveal_strlit("get");
    assert("put"@[0] != "get"@[0]);
    lemma_grown(before.put_ops, 1);
    lemma_grown(before.get_ops, 1);
    lemma_grown(before.put_bytes, bytes);
    lemma_grown(before.get_bytes, bytes);
    lemma_grown(before.errors, 1);
}

/// A request counts under no other backend, and as nothing else.
pub proof fn law_requests_touch_nothing_else(
    s: &mut LiveStats,
    backend: &str,
    op: &str,
    outcome: &str,
    bytes: u64,
    other: &str,
    storage: (StorageCounters, StorageCounters),
    pool: (PoolCounters, PoolCounters),
    chunk: (ChunkCounters, ChunkCounters),
    all: (LiveStatsSnapshot, LiveStatsSnapshot),
)
    requires
        call_ensures(LiveStats::storage_for, (&*old(s), other), storage.0),
        call_ensures(LiveStats::pool_for, (&*old(s), other), pool.0),
        call_ensures(LiveStats::chunk_for, (&*old(s), other), chunk.0),
        call_ensures(LiveStats::snapshot, (&*old(s),), all.0),
        call_ensures(LiveStats::record_storage_op, (s, backend, op, outcome, bytes), ()),
        call_ensures(LiveStats::storage_for, (&*final(s), other), storage.1),
        call_ensures(LiveStats::pool_for, (&*final(s), other), pool.1),
        call_ensures(LiveStats::chunk_for, (&*final(s), other), chunk.1),
        call_ensures(LiveStats::snapshot, (&*final(s),), all.1),
    ensures
        other@ != backend@ ==> storage.1 == storage.0,
        pool.1 == pool.0,
        chunk.1 == chunk.0,
        all.1.audit_entries_total == all.0.audit_entries_total,
{
}

/// Each completed wait counts once, under its backend; who waits now does not change by it.
pub proof fn law_waits_are_counted(
    s: &mut LiveStats,
    backend: &str,
    other: &str,
    before: PoolCounters,
    after: PoolCounters,
    before_other: PoolCounters,
    after_other: PoolCounters,
    storage: (StorageCounters, StorageCounters),
    chunk: (ChunkCounters, ChunkCounters),
)
    requires
        call_ensures(LiveStats::pool_for, (&*old(s), backend), before),
        call_ensures(LiveStats::pool_for, (&*old(s), other), before_other),
        call_ensures(LiveStats::storage_for, (&*old(s), other), storage.0),
        call_ensures(LiveStats::chunk_for, (&*old(s), other), chunk.0),
        call_ensures(LiveStats::record_pool_wait, (s, backend), ()),
        call_ensures(LiveStats::pool_for, (&*final(s), backend), after),
        call_ensures(LiveStats::pool_for, (&*final(s), other), after_other),
        call_ensures(LiveStats::storage_for, (&*final(s), other), storage.1),
        call_ensures(LiveStats::chunk_for, (&*final(s), other), chunk.1),
    ensures
        grown(before.waits_total, 1, after.waits_total),
        after.waiters_now == before.waiters_now,
        other@ != backend@ ==> after_other == before_other,
        storage.1 == storage.0,
        chunk.1 == chunk.0,
{
    lemma_grown(before.waits_total, 1);
}

/// A waiter that comes is one more, one that leaves one less, under their backend; waits that
/// are over are not counted by it. What comes and leaves again changes nothing.
pub proof fn law_waiters_come_and_go(
    s: &mut LiveStats,
    t: &mut LiveStats,
    backend: &str,
    other: &str,
    before: PoolCounters,
    during: PoolCounters,
    after: PoolCounters,
    before_other: PoolCounters,
    after_other: PoolCounters,
)
    requires
        call_ensures(LiveStats::pool_for, (&*old(s), backend), before),
        call_ensures(LiveStats::pool_for, (&*old(s), other), before_other),
        call_ensures(LiveStats::inc_waiters, (s, backend), ()),
        call_ensures(LiveStats::pool_for, (&*final(s), backend), during),
        *old(t) == *final(s),
        call_ensures(LiveStats::dec_waiters, (t, backend), ()),
        call_ensures(LiveStats::pool_for, (&*final(t), backend), after),
        call_ensures(LiveStats::pool_for, (&*final(t), other), after_other),
    ensures
        before.waiters_now < i64::MAX ==> during.waiters_now == before.waiters_now + 1,
        before.waiters_now == i64::MAX ==> during.waiters_now == i64::MIN,
        during.waits_total == before.waits_total,
        after == before,
        other@ != backend@ ==> after_other == before_other,
{
}

/// Sealed bytes and bytes that grew the pool add up apart, under their backend.
pub proof fn law_sealed_bytes_are_counted(
    s: &mut LiveStats,
    t: &mut LiveStats,
    backend: &str,
    other: &str,
    sealed: u64,
    new: u64,
    before: ChunkCounters,
    during: ChunkCounters,
    after: ChunkCounters,
    before_other: ChunkCounters,
    after_other: ChunkCounters,
    storage: (StorageCounters, StorageCounters),
    pool: (PoolCounters, PoolCounters),
)
    requires
        call_ensures(LiveStats::chunk_for, (&*old(s), backend), before),
        call_ensures(LiveStats::chunk_for, (&*old(s), other), before_other),
        call_ensures(LiveStats::storage_for, (&*old(s), other), storage.0),
        call_ensures(LiveStats::pool_for, (&*old(s), other), pool.0),
        call_ensures(LiveStats::record_chunk_logical_bytes, (s, backend, sealed), ()),
        call_ensures(LiveStats::chunk_for, (&*final(s), backend), during),
        *old(t) == *final(s),
        call_ensures(LiveStats::record_chunk_unique_bytes, (t, backend, new), ()),
        call_ensures(LiveStats::chunk_for, (&*final(t), backend), after),
        call_ensures(LiveStats::chunk_for, (&*final(t), other), after_other),
        call_ensures(LiveStats::storage_for, (&*final(t), other), storage.1),
        call_ensures(LiveStats::pool_for, (&*final(t), other), pool.1),
    ensures
        grown(before.logical_bytes, sealed, during.logical_bytes),
        during.unique_bytes == before.unique_bytes,
        after.logical_bytes == during.logical_bytes,
        grown(during.unique_bytes, new, after.unique_bytes),
        other@ != backend@ ==> after_other == before_other,
        storage.1 == storage.0,
        pool.1 == pool.0,
{
    lemma_grown(before.logical_bytes, sealed);
    lemma_grown(during.unique_bytes, new);
}

/// Each audit entry counts once, and as nothing else.
pub proof fn law_audit_entries_are_counted(
    s: &mut LiveStats,
    backend: &str,
    before: LiveStatsSnapshot,
    after: LiveStatsSnapshot,
    storage: (StorageCounters, StorageCounters),
    pool: (PoolCounters, PoolCounters),
    chunk: (ChunkCounters, ChunkCounters),
)
    requires
        call_ensures(LiveStats::snapshot, (&*old(s),), before),
        call_ensures(LiveStats::storage_for, (&*old(s), backend), storage.0),
        call_ensures(LiveStats::pool_for, (&*old(s), backend), pool.0),
        call_ensures(LiveStats::chunk_for, (&*old(s), backend), chunk.0),
        call_ensures(LiveStats::record_audit_entry, (s,), ()),
        call_ensures(LiveStats::snapshot, (&*final(s),), after),
        call_ensures(LiveStats::storage_for, (&*final(s), backend), storage.1),
        call_ensures(LiveStats::pool_for, (&*final(s), backend), pool.1),
        call_ensures(LiveStats::chunk_for, (&*final(s), backend), chunk.1),
    ensures
        grown(before.audit_entries_total, 1, after.audit_entries_total),
        storage.1 == storage.0,
        pool.1 == pool.0,
        chunk.1 == chunk.0,
{
    lemma_grown(before.audit_entries_total, 1);
}

/// A snapshot shows, under each name, the counters of that backend, each as itself.
pub proof fn law_snapshots_show_the_counters(
    s: LiveStats,
    all: LiveStatsSnapshot,
    backend: &str,
    storage: StorageCounters,
    pool: PoolCounters,
    chunk: ChunkCounters,
    storage_seen: Option<&StorageSnapshot>,
    pool_seen: Option<&PoolSnapshot>,
    chunk_seen: Option<&ChunkSnapshot>,
)
    requires
        call_ensures(LiveStats::snapshot, (&s,), all),
        call_ensures(LiveStats::storage_for, (&s, backend), storage),
        call_ensures(LiveStats::pool_for, (&s, backend), pool),
        call_ensures(LiveStats::chunk_for, (&s, backend), chunk),
        call_ensures(NameTable::<StorageSnapshot>::get, (&all.storage, backend), storage_seen),
        call_ensures(NameTable::<PoolSnapshot>::get, (&all.pool, backend), pool_seen),
        call_ensures(NameTable::<ChunkSnapshot>::get, (&all.chunk, backend), chunk_seen),
    ensures
        storage_seen matches Some(c) ==> c.put_ops == storage.put_ops && c.get_ops
            == storage.get_ops && c.put_bytes == storage.put_bytes && c.get_bytes
            == storage.get_bytes && c.errors == storage.errors,
        storage_seen is None ==> storage.put_ops == 0 && storage.get_ops == 0 && storage.put_bytes
            == 0 && storage.get_bytes == 0 && storage.errors == 0,
        pool_seen matches Some(c) ==> c.waits_total == pool.waits_total && c.waiters_now
            == pool.waiters_now,
        pool_seen is None ==> pool.waits_total == 0 && pool.waiters_now == 0,
        chunk_seen matches Some(c) ==> c.logical_bytes == chunk.logical_bytes && c.unique_bytes
            == chunk.unique_bytes,
        chunk_seen is None ==> chunk.logical_bytes == 0 && chunk.unique_bytes == 0,
{
}

/// The snapshot of one backend's counters is a copy of each.
pub proof fn law_snapshots_are_copies(
    storage: StorageCounters,
    pool: PoolCounters,
    chunk: ChunkCounters,
    a: StorageSnapshot,
    b: PoolSnapshot,
    c: ChunkSnapshot,
)
    requires
        call_ensures(StorageCounters::snapshot, (&storage,), a),
        call_ensures(PoolCounters::snapshot, (&pool,), b),
        call_ensures(ChunkCounters::snapshot, (&chunk,), c),
    ensures
        a.put_ops == storage.put_ops && a.get_ops == storage.get_ops && a.put_bytes
            == storage.put_bytes && a.get_bytes == storage.get_bytes && a.errors == storage.errors,
        b.waits_total == pool.waits_total && b.waiters_now == pool.waiters_now,
        c.logical_bytes == chunk.logical_bytes && c.unique_bytes == chunk.unique_bytes,
{
}

} // verus!
