//! Recording through an optional telemetry instance.
//!
//! `slot` is the process-wide instance once it is installed. While it is empty every call
//! drops its observation and emits nothing.

use vstd::prelude::*;

use crate::instruments::Instrument;
use crate::telemetry::{self, Sample, SampleValue, Telemetry};

verus! {

/// The slot is empty or holds a usable instance.
pub open spec fn slot_wf(slot: Option<Telemetry>) -> bool {
    slot matches Some(t) ==> t.wf()
}

/// The slot holds an instance with these counters and the same instruments as before.
pub open spec fn slot_counts(
    slot: Option<Telemetry>,
    before: Option<Telemetry>,
    stats: crate::live_stats::LiveStatsView,
) -> bool {
    slot matches Some(t) && before matches Some(b) && t.wf() && t.stats() == stats
        && t.instruments_view() == b.instruments_view()
}

/// A wait for pool room begins.
pub fn pool_waiters_inc(slot: &mut Option<Telemetry>, backend: &str)
    requires
        slot_wf(*old(slot)),
    ensures
        match *old(slot) {
            Some(t) => slot_counts(*final(slot), *old(slot), t.stats().waiter_in(backend@)),
            None => *final(slot) is None,
        },
{
    if let Some(t) = slot {
        t.pool_waiter_in(backend);
    }
}

/// A wait for pool room ends.
pub fn pool_waiters_dec(slot: &mut Option<Telemetry>, backend: &str)
    requires
        slot_wf(*old(slot)),
    ensures
        match *old(slot) {
            Some(t) => slot_counts(*final(slot), *old(slot), t.stats().waiter_out(backend@)),
            None => *final(slot) is None,
        },
{
    if let Some(t) = slot {
        t.pool_waiter_out(backend);
    }
}

/// Bytes in use in one backend's pool.
pub fn pool_used(slot: &Option<Telemetry>, backend: &str, used: u64) -> (r: Vec<Sample>)
    ensures
        telemetry::sample_views(r@) == match *slot {
            Some(_) => seq![
                telemetry::sampled(Instrument::PoolUsedBytes, SampleValue::U64(used), seq![("backend"@, backend@)]),
            ],
            None => Seq::empty(),
        },
{
    match slot {
        Some(t) => t.pool_set_used(backend, used),
        None => no_samples(),
    }
}

/// The cap of one backend's pool.
pub fn pool_cap(slot: &Option<Telemetry>, backend: &str, cap: u64) -> (r: Vec<Sample>)
    ensures
        telemetry::sample_views(r@) == match *slot {
            Some(_) => seq![
                telemetry::sampled(Instrument::PoolCapBytes, SampleValue::U64(cap), seq![("backend"@, backend@)]),
            ],
            None => Seq::empty(),
        },
{
    match slot {
        Some(t) => t.pool_set_cap(backend, cap),
        None => no_samples(),
    }
}

/// One eviction from a pool.
pub fn pool_eviction(slot: &Option<Telemetry>, backend: &str) -> (r: Vec<Sample>)
    ensures
        telemetry::sample_views(r@) == match *slot {
            Some(_) => seq![
                telemetry::sampled(Instrument::PoolEvictionsTotal, SampleValue::U64(1), seq![("backend"@, backend@)]),
            ],
            None => Seq::empty(),
        },
{
    match slot {
        Some(t) => t.pool_inc_eviction(backend),
        None => no_samples(),
    }
}

/// One completed wait for pool room, with its measured duration.
pub fn pool_backpressure_wait(slot: &mut Option<Telemetry>, backend: &str) -> (r: Vec<Sample>)
    requires
        slot_wf(*old(slot)),
    ensures
        match *old(slot) {
            Some(t) => slot_counts(*final(slot), *old(slot), t.stats().pool_wait(backend@)),
            None => *final(slot) is None,
        },
        telemetry::sample_views(r@) == match *old(slot) {
            Some(_) => seq![
                telemetry::sampled(Instrument::PoolBackpressureWaitsTotal, SampleValue::U64(1), seq![("backend"@, backend@)]),
                telemetry::sampled(Instrument::PoolBackpressureWaitSeconds, SampleValue::Measured, seq![("backend"@, backend@)]),
            ],
            None => Seq::empty(),
        },
{
    if let Some(t) = slot {
        t.pool_record_backpressure_wait(backend)
    } else {
        no_samples()
    }
}

/// One page-cache eviction; `outcome` is `clean` or `dirty`.
pub fn cache_eviction(slot: &Option<Telemetry>, volume: &str, outcome: &str) -> (r: Vec<Sample>)
    ensures
        telemetry::sample_views(r@) == match *slot {
            Some(_) => seq![
                telemetry::sampled(Instrument::CacheEvictionsTotal, SampleValue::U64(1), seq![("volume"@, volume@), ("outcome"@, outcome@)]),
            ],
            None => Seq::empty(),
        },
{
    match slot {
        Some(t) => t.cache_inc_eviction(volume, outcome),
        None => no_samples(),
    }
}

/// A cache miss on a recently evicted chunk, with the measured age.
pub fn cache_miss_after_eviction(slot: &Option<Telemetry>, backend: &str) -> (r: Vec<Sample>)
    ensures
        telemetry::sample_views(r@) == match *slot {
            Some(_) => seq![
                telemetry::sampled(Instrument::CacheMissAfterEvictionSeconds, SampleValue::Measured, seq![("backend"@, backend@)]),
            ],
            None => Seq::empty(),
        },
{
    match slot {
        Some(t) => t.cache_record_miss_after_eviction(backend),
        None => no_samples(),
    }
}

/// One EXTENDED COPY command; `outcome` is `success`, `reject` or `error`.
pub fn scsi_xcopy(slot: &Option<Telemetry>, outcome: &str) -> (r: Vec<Sample>)
    ensures
        telemetry::sample_views(r@) == match *slot {
            Some(_) => seq![
                telemetry::sampled(Instrument::ScsiXcopyTotal, SampleValue::U64(1), seq![("outcome"@, outcome@)]),
            ],
            None => Seq::empty(),
        },
{
    match slot {
        Some(t) => t.scsi_xcopy_inc(outcome),
        None => no_samples(),
    }
}

/// Bytes copied by EXTENDED COPY; `path` is `fast` or `slow`.
pub fn scsi_xcopy_bytes(slot: &Option<Telemetry>, path: &str, bytes: u64) -> (r: Vec<Sample>)
    ensures
        telemetry::sample_views(r@) == match *slot {
            Some(_) => seq![
                telemetry::sampled(Instrument::ScsiXcopyBytesTotal, SampleValue::U64(bytes), seq![("path"@, path@)]),
            ],
            None => Seq::empty(),
        },
{
    match slot {
        Some(t) => t.scsi_xcopy_add_bytes(path, bytes),
        None => no_samples(),
    }
}

/// One executed EXTENDED COPY segment.
pub fn scsi_xcopy_segment(slot: &Option<Telemetry>, path: &str) -> (r: Vec<Sample>)
    ensures
        telemetry::sample_views(r@) == match *slot {
            Some(_) => seq![
                telemetry::sampled(Instrument::ScsiXcopySegmentsTotal, SampleValue::U64(1), seq![("path"@, path@)]),
            ],
            None => Seq::empty(),
        },
{
    match slot {
        Some(t) => t.scsi_xcopy_inc_segment(path),
        None => no_samples(),
    }
}

/// One storage request, with its measured duration. `op` is one of `put`, `get`, `head`,
/// `delete`; `outcome` is `ok` or `error`. The byte counter is fed only when bytes moved.
pub fn storage_request(slot: &mut Option<Telemetry>, backend: &str, op: &str, outcome: &str, bytes: u64) -> (r: Vec<Sample>)
    requires
        slot_wf(*old(slot)),
    ensures
        match *old(slot) {
            Some(t) => slot_counts(*final(slot), *old(slot), t.stats().storage_op(backend@, op@, outcome@, bytes)),
            None => *final(slot) is None,
        },
        telemetry::sample_views(r@) == match *old(slot) {
            Some(_) => seq![
                telemetry::sampled(Instrument::StorageRequestsTotal, SampleValue::U64(1), seq![("backend"@, backend@), ("op"@, op@), ("outcome"@, outcome@)]),
                telemetry::sampled(Instrument::StorageRequestSeconds, SampleValue::Measured, seq![("backend"@, backend@), ("op"@, op@), ("outcome"@, outcome@)]),
            ] + (if bytes > 0 {
                seq![telemetry::sampled(Instrument::StorageBytesTotal, SampleValue::U64(bytes), seq![("backend"@, backend@), ("op"@, op@), ("outcome"@, outcome@)])]
            } else {
                Seq::empty()
            }),
            None => Seq::empty(),
        },
{
    if let Some(t) = slot {
        t.storage_record_request(backend, op, outcome, bytes)
    } else {
        no_samples()
    }
}

/// One retry after a failure of the given class.
pub fn storage_retry(slot: &Option<Telemetry>, backend: &str, class: &str) -> (r: Vec<Sample>)
    ensures
        telemetry::sample_views(r@) == match *slot {
            Some(_) => seq![
                telemetry::sampled(Instrument::StorageRetriesTotal, SampleValue::U64(1), seq![("backend"@, backend@), ("class"@, class@)]),
            ],
            None => Seq::empty(),
        },
{
    match slot {
        Some(t) => t.storage_inc_retry(backend, class),
        None => no_samples(),
    }
}

/// One failure that bypassed the retries.
pub fn storage_permanent_error(slot: &Option<Telemetry>, backend: &str, class: &str) -> (r: Vec<Sample>)
    ensures
        telemetry::sample_views(r@) == match *slot {
            Some(_) => seq![
                telemetry::sampled(Instrument::StoragePermanentErrorsTotal, SampleValue::U64(1), seq![("backend"@, backend@), ("class"@, class@)]),
            ],
            None => Seq::empty(),
        },
{
    match slot {
        Some(t) => t.storage_inc_permanent_error(backend, class),
        None => no_samples(),
    }
}

/// One sealed chunk; `scope` is `local` or `global`.
pub fn chunk_seal(slot: &Option<Telemetry>, backend: &str, scope: &str) -> (r: Vec<Sample>)
    ensures
        telemetry::sample_views(r@) == match *slot {
            Some(_) => seq![
                telemetry::sampled(Instrument::ChunkSealsTotal, SampleValue::U64(1), seq![("backend"@, backend@), ("scope"@, scope@)]),
            ],
            None => Seq::empty(),
        },
{
    match slot {
        Some(t) => t.chunk_inc_seal(backend, scope),
        None => no_samples(),
    }
}

/// One chunk that was there already.
pub fn chunk_dedup_hit(slot: &Option<Telemetry>, backend: &str, scope: &str) -> (r: Vec<Sample>)
    ensures
        telemetry::sample_views(r@) == match *slot {
            Some(_) => seq![
                telemetry::sampled(Instrument::ChunkDedupHitsTotal, SampleValue::U64(1), seq![("backend"@, backend@), ("scope"@, scope@)]),
            ],
            None => Seq::empty(),
        },
{
    match slot {
        Some(t) => t.chunk_inc_dedup_hit(backend, scope),
        None => no_samples(),
    }
}

/// Chunk bytes uploaded.
pub fn chunk_uploaded_bytes(slot: &Option<Telemetry>, backend: &str, bytes: u64) -> (r: Vec<Sample>)
    ensures
        telemetry::sample_views(r@) == match *slot {
            Some(_) => seq![
                telemetry::sampled(Instrument::ChunkBytesUploadedTotal, SampleValue::U64(bytes), seq![("backend"@, backend@)]),
            ],
            None => Seq::empty(),
        },
{
    match slot {
        Some(t) => t.chunk_add_uploaded_bytes(backend, bytes),
        None => no_samples(),
    }
}

/// Bytes sealed before deduplication.
pub fn chunk_logical_bytes(slot: &mut Option<Telemetry>, backend: &str, scope: &str, bytes: u64) -> (r: Vec<Sample>)
    requires
        slot_wf(*old(slot)),
    ensures
        match *old(slot) {
            Some(t) => slot_counts(*final(slot), *old(slot), t.stats().logical_bytes(backend@, bytes)),
            None => *final(slot) is None,
        },
        telemetry::sample_views(r@) == match *old(slot) {
            Some(_) => seq![
                telemetry::sampled(Instrument::ChunkLogicalBytesTotal, SampleValue::U64(bytes), seq![("backend"@, backend@), ("scope"@, scope@)]),
            ],
            None => Seq::empty(),
        },
{
    if let Some(t) = slot {
        t.chunk_add_logical_bytes(backend, scope, bytes)
    } else {
        no_samples()
    }
}

/// Bytes sealed for the first time.
pub fn chunk_unique_bytes(slot: &mut Option<Telemetry>, backend: &str, scope: &str, bytes: u64) -> (r: Vec<Sample>)
    requires
        slot_wf(*old(slot)),
    ensures
        match *old(slot) {
            Some(t) => slot_counts(*final(slot), *old(slot), t.stats().unique_bytes(backend@, bytes)),
            None => *final(slot) is None,
        },
        telemetry::sample_views(r@) == match *old(slot) {
            Some(_) => seq![
                telemetry::sampled(Instrument::ChunkUniqueBytesTotal, SampleValue::U64(bytes), seq![("backend"@, backend@), ("scope"@, scope@)]),
            ],
            None => Seq::empty(),
        },
{
    if let Some(t) = slot {
        t.chunk_add_unique_bytes(backend, scope, bytes)
    } else {
        no_samples()
    }
}

/// One HEAD before an upload.
pub fn chunk_storage_head_probe(slot: &Option<Telemetry>, backend: &str) -> (r: Vec<Sample>)
    ensures
        telemetry::sample_views(r@) == match *slot {
            Some(_) => seq![
                telemetry::sampled(Instrument::ChunkStorageHeadProbesTotal, SampleValue::U64(1), seq![("backend"@, backend@)]),
            ],
            None => Seq::empty(),
        },
{
    match slot {
        Some(t) => t.chunk_inc_storage_head_probe(backend),
        None => no_samples(),
    }
}

/// One such HEAD that found the object.
pub fn chunk_storage_head_hit(slot: &Option<Telemetry>, backend: &str) -> (r: Vec<Sample>)
    ensures
        telemetry::sample_views(r@) == match *slot {
            Some(_) => seq![
                telemetry::sampled(Instrument::ChunkStorageHeadHitsTotal, SampleValue::U64(1), seq![("backend"@, backend@)]),
            ],
            None => Seq::empty(),
        },
{
    match slot {
        Some(t) => t.chunk_inc_storage_head_hit(backend),
        None => no_samples(),
    }
}

/// One question answered by the fact cache.
pub fn chunk_storage_cache_hit(slot: &Option<Telemetry>, backend: &str) -> (r: Vec<Sample>)
    ensures
        telemetry::sample_views(r@) == match *slot {
            Some(_) => seq![
                telemetry::sampled(Instrument::ChunkStorageCacheHitsTotal, SampleValue::U64(1), seq![("backend"@, backend@)]),
            ],
            None => Seq::empty(),
        },
{
    match slot {
        Some(t) => t.chunk_inc_storage_cache_hit(backend),
        None => no_samples(),
    }
}

/// One caller that joined an upload in flight.
pub fn chunk_storage_cache_inflight_coalesced(slot: &Option<Telemetry>, backend: &str) -> (r: Vec<Sample>)
    ensures
        telemetry::sample_views(r@) == match *slot {
            Some(_) => seq![
                telemetry::sampled(Instrument::ChunkStorageCacheInflightCoalescedTotal, SampleValue::U64(1), seq![("backend"@, backend@)]),
            ],
            None => Seq::empty(),
        },
{
    match slot {
        Some(t) => t.chunk_inc_storage_cache_inflight_coalesced(backend),
        None => no_samples(),
    }
}

/// Facts seeded from a listing.
pub fn chunk_storage_cache_warmup_seeded(slot: &Option<Telemetry>, backend: &str, n: u64) -> (r: Vec<Sample>)
    ensures
        telemetry::sample_views(r@) == match *slot {
            Some(_) => seq![
                telemetry::sampled(Instrument::ChunkStorageCacheWarmupSeededTotal, SampleValue::U64(n), seq![("backend"@, backend@)]),
            ],
            None => Seq::empty(),
        },
{
    match slot {
        Some(t) => t.chunk_add_storage_cache_warmup_seeded(backend, n),
        None => no_samples(),
    }
}

/// One upload that could not be attributed.
pub fn chunk_upload_stranded(slot: &Option<Telemetry>, backend: &str, reason: &str) -> (r: Vec<Sample>)
    ensures
        telemetry::sample_views(r@) == match *slot {
            Some(_) => seq![
                telemetry::sampled(Instrument::ChunkUploadStrandedTotal, SampleValue::U64(1), seq![("backend"@, backend@), ("reason"@, reason@)]),
            ],
            None => Seq::empty(),
        },
{
    match slot {
        Some(t) => t.chunk_inc_upload_stranded(backend, reason),
        None => no_samples(),
    }
}

/// The upload backlog.
pub fn upload_queue_depth(slot: &Option<Telemetry>, n: i64) -> (r: Vec<Sample>)
    ensures
        telemetry::sample_views(r@) == match *slot {
            Some(_) => seq![
                telemetry::sampled(Instrument::UploadQueueDepth, SampleValue::I64(n), Seq::empty()),
            ],
            None => Seq::empty(),
        },
{
    match slot {
        Some(t) => t.upload_set_queue_depth(n),
        None => no_samples(),
    }
}

/// Sessions logged in.
pub fn iscsi_sessions_active(slot: &Option<Telemetry>, n: i64) -> (r: Vec<Sample>)
    ensures
        telemetry::sample_views(r@) == match *slot {
            Some(_) => seq![
                telemetry::sampled(Instrument::IscsiSessionsActive, SampleValue::I64(n), Seq::empty()),
            ],
            None => Seq::empty(),
        },
{
    match slot {
        Some(t) => t.iscsi_set_sessions_active(n),
        None => no_samples(),
    }
}

/// One SCSI command, with its measured service time.
pub fn iscsi_command(slot: &Option<Telemetry>, opcode: &str, outcome: &str) -> (r: Vec<Sample>)
    ensures
        telemetry::sample_views(r@) == match *slot {
            Some(_) => seq![
                telemetry::sampled(Instrument::IscsiCommandsTotal, SampleValue::U64(1), seq![("opcode"@, opcode@), ("outcome"@, outcome@)]),
                telemetry::sampled(Instrument::IscsiCommandSeconds, SampleValue::Measured, seq![("opcode"@, opcode@), ("outcome"@, outcome@)]),
            ],
            None => Seq::empty(),
        },
{
    match slot {
        Some(t) => t.iscsi_record_command(opcode, outcome),
        None => no_samples(),
    }
}

/// Bytes received from initiators.
pub fn iscsi_data_in(slot: &Option<Telemetry>, bytes: u64) -> (r: Vec<Sample>)
    ensures
        telemetry::sample_views(r@) == match *slot {
            Some(_) => seq![
                telemetry::sampled(Instrument::IscsiDataInBytesTotal, SampleValue::U64(bytes), Seq::empty()),
            ],
            None => Seq::empty(),
        },
{
    match slot {
        Some(t) => t.iscsi_add_data_in(bytes),
        None => no_samples(),
    }
}

/// Bytes sent to initiators.
pub fn iscsi_data_out(slot: &Option<Telemetry>, bytes: u64) -> (r: Vec<Sample>)
    ensures
        telemetry::sample_views(r@) == match *slot {
            Some(_) => seq![
                telemetry::sampled(Instrument::IscsiDataOutBytesTotal, SampleValue::U64(bytes), Seq::empty()),
            ],
            None => Seq::empty(),
        },
{
    match slot {
        Some(t) => t.iscsi_add_data_out(bytes),
        None => no_samples(),
    }
}

/// One audit entry.
pub fn audit_entry(slot: &mut Option<Telemetry>, kind: &str) -> (r: Vec<Sample>)
    requires
        slot_wf(*old(slot)),
    ensures
        match *old(slot) {
            Some(t) => slot_counts(*final(slot), *old(slot), t.stats().audit_entry()),
            None => *final(slot) is None,
        },
        telemetry::sample_views(r@) == match *old(slot) {
            Some(_) => seq![
                telemetry::sampled(Instrument::AuditEntriesTotal, SampleValue::U64(1), seq![("kind"@, kind@)]),
            ],
            None => Seq::empty(),
        },
{
    if let Some(t) = slot {
        t.audit_inc_entry(kind)
    } else {
        no_samples()
    }
}

/// One acknowledged break of the audit chain.
pub fn audit_chain_reset(slot: &Option<Telemetry>) -> (r: Vec<Sample>)
    ensures
        telemetry::sample_views(r@) == match *slot {
            Some(_) => seq![
                telemetry::sampled(Instrument::AuditChainResetsTotal, SampleValue::U64(1), Seq::empty()),
            ],
            None => Seq::empty(),
        },
{
    match slot {
        Some(t) => t.audit_inc_chain_reset(),
        None => no_samples(),
    }
}

/// One audit entry dropped because the queue was full.
pub fn audit_queue_drop(slot: &Option<Telemetry>) -> (r: Vec<Sample>)
    ensures
        telemetry::sample_views(r@) == match *slot {
            Some(_) => seq![
                telemetry::sampled(Instrument::AuditQueueDropsTotal, SampleValue::U64(1), Seq::empty()),
            ],
            None => Seq::empty(),
        },
{
    match slot {
        Some(t) => t.audit_inc_queue_drop(),
        None => no_samples(),
    }
}

/// One alert delivery attempt.
pub fn alerts(slot: &Option<Telemetry>, class: &str, severity: &str, sink: &str, outcome: &str) -> (r: Vec<Sample>)
    ensures
        telemetry::sample_views(r@) == match *slot {
            Some(_) => seq![
                telemetry::sampled(Instrument::AlertsFiredTotal, SampleValue::U64(1), seq![("class"@, class@), ("severity"@, severity@), ("sink"@, sink@), ("outcome"@, outcome@)]),
            ],
            None => Seq::empty(),
        },
{
    match slot {
        Some(t) => t.alerts_record(class, severity, sink, outcome),
        None => no_samples(),
    }
}

/// One scan for stranded uploads, with its measured duration. The counter is fed only when
/// something was found.
pub fn orphan_scan_completed(slot: &Option<Telemetry>, chunks_found: u64) -> (r: Vec<Sample>)
    ensures
        telemetry::sample_views(r@) == match *slot {
            Some(_) => (if chunks_found > 0 {
                seq![telemetry::sampled(Instrument::OrphanScanChunksFoundTotal, SampleValue::U64(chunks_found), Seq::empty())]
            } else {
                Seq::empty()
            }) + seq![
                telemetry::sampled(Instrument::OrphanScanDurationSeconds, SampleValue::Measured, Seq::empty()),
            ],
            None => Seq::empty(),
        },
{
    match slot {
        Some(t) => t.orphan_scan_record(chunks_found),
        None => no_samples(),
    }
}

/// No samples.
fn no_samples() -> (r: Vec<Sample>)
    ensures
        telemetry::sample_views(r@) == Seq::<telemetry::SampleView>::empty(),
{
    let r: Vec<Sample> = Vec::new();
    assert(telemetry::sample_views(r@) =~= Seq::empty());
    r
}

} // verus!
