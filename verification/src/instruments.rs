//! The metric instruments: one table of names, kinds, units and descriptions.
//!
//! An instrument's full name is `<prefix>_<suffix>`. Names leave out the unit and the counter
//! suffix, which the exporter appends.

use vstd::prelude::*;

verus! {

/// How an instrument aggregates.
#[derive(Debug, Clone, Copy, PartialEq, Eq, Structural)]
pub enum InstrumentKind {
    /// Last value, unsigned.
    GaugeU64,
    /// Last value, signed.
    GaugeI64,
    /// Monotonic sum.
    CounterU64,
    /// Distribution of measured durations.
    Histogram,
}

/// Every instrument.
#[derive(Debug, Clone, Copy, PartialEq, Eq, Structural)]
pub enum Instrument {
    PoolUsedBytes,
    PoolCapBytes,
    PoolEvictionsTotal,
    PoolBackpressureWaitsTotal,
    PoolBackpressureWaitSeconds,
    CacheEvictionsTotal,
    CacheMissAfterEvictionSeconds,
    ScsiXcopyTotal,
    ScsiXcopyBytesTotal,
    ScsiXcopySegmentsTotal,
    StorageRequestsTotal,
    StorageRequestSeconds,
    StorageBytesTotal,
    StorageRetriesTotal,
    StoragePermanentErrorsTotal,
    ChunkSealsTotal,
    ChunkDedupHitsTotal,
    ChunkLogicalBytesTotal,
    ChunkUniqueBytesTotal,
    ChunkBytesUploadedTotal,
    ChunkStorageHeadProbesTotal,
    ChunkStorageHeadHitsTotal,
    ChunkStorageCacheHitsTotal,
    ChunkStorageCacheInflightCoalescedTotal,
    ChunkStorageCacheWarmupSeededTotal,
    ChunkUploadStrandedTotal,
    UploadQueueDepth,
    IscsiSessionsActive,
    IscsiCommandsTotal,
    IscsiCommandSeconds,
    IscsiDataInBytesTotal,
    IscsiDataOutBytesTotal,
    TapeWriteBufferUsedBytes,
    TapeReadBufferUsedBytes,
    PrefetchQueueDepth,
    PrefetchHitsTotal,
    PrefetchMissesTotal,
    AuditEntriesTotal,
    AuditChainResetsTotal,
    AuditQueueDropsTotal,
    OrphanScanChunksFoundTotal,
    OrphanScanDurationSeconds,
    AlertsFiredTotal,
    DaemonStartTimeSeconds,
}

/// All instruments, in registration order.
pub open spec fn all_instruments() -> Seq<Instrument> {
    seq![
        Instrument::PoolUsedBytes,
        Instrument::PoolCapBytes,
        Instrument::PoolEvictionsTotal,
        Instrument::PoolBackpressureWaitsTotal,
        Instrument::PoolBackpressureWaitSeconds,
        Instrument::CacheEvictionsTotal,
        Instrument::CacheMissAfterEvictionSeconds,
        Instrument::ScsiXcopyTotal,
        Instrument::ScsiXcopyBytesTotal,
        Instrument::ScsiXcopySegmentsTotal,
        Instrument::StorageRequestsTotal,
        Instrument::StorageRequestSeconds,
        Instrument::StorageBytesTotal,
        Instrument::StorageRetriesTotal,
        Instrument::StoragePermanentErrorsTotal,
        Instrument::ChunkSealsTotal,
        Instrument::ChunkDedupHitsTotal,
        Instrument::ChunkLogicalBytesTotal,
        Instrument::ChunkUniqueBytesTotal,
        Instrument::ChunkBytesUploadedTotal,
        Instrument::ChunkStorageHeadProbesTotal,
        Instrument::ChunkStorageHeadHitsTotal,
        Instrument::ChunkStorageCacheHitsTotal,
        Instrument::ChunkStorageCacheInflightCoalescedTotal,
        Instrument::ChunkStorageCacheWarmupSeededTotal,
        Instrument::ChunkUploadStrandedTotal,
        Instrument::UploadQueueDepth,
        Instrument::IscsiSessionsActive,
        Instrument::IscsiCommandsTotal,
        Instrument::IscsiCommandSeconds,
        Instrument::IscsiDataInBytesTotal,
        Instrument::IscsiDataOutBytesTotal,
        Instrument::TapeWriteBufferUsedBytes,
        Instrument::TapeReadBufferUsedBytes,
        Instrument::PrefetchQueueDepth,
        Instrument::PrefetchHitsTotal,
        Instrument::PrefetchMissesTotal,
        Instrument::AuditEntriesTotal,
        Instrument::AuditChainResetsTotal,
        Instrument::AuditQueueDropsTotal,
        Instrument::OrphanScanChunksFoundTotal,
        Instrument::OrphanScanDurationSeconds,
        Instrument::AlertsFiredTotal,
        Instrument::DaemonStartTimeSeconds,
    ]
}

/// The name suffix of an instrument.
pub open spec fn suffix_of(i: Instrument) -> Seq<char> {
    match i {
        Instrument::PoolUsedBytes => "pool_used_bytes"@,
        Instrument::PoolCapBytes => "pool_cap_bytes"@,
        Instrument::PoolEvictionsTotal => "pool_evictions"@,
        Instrument::PoolBackpressureWaitsTotal => "pool_backpressure_waits"@,
        Instrument::PoolBackpressureWaitSeconds => "pool_backpressure_wait"@,
        Instrument::CacheEvictionsTotal => "cache_evictions"@,
        Instrument::CacheMissAfterEvictionSeconds => "cache_miss_after_eviction"@,
        Instrument::ScsiXcopyTotal => "scsi_xcopy"@,
        Instrument::ScsiXcopyBytesTotal => "scsi_xcopy_copied"@,
        Instrument::ScsiXcopySegmentsTotal => "scsi_xcopy_segments"@,
        Instrument::StorageRequestsTotal => "storage_requests"@,
        Instrument::StorageRequestSeconds => "storage_request"@,
        Instrument::StorageBytesTotal => "storage_transferred"@,
        Instrument::StorageRetriesTotal => "storage_retries"@,
        Instrument::StoragePermanentErrorsTotal => "storage_permanent_errors"@,
        Instrument::ChunkSealsTotal => "chunk_seals"@,
        Instrument::ChunkDedupHitsTotal => "chunk_dedup_hits"@,
        Instrument::ChunkLogicalBytesTotal => "chunk_logical"@,
        Instrument::ChunkUniqueBytesTotal => "chunk_unique"@,
        Instrument::ChunkBytesUploadedTotal => "chunk_uploaded"@,
        Instrument::ChunkStorageHeadProbesTotal => "chunk_storage_head_probes"@,
        Instrument::ChunkStorageHeadHitsTotal => "chunk_storage_head_hits"@,
        Instrument::ChunkStorageCacheHitsTotal => "chunk_storage_cache_hits"@,
        Instrument::ChunkStorageCacheInflightCoalescedTotal => "chunk_storage_cache_inflight_coalesced"@,
        Instrument::ChunkStorageCacheWarmupSeededTotal => "chunk_storage_cache_warmup_seeded"@,
        Instrument::ChunkUploadStrandedTotal => "chunk_upload_stranded"@,
        Instrument::UploadQueueDepth => "upload_queue_depth"@,
        Instrument::IscsiSessionsActive => "iscsi_sessions_active"@,
        Instrument::IscsiCommandsTotal => "iscsi_commands"@,
        Instrument::IscsiCommandSeconds => "iscsi_command"@,
        Instrument::IscsiDataInBytesTotal => "iscsi_data_in"@,
        Instrument::IscsiDataOutBytesTotal => "iscsi_data_out"@,
        Instrument::TapeWriteBufferUsedBytes => "tape_write_buffer_used"@,
        Instrument::TapeReadBufferUsedBytes => "tape_read_buffer_used"@,
        Instrument::PrefetchQueueDepth => "prefetch_queue_depth"@,
        Instrument::PrefetchHitsTotal => "prefetch_hits"@,
        Instrument::PrefetchMissesTotal => "prefetch_misses"@,
        Instrument::AuditEntriesTotal => "audit_entries"@,
        Instrument::AuditChainResetsTotal => "audit_chain_resets"@,
        Instrument::AuditQueueDropsTotal => "audit_queue_drops"@,
        Instrument::OrphanScanChunksFoundTotal => "orphan_scan_chunks_found"@,
        Instrument::OrphanScanDurationSeconds => "orphan_scan_duration"@,
        Instrument::AlertsFiredTotal => "alerts_fired"@,
        Instrument::DaemonStartTimeSeconds => "daemon_start_time"@,
    }
}

/// The kind of an instrument.
pub open spec fn kind_of(i: Instrument) -> InstrumentKind {
    match i {
        Instrument::PoolUsedBytes
        | Instrument::PoolCapBytes
        | Instrument::TapeWriteBufferUsedBytes
        | Instrument::TapeReadBufferUsedBytes => InstrumentKind::GaugeU64,
        Instrument::UploadQueueDepth
        | Instrument::IscsiSessionsActive
        | Instrument::PrefetchQueueDepth
        | Instrument::DaemonStartTimeSeconds => InstrumentKind::GaugeI64,
        Instrument::PoolBackpressureWaitSeconds
        | Instrument::CacheMissAfterEvictionSeconds
        | Instrument::StorageRequestSeconds
        | Instrument::IscsiCommandSeconds
        | Instrument::OrphanScanDurationSeconds => InstrumentKind::Histogram,
        _ => InstrumentKind::CounterU64,
    }
}

/// The unit of an instrument, if it has one.
pub open spec fn unit_of(i: Instrument) -> Option<Seq<char>> {
    match i {
        Instrument::PoolBackpressureWaitSeconds
        | Instrument::CacheMissAfterEvictionSeconds
        | Instrument::StorageRequestSeconds
        | Instrument::IscsiCommandSeconds
        | Instrument::OrphanScanDurationSeconds
        | Instrument::DaemonStartTimeSeconds => Some("s"@),
        Instrument::ScsiXcopyBytesTotal
        | Instrument::StorageBytesTotal
        | Instrument::ChunkLogicalBytesTotal
        | Instrument::ChunkUniqueBytesTotal
        | Instrument::ChunkBytesUploadedTotal
        | Instrument::IscsiDataInBytesTotal
        | Instrument::IscsiDataOutBytesTotal
        | Instrument::TapeWriteBufferUsedBytes
        | Instrument::TapeReadBufferUsedBytes => Some("By"@),
        _ => None,
    }
}

/// The description of an instrument.
pub open spec fn description_of(i: Instrument) -> Seq<char> {
    match i {
        Instrument::PoolUsedBytes => "Per-backend disk-cache pool bytes in use"@,
        Instrument::PoolCapBytes => "Per-backend disk-cache pool cap (hard ceiling)"@,
        Instrument::PoolEvictionsTotal => "Per-backend pool eviction events"@,
        Instrument::PoolBackpressureWaitsTotal => "Times chunk-seal blocked on the pool budget"@,
        Instrument::PoolBackpressureWaitSeconds => "Wall-clock waited on the pool budget"@,
        Instrument::CacheEvictionsTotal => "VSA per-volume page-cache evictions, labeled clean vs dirty (dirty = required a cloud flush)"@,
        Instrument::CacheMissAfterEvictionSeconds => "Age (now - evicted_at) of cache misses whose chunk was recently evicted from this backend's pool. Drives operator sizing of disk_cache.size_gb."@,
        Instrument::ScsiXcopyTotal => "EXTENDED COPY commands by outcome (success/reject/error)"@,
        Instrument::ScsiXcopyBytesTotal => "EXTENDED COPY host-visible bytes by path (fast/slow)"@,
        Instrument::ScsiXcopySegmentsTotal => "EXTENDED COPY segments executed by path (fast/slow)"@,
        Instrument::StorageRequestsTotal => "Cloud requests by backend/op/outcome"@,
        Instrument::StorageRequestSeconds => "Cloud request latency by backend/op/outcome"@,
        Instrument::StorageBytesTotal => "Cloud bytes transferred by backend/op/outcome"@,
        Instrument::StorageRetriesTotal => "Cloud retry attempts by backend/error class"@,
        Instrument::StoragePermanentErrorsTotal => "Permanent cloud errors that bypassed retry"@,
        Instrument::ChunkSealsTotal => "Chunks sealed into the pool"@,
        Instrument::ChunkDedupHitsTotal => "Chunks skipped because the hash already existed"@,
        Instrument::ChunkLogicalBytesTotal => "Logical (pre-dedup) bytes sealed across all chunks"@,
        Instrument::ChunkUniqueBytesTotal => "Unique (post-dedup) bytes sealed — bytes that actually grew the pool"@,
        Instrument::ChunkBytesUploadedTotal => "Chunk bytes successfully PUT to cloud"@,
        Instrument::ChunkStorageHeadProbesTotal => "Cloud-side HEAD-before-PUT probes (Global scope)"@,
        Instrument::ChunkStorageHeadHitsTotal => "Cloud HEAD probes that found the object already present"@,
        Instrument::ChunkStorageCacheHitsTotal => "Meta-cache hits — lookup served from Probed/Uploaded entry without backend round-trip"@,
        Instrument::ChunkStorageCacheInflightCoalescedTotal => "Concurrent uploads that joined an in-flight singleflight instead of issuing a duplicate PUT"@,
        Instrument::ChunkStorageCacheWarmupSeededTotal => "Cache entries seeded from a LIST at boot / first registry insertion"@,
        Instrument::ChunkUploadStrandedTotal => "Pages/chunks left LocalOnly because the upload worker could not resolve a backend or owning entity"@,
        Instrument::UploadQueueDepth => "Chunks/pages sealed locally but not yet uploaded to the backend"@,
        Instrument::IscsiSessionsActive => "iSCSI sessions currently logged in"@,
        Instrument::IscsiCommandsTotal => "iSCSI SCSI commands by opcode/outcome"@,
        Instrument::IscsiCommandSeconds => "iSCSI SCSI command service time"@,
        Instrument::IscsiDataInBytesTotal => "Bytes received from iSCSI initiators (host→target)"@,
        Instrument::IscsiDataOutBytesTotal => "Bytes sent to iSCSI initiators (target→host)"@,
        Instrument::TapeWriteBufferUsedBytes => "Per-cartridge write-staging buffer occupancy"@,
        Instrument::TapeReadBufferUsedBytes => "Per-cartridge read-prefetch buffer occupancy"@,
        Instrument::PrefetchQueueDepth => "Outstanding prefetch tasks"@,
        Instrument::PrefetchHitsTotal => "Reads served from a prefetched chunk"@,
        Instrument::PrefetchMissesTotal => "Reads that found nothing prefetched and waited on cloud"@,
        Instrument::AuditEntriesTotal => "Audit log entries appended, by event kind"@,
        Instrument::AuditChainResetsTotal => "Operator-acknowledged audit chain breaks"@,
        Instrument::AuditQueueDropsTotal => "Audit entries dropped because the writer-task mpsc was full"@,
        Instrument::OrphanScanChunksFoundTotal => "Sealed-but-not-uploaded chunks discovered by the boot-time orphan scan"@,
        Instrument::OrphanScanDurationSeconds => "Wall-clock the boot-time orphan-upload scan took"@,
        Instrument::AlertsFiredTotal => "First-party alerts attempted, by class/severity/sink/outcome"@,
        Instrument::DaemonStartTimeSeconds => "Daemon start time as Unix epoch seconds"@,
    }
}

/// The explicit histogram bucket bounds of an instrument, in seconds; empty for the
/// exporter's own.
pub open spec fn boundaries_of(i: Instrument) -> Seq<u64> {
    if i is CacheMissAfterEvictionSeconds {
        seq![1u64, 2, 4, 8, 16, 32, 64, 128, 256]
    } else {
        Seq::empty()
    }
}

impl Instrument {
    /// All instruments, in registration order.
    pub fn all() -> (r: Vec<Instrument>)
        ensures
            r@ == all_instruments(),
    {
        vec![
            Instrument::PoolUsedBytes,
            Instrument::PoolCapBytes,
            Instrument::PoolEvictionsTotal,
            Instrument::PoolBackpressureWaitsTotal,
            Instrument::PoolBackpressureWaitSeconds,
            Instrument::CacheEvictionsTotal,
            Instrument::CacheMissAfterEvictionSeconds,
            Instrument::ScsiXcopyTotal,
            Instrument::ScsiXcopyBytesTotal,
            Instrument::ScsiXcopySegmentsTotal,
            Instrument::StorageRequestsTotal,
            Instrument::StorageRequestSeconds,
            Instrument::StorageBytesTotal,
            Instrument::StorageRetriesTotal,
            Instrument::StoragePermanentErrorsTotal,
            Instrument::ChunkSealsTotal,
            Instrument::ChunkDedupHitsTotal,
            Instrument::ChunkLogicalBytesTotal,
            Instrument::ChunkUniqueBytesTotal,
            Instrument::ChunkBytesUploadedTotal,
            Instrument::ChunkStorageHeadProbesTotal,
            Instrument::ChunkStorageHeadHitsTotal,
            Instrument::ChunkStorageCacheHitsTotal,
            Instrument::ChunkStorageCacheInflightCoalescedTotal,
            Instrument::ChunkStorageCacheWarmupSeededTotal,
            Instrument::ChunkUploadStrandedTotal,
            Instrument::UploadQueueDepth,
            Instrument::IscsiSessionsActive,
            Instrument::IscsiCommandsTotal,
            Instrument::IscsiCommandSeconds,
            Instrument::IscsiDataInBytesTotal,
            Instrument::IscsiDataOutBytesTotal,
            Instrument::TapeWriteBufferUsedBytes,
            Instrument::TapeReadBufferUsedBytes,
            Instrument::PrefetchQueueDepth,
            Instrument::PrefetchHitsTotal,
            Instrument::PrefetchMissesTotal,
            Instrument::AuditEntriesTotal,
            Instrument::AuditChainResetsTotal,
            Instrument::AuditQueueDropsTotal,
            Instrument::OrphanScanChunksFoundTotal,
            Instrument::OrphanScanDurationSeconds,
            Instrument::AlertsFiredTotal,
            Instrument::DaemonStartTimeSeconds,
        ]
    }

    /// The name suffix.
    pub fn suffix(self) -> (r: &'static str)
        ensures
            r@ == suffix_of(self),
    {
        match self {
            Instrument::PoolUsedBytes => "pool_used_bytes",
            Instrument::PoolCapBytes => "pool_cap_bytes",
            Instrument::PoolEvictionsTotal => "pool_evictions",
            Instrument::PoolBackpressureWaitsTotal => "pool_backpressure_waits",
            Instrument::PoolBackpressureWaitSeconds => "pool_backpressure_wait",
            Instrument::CacheEvictionsTotal => "cache_evictions",
            Instrument::CacheMissAfterEvictionSeconds => "cache_miss_after_eviction",
            Instrument::ScsiXcopyTotal => "scsi_xcopy",
            Instrument::ScsiXcopyBytesTotal => "scsi_xcopy_copied",
            Instrument::ScsiXcopySegmentsTotal => "scsi_xcopy_segments",
            Instrument::StorageRequestsTotal => "storage_requests",
            Instrument::StorageRequestSeconds => "storage_request",
            Instrument::StorageBytesTotal => "storage_transferred",
            Instrument::StorageRetriesTotal => "storage_retries",
            Instrument::StoragePermanentErrorsTotal => "storage_permanent_errors",
            Instrument::ChunkSealsTotal => "chunk_seals",
            Instrument::ChunkDedupHitsTotal => "chunk_dedup_hits",
            Instrument::ChunkLogicalBytesTotal => "chunk_logical",
            Instrument::ChunkUniqueBytesTotal => "chunk_unique",
            Instrument::ChunkBytesUploadedTotal => "chunk_uploaded",
            Instrument::ChunkStorageHeadProbesTotal => "chunk_storage_head_probes",
            Instrument::ChunkStorageHeadHitsTotal => "chunk_storage_head_hits",
            Instrument::ChunkStorageCacheHitsTotal => "chunk_storage_cache_hits",
            Instrument::ChunkStorageCacheInflightCoalescedTotal => "chunk_storage_cache_inflight_coalesced",
            Instrument::ChunkStorageCacheWarmupSeededTotal => "chunk_storage_cache_warmup_seeded",
            Instrument::ChunkUploadStrandedTotal => "chunk_upload_stranded",
            Instrument::UploadQueueDepth => "upload_queue_depth",
            Instrument::IscsiSessionsActive => "iscsi_sessions_active",
            Instrument::IscsiCommandsTotal => "iscsi_commands",
            Instrument::IscsiCommandSeconds => "iscsi_command",
            Instrument::IscsiDataInBytesTotal => "iscsi_data_in",
            Instrument::IscsiDataOutBytesTotal => "iscsi_data_out",
            Instrument::TapeWriteBufferUsedBytes => "tape_write_buffer_used",
            Instrument::TapeReadBufferUsedBytes => "tape_read_buffer_used",
            Instrument::PrefetchQueueDepth => "prefetch_queue_depth",
            Instrument::PrefetchHitsTotal => "prefetch_hits",
            Instrument::PrefetchMissesTotal => "prefetch_misses",
            Instrument::AuditEntriesTotal => "audit_entries",
            Instrument::AuditChainResetsTotal => "audit_chain_resets",
            Instrument::AuditQueueDropsTotal => "audit_queue_drops",
            Instrument::OrphanScanChunksFoundTotal => "orphan_scan_chunks_found",
            Instrument::OrphanScanDurationSeconds => "orphan_scan_duration",
            Instrument::AlertsFiredTotal => "alerts_fired",
            Instrument::DaemonStartTimeSeconds => "daemon_start_time",
        }
    }

    /// The kind.
    pub fn kind(self) -> (r: InstrumentKind)
        ensures
            r == kind_of(self),
    {
        match self {
            Instrument::PoolUsedBytes
            | Instrument::PoolCapBytes
            | Instrument::TapeWriteBufferUsedBytes
            | Instrument::TapeReadBufferUsedBytes => InstrumentKind::GaugeU64,
            Instrument::UploadQueueDepth
            | Instrument::IscsiSessionsActive
            | Instrument::PrefetchQueueDepth
            | Instrument::DaemonStartTimeSeconds => InstrumentKind::GaugeI64,
            Instrument::PoolBackpressureWaitSeconds
            | Instrument::CacheMissAfterEvictionSeconds
            | Instrument::StorageRequestSeconds
            | Instrument::IscsiCommandSeconds
            | Instrument::OrphanScanDurationSeconds => InstrumentKind::Histogram,
            _ => InstrumentKind::CounterU64,
        }
    }

    /// The unit.
    pub fn unit(self) -> (r: Option<&'static str>)
        ensures
            (match r {
                Some(u) => Some(u@),
                None => None,
            }) == unit_of(self),
    {
        match self {
            Instrument::PoolBackpressureWaitSeconds
            | Instrument::CacheMissAfterEvictionSeconds
            | Instrument::StorageRequestSeconds
            | Instrument::IscsiCommandSeconds
            | Instrument::OrphanScanDurationSeconds
            | Instrument::DaemonStartTimeSeconds => Some("s"),
            Instrument::ScsiXcopyBytesTotal
            | Instrument::StorageBytesTotal
            | Instrument::ChunkLogicalBytesTotal
            | Instrument::ChunkUniqueBytesTotal
            | Instrument::ChunkBytesUploadedTotal
            | Instrument::IscsiDataInBytesTotal
            | Instrument::IscsiDataOutBytesTotal
            | Instrument::TapeWriteBufferUsedBytes
            | Instrument::TapeReadBufferUsedBytes => Some("By"),
            _ => None,
        }
    }

    /// The description.
    pub fn description(self) -> (r: &'static str)
        ensures
            r@ == description_of(self),
    {
        match self {
            Instrument::PoolUsedBytes => "Per-backend disk-cache pool bytes in use",
            Instrument::PoolCapBytes => "Per-backend disk-cache pool cap (hard ceiling)",
            Instrument::PoolEvictionsTotal => "Per-backend pool eviction events",
            Instrument::PoolBackpressureWaitsTotal => "Times chunk-seal blocked on the pool budget",
            Instrument::PoolBackpressureWaitSeconds => "Wall-clock waited on the pool budget",
            Instrument::CacheEvictionsTotal => "VSA per-volume page-cache evictions, labeled clean vs dirty (dirty = required a cloud flush)",
            Instrument::CacheMissAfterEvictionSeconds => "Age (now - evicted_at) of cache misses whose chunk was recently evicted from this backend's pool. Drives operator sizing of disk_cache.size_gb.",
            Instrument::ScsiXcopyTotal => "EXTENDED COPY commands by outcome (success/reject/error)",
            Instrument::ScsiXcopyBytesTotal => "EXTENDED COPY host-visible bytes by path (fast/slow)",
            Instrument::ScsiXcopySegmentsTotal => "EXTENDED COPY segments executed by path (fast/slow)",
            Instrument::StorageRequestsTotal => "Cloud requests by backend/op/outcome",
            Instrument::StorageRequestSeconds => "Cloud request latency by backend/op/outcome",
            Instrument::StorageBytesTotal => "Cloud bytes transferred by backend/op/outcome",
            Instrument::StorageRetriesTotal => "Cloud retry attempts by backend/error class",
            Instrument::StoragePermanentErrorsTotal => "Permanent cloud errors that bypassed retry",
            Instrument::ChunkSealsTotal => "Chunks sealed into the pool",
            Instrument::ChunkDedupHitsTotal => "Chunks skipped because the hash already existed",
            Instrument::ChunkLogicalBytesTotal => "Logical (pre-dedup) bytes sealed across all chunks",
            Instrument::ChunkUniqueBytesTotal => "Unique (post-dedup) bytes sealed — bytes that actually grew the pool",
            Instrument::ChunkBytesUploadedTotal => "Chunk bytes successfully PUT to cloud",
            Instrument::ChunkStorageHeadProbesTotal => "Cloud-side HEAD-before-PUT probes (Global scope)",
            Instrument::ChunkStorageHeadHitsTotal => "Cloud HEAD probes that found the object already present",
            Instrument::ChunkStorageCacheHitsTotal => "Meta-cache hits — lookup served from Probed/Uploaded entry without backend round-trip",
            Instrument::ChunkStorageCacheInflightCoalescedTotal => "Concurrent uploads that joined an in-flight singleflight instead of issuing a duplicate PUT",
            Instrument::ChunkStorageCacheWarmupSeededTotal => "Cache entries seeded from a LIST at boot / first registry insertion",
            Instrument::ChunkUploadStrandedTotal => "Pages/chunks left LocalOnly because the upload worker could not resolve a backend or owning entity",
            Instrument::UploadQueueDepth => "Chunks/pages sealed locally but not yet uploaded to the backend",
            Instrument::IscsiSessionsActive => "iSCSI sessions currently logged in",
            Instrument::IscsiCommandsTotal => "iSCSI SCSI commands by opcode/outcome",
            Instrument::IscsiCommandSeconds => "iSCSI SCSI command service time",
            Instrument::IscsiDataInBytesTotal => "Bytes received from iSCSI initiators (host→target)",
            Instrument::IscsiDataOutBytesTotal => "Bytes sent to iSCSI initiators (target→host)",
            Instrument::TapeWriteBufferUsedBytes => "Per-cartridge write-staging buffer occupancy",
            Instrument::TapeReadBufferUsedBytes => "Per-cartridge read-prefetch buffer occupancy",
            Instrument::PrefetchQueueDepth => "Outstanding prefetch tasks",
            Instrument::PrefetchHitsTotal => "Reads served from a prefetched chunk",
            Instrument::PrefetchMissesTotal => "Reads that found nothing prefetched and waited on cloud",
            Instrument::AuditEntriesTotal => "Audit log entries appended, by event kind",
            Instrument::AuditChainResetsTotal => "Operator-acknowledged audit chain breaks",
            Instrument::AuditQueueDropsTotal => "Audit entries dropped because the writer-task mpsc was full",
            Instrument::OrphanScanChunksFoundTotal => "Sealed-but-not-uploaded chunks discovered by the boot-time orphan scan",
            Instrument::OrphanScanDurationSeconds => "Wall-clock the boot-time orphan-upload scan took",
            Instrument::AlertsFiredTotal => "First-party alerts attempted, by class/severity/sink/outcome",
            Instrument::DaemonStartTimeSeconds => "Daemon start time as Unix epoch seconds",
        }
    }

    /// The explicit histogram bucket bounds, in seconds.
    pub fn boundaries(self) -> (r: Vec<u64>)
        ensures
            r@ == boundaries_of(self),
    {
        match self {
            Instrument::CacheMissAfterEvictionSeconds => vec![1u64, 2, 4, 8, 16, 32, 64, 128, 256],
            _ => Vec::new(),
        }
    }
}

/// What the metric registry is told about one instrument.
#[derive(Debug, Clone)]
pub struct InstrumentDef {
    pub instrument: Instrument,
    pub name: String,
    pub kind: InstrumentKind,
    pub description: &'static str,
    pub unit: Option<&'static str>,
    pub boundaries: Vec<u64>,
}

/// The full name of an instrument.
pub open spec fn full_name(prefix: Seq<char>, i: Instrument) -> Seq<char> {
    prefix + "_"@ + suffix_of(i)
}

impl InstrumentDef {
    /// This definition is the one of instrument `i` under `prefix`.
    pub open spec fn defines(&self, prefix: Seq<char>, i: Instrument) -> bool {
        &&& self.instrument == i
        &&& self.name@ == full_name(prefix, i)
        &&& self.kind == kind_of(i)
        &&& self.description@ == description_of(i)
        &&& (match self.unit {
            Some(u) => Some(u@),
            None => None,
        }) == unit_of(i)
        &&& self.boundaries@ == boundaries_of(i)
    }
}

/// The instruments of one telemetry instance.
#[derive(Debug, Clone)]
pub struct TelemetryInner {
    pub instruments: Vec<InstrumentDef>,
}

impl TelemetryInner {
    /// All instruments of `prefix`, in registration order.
    pub open spec fn built(&self, prefix: Seq<char>) -> bool {
        &&& self.instruments@.len() == all_instruments().len()
        &&& forall|i: int|
            0 <= i < all_instruments().len() ==> (#[trigger] self.instruments@[i]).defines(
                prefix,
                all_instruments()[i],
            )
    }

    /// Defines every instrument under `prefix`.
    pub fn build(prefix: &str) -> (r: Self)
        ensures
            r.built(prefix@),
    {
        let all = Instrument::all();
        let mut instruments: Vec<InstrumentDef> = Vec::new();
        let mut i: usize = 0;
        while i < all.len()
            invariant
                all@ == all_instruments(),
                i <= all@.len(),
                instruments@.len() == i,
                forall|j: int|
                    0 <= j < i ==> (#[trigger] instruments@[j]).defines(
                        prefix@,
                        all_instruments()[j],
                    ),
            decreases all@.len() - i,
        {
            let instrument = all[i];
            let mut name = prefix.to_owned();
            name.append("_");
            name.append(instrument.suffix());
            instruments.push(
                InstrumentDef {
                    instrument,
                    name,
                    kind: instrument.kind(),
                    description: instrument.description(),
                    unit: instrument.unit(),
                    boundaries: instrument.boundaries(),
                },
            );
            i += 1;
        }
        TelemetryInner { instruments }
    }
}

/// The length of each suffix.
proof fn lemma_suffix_lengths()
    ensures
        "pool_used_bytes"@.len() == 15,
        "pool_cap_bytes"@.len() == 14,
        "pool_evictions"@.len() == 14,
        "pool_backpressure_waits"@.len() == 23,
        "pool_backpressure_wait"@.len() == 22,
        "cache_evictions"@.len() == 15,
        "cache_miss_after_eviction"@.len() == 25,
        "scsi_xcopy"@.len() == 10,
        "scsi_xcopy_copied"@.len() == 17,
        "scsi_xcopy_segments"@.len() == 19,
        "storage_requests"@.len() == 16,
        "storage_request"@.len() == 15,
        "storage_transferred"@.len() == 19,
        "storage_retries"@.len() == 15,
        "storage_permanent_errors"@.len() == 24,
        "chunk_seals"@.len() == 11,
        "chunk_dedup_hits"@.len() == 16,
        "chunk_logical"@.len() == 13,
        "chunk_unique"@.len() == 12,
        "chunk_uploaded"@.len() == 14,
        "chunk_storage_head_probes"@.len() == 25,
        "chunk_storage_head_hits"@.len() == 23,
        "chunk_storage_cache_hits"@.len() == 24,
        "chunk_storage_cache_inflight_coalesced"@.len() == 38,
        "chunk_storage_cache_warmup_seeded"@.len() == 33,
        "chunk_upload_stranded"@.len() == 21,
        "upload_queue_depth"@.len() == 18,
        "iscsi_sessions_active"@.len() == 21,
        "iscsi_commands"@.len() == 14,
        "iscsi_command"@.len() == 13,
        "iscsi_data_in"@.len() == 13,
        "iscsi_data_out"@.len() == 14,
        "tape_write_buffer_used"@.len() == 22,
        "tape_read_buffer_used"@.len() == 21,
        "prefetch_queue_depth"@.len() == 20,
        "prefetch_hits"@.len() == 13,
        "prefetch_misses"@.len() == 15,
        "audit_entries"@.len() == 13,
        "audit_chain_resets"@.len() == 18,
        "audit_queue_drops"@.len() == 17,
        "orphan_scan_chunks_found"@.len() == 24,
        "orphan_scan_duration"@.len() == 20,
        "alerts_fired"@.len() == 12,
        "daemon_start_time"@.len() == 17,
{
    reveal_strlit("pool_used_bytes");
    reveal_strlit("pool_cap_bytes");
    reveal_strlit("pool_evictions");
    reveal_strlit("pool_backpressure_waits");
    reveal_strlit("pool_backpressure_wait");
    reveal_strlit("cache_evictions");
    reveal_strlit("cache_miss_after_eviction");
    reveal_strlit("scsi_xcopy");
    reveal_strlit("scsi_xcopy_copied");
    reveal_strlit("scsi_xcopy_segments");
    reveal_strlit("storage_requests");
    reveal_strlit("storage_request");
    reveal_strlit("storage_transferred");
    reveal_strlit("storage_retries");
    reveal_strlit("storage_permanent_errors");
    reveal_strlit("chunk_seals");
    reveal_strlit("chunk_dedup_hits");
    reveal_strlit("chunk_logical");
    reveal_strlit("chunk_unique");
    reveal_strlit("chunk_uploaded");
    reveal_strlit("chunk_storage_head_probes");
    reveal_strlit("chunk_storage_head_hits");
    reveal_strlit("chunk_storage_cache_hits");
    reveal_strlit("chunk_storage_cache_inflight_coalesced");
    reveal_strlit("chunk_storage_cache_warmup_seeded");
    reveal_strlit("chunk_upload_stranded");
    reveal_strlit("upload_queue_depth");
    reveal_strlit("iscsi_sessions_active");
    reveal_strlit("iscsi_commands");
    reveal_strlit("iscsi_command");
    reveal_strlit("iscsi_data_in");
    reveal_strlit("iscsi_data_out");
    reveal_strlit("tape_write_buffer_used");
    reveal_strlit("tape_read_buffer_used");
    reveal_strlit("prefetch_queue_depth");
    reveal_strlit("prefetch_hits");
    reveal_strlit("prefetch_misses");
    reveal_strlit("audit_entries");
    reveal_strlit("audit_chain_resets");
    reveal_strlit("audit_queue_drops");
    reveal_strlit("orphan_scan_chunks_found");
    reveal_strlit("orphan_scan_duration");
    reveal_strlit("alerts_fired");
    reveal_strlit("daemon_start_time");
}

/// Suffixes of equal length differ.
proof fn lemma_equal_length_suffixes()
    ensures
        "chunk_unique"@ != "alerts_fired"@,
        "chunk_logical"@ != "iscsi_command"@,
        "chunk_logical"@ != "iscsi_data_in"@,
        "chunk_logical"@ != "prefetch_hits"@,
        "chunk_logical"@ != "audit_entries"@,
        "iscsi_command"@ != "iscsi_data_in"@,
        "iscsi_command"@ != "prefetch_hits"@,
        "iscsi_command"@ != "audit_entries"@,
        "iscsi_data_in"@ != "prefetch_hits"@,
        "iscsi_data_in"@ != "audit_entries"@,
        "prefetch_hits"@ != "audit_entries"@,
        "pool_cap_bytes"@ != "pool_evictions"@,
        "pool_cap_bytes"@ != "chunk_uploaded"@,
        "pool_cap_bytes"@ != "iscsi_commands"@,
        "pool_cap_bytes"@ != "iscsi_data_out"@,
        "pool_evictions"@ != "chunk_uploaded"@,
        "pool_evictions"@ != "iscsi_commands"@,
        "pool_evictions"@ != "iscsi_data_out"@,
        "chunk_uploaded"@ != "iscsi_commands"@,
        "chunk_uploaded"@ != "iscsi_data_out"@,
        "iscsi_commands"@ != "iscsi_data_out"@,
        "pool_used_bytes"@ != "cache_evictions"@,
        "pool_used_bytes"@ != "storage_request"@,
        "pool_used_bytes"@ != "storage_retries"@,
        "pool_used_bytes"@ != "prefetch_misses"@,
        "cache_evictions"@ != "storage_request"@,
        "cache_evictions"@ != "storage_retries"@,
        "cache_evictions"@ != "prefetch_misses"@,
        "storage_request"@ != "storage_retries"@,
        "storage_request"@ != "prefetch_misses"@,
        "storage_retries"@ != "prefetch_misses"@,
        "storage_requests"@ != "chunk_dedup_hits"@,
        "scsi_xcopy_copied"@ != "audit_queue_drops"@,
        "scsi_xcopy_copied"@ != "daemon_start_time"@,
        "audit_queue_drops"@ != "daemon_start_time"@,
        "upload_queue_depth"@ != "audit_chain_resets"@,
        "scsi_xcopy_segments"@ != "storage_transferred"@,
        "prefetch_queue_depth"@ != "orphan_scan_duration"@,
        "chunk_upload_stranded"@ != "iscsi_sessions_active"@,
        "chunk_upload_stranded"@ != "tape_read_buffer_used"@,
        "iscsi_sessions_active"@ != "tape_read_buffer_used"@,
        "pool_backpressure_wait"@ != "tape_write_buffer_used"@,
        "pool_backpressure_waits"@ != "chunk_storage_head_hits"@,
        "storage_permanent_errors"@ != "chunk_storage_cache_hits"@,
        "storage_permanent_errors"@ != "orphan_scan_chunks_found"@,
        "chunk_storage_cache_hits"@ != "orphan_scan_chunks_found"@,
        "cache_miss_after_eviction"@ != "chunk_storage_head_probes"@,
{
    reveal_strlit("alerts_fired");
    reveal_strlit("audit_chain_resets");
    reveal_strlit("audit_entries");
    reveal_strlit("audit_queue_drops");
    reveal_strlit("cache_evictions");
    reveal_strlit("cache_miss_after_eviction");
    reveal_strlit("chunk_dedup_hits");
    reveal_strlit("chunk_logical");
    reveal_strlit("chunk_storage_cache_hits");
    reveal_strlit("chunk_storage_head_hits");
    reveal_strlit("chunk_storage_head_probes");
    reveal_strlit("chunk_unique");
    reveal_strlit("chunk_upload_stranded");
    reveal_strlit("chunk_uploaded");
    reveal_strlit("daemon_start_time");
    reveal_strlit("iscsi_command");
    reveal_strlit("iscsi_commands");
    reveal_strlit("iscsi_data_in");
    reveal_strlit("iscsi_data_out");
    reveal_strlit("iscsi_sessions_active");
    reveal_strlit("orphan_scan_chunks_found");
    reveal_strlit("orphan_scan_duration");
    reveal_strlit("pool_backpressure_wait");
    reveal_strlit("pool_backpressure_waits");
    reveal_strlit("pool_cap_bytes");
    reveal_strlit("pool_evictions");
    reveal_strlit("pool_used_bytes");
    reveal_strlit("prefetch_hits");
    reveal_strlit("prefetch_misses");
    reveal_strlit("prefetch_queue_depth");
    reveal_strlit("scsi_xcopy_copied");
    reveal_strlit("scsi_xcopy_segments");
    reveal_strlit("storage_permanent_errors");
    reveal_strlit("storage_request");
    reveal_strlit("storage_requests");
    reveal_strlit("storage_retries");
    reveal_strlit("storage_transferred");
    reveal_strlit("tape_read_buffer_used");
    reveal_strlit("tape_write_buffer_used");
    reveal_strlit("upload_queue_depth");
    assert("chunk_unique"@[0] != "alerts_fired"@[0]);
    assert("chunk_logical"@[0] != "iscsi_command"@[0]);
    assert("chunk_logical"@[0] != "iscsi_data_in"@[0]);
    assert("chunk_logical"@[0] != "prefetch_hits"@[0]);
    assert("chunk_logical"@[0] != "audit_entries"@[0]);
    assert("iscsi_command"@[6] != "iscsi_data_in"@[6]);
    assert("iscsi_command"@[0] != "prefetch_hits"@[0]);
    assert("iscsi_command"@[0] != "audit_entries"@[0]);
    assert("iscsi_data_in"@[0] != "prefetch_hits"@[0]);
    assert("iscsi_data_in"@[0] != "audit_entries"@[0]);
    assert("prefetch_hits"@[0] != "audit_entries"@[0]);
    assert("pool_cap_bytes"@[5] != "pool_evictions"@[5]);
    assert("pool_cap_bytes"@[0] != "chunk_uploaded"@[0]);
    assert("pool_cap_bytes"@[0] != "iscsi_commands"@[0]);
    assert("pool_cap_bytes"@[0] != "iscsi_data_out"@[0]);
    assert("pool_evictions"@[0] != "chunk_uploaded"@[0]);
    assert("pool_evictions"@[0] != "iscsi_commands"@[0]);
    assert("pool_evictions"@[0] != "iscsi_data_out"@[0]);
    assert("chunk_uploaded"@[0] != "iscsi_commands"@[0]);
    assert("chunk_uploaded"@[0] != "iscsi_data_out"@[0]);
    assert("iscsi_commands"@[6] != "iscsi_data_out"@[6]);
    assert("pool_used_bytes"@[0] != "cache_evictions"@[0]);
    assert("pool_used_bytes"@[0] != "storage_request"@[0]);
    assert("pool_used_bytes"@[0] != "storage_retries"@[0]);
    assert("pool_used_bytes"@[1] != "prefetch_misses"@[1]);
    assert("cache_evictions"@[0] != "storage_request"@[0]);
    assert("cache_evictions"@[0] != "storage_retries"@[0]);
    assert("cache_evictions"@[0] != "prefetch_misses"@[0]);
    assert("storage_request"@[10] != "storage_retries"@[10]);
    assert("storage_request"@[0] != "prefetch_misses"@[0]);
    assert("storage_retries"@[0] != "prefetch_misses"@[0]);
    assert("storage_requests"@[0] != "chunk_dedup_hits"@[0]);
    assert("scsi_xcopy_copied"@[0] != "audit_queue_drops"@[0]);
    assert("scsi_xcopy_copied"@[0] != "daemon_start_time"@[0]);
    assert("audit_queue_drops"@[0] != "daemon_start_time"@[0]);
    assert("upload_queue_depth"@[0] != "audit_chain_resets"@[0]);
    assert("scsi_xcopy_segments"@[1] != "storage_transferred"@[1]);
    assert("prefetch_queue_depth"@[0] != "orphan_scan_duration"@[0]);
    assert("chunk_upload_stranded"@[0] != "iscsi_sessions_active"@[0]);
    assert("chunk_upload_stranded"@[0] != "tape_read_buffer_used"@[0]);
    assert("iscsi_sessions_active"@[0] != "tape_read_buffer_used"@[0]);
    assert("pool_backpressure_wait"@[0] != "tape_write_buffer_used"@[0]);
    assert("pool_backpressure_waits"@[0] != "chunk_storage_head_hits"@[0]);
    assert("storage_permanent_errors"@[0] != "chunk_storage_cache_hits"@[0]);
    assert("storage_permanent_errors"@[0] != "orphan_scan_chunks_found"@[0]);
    assert("chunk_storage_cache_hits"@[0] != "orphan_scan_chunks_found"@[0]);
    assert("cache_miss_after_eviction"@[1] != "chunk_storage_head_probes"@[1]);
}

/// No two instruments share a name, whatever the prefix.
pub proof fn law_names_are_distinct(prefix: Seq<char>, i: Instrument, j: Instrument)
    requires
        full_name(prefix, i) == full_name(prefix, j),
    ensures
        i == j,
{
    let a = suffix_of(i);
    let b = suffix_of(j);
    let head = prefix + "_"@;
    assert(a =~= full_name(prefix, i).skip(head.len() as int));
    assert(b =~= full_name(prefix, j).skip(head.len() as int));
    lemma_suffix_lengths();
    lemma_equal_length_suffixes();
}

/// Every instrument is registered exactly once.
pub proof fn law_every_instrument_is_registered(i: Instrument)
    ensures
        all_instruments().contains(i),
        all_instruments().no_duplicates(),
{
    let all = all_instruments();
    match i {
        Instrument::PoolUsedBytes => assert(all[0] == i),
        Instrument::PoolCapBytes => assert(all[1] == i),
        Instrument::PoolEvictionsTotal => assert(all[2] == i),
        Instrument::PoolBackpressureWaitsTotal => assert(all[3] == i),
        Instrument::PoolBackpressureWaitSeconds => assert(all[4] == i),
        Instrument::CacheEvictionsTotal => assert(all[5] == i),
        Instrument::CacheMissAfterEvictionSeconds => assert(all[6] == i),
        Instrument::ScsiXcopyTotal => assert(all[7] == i),
        Instrument::ScsiXcopyBytesTotal => assert(all[8] == i),
        Instrument::ScsiXcopySegmentsTotal => assert(all[9] == i),
        Instrument::StorageRequestsTotal => assert(all[10] == i),
        Instrument::StorageRequestSeconds => assert(all[11] == i),
        Instrument::StorageBytesTotal => assert(all[12] == i),
        Instrument::StorageRetriesTotal => assert(all[13] == i),
        Instrument::StoragePermanentErrorsTotal => assert(all[14] == i),
        Instrument::ChunkSealsTotal => assert(all[15] == i),
        Instrument::ChunkDedupHitsTotal => assert(all[16] == i),
        Instrument::ChunkLogicalBytesTotal => assert(all[17] == i),
        Instrument::ChunkUniqueBytesTotal => assert(all[18] == i),
        Instrument::ChunkBytesUploadedTotal => assert(all[19] == i),
        Instrument::ChunkStorageHeadProbesTotal => assert(all[20] == i),
        Instrument::ChunkStorageHeadHitsTotal => assert(all[21] == i),
        Instrument::ChunkStorageCacheHitsTotal => assert(all[22] == i),
        Instrument::ChunkStorageCacheInflightCoalescedTotal => assert(all[23] == i),
        Instrument::ChunkStorageCacheWarmupSeededTotal => assert(all[24] == i),
        Instrument::ChunkUploadStrandedTotal => assert(all[25] == i),
        Instrument::UploadQueueDepth => assert(all[26] == i),
        Instrument::IscsiSessionsActive => assert(all[27] == i),
        Instrument::IscsiCommandsTotal => assert(all[28] == i),
        Instrument::IscsiCommandSeconds => assert(all[29] == i),
        Instrument::IscsiDataInBytesTotal => assert(all[30] == i),
        Instrument::IscsiDataOutBytesTotal => assert(all[31] == i),
        Instrument::TapeWriteBufferUsedBytes => assert(all[32] == i),
        Instrument::TapeReadBufferUsedBytes => assert(all[33] == i),
        Instrument::PrefetchQueueDepth => assert(all[34] == i),
        Instrument::PrefetchHitsTotal => assert(all[35] == i),
        Instrument::PrefetchMissesTotal => assert(all[36] == i),
        Instrument::AuditEntriesTotal => assert(all[37] == i),
        Instrument::AuditChainResetsTotal => assert(all[38] == i),
        Instrument::AuditQueueDropsTotal => assert(all[39] == i),
        Instrument::OrphanScanChunksFoundTotal => assert(all[40] == i),
        Instrument::OrphanScanDurationSeconds => assert(all[41] == i),
        Instrument::AlertsFiredTotal => assert(all[42] == i),
        Instrument::DaemonStartTimeSeconds => assert(all[43] == i),
    }
}

/// The exporter appends `_total` to counters and `_bytes` to byte-valued instruments; no
/// name carries that ending already, so none is doubled.
pub proof fn law_no_ending_is_doubled(i: Instrument)
    ensures
        kind_of(i) is CounterU64 ==> !"_total"@.is_suffix_of(suffix_of(i)),
        unit_of(i) == Some("By"@) ==> !"_bytes"@.is_suffix_of(suffix_of(i)),
{
    reveal_strlit("_total");
    reveal_strlit("_bytes");
    reveal_strlit("By");
    reveal_strlit("s");
    assert("By"@.len() != "s"@.len());
    match i {
        Instrument::PoolEvictionsTotal => {
            reveal_strlit("pool_evictions");
            assert("pool_evictions"@[13] != "_total"@[5]);
        },
        Instrument::PoolBackpressureWaitsTotal => {
            reveal_strlit("pool_backpressure_waits");
            assert("pool_backpressure_waits"@[22] != "_total"@[5]);
        },
        Instrument::CacheEvictionsTotal => {
            reveal_strlit("cache_evictions");
            assert("cache_evictions"@[14] != "_total"@[5]);
        },
        Instrument::ScsiXcopyTotal => {
            reveal_strlit("scsi_xcopy");
            assert("scsi_xcopy"@[9] != "_total"@[5]);
        },
        Instrument::ScsiXcopyBytesTotal => {
            reveal_strlit("scsi_xcopy_copied");
            assert("scsi_xcopy_copied"@[16] != "_total"@[5]);
            assert("scsi_xcopy_copied"@[16] != "_bytes"@[5]);
        },
        Instrument::ScsiXcopySegmentsTotal => {
            reveal_strlit("scsi_xcopy_segments");
            assert("scsi_xcopy_segments"@[18] != "_total"@[5]);
        },
        Instrument::StorageRequestsTotal => {
            reveal_strlit("storage_requests");
            assert("storage_requests"@[15] != "_total"@[5]);
        },
        Instrument::StorageBytesTotal => {
            reveal_strlit("storage_transferred");
            assert("storage_transferred"@[18] != "_total"@[5]);
            assert("storage_transferred"@[18] != "_bytes"@[5]);
        },
        Instrument::StorageRetriesTotal => {
            reveal_strlit("storage_retries");
            assert("storage_retries"@[14] != "_total"@[5]);
        },
        Instrument::StoragePermanentErrorsTotal => {
            reveal_strlit("storage_permanent_errors");
            assert("storage_permanent_errors"@[23] != "_total"@[5]);
        },
        Instrument::ChunkSealsTotal => {
            reveal_strlit("chunk_seals");
            assert("chunk_seals"@[10] != "_total"@[5]);
        },
        Instrument::ChunkDedupHitsTotal => {
            reveal_strlit("chunk_dedup_hits");
            assert("chunk_dedup_hits"@[15] != "_total"@[5]);
        },
        Instrument::ChunkLogicalBytesTotal => {
            reveal_strlit("chunk_logical");
            assert("chunk_logical"@[10] != "_total"@[3]);
            assert("chunk_logical"@[12] != "_bytes"@[5]);
        },
        Instrument::ChunkUniqueBytesTotal => {
            reveal_strlit("chunk_unique");
            assert("chunk_unique"@[11] != "_total"@[5]);
            assert("chunk_unique"@[11] != "_bytes"@[5]);
        },
        Instrument::ChunkBytesUploadedTotal => {
            reveal_strlit("chunk_uploaded");
            assert("chunk_uploaded"@[13] != "_total"@[5]);
            assert("chunk_uploaded"@[13] != "_bytes"@[5]);
        },
        Instrument::ChunkStorageHeadProbesTotal => {
            reveal_strlit("chunk_storage_head_probes");
            assert("chunk_storage_head_probes"@[24] != "_total"@[5]);
        },
        Instrument::ChunkStorageHeadHitsTotal => {
            reveal_strlit("chunk_storage_head_hits");
            assert("chunk_storage_head_hits"@[22] != "_total"@[5]);
        },
        Instrument::ChunkStorageCacheHitsTotal => {
            reveal_strlit("chunk_storage_cache_hits");
            assert("chunk_storage_cache_hits"@[23] != "_total"@[5]);
        },
        Instrument::ChunkStorageCacheInflightCoalescedTotal => {
            reveal_strlit("chunk_storage_cache_inflight_coalesced");
            assert("chunk_storage_cache_inflight_coalesced"@[37] != "_total"@[5]);
        },
        Instrument::ChunkStorageCacheWarmupSeededTotal => {
            reveal_strlit("chunk_storage_cache_warmup_seeded");
            assert("chunk_storage_cache_warmup_seeded"@[32] != "_total"@[5]);
        },
        Instrument::ChunkUploadStrandedTotal => {
            reveal_strlit("chunk_upload_stranded");
            assert("chunk_upload_stranded"@[20] != "_total"@[5]);
        },
        Instrument::IscsiCommandsTotal => {
            reveal_strlit("iscsi_commands");
            assert("iscsi_commands"@[13] != "_total"@[5]);
        },
        Instrument::IscsiDataInBytesTotal => {
            reveal_strlit("iscsi_data_in");
            assert("iscsi_data_in"@[12] != "_total"@[5]);
            assert("iscsi_data_in"@[12] != "_bytes"@[5]);
        },
        Instrument::IscsiDataOutBytesTotal => {
            reveal_strlit("iscsi_data_out");
            assert("iscsi_data_out"@[13] != "_total"@[5]);
            assert("iscsi_data_out"@[13] != "_bytes"@[5]);
        },
        Instrument::TapeWriteBufferUsedBytes => {
            reveal_strlit("tape_write_buffer_used");
            assert("tape_write_buffer_used"@[21] != "_bytes"@[5]);
        },
        Instrument::TapeReadBufferUsedBytes => {
            reveal_strlit("tape_read_buffer_used");
            assert("tape_read_buffer_used"@[20] != "_bytes"@[5]);
        },
        Instrument::PrefetchHitsTotal => {
            reveal_strlit("prefetch_hits");
            assert("prefetch_hits"@[12] != "_total"@[5]);
        },
        Instrument::PrefetchMissesTotal => {
            reveal_strlit("prefetch_misses");
            assert("prefetch_misses"@[14] != "_total"@[5]);
        },
        Instrument::AuditEntriesTotal => {
            reveal_strlit("audit_entries");
            assert("audit_entries"@[12] != "_total"@[5]);
        },
        Instrument::AuditChainResetsTotal => {
            reveal_strlit("audit_chain_resets");
            assert("audit_chain_resets"@[17] != "_total"@[5]);
        },
        Instrument::AuditQueueDropsTotal => {
            reveal_strlit("audit_queue_drops");
            assert("audit_queue_drops"@[16] != "_total"@[5]);
        },
        Instrument::OrphanScanChunksFoundTotal => {
            reveal_strlit("orphan_scan_chunks_found");
            assert("orphan_scan_chunks_found"@[23] != "_total"@[5]);
        },
        Instrument::AlertsFiredTotal => {
            reveal_strlit("alerts_fired");
            assert("alerts_fired"@[11] != "_total"@[5]);
        },
        _ => {},
    }
}

} // verus!
