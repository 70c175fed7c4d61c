//! Laws of telemetry: what each recording call emits, through an instance and through a slot.

use vstd::prelude::*;

use crate::instruments::Instrument;
use crate::record;
use crate::telemetry::{self, Sample, SampleValue, Telemetry};

verus! {

/// Whether a sample is of this instrument, with this value and these labels, in order.
pub open spec fn shows(
    s: Sample,
    instrument: Instrument,
    value: SampleValue,
    labels: Seq<(Seq<char>, Seq<char>)>,
) -> bool {
    &&& s.instrument == instrument
    &&& s.value == value
    &&& s.labels@.len() == labels.len()
    &&& forall|j: int|
        0 <= j < labels.len() ==> (#[trigger] s.labels@[j]).0@ == labels[j].0 && s.labels@[j].1@
            == labels[j].1
}

/// Whether two lists of samples are alike, sample by sample.
pub open spec fn alike(a: Seq<Sample>, b: Seq<Sample>) -> bool {
    a.len() == b.len() && forall|k: int|
        0 <= k < a.len() ==> shows(#[trigger] a[k], b[k].instrument, b[k].value, seen(b[k]))
}

/// The labels of a sample as texts.
pub open spec fn seen(s: Sample) -> Seq<(Seq<char>, Seq<char>)> {
    Seq::new(s.labels@.len(), |j: int| (s.labels@[j].0@, s.labels@[j].1@))
}

/// The views of samples are views of the samples.
proof fn lemma_samples(samples: Seq<Sample>)
    ensures
        telemetry::sample_views(samples).len() == samples.len(),
        forall|k: int|
            0 <= k < samples.len() ==> #[trigger] shows(
                samples[k],
                telemetry::sample_views(samples)[k].instrument,
                telemetry::sample_views(samples)[k].value,
                telemetry::sample_views(samples)[k].labels,
            ),
{
    assert forall|k: int| 0 <= k < samples.len() implies #[trigger] shows(
        samples[k],
        telemetry::sample_views(samples)[k].instrument,
        telemetry::sample_views(samples)[k].value,
        telemetry::sample_views(samples)[k].labels,
    ) by {
        let v = telemetry::sample_views(samples)[k];
        assert(v == samples[k]@);
        assert(v.labels == telemetry::label_views(samples[k].labels@));
    }
}

/// One sample of a list with known views.
proof fn lemma_shown(samples: Seq<Sample>, k: int, v: telemetry::SampleView)
    requires
        0 <= k < telemetry::sample_views(samples).len(),
        telemetry::sample_views(samples)[k] == v,
    ensures
        shows(samples[k], v.instrument, v.value, v.labels),
{
    lemma_samples(samples);
    assert(shows(
        samples[k],
        telemetry::sample_views(samples)[k].instrument,
        telemetry::sample_views(samples)[k].value,
        telemetry::sample_views(samples)[k].labels,
    ));
}

/// Lists with the same views are alike.
proof fn lemma_alike(a: Seq<Sample>, b: Seq<Sample>)
    requires
        telemetry::sample_views(a) == telemetry::sample_views(b),
    ensures
        alike(a, b),
{
    lemma_samples(a);
    lemma_samples(b);
    assert forall|k: int| 0 <= k < a.len() implies shows(
        #[trigger] a[k],
        b[k].instrument,
        b[k].value,
        seen(b[k]),
    ) by {
        let v = telemetry::sample_views(b)[k];
        lemma_shown(a, k, v);
        lemma_shown(b, k, v);
    }
}

/// What a pool reports: the bytes in use and the cap as levels, and each eviction, labelled with
/// the backend. An empty slot emits nothing, and one with an instance what the
/// instance emits.
pub proof fn law_pool_samples(
    t: Telemetry,
    backend: &str,
    used: u64,
    cap: u64,
    a: Vec<Sample>,
    a_slot: Vec<Sample>,
    a_empty: Vec<Sample>,
    b: Vec<Sample>,
    b_slot: Vec<Sample>,
    b_empty: Vec<Sample>,
    c: Vec<Sample>,
    c_slot: Vec<Sample>,
    c_empty: Vec<Sample>,
)
    requires
        call_ensures(Telemetry::pool_set_used, (&t, backend, used), a),
        call_ensures(record::pool_used, (&Some(t), backend, used), a_slot),
        call_ensures(record::pool_used, (&None::<Telemetry>, backend, used), a_empty),
        call_ensures(Telemetry::pool_set_cap, (&t, backend, cap), b),
        call_ensures(record::pool_cap, (&Some(t), backend, cap), b_slot),
        call_ensures(record::pool_cap, (&None::<Telemetry>, backend, cap), b_empty),
        call_ensures(Telemetry::pool_inc_eviction, (&t, backend), c),
        call_ensures(record::pool_eviction, (&Some(t), backend), c_slot),
        call_ensures(record::pool_eviction, (&None::<Telemetry>, backend), c_empty),
    ensures
        a@.len() == 1,
        shows(
            a@[0],
            Instrument::PoolUsedBytes,
            SampleValue::U64(used),
            seq![("backend"@, backend@)],
        ),
        alike(a_slot@, a@),
        a_empty@.len() == 0,
        b@.len() == 1,
        shows(
            b@[0],
            Instrument::PoolCapBytes,
            SampleValue::U64(cap),
            seq![("backend"@, backend@)],
        ),
        alike(b_slot@, b@),
        b_empty@.len() == 0,
        c@.len() == 1,
        shows(
            c@[0],
            Instrument::PoolEvictionsTotal,
            SampleValue::U64(1),
            seq![("backend"@, backend@)],
        ),
        alike(c_slot@, c@),
        c_empty@.len() == 0,
{
    lemma_samples(a_empty@);
    lemma_alike(a_slot@, a@);
    lemma_samples(a@);
    lemma_shown(a@, 0, telemetry::sample_views(a@)[0]);
    lemma_samples(b_empty@);
    lemma_alike(b_slot@, b@);
    lemma_samples(b@);
    lemma_shown(b@, 0, telemetry::sample_views(b@)[0]);
    lemma_samples(c_empty@);
    lemma_alike(c_slot@, c@);
    lemma_samples(c@);
    lemma_shown(c@, 0, telemetry::sample_views(c@)[0]);
}

/// What a cache reports: each eviction with its volume and outcome, and the age of a chunk that
/// is missed after its eviction. An empty slot emits nothing, and one with an instance what the
/// instance emits.
pub proof fn law_cache_samples(
    t: Telemetry,
    volume: &str,
    outcome: &str,
    backend: &str,
    a: Vec<Sample>,
    a_slot: Vec<Sample>,
    a_empty: Vec<Sample>,
    b: Vec<Sample>,
    b_slot: Vec<Sample>,
    b_empty: Vec<Sample>,
)
    requires
        call_ensures(Telemetry::cache_inc_eviction, (&t, volume, outcome), a),
        call_ensures(record::cache_eviction, (&Some(t), volume, outcome), a_slot),
        call_ensures(record::cache_eviction, (&None::<Telemetry>, volume, outcome), a_empty),
        call_ensures(Telemetry::cache_record_miss_after_eviction, (&t, backend), b),
        call_ensures(record::cache_miss_after_eviction, (&Some(t), backend), b_slot),
        call_ensures(record::cache_miss_after_eviction, (&None::<Telemetry>, backend), b_empty),
    ensures
        a@.len() == 1,
        shows(
            a@[0],
            Instrument::CacheEvictionsTotal,
            SampleValue::U64(1),
            seq![("volume"@, volume@), ("outcome"@, outcome@)],
        ),
        alike(a_slot@, a@),
        a_empty@.len() == 0,
        b@.len() == 1,
        shows(
            b@[0],
            Instrument::CacheMissAfterEvictionSeconds,
            SampleValue::Measured,
            seq![("backend"@, backend@)],
        ),
        alike(b_slot@, b@),
        b_empty@.len() == 0,
{
    lemma_samples(a_empty@);
    lemma_alike(a_slot@, a@);
    lemma_samples(a@);
    lemma_shown(a@, 0, telemetry::sample_views(a@)[0]);
    lemma_samples(b_empty@);
    lemma_alike(b_slot@, b@);
    lemma_samples(b@);
    lemma_shown(b@, 0, telemetry::sample_views(b@)[0]);
}

/// What an extended copy reports: its outcome, and the bytes and segments of each path. An empty
/// slot emits nothing, and one with an instance what the instance emits.
pub proof fn law_copy_samples(
    t: Telemetry,
    outcome: &str,
    path: &str,
    bytes: u64,
    a: Vec<Sample>,
    a_slot: Vec<Sample>,
    a_empty: Vec<Sample>,
    b: Vec<Sample>,
    b_slot: Vec<Sample>,
    b_empty: Vec<Sample>,
    c: Vec<Sample>,
    c_slot: Vec<Sample>,
    c_empty: Vec<Sample>,
)
    requires
        call_ensures(Telemetry::scsi_xcopy_inc, (&t, outcome), a),
        call_ensures(record::scsi_xcopy, (&Some(t), outcome), a_slot),
        call_ensures(record::scsi_xcopy, (&None::<Telemetry>, outcome), a_empty),
        call_ensures(Telemetry::scsi_xcopy_add_bytes, (&t, path, bytes), b),
        call_ensures(record::scsi_xcopy_bytes, (&Some(t), path, bytes), b_slot),
        call_ensures(record::scsi_xcopy_bytes, (&None::<Telemetry>, path, bytes), b_empty),
        call_ensures(Telemetry::scsi_xcopy_inc_segment, (&t, path), c),
        call_ensures(record::scsi_xcopy_segment, (&Some(t), path), c_slot),
        call_ensures(record::scsi_xcopy_segment, (&None::<Telemetry>, path), c_empty),
    ensures
        a@.len() == 1,
        shows(
            a@[0],
            Instrument::ScsiXcopyTotal,
            SampleValue::U64(1),
            seq![("outcome"@, outcome@)],
        ),
        alike(a_slot@, a@),
        a_empty@.len() == 0,
        b@.len() == 1,
        shows(
            b@[0],
            Instrument::ScsiXcopyBytesTotal,
            SampleValue::U64(bytes),
            seq![("path"@, path@)],
        ),
        alike(b_slot@, b@),
        b_empty@.len() == 0,
        c@.len() == 1,
        shows(
            c@[0],
            Instrument::ScsiXcopySegmentsTotal,
            SampleValue::U64(1),
            seq![("path"@, path@)],
        ),
        alike(c_slot@, c@),
        c_empty@.len() == 0,
{
    lemma_samples(a_empty@);
    lemma_alike(a_slot@, a@);
    lemma_samples(a@);
    lemma_shown(a@, 0, telemetry::sample_views(a@)[0]);
    lemma_samples(b_empty@);
    lemma_alike(b_slot@, b@);
    lemma_samples(b@);
    lemma_shown(b@, 0, telemetry::sample_views(b@)[0]);
    lemma_samples(c_empty@);
    lemma_alike(c_slot@, c@);
    lemma_samples(c@);
    lemma_shown(c@, 0, telemetry::sample_views(c@)[0]);
}

/// What a failed storage request reports: a retry or a permanent error, with the failure class.
/// An empty slot emits nothing, and one with an instance what the instance emits.
pub proof fn law_storage_failure_samples(
    t: Telemetry,
    backend: &str,
    class: &str,
    a: Vec<Sample>,
    a_slot: Vec<Sample>,
    a_empty: Vec<Sample>,
    b: Vec<Sample>,
    b_slot: Vec<Sample>,
    b_empty: Vec<Sample>,
)
    requires
        call_ensures(Telemetry::storage_inc_retry, (&t, backend, class), a),
        call_ensures(record::storage_retry, (&Some(t), backend, class), a_slot),
        call_ensures(record::storage_retry, (&None::<Telemetry>, backend, class), a_empty),
        call_ensures(Telemetry::storage_inc_permanent_error, (&t, backend, class), b),
        call_ensures(record::storage_permanent_error, (&Some(t), backend, class), b_slot),
        call_ensures(
            record::storage_permanent_error,
            (&None::<Telemetry>, backend, class),
            b_empty,
        ),
    ensures
        a@.len() == 1,
        shows(
            a@[0],
            Instrument::StorageRetriesTotal,
            SampleValue::U64(1),
            seq![("backend"@, backend@), ("class"@, class@)],
        ),
        alike(a_slot@, a@),
        a_empty@.len() == 0,
        b@.len() == 1,
        shows(
            b@[0],
            Instrument::StoragePermanentErrorsTotal,
            SampleValue::U64(1),
            seq![("backend"@, backend@), ("class"@, class@)],
        ),
        alike(b_slot@, b@),
        b_empty@.len() == 0,
{
    lemma_samples(a_empty@);
    lemma_alike(a_slot@, a@);
    lemma_samples(a@);
    lemma_shown(a@, 0, telemetry::sample_views(a@)[0]);
    lemma_samples(b_empty@);
    lemma_alike(b_slot@, b@);
    lemma_samples(b@);
    lemma_shown(b@, 0, telemetry::sample_views(b@)[0]);
}

/// What sealing a chunk reports: the seal, a hit on a known chunk, and the bytes uploaded. An
/// empty slot emits nothing, and one with an instance what the instance emits.
pub proof fn law_sealing_samples(
    t: Telemetry,
    backend: &str,
    scope: &str,
    bytes: u64,
    a: Vec<Sample>,
    a_slot: Vec<Sample>,
    a_empty: Vec<Sample>,
    b: Vec<Sample>,
    b_slot: Vec<Sample>,
    b_empty: Vec<Sample>,
    c: Vec<Sample>,
    c_slot: Vec<Sample>,
    c_empty: Vec<Sample>,
)
    requires
        call_ensures(Telemetry::chunk_inc_seal, (&t, backend, scope), a),
        call_ensures(record::chunk_seal, (&Some(t), backend, scope), a_slot),
        call_ensures(record::chunk_seal, (&None::<Telemetry>, backend, scope), a_empty),
        call_ensures(Telemetry::chunk_inc_dedup_hit, (&t, backend, scope), b),
        call_ensures(record::chunk_dedup_hit, (&Some(t), backend, scope), b_slot),
        call_ensures(record::chunk_dedup_hit, (&None::<Telemetry>, backend, scope), b_empty),
        call_ensures(Telemetry::chunk_add_uploaded_bytes, (&t, backend, bytes), c),
        call_ensures(record::chunk_uploaded_bytes, (&Some(t), backend, bytes), c_slot),
        call_ensures(record::chunk_uploaded_bytes, (&None::<Telemetry>, backend, bytes), c_empty),
    ensures
        a@.len() == 1,
        shows(
            a@[0],
            Instrument::ChunkSealsTotal,
            SampleValue::U64(1),
            seq![("backend"@, backend@), ("scope"@, scope@)],
        ),
        alike(a_slot@, a@),
        a_empty@.len() == 0,
        b@.len() == 1,
        shows(
            b@[0],
            Instrument::ChunkDedupHitsTotal,
            SampleValue::U64(1),
            seq![("backend"@, backend@), ("scope"@, scope@)],
        ),
        alike(b_slot@, b@),
        b_empty@.len() == 0,
        c@.len() == 1,
        shows(
            c@[0],
            Instrument::ChunkBytesUploadedTotal,
            SampleValue::U64(bytes),
            seq![("backend"@, backend@)],
        ),
        alike(c_slot@, c@),
        c_empty@.len() == 0,
{
    lemma_samples(a_empty@);
    lemma_alike(a_slot@, a@);
    lemma_samples(a@);
    lemma_shown(a@, 0, telemetry::sample_views(a@)[0]);
    lemma_samples(b_empty@);
    lemma_alike(b_slot@, b@);
    lemma_samples(b@);
    lemma_shown(b@, 0, telemetry::sample_views(b@)[0]);
    lemma_samples(c_empty@);
    lemma_alike(c_slot@, c@);
    lemma_samples(c@);
    lemma_shown(c@, 0, telemetry::sample_views(c@)[0]);
}

/// What looking for a chunk in storage reports: the probe, its hit, and a hit in the cache. An
/// empty slot emits nothing, and one with an instance what the instance emits.
pub proof fn law_storage_probe_samples(
    t: Telemetry,
    backend: &str,
    a: Vec<Sample>,
    a_slot: Vec<Sample>,
    a_empty: Vec<Sample>,
    b: Vec<Sample>,
    b_slot: Vec<Sample>,
    b_empty: Vec<Sample>,
    c: Vec<Sample>,
    c_slot: Vec<Sample>,
    c_empty: Vec<Sample>,
)
    requires
        call_ensures(Telemetry::chunk_inc_storage_head_probe, (&t, backend), a),
        call_ensures(record::chunk_storage_head_probe, (&Some(t), backend), a_slot),
        call_ensures(record::chunk_storage_head_probe, (&None::<Telemetry>, backend), a_empty),
        call_ensures(Telemetry::chunk_inc_storage_head_hit, (&t, backend), b),
        call_ensures(record::chunk_storage_head_hit, (&Some(t), backend), b_slot),
        call_ensures(record::chunk_storage_head_hit, (&None::<Telemetry>, backend), b_empty),
        call_ensures(Telemetry::chunk_inc_storage_cache_hit, (&t, backend), c),
        call_ensures(record::chunk_storage_cache_hit, (&Some(t), backend), c_slot),
        call_ensures(record::chunk_storage_cache_hit, (&None::<Telemetry>, backend), c_empty),
    ensures
        a@.len() == 1,
        shows(
            a@[0],
            Instrument::ChunkStorageHeadProbesTotal,
            SampleValue::U64(1),
            seq![("backend"@, backend@)],
        ),
        alike(a_slot@, a@),
        a_empty@.len() == 0,
        b@.len() == 1,
        shows(
            b@[0],
            Instrument::ChunkStorageHeadHitsTotal,
            SampleValue::U64(1),
            seq![("backend"@, backend@)],
        ),
        alike(b_slot@, b@),
        b_empty@.len() == 0,
        c@.len() == 1,
        shows(
            c@[0],
            Instrument::ChunkStorageCacheHitsTotal,
            SampleValue::U64(1),
            seq![("backend"@, backend@)],
        ),
        alike(c_slot@, c@),
        c_empty@.len() == 0,
{
    lemma_samples(a_empty@);
    lemma_alike(a_slot@, a@);
    lemma_samples(a@);
    lemma_shown(a@, 0, telemetry::sample_views(a@)[0]);
    lemma_samples(b_empty@);
    lemma_alike(b_slot@, b@);
    lemma_samples(b@);
    lemma_shown(b@, 0, telemetry::sample_views(b@)[0]);
    lemma_samples(c_empty@);
    lemma_alike(c_slot@, c@);
    lemma_samples(c@);
    lemma_shown(c@, 0, telemetry::sample_views(c@)[0]);
}

/// What the cache of stored chunks reports: uploads that joined another, chunks it was seeded
/// with, and uploads that were left behind. An empty slot emits nothing, and one with an instance
/// what the instance emits.
pub proof fn law_storage_cache_samples(
    t: Telemetry,
    backend: &str,
    n: u64,
    reason: &str,
    a: Vec<Sample>,
    a_slot: Vec<Sample>,
    a_empty: Vec<Sample>,
    b: Vec<Sample>,
    b_slot: Vec<Sample>,
    b_empty: Vec<Sample>,
    c: Vec<Sample>,
    c_slot: Vec<Sample>,
    c_empty: Vec<Sample>,
)
    requires
        call_ensures(Telemetry::chunk_inc_storage_cache_inflight_coalesced, (&t, backend), a),
        call_ensures(record::chunk_storage_cache_inflight_coalesced, (&Some(t), backend), a_slot),
        call_ensures(
            record::chunk_storage_cache_inflight_coalesced,
            (&None::<Telemetry>, backend),
            a_empty,
        ),
        call_ensures(Telemetry::chunk_add_storage_cache_warmup_seeded, (&t, backend, n), b),
        call_ensures(record::chunk_storage_cache_warmup_seeded, (&Some(t), backend, n), b_slot),
        call_ensures(
            record::chunk_storage_cache_warmup_seeded,
            (&None::<Telemetry>, backend, n),
            b_empty,
        ),
        call_ensures(Telemetry::chunk_inc_upload_stranded, (&t, backend, reason), c),
        call_ensures(record::chunk_upload_stranded, (&Some(t), backend, reason), c_slot),
        call_ensures(
            record::chunk_upload_stranded,
            (&None::<Telemetry>, backend, reason),
            c_empty,
        ),
    ensures
        a@.len() == 1,
        shows(
            a@[0],
            Instrument::ChunkStorageCacheInflightCoalescedTotal,
            SampleValue::U64(1),
            seq![("backend"@, backend@)],
        ),
        alike(a_slot@, a@),
        a_empty@.len() == 0,
        b@.len() == 1,
        shows(
            b@[0],
            Instrument::ChunkStorageCacheWarmupSeededTotal,
            SampleValue::U64(n),
            seq![("backend"@, backend@)],
        ),
        alike(b_slot@, b@),
        b_empty@.len() == 0,
        c@.len() == 1,
        shows(
            c@[0],
            Instrument::ChunkUploadStrandedTotal,
            SampleValue::U64(1),
            seq![("backend"@, backend@), ("reason"@, reason@)],
        ),
        alike(c_slot@, c@),
        c_empty@.len() == 0,
{
    lemma_samples(a_empty@);
    lemma_alike(a_slot@, a@);
    lemma_samples(a@);
    lemma_shown(a@, 0, telemetry::sample_views(a@)[0]);
    lemma_samples(b_empty@);
    lemma_alike(b_slot@, b@);
    lemma_samples(b@);
    lemma_shown(b@, 0, telemetry::sample_views(b@)[0]);
    lemma_samples(c_empty@);
    lemma_alike(c_slot@, c@);
    lemma_samples(c@);
    lemma_shown(c@, 0, telemetry::sample_views(c@)[0]);
}

/// What sessions report: their number and the depth of the upload queue as levels without
/// labels. An empty slot emits nothing, and one with an instance what the
/// instance emits.
pub proof fn law_session_samples(
    t: Telemetry,
    n: i64,
    a: Vec<Sample>,
    a_slot: Vec<Sample>,
    a_empty: Vec<Sample>,
    b: Vec<Sample>,
    b_slot: Vec<Sample>,
    b_empty: Vec<Sample>,
)
    requires
        call_ensures(Telemetry::upload_set_queue_depth, (&t, n), a),
        call_ensures(record::upload_queue_depth, (&Some(t), n), a_slot),
        call_ensures(record::upload_queue_depth, (&None::<Telemetry>, n), a_empty),
        call_ensures(Telemetry::iscsi_set_sessions_active, (&t, n), b),
        call_ensures(record::iscsi_sessions_active, (&Some(t), n), b_slot),
        call_ensures(record::iscsi_sessions_active, (&None::<Telemetry>, n), b_empty),
    ensures
        a@.len() == 1,
        shows(
            a@[0],
            Instrument::UploadQueueDepth,
            SampleValue::I64(n),
            Seq::empty(),
        ),
        alike(a_slot@, a@),
        a_empty@.len() == 0,
        b@.len() == 1,
        shows(
            b@[0],
            Instrument::IscsiSessionsActive,
            SampleValue::I64(n),
            Seq::empty(),
        ),
        alike(b_slot@, b@),
        b_empty@.len() == 0,
{
    lemma_samples(a_empty@);
    lemma_alike(a_slot@, a@);
    lemma_samples(a@);
    lemma_shown(a@, 0, telemetry::sample_views(a@)[0]);
    lemma_samples(b_empty@);
    lemma_alike(b_slot@, b@);
    lemma_samples(b@);
    lemma_shown(b@, 0, telemetry::sample_views(b@)[0]);
}

/// What a command reports: one count and its duration, with the code and the outcome, and the
/// bytes that went in and out. An empty slot emits nothing, and one with an instance what the
/// instance emits.
pub proof fn law_command_samples(
    t: Telemetry,
    opcode: &str,
    outcome: &str,
    bytes: u64,
    a: Vec<Sample>,
    a_slot: Vec<Sample>,
    a_empty: Vec<Sample>,
    b: Vec<Sample>,
    b_slot: Vec<Sample>,
    b_empty: Vec<Sample>,
    c: Vec<Sample>,
    c_slot: Vec<Sample>,
    c_empty: Vec<Sample>,
)
    requires
        call_ensures(Telemetry::iscsi_record_command, (&t, opcode, outcome), a),
        call_ensures(record::iscsi_command, (&Some(t), opcode, outcome), a_slot),
        call_ensures(record::iscsi_command, (&None::<Telemetry>, opcode, outcome), a_empty),
        call_ensures(Telemetry::iscsi_add_data_in, (&t, bytes), b),
        call_ensures(record::iscsi_data_in, (&Some(t), bytes), b_slot),
        call_ensures(record::iscsi_data_in, (&None::<Telemetry>, bytes), b_empty),
        call_ensures(Telemetry::iscsi_add_data_out, (&t, bytes), c),
        call_ensures(record::iscsi_data_out, (&Some(t), bytes), c_slot),
        call_ensures(record::iscsi_data_out, (&None::<Telemetry>, bytes), c_empty),
    ensures
        a@.len() == 2,
        shows(
            a@[0],
            Instrument::IscsiCommandsTotal,
            SampleValue::U64(1),
            seq![("opcode"@, opcode@), ("outcome"@, outcome@)],
        ),
        shows(
            a@[1],
            Instrument::IscsiCommandSeconds,
            SampleValue::Measured,
            seq![("opcode"@, opcode@), ("outcome"@, outcome@)],
        ),
        alike(a_slot@, a@),
        a_empty@.len() == 0,
        b@.len() == 1,
        shows(
            b@[0],
            Instrument::IscsiDataInBytesTotal,
            SampleValue::U64(bytes),
            Seq::empty(),
        ),
        alike(b_slot@, b@),
        b_empty@.len() == 0,
        c@.len() == 1,
        shows(
            c@[0],
            Instrument::IscsiDataOutBytesTotal,
            SampleValue::U64(bytes),
            Seq::empty(),
        ),
        alike(c_slot@, c@),
        c_empty@.len() == 0,
{
    lemma_samples(a_empty@);
    lemma_alike(a_slot@, a@);
    lemma_samples(a@);
    lemma_shown(a@, 0, telemetry::sample_views(a@)[0]);
    lemma_shown(a@, 1, telemetry::sample_views(a@)[1]);
    lemma_samples(b_empty@);
    lemma_alike(b_slot@, b@);
    lemma_samples(b@);
    lemma_shown(b@, 0, telemetry::sample_views(b@)[0]);
    lemma_samples(c_empty@);
    lemma_alike(c_slot@, c@);
    lemma_samples(c@);
    lemma_shown(c@, 0, telemetry::sample_views(c@)[0]);
}

/// What a tape reports: the bytes in its write buffer and in its read buffer.
pub proof fn law_tape_samples(
    t: Telemetry,
    cartridge: &str,
    bytes: u64,
    a: Vec<Sample>,
    b: Vec<Sample>,
)
    requires
        call_ensures(Telemetry::tape_set_write_buffer, (&t, cartridge, bytes), a),
        call_ensures(Telemetry::tape_set_read_buffer, (&t, cartridge, bytes), b),
    ensures
        a@.len() == 1,
        shows(
            a@[0],
            Instrument::TapeWriteBufferUsedBytes,
            SampleValue::U64(bytes),
            seq![("cartridge"@, cartridge@)],
        ),
        b@.len() == 1,
        shows(
            b@[0],
            Instrument::TapeReadBufferUsedBytes,
            SampleValue::U64(bytes),
            seq![("cartridge"@, cartridge@)],
        ),
{
    lemma_samples(a@);
    lemma_shown(a@, 0, telemetry::sample_views(a@)[0]);
    lemma_samples(b@);
    lemma_shown(b@, 0, telemetry::sample_views(b@)[0]);
}

/// What prefetching reports: the depth of its queue, and each hit and miss.
pub proof fn law_prefetch_samples(
    t: Telemetry,
    n: i64,
    a: Vec<Sample>,
    b: Vec<Sample>,
    c: Vec<Sample>,
)
    requires
        call_ensures(Telemetry::prefetch_set_queue_depth, (&t, n), a),
        call_ensures(Telemetry::prefetch_inc_hit, (&t,), b),
        call_ensures(Telemetry::prefetch_inc_miss, (&t,), c),
    ensures
        a@.len() == 1,
        shows(
            a@[0],
            Instrument::PrefetchQueueDepth,
            SampleValue::I64(n),
            Seq::empty(),
        ),
        b@.len() == 1,
        shows(
            b@[0],
            Instrument::PrefetchHitsTotal,
            SampleValue::U64(1),
            Seq::empty(),
        ),
        c@.len() == 1,
        shows(
            c@[0],
            Instrument::PrefetchMissesTotal,
            SampleValue::U64(1),
            Seq::empty(),
        ),
{
    lemma_samples(a@);
    lemma_shown(a@, 0, telemetry::sample_views(a@)[0]);
    lemma_samples(b@);
    lemma_shown(b@, 0, telemetry::sample_views(b@)[0]);
    lemma_samples(c@);
    lemma_shown(c@, 0, telemetry::sample_views(c@)[0]);
}

/// What trouble with the audit log reports: each reset of its chain and each entry dropped. An
/// empty slot emits nothing, and one with an instance what the instance emits.
pub proof fn law_audit_trouble_samples(
    t: Telemetry,
    a: Vec<Sample>,
    a_slot: Vec<Sample>,
    a_empty: Vec<Sample>,
    b: Vec<Sample>,
    b_slot: Vec<Sample>,
    b_empty: Vec<Sample>,
)
    requires
        call_ensures(Telemetry::audit_inc_chain_reset, (&t,), a),
        call_ensures(record::audit_chain_reset, (&Some(t),), a_slot),
        call_ensures(record::audit_chain_reset, (&None::<Telemetry>,), a_empty),
        call_ensures(Telemetry::audit_inc_queue_drop, (&t,), b),
        call_ensures(record::audit_queue_drop, (&Some(t),), b_slot),
        call_ensures(record::audit_queue_drop, (&None::<Telemetry>,), b_empty),
    ensures
        a@.len() == 1,
        shows(
            a@[0],
            Instrument::AuditChainResetsTotal,
            SampleValue::U64(1),
            Seq::empty(),
        ),
        alike(a_slot@, a@),
        a_empty@.len() == 0,
        b@.len() == 1,
        shows(
            b@[0],
            Instrument::AuditQueueDropsTotal,
            SampleValue::U64(1),
            Seq::empty(),
        ),
        alike(b_slot@, b@),
        b_empty@.len() == 0,
{
    lemma_samples(a_empty@);
    lemma_alike(a_slot@, a@);
    lemma_samples(a@);
    lemma_shown(a@, 0, telemetry::sample_views(a@)[0]);
    lemma_samples(b_empty@);
    lemma_alike(b_slot@, b@);
    lemma_samples(b@);
    lemma_shown(b@, 0, telemetry::sample_views(b@)[0]);
}

/// What an alert reports: its class, severity, sink and outcome. An empty slot emits nothing, and
/// one with an instance what the instance emits.
pub proof fn law_alert_samples(
    t: Telemetry,
    class: &str,
    severity: &str,
    sink: &str,
    outcome: &str,
    a: Vec<Sample>,
    a_slot: Vec<Sample>,
    a_empty: Vec<Sample>,
)
    requires
        call_ensures(Telemetry::alerts_record, (&t, class, severity, sink, outcome), a),
        call_ensures(record::alerts, (&Some(t), class, severity, sink, outcome), a_slot),
        call_ensures(
            record::alerts,
            (&None::<Telemetry>, class, severity, sink, outcome),
            a_empty,
        ),
    ensures
        a@.len() == 1,
        shows(
            a@[0],
            Instrument::AlertsFiredTotal,
            SampleValue::U64(1),
            seq![("class"@, class@), ("severity"@, severity@), ("sink"@, sink@), ("outcome"@, outcome@)],
        ),
        alike(a_slot@, a@),
        a_empty@.len() == 0,
{
    lemma_samples(a_empty@);
    lemma_alike(a_slot@, a@);
    lemma_samples(a@);
    lemma_shown(a@, 0, telemetry::sample_views(a@)[0]);
}

/// The start time of the daemon is a level without labels.
pub proof fn law_start_time_sample(
    t: Telemetry,
    unix_seconds: i64,
    a: Vec<Sample>,
)
    requires
        call_ensures(Telemetry::daemon_set_start_time, (&t, unix_seconds), a),
    ensures
        a@.len() == 1,
        shows(
            a@[0],
            Instrument::DaemonStartTimeSeconds,
            SampleValue::I64(unix_seconds),
            Seq::empty(),
        ),
{
    lemma_samples(a@);
    lemma_shown(a@, 0, telemetry::sample_views(a@)[0]);
}

/// What a completed wait for pool room reports: one count and its duration. A slot that is empty
/// stays so and emits nothing.
pub proof fn law_wait_samples(
    t: &mut Telemetry,
    full: &mut Option<Telemetry>,
    empty: &mut Option<Telemetry>,
    backend: &str,
    a: Vec<Sample>,
    a_slot: Vec<Sample>,
    a_empty: Vec<Sample>,
)
    requires
        call_ensures(Telemetry::pool_record_backpressure_wait, (t, backend), a),
        *old(full) is Some,
        call_ensures(record::pool_backpressure_wait, (full, backend), a_slot),
        *old(empty) is None,
        call_ensures(record::pool_backpressure_wait, (empty, backend), a_empty),
    ensures
        a@.len() == 2,
        shows(
            a@[0],
            Instrument::PoolBackpressureWaitsTotal,
            SampleValue::U64(1),
            seq![("backend"@, backend@)],
        ),
        shows(
            a@[1],
            Instrument::PoolBackpressureWaitSeconds,
            SampleValue::Measured,
            seq![("backend"@, backend@)],
        ),
        alike(a_slot@, a@),
        *final(full) is Some,
        a_empty@.len() == 0,
        *final(empty) is None,
{
    lemma_samples(a_empty@);
    lemma_alike(a_slot@, a@);
    lemma_samples(a@);
    lemma_shown(a@, 0, telemetry::sample_views(a@)[0]);
    lemma_shown(a@, 1, telemetry::sample_views(a@)[1]);
}

/// What sealed bytes report. A slot that is empty stays so and emits nothing.
pub proof fn law_logical_bytes_sample(
    t: &mut Telemetry,
    full: &mut Option<Telemetry>,
    empty: &mut Option<Telemetry>,
    backend: &str,
    scope: &str,
    bytes: u64,
    a: Vec<Sample>,
    a_slot: Vec<Sample>,
    a_empty: Vec<Sample>,
)
    requires
        call_ensures(Telemetry::chunk_add_logical_bytes, (t, backend, scope, bytes), a),
        *old(full) is Some,
        call_ensures(record::chunk_logical_bytes, (full, backend, scope, bytes), a_slot),
        *old(empty) is None,
        call_ensures(record::chunk_logical_bytes, (empty, backend, scope, bytes), a_empty),
    ensures
        a@.len() == 1,
        shows(
            a@[0],
            Instrument::ChunkLogicalBytesTotal,
            SampleValue::U64(bytes),
            seq![("backend"@, backend@), ("scope"@, scope@)],
        ),
        alike(a_slot@, a@),
        *final(full) is Some,
        a_empty@.len() == 0,
        *final(empty) is None,
{
    lemma_samples(a_empty@);
    lemma_alike(a_slot@, a@);
    lemma_samples(a@);
    lemma_shown(a@, 0, telemetry::sample_views(a@)[0]);
}

/// What bytes that grew the pool report. A slot that is empty stays so and emits nothing.
pub proof fn law_unique_bytes_sample(
    t: &mut Telemetry,
    full: &mut Option<Telemetry>,
    empty: &mut Option<Telemetry>,
    backend: &str,
    scope: &str,
    bytes: u64,
    a: Vec<Sample>,
    a_slot: Vec<Sample>,
    a_empty: Vec<Sample>,
)
    requires
        call_ensures(Telemetry::chunk_add_unique_bytes, (t, backend, scope, bytes), a),
        *old(full) is Some,
        call_ensures(record::chunk_unique_bytes, (full, backend, scope, bytes), a_slot),
        *old(empty) is None,
        call_ensures(record::chunk_unique_bytes, (empty, backend, scope, bytes), a_empty),
    ensures
        a@.len() == 1,
        shows(
            a@[0],
            Instrument::ChunkUniqueBytesTotal,
            SampleValue::U64(bytes),
            seq![("backend"@, backend@), ("scope"@, scope@)],
        ),
        alike(a_slot@, a@),
        *final(full) is Some,
        a_empty@.len() == 0,
        *final(empty) is None,
{
    lemma_samples(a_empty@);
    lemma_alike(a_slot@, a@);
    lemma_samples(a@);
    lemma_shown(a@, 0, telemetry::sample_views(a@)[0]);
}

/// What an audit entry reports: one count, with its kind. A slot that is empty stays so and emits
/// nothing.
pub proof fn law_audit_sample(
    t: &mut Telemetry,
    full: &mut Option<Telemetry>,
    empty: &mut Option<Telemetry>,
    kind: &str,
    a: Vec<Sample>,
    a_slot: Vec<Sample>,
    a_empty: Vec<Sample>,
)
    requires
        call_ensures(Telemetry::audit_inc_entry, (t, kind), a),
        *old(full) is Some,
        call_ensures(record::audit_entry, (full, kind), a_slot),
        *old(empty) is None,
        call_ensures(record::audit_entry, (empty, kind), a_empty),
    ensures
        a@.len() == 1,
        shows(
            a@[0],
            Instrument::AuditEntriesTotal,
            SampleValue::U64(1),
            seq![("kind"@, kind@)],
        ),
        alike(a_slot@, a@),
        *final(full) is Some,
        a_empty@.len() == 0,
        *final(empty) is None,
{
    lemma_samples(a_empty@);
    lemma_alike(a_slot@, a@);
    lemma_samples(a@);
    lemma_shown(a@, 0, telemetry::sample_views(a@)[0]);
}

/// What a storage request reports: one count and its duration, and its bytes where it moved any,
/// each with the backend, the operation and the outcome. A slot that is empty stays so and emits
/// nothing.
pub proof fn law_request_samples(
    t: &mut Telemetry,
    full: &mut Option<Telemetry>,
    empty: &mut Option<Telemetry>,
    backend: &str,
    op: &str,
    outcome: &str,
    bytes: u64,
    a: Vec<Sample>,
    a_slot: Vec<Sample>,
    a_empty: Vec<Sample>,
)
    requires
        call_ensures(Telemetry::storage_record_request, (t, backend, op, outcome, bytes), a),
        *old(full) is Some,
        call_ensures(record::storage_request, (full, backend, op, outcome, bytes), a_slot),
        *old(empty) is None,
        call_ensures(record::storage_request, (empty, backend, op, outcome, bytes), a_empty),
    ensures
        a@.len() == if bytes > 0 {
            3int
        } else {
            2int
        },
        ({
            let labels = seq![("backend"@, backend@), ("op"@, op@), ("outcome"@, outcome@)];
            &&& shows(a@[0], Instrument::StorageRequestsTotal, SampleValue::U64(1), labels)
            &&& shows(a@[1], Instrument::StorageRequestSeconds, SampleValue::Measured, labels)
            &&& bytes > 0 ==> shows(
                a@[2],
                Instrument::StorageBytesTotal,
                SampleValue::U64(bytes),
                labels,
            )
        }),
        alike(a_slot@, a@),
        *final(full) is Some,
        a_empty@.len() == 0,
        *final(empty) is None,
{
    lemma_samples(a_empty@);
    lemma_alike(a_slot@, a@);
    lemma_samples(a@);
    lemma_shown(a@, 0, telemetry::sample_views(a@)[0]);
    lemma_shown(a@, 1, telemetry::sample_views(a@)[1]);
    if bytes > 0 {
        lemma_shown(a@, 2, telemetry::sample_views(a@)[2]);
    }
}

/// What a scan for orphans reports: its duration last, and before it the chunks that it found
/// where it found any. An empty slot emits nothing, and one with an instance what the instance
/// emits.
pub proof fn law_orphan_samples(
    t: Telemetry,
    chunks_found: u64,
    a: Vec<Sample>,
    a_slot: Vec<Sample>,
    a_empty: Vec<Sample>,
)
    requires
        call_ensures(Telemetry::orphan_scan_record, (&t, chunks_found), a),
        call_ensures(record::orphan_scan_completed, (&Some(t), chunks_found), a_slot),
        call_ensures(record::orphan_scan_completed, (&None::<Telemetry>, chunks_found), a_empty),
    ensures
        a@.len() == if chunks_found > 0 {
            2int
        } else {
            1int
        },
        shows(
            a@.last(),
            Instrument::OrphanScanDurationSeconds,
            SampleValue::Measured,
            Seq::empty(),
        ),
        chunks_found > 0 ==> shows(
            a@[0],
            Instrument::OrphanScanChunksFoundTotal,
            SampleValue::U64(chunks_found),
            Seq::empty(),
        ),
        alike(a_slot@, a@),
        a_empty@.len() == 0,
{
    lemma_samples(a_empty@);
    lemma_alike(a_slot@, a@);
    lemma_samples(a@);
    lemma_shown(a@, 0, telemetry::sample_views(a@)[0]);
    if chunks_found > 0 {
        lemma_shown(a@, 1, telemetry::sample_views(a@)[1]);
    }
}

} // verus!
