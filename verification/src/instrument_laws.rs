//! Laws of the instruments: what is registered, under which names, and how it aggregates.

use vstd::prelude::*;

use crate::instruments::{self, Instrument, InstrumentKind, TelemetryInner};
use crate::live_stats::{ChunkCounters, LiveStats, LiveStatsSnapshot, PoolCounters, StorageCounters};
use crate::table::NameTable;
use crate::telemetry::{
    self,
    OtlpExporterConfig,
    OtlpProtocol,
    ResourceAttribute,
    Sample,
    Telemetry,
    TelemetryConfig,
    TelemetryError,
};

verus! {

/// Every instrument has the name that dashboards read it under.
pub proof fn law_metric_names(i: Instrument, r: &'static str)
    requires
        call_ensures(Instrument::suffix, (i,), r),
    ensures
        i is PoolUsedBytes ==> r@ == "pool_used_bytes"@,
        i is PoolCapBytes ==> r@ == "pool_cap_bytes"@,
        i is PoolEvictionsTotal ==> r@ == "pool_evictions"@,
        i is PoolBackpressureWaitsTotal ==> r@ == "pool_backpressure_waits"@,
        i is PoolBackpressureWaitSeconds ==> r@ == "pool_backpressure_wait"@,
        i is CacheEvictionsTotal ==> r@ == "cache_evictions"@,
        i is CacheMissAfterEvictionSeconds ==> r@ == "cache_miss_after_eviction"@,
        i is ScsiXcopyTotal ==> r@ == "scsi_xcopy"@,
        i is ScsiXcopyBytesTotal ==> r@ == "scsi_xcopy_copied"@,
        i is ScsiXcopySegmentsTotal ==> r@ == "scsi_xcopy_segments"@,
        i is StorageRequestsTotal ==> r@ == "storage_requests"@,
        i is StorageRequestSeconds ==> r@ == "storage_request"@,
        i is StorageBytesTotal ==> r@ == "storage_transferred"@,
        i is StorageRetriesTotal ==> r@ == "storage_retries"@,
        i is StoragePermanentErrorsTotal ==> r@ == "storage_permanent_errors"@,
        i is ChunkSealsTotal ==> r@ == "chunk_seals"@,
        i is ChunkDedupHitsTotal ==> r@ == "chunk_dedup_hits"@,
        i is ChunkLogicalBytesTotal ==> r@ == "chunk_logical"@,
        i is ChunkUniqueBytesTotal ==> r@ == "chunk_unique"@,
        i is ChunkBytesUploadedTotal ==> r@ == "chunk_uploaded"@,
        i is ChunkStorageHeadProbesTotal ==> r@ == "chunk_storage_head_probes"@,
        i is ChunkStorageHeadHitsTotal ==> r@ == "chunk_storage_head_hits"@,
        i is ChunkStorageCacheHitsTotal ==> r@ == "chunk_storage_cache_hits"@,
        i is ChunkStorageCacheInflightCoalescedTotal ==> r@
            == "chunk_storage_cache_inflight_coalesced"@,
        i is ChunkStorageCacheWarmupSeededTotal ==> r@ == "chunk_storage_cache_warmup_seeded"@,
        i is ChunkUploadStrandedTotal ==> r@ == "chunk_upload_stranded"@,
        i is UploadQueueDepth ==> r@ == "upload_queue_depth"@,
        i is IscsiSessionsActive ==> r@ == "iscsi_sessions_active"@,
        i is IscsiCommandsTotal ==> r@ == "iscsi_commands"@,
        i is IscsiCommandSeconds ==> r@ == "iscsi_command"@,
        i is IscsiDataInBytesTotal ==> r@ == "iscsi_data_in"@,
        i is IscsiDataOutBytesTotal ==> r@ == "iscsi_data_out"@,
        i is TapeWriteBufferUsedBytes ==> r@ == "tape_write_buffer_used"@,
        i is TapeReadBufferUsedBytes ==> r@ == "tape_read_buffer_used"@,
        i is PrefetchQueueDepth ==> r@ == "prefetch_queue_depth"@,
        i is PrefetchHitsTotal ==> r@ == "prefetch_hits"@,
        i is PrefetchMissesTotal ==> r@ == "prefetch_misses"@,
        i is AuditEntriesTotal ==> r@ == "audit_entries"@,
        i is AuditChainResetsTotal ==> r@ == "audit_chain_resets"@,
        i is AuditQueueDropsTotal ==> r@ == "audit_queue_drops"@,
        i is OrphanScanChunksFoundTotal ==> r@ == "orphan_scan_chunks_found"@,
        i is OrphanScanDurationSeconds ==> r@ == "orphan_scan_duration"@,
        i is AlertsFiredTotal ==> r@ == "alerts_fired"@,
        i is DaemonStartTimeSeconds ==> r@ == "daemon_start_time"@,
{
}

/// A duration is a distribution in seconds; what runs by itself up and down is a level; all else
/// is a sum that only grows.
pub proof fn law_kinds_and_units(i: Instrument, kind: InstrumentKind, unit: Option<&'static str>)
    requires
        call_ensures(Instrument::kind, (i,), kind),
        call_ensures(Instrument::unit, (i,), unit),
    ensures
        kind == InstrumentKind::GaugeU64 <==> i is PoolUsedBytes || i is PoolCapBytes || i is
            TapeWriteBufferUsedBytes || i is TapeReadBufferUsedBytes,
        kind == InstrumentKind::GaugeI64 <==> i is UploadQueueDepth || i is IscsiSessionsActive
            || i is PrefetchQueueDepth || i is DaemonStartTimeSeconds,
        kind == InstrumentKind::Histogram <==> i is PoolBackpressureWaitSeconds || i is
            CacheMissAfterEvictionSeconds || i is StorageRequestSeconds || i is IscsiCommandSeconds
            || i is OrphanScanDurationSeconds,
        kind == InstrumentKind::Histogram ==> (unit matches Some(u) && u@ == "s"@),
        (unit matches Some(u) && u@ == "s"@) ==> kind == InstrumentKind::Histogram || i is
            DaemonStartTimeSeconds,
        i is DaemonStartTimeSeconds ==> (unit matches Some(u) && u@ == "s"@),
        (unit matches Some(u) && u@ == "By"@) <==> i is ScsiXcopyBytesTotal || i is
            StorageBytesTotal || i is ChunkLogicalBytesTotal || i is ChunkUniqueBytesTotal || i is
            ChunkBytesUploadedTotal || i is IscsiDataInBytesTotal || i is IscsiDataOutBytesTotal
            || i is TapeWriteBufferUsedBytes || i is TapeReadBufferUsedBytes,
        unit matches Some(u) ==> u@ == "s"@ || u@ == "By"@,
{
    reveal_strlit("s");
    reveal_strlit("By");
    assert("s"@.len() != "By"@.len());
}

/// The ages of missed chunks are sorted into buckets that double from one second to 256; no
/// other instrument has buckets of its own.
pub proof fn law_buckets_double(i: Instrument, r: Vec<u64>, k: int)
    requires
        call_ensures(Instrument::boundaries, (i,), r),
    ensures
        i !is CacheMissAfterEvictionSeconds ==> r@.len() == 0,
        i is CacheMissAfterEvictionSeconds ==> r@.len() == 9 && r@[0] == 1 && r@[8] == 256,
        i is CacheMissAfterEvictionSeconds && 0 < k < 9 ==> r@[k] == 2 * r@[k - 1],
{
}

/// Every instrument is registered, once, under the prefix, with the kind, unit, description and
/// buckets that it has.
pub proof fn law_registration(
    prefix: &str,
    inner: TelemetryInner,
    all: Vec<Instrument>,
    k: int,
    i: Instrument,
    suffix: &'static str,
    kind: InstrumentKind,
    unit: Option<&'static str>,
    description: &'static str,
    buckets: Vec<u64>,
)
    requires
        call_ensures(TelemetryInner::build, (prefix,), inner),
        call_ensures(Instrument::all, (), all),
        0 <= k < inner.instruments@.len(),
        inner.instruments@[k].instrument == i,
        call_ensures(Instrument::suffix, (i,), suffix),
        call_ensures(Instrument::kind, (i,), kind),
        call_ensures(Instrument::unit, (i,), unit),
        call_ensures(Instrument::description, (i,), description),
        call_ensures(Instrument::boundaries, (i,), buckets),
    ensures
        inner.instruments@.len() == all@.len(),
        all@[k] == i,
        inner.instruments@[k].name@ == prefix@ + seq!['_'] + suffix@,
        inner.instruments@[k].kind == kind,
        inner.instruments@[k].unit is Some <==> unit is Some,
        inner.instruments@[k].unit matches Some(u) ==> unit->Some_0@ == u@,
        inner.instruments@[k].description@ == description@,
        inner.instruments@[k].boundaries@ == buckets@,
{
    reveal_strlit("_");
    assert("_"@ =~= seq!['_']);
    assert(inner.instruments@[k].defines(prefix@, instruments::all_instruments()[k]));
}

/// No instrument is left out of the registration.
pub proof fn law_no_instrument_is_left_out(prefix: &str, inner: TelemetryInner, i: Instrument)
    requires
        call_ensures(TelemetryInner::build, (prefix,), inner),
    ensures
        exists|k: int|
            0 <= k < inner.instruments@.len() && (#[trigger] inner.instruments@[k]).instrument == i,
{
    instruments::law_every_instrument_is_registered(i);
    let all = instruments::all_instruments();
    let k = choose|k: int| 0 <= k < all.len() && all[k] == i;
    assert(inner.instruments@[k].defines(prefix@, all[k]));
}

/// No two registered instruments have the same name.
pub proof fn law_registered_names_differ(prefix: &str, inner: TelemetryInner, j: int, k: int)
    requires
        call_ensures(TelemetryInner::build, (prefix,), inner),
        0 <= j < inner.instruments@.len(),
        0 <= k < inner.instruments@.len(),
        inner.instruments@[j].instrument != inner.instruments@[k].instrument,
    ensures
        inner.instruments@[j].name@ != inner.instruments@[k].name@,
{
    let all = instruments::all_instruments();
    assert(inner.instruments@[j].defines(prefix@, all[j]));
    assert(inner.instruments@[k].defines(prefix@, all[k]));
    if inner.instruments@[j].name@ == inner.instruments@[k].name@ {
        instruments::law_names_are_distinct(prefix@, all[j], all[k]);
    }
}

/// A character that may stand in the name of a header.
pub open spec fn name_char(c: char) -> bool {
    ('a' <= c <= 'z') || ('A' <= c <= 'Z') || ('0' <= c <= '9') || (exists|k: int|
        0 <= k < 15 && #[trigger] "!#$%&'*+-.^_`|~"@[k] == c)
}

/// Whether gRPC takes a header: its name has the characters of a header name, is neither empty
/// nor too long and does not end in `-bin`, and its value has no control character but the tab.
pub open spec fn header_taken(key: Seq<char>, value: Seq<char>) -> bool {
    let n = key.len() as int;
    &&& 1 <= n <= 65535
    &&& forall|i: int| 0 <= i < n ==> name_char(#[trigger] key[i])
    &&& !(n >= 4 && key[n - 4] == '-' && (key[n - 3] == 'b' || key[n - 3] == 'B') && (key[n - 2]
        == 'i' || key[n - 2] == 'I') && (key[n - 1] == 'n' || key[n - 1] == 'N'))
    &&& forall|i: int|
        0 <= i < value.len() ==> #[trigger] value[i] == '\t' || (value[i] as u32 >= 32
            && value[i] as u32 != 127)
}

proof fn lemma_name_char(c: char)
    ensures
        name_char(c) <==> telemetry::is_name_char(c),
{
    reveal_strlit("!#$%&'*+-.^_`|~");
    let s = "!#$%&'*+-.^_`|~"@;
    assert(s[0] == '!' && s[1] == '#' && s[2] == '$' && s[3] == '%' && s[4] == '&' && s[5] == '\''
        && s[6] == '*' && s[7] == '+' && s[8] == '-' && s[9] == '.' && s[10] == '^' && s[11] == '_'
        && s[12] == '`' && s[13] == '|' && s[14] == '~');
}

proof fn lemma_header_taken(key: Seq<char>, value: Seq<char>)
    ensures
        header_taken(key, value) <==> telemetry::grpc_key_refusal(key) is None
            && telemetry::grpc_value_refusal(value) is None,
{
    assert forall|c: char| #[trigger] name_char(c) == telemetry::is_name_char(c) by {
        lemma_name_char(c);
    }
    if telemetry::grpc_key_refusal(key) is None {
        assert forall|i: int| 0 <= i < key.len() implies name_char(#[trigger] key[i]) by {
            assert(telemetry::is_name_char(key[i]));
        }
    }
    if header_taken(key, value) {
        assert forall|i: int| 0 <= i < key.len() implies telemetry::is_name_char(
            #[trigger] key[i],
        ) by {
            assert(name_char(key[i]));
        }
    }
}

/// The first complaint is of the first header that is refused.
proof fn lemma_first_complaint(headers: Seq<(String, String)>)
    ensures
        telemetry::first_complaint(headers) is None <==> forall|k: int|
            0 <= k < headers.len() ==> header_taken(
                (#[trigger] headers[k]).0@,
                headers[k].1@,
            ),
    decreases headers.len(),
{
    if headers.len() > 0 {
        let front = headers.drop_last();
        lemma_first_complaint(front);
        lemma_header_taken(headers.last().0@, headers.last().1@);
        if telemetry::first_complaint(headers) is None {
            assert forall|k: int| 0 <= k < headers.len() implies header_taken(
                (#[trigger] headers[k]).0@,
                headers[k].1@,
            ) by {
                if k < front.len() {
                    assert(front[k] == headers[k]);
                }
            }
        } else if forall|k: int|
            0 <= k < headers.len() ==> header_taken((#[trigger] headers[k]).0@, headers[k].1@) {
            assert forall|k: int| 0 <= k < front.len() implies header_taken(
                (#[trigger] front[k]).0@,
                front[k].1@,
            ) by {
                assert(front[k] == headers[k]);
            }
            assert(header_taken(headers[headers.len() - 1].0@, headers[headers.len() - 1].1@));
        }
    }
}

/// The headers of an exporter are accepted exactly if it speaks HTTP, or gRPC takes them all; the
/// only complaint is about a header.
pub proof fn law_headers_are_checked(cfg: OtlpExporterConfig, r: Result<(), TelemetryError>)
    requires
        call_ensures(telemetry::check_otlp_headers, (&cfg,), r),
    ensures
        r is Ok <==> cfg.protocol == OtlpProtocol::HttpProtobuf || forall|k: int|
            0 <= k < cfg.headers@.len() ==> header_taken(
                (#[trigger] cfg.headers@[k]).0@,
                cfg.headers@[k].1@,
            ),
        r matches Err(e) ==> e is OtlpHeader,
{
    lemma_first_complaint(cfg.headers@);
}

/// A refused key is reported before a refused value, each with the key and the reason; a header
/// with neither is accepted.
pub proof fn law_header_verdicts(
    key: &str,
    key_error: Option<String>,
    value_error: Option<String>,
    r: Result<(), TelemetryError>,
)
    requires
        call_ensures(telemetry::header_verdict, (key, key_error, value_error), r),
    ensures
        r is Ok <==> key_error is None && value_error is None,
        key_error matches Some(e) ==> (r matches Err(TelemetryError::OtlpHeader(m)) && m@
            == "invalid header key '"@ + key@ + "': "@ + e@),
        key_error is None ==> (value_error matches Some(e) ==> (r matches Err(
            TelemetryError::OtlpHeader(m),
        ) && m@ == "invalid header value for '"@ + key@ + "': "@ + e@)),
{
}

proof fn lemma_header_map(headers: Seq<(String, String)>, k: int)
    requires
        0 <= k < headers.len(),
        forall|j: int| k < j < headers.len() ==> (#[trigger] headers[j]).0@ != headers[k].0@,
    ensures
        telemetry::header_map(headers).contains_key(headers[k].0@),
        telemetry::header_map(headers)[headers[k].0@] == headers[k].1@,
    decreases headers.len(),
{
    if k < headers.len() - 1 {
        let front = headers.drop_last();
        assert(headers[headers.len() - 1].0@ != headers[k].0@);
        assert forall|j: int| k < j < front.len() implies (#[trigger] front[j]).0@
            != front[k].0@ by {
            assert(headers[j].0@ != headers[k].0@);
        }
        lemma_header_map(front, k);
    }
}

proof fn lemma_header_map_names(headers: Seq<(String, String)>, name: Seq<char>)
    requires
        telemetry::header_map(headers).contains_key(name),
    ensures
        exists|k: int| 0 <= k < headers.len() && (#[trigger] headers[k]).0@ == name,
    decreases headers.len(),
{
    if headers.len() > 0 {
        if headers.last().0@ == name {
            assert(headers[headers.len() - 1].0@ == name);
        } else {
            lemma_header_map_names(headers.drop_last(), name);
            let k = choose|k: int|
                0 <= k < headers.drop_last().len() && (#[trigger] headers.drop_last()[k]).0@
                    == name;
            assert(headers[k].0@ == name);
        }
    }
}

/// A table of headers has the last value given for each name, and no other name.
pub proof fn law_last_header_counts(
    headers: Vec<(String, String)>,
    table: NameTable<String>,
    name: &str,
    r: Option<&String>,
    k: int,
)
    requires
        call_ensures(telemetry::header_table, (&headers,), table),
        call_ensures(NameTable::<String>::get, (&table, name), r),
    ensures
        0 <= k < headers@.len() && headers@[k].0@ == name@ && (forall|j: int|
            k < j < headers@.len() ==> (#[trigger] headers@[j]).0@ != name@) ==> (r matches Some(v)
            && v@ == headers@[k].1@),
        (forall|j: int| 0 <= j < headers@.len() ==> (#[trigger] headers@[j]).0@ != name@)
            ==> r is None,
{
    let m = table@.map_values(|v: String| v@);
    assert(m == telemetry::header_map(headers@));
    if 0 <= k < headers@.len() && headers@[k].0@ == name@ && (forall|j: int|
        k < j < headers@.len() ==> (#[trigger] headers@[j]).0@ != name@) {
        lemma_header_map(headers@, k);
        assert(m.contains_key(name@));
        assert(table@.contains_key(name@));
        assert(m[name@] == table@[name@]@);
    }
    if r is Some {
        assert(table@.contains_key(name@));
        assert(m.contains_key(name@));
        lemma_header_map_names(headers@, name@);
    }
}

/// A service is described by its name, its version and, where it is configured, its instance.
pub proof fn law_resource_attributes(
    cfg: TelemetryConfig,
    version: &str,
    r: Vec<(ResourceAttribute, String)>,
)
    requires
        call_ensures(telemetry::build_resource, (&cfg, version), r),
    ensures
        r@.len() == if cfg.service_instance_id is Some {
            3int
        } else {
            2int
        },
        r@[0].0 == ResourceAttribute::ServiceName,
        cfg.service_name matches Some(n) ==> r@[0].1@ == n@,
        cfg.service_name is None ==> r@[0].1@ == "thurvtl"@,
        r@[1].0 == ResourceAttribute::ServiceVersion && r@[1].1@ == version@,
        cfg.service_instance_id matches Some(id) ==> r@[2].0
            == ResourceAttribute::ServiceInstanceId && r@[2].1@ == id@,
{
    let v = telemetry::attribute_views(r@);
    assert(v.len() == r@.len());
    assert(v[0] == (r@[0].0, r@[0].1@));
    assert(v[1] == (r@[1].0, r@[1].1@));
    if cfg.service_instance_id is Some {
        assert(v[2] == (r@[2].0, r@[2].1@));
    }
}

/// Telemetry is set up exactly if the headers of its exporter, if it has one, are accepted. Its
/// instruments have the configured prefix, and the default one where none is.
pub proof fn law_telemetry_is_set_up(
    cfg: TelemetryConfig,
    r: Result<Telemetry, TelemetryError>,
    checked: Result<(), TelemetryError>,
    inner: &TelemetryInner,
    k: int,
    suffix: &'static str,
)
    requires
        call_ensures(Telemetry::new, (&cfg,), r),
        cfg.otlp is Some ==> call_ensures(
            telemetry::check_otlp_headers,
            (&cfg.otlp->Some_0,),
            checked,
        ),
        r is Ok ==> call_ensures(Telemetry::instruments, (&r->Ok_0,), inner),
        0 <= k < inner.instruments@.len(),
        call_ensures(Instrument::suffix, (inner.instruments@[k].instrument,), suffix),
    ensures
        cfg.otlp is None ==> r is Ok,
        cfg.otlp is Some ==> (r is Ok <==> checked is Ok),
        r is Ok ==> (cfg.instrument_prefix matches Some(p) ==> inner.instruments@[k].name@ == p@
            + seq!['_'] + suffix@),
        r is Ok && cfg.instrument_prefix is None ==> inner.instruments@[k].name@ == "thur"@
            + seq!['_'] + suffix@,
{
    reveal_strlit("_");
    assert("_"@ =~= seq!['_']);
    if r is Ok {
        let prefix = telemetry::text_or(
            cfg.instrument_prefix,
            telemetry::DEFAULT_INSTRUMENT_PREFIX@,
        );
        assert(inner.instruments@[k].defines(prefix, instruments::all_instruments()[k]));
    }
}

/// Without a configuration telemetry is always set up, with the default prefix and counters that
/// are all zero.
pub proof fn law_default_telemetry(
    r: Result<Telemetry, TelemetryError>,
    noop: Telemetry,
    a: &TelemetryInner,
    b: &TelemetryInner,
    stats: &LiveStats,
    backend: &str,
    storage: StorageCounters,
    k: int,
)
    requires
        call_ensures(Telemetry::new_default, (), r),
        r is Ok ==> call_ensures(Telemetry::instruments, (&r->Ok_0,), a),
        call_ensures(Telemetry::noop, (), noop),
        call_ensures(Telemetry::instruments, (&noop,), b),
        call_ensures(Telemetry::live_stats, (&noop,), stats),
        call_ensures(LiveStats::storage_for, (stats, backend), storage),
        0 <= k < b.instruments@.len(),
    ensures
        r is Ok,
        a.instruments@.len() == b.instruments@.len(),
        a.instruments@[k].name@ == b.instruments@[k].name@,
        storage.put_ops == 0 && storage.get_ops == 0 && storage.errors == 0,
{
    let all = instruments::all_instruments();
    assert(a.instruments@[k].defines(telemetry::DEFAULT_INSTRUMENT_PREFIX@, all[k]));
    assert(b.instruments@[k].defines(telemetry::DEFAULT_INSTRUMENT_PREFIX@, all[k]));
}

/// A set-up failure is told with what failed.
pub proof fn law_set_up_failures(e: TelemetryError, r: String)
    requires
        call_ensures(TelemetryError::text, (&e,), r),
    ensures
        e matches TelemetryError::Prometheus(m) ==> r@ == "prometheus exporter init: "@ + m@,
        e matches TelemetryError::OtlpBuild(m) ==> r@ == "otlp exporter build: "@ + m@,
        e matches TelemetryError::OtlpHeader(m) ==> r@ == "otlp header config: "@ + m@,
{
}

/// A request that is recorded counts in the counters of the instance as it counts in counters of
/// their own.
pub proof fn law_recorded_requests_count(
    t: &mut Telemetry,
    s: &mut LiveStats,
    backend: &str,
    op: &str,
    outcome: &str,
    bytes: u64,
    r: Vec<Sample>,
    before: &LiveStats,
    after: &LiveStats,
    name: &str,
    a: StorageCounters,
    b: StorageCounters,
)
    requires
        call_ensures(Telemetry::live_stats, (&*old(t),), before),
        *old(s) == *before,
        call_ensures(Telemetry::storage_record_request, (t, backend, op, outcome, bytes), r),
        call_ensures(LiveStats::record_storage_op, (s, backend, op, outcome, bytes), ()),
        call_ensures(Telemetry::live_stats, (&*final(t),), after),
        call_ensures(LiveStats::storage_for, (after, name), a),
        call_ensures(LiveStats::storage_for, (&*final(s), name), b),
    ensures
        a == b,
{
}

/// So do a completed wait, and the waiters that come and leave.
pub proof fn law_recorded_waits_count(
    t: &mut Telemetry,
    u: &mut Telemetry,
    w: &mut Telemetry,
    s: &mut LiveStats,
    s2: &mut LiveStats,
    s3: &mut LiveStats,
    backend: &str,
    r: Vec<Sample>,
    before: &LiveStats,
    after: &LiveStats,
    after2: &LiveStats,
    after3: &LiveStats,
    name: &str,
    a: (PoolCounters, PoolCounters, PoolCounters),
    b: (PoolCounters, PoolCounters, PoolCounters),
)
    requires
        call_ensures(Telemetry::live_stats, (&*old(t),), before),
        *old(s) == *before,
        call_ensures(Telemetry::pool_waiter_in, (t, backend), ()),
        call_ensures(LiveStats::inc_waiters, (s, backend), ()),
        call_ensures(Telemetry::live_stats, (&*final(t),), after),
        call_ensures(LiveStats::pool_for, (after, name), a.0),
        call_ensures(LiveStats::pool_for, (&*final(s), name), b.0),
        *old(u) == *final(t),
        *old(s2) == *final(s),
        call_ensures(Telemetry::pool_record_backpressure_wait, (u, backend), r),
        call_ensures(LiveStats::record_pool_wait, (s2, backend), ()),
        call_ensures(Telemetry::live_stats, (&*final(u),), after2),
        call_ensures(LiveStats::pool_for, (after2, name), a.1),
        call_ensures(LiveStats::pool_for, (&*final(s2), name), b.1),
        *old(w) == *final(u),
        *old(s3) == *final(s2),
        call_ensures(Telemetry::pool_waiter_out, (w, backend), ()),
        call_ensures(LiveStats::dec_waiters, (s3, backend), ()),
        call_ensures(Telemetry::live_stats, (&*final(w),), after3),
        call_ensures(LiveStats::pool_for, (after3, name), a.2),
        call_ensures(LiveStats::pool_for, (&*final(s3), name), b.2),
    ensures
        a.0 == b.0,
        a.1 == b.1,
        a.2 == b.2,
{
}

/// So do sealed bytes, bytes that grew the pool, and audit entries.
pub proof fn law_recorded_bytes_count(
    t: &mut Telemetry,
    u: &mut Telemetry,
    w: &mut Telemetry,
    s: &mut LiveStats,
    s2: &mut LiveStats,
    s3: &mut LiveStats,
    backend: &str,
    scope: &str,
    kind: &str,
    bytes: u64,
    r: (Vec<Sample>, Vec<Sample>, Vec<Sample>),
    before: &LiveStats,
    after: &LiveStats,
    after2: &LiveStats,
    after3: &LiveStats,
    name: &str,
    a: (ChunkCounters, ChunkCounters, LiveStatsSnapshot),
    b: (ChunkCounters, ChunkCounters, LiveStatsSnapshot),
)
    requires
        call_ensures(Telemetry::live_stats, (&*old(t),), before),
        *old(s) == *before,
        call_ensures(Telemetry::chunk_add_logical_bytes, (t, backend, scope, bytes), r.0),
        call_ensures(LiveStats::record_chunk_logical_bytes, (s, backend, bytes), ()),
        call_ensures(Telemetry::live_stats, (&*final(t),), after),
        call_ensures(LiveStats::chunk_for, (after, name), a.0),
        call_ensures(LiveStats::chunk_for, (&*final(s), name), b.0),
        *old(u) == *final(t),
        *old(s2) == *final(s),
        call_ensures(Telemetry::chunk_add_unique_bytes, (u, backend, scope, bytes), r.1),
        call_ensures(LiveStats::record_chunk_unique_bytes, (s2, backend, bytes), ()),
        call_ensures(Telemetry::live_stats, (&*final(u),), after2),
        call_ensures(LiveStats::chunk_for, (after2, name), a.1),
        call_ensures(LiveStats::chunk_for, (&*final(s2), name), b.1),
        *old(w) == *final(u),
        *old(s3) == *final(s2),
        call_ensures(Telemetry::audit_inc_entry, (w, kind), r.2),
        call_ensures(LiveStats::record_audit_entry, (s3,), ()),
        call_ensures(Telemetry::live_stats, (&*final(w),), after3),
        call_ensures(LiveStats::snapshot, (after3,), a.2),
        call_ensures(LiveStats::snapshot, (&*final(s3),), b.2),
    ensures
        a.0 == b.0,
        a.1 == b.1,
        a.2.audit_entries_total == b.2.audit_entries_total,
{
}

} // verus!
