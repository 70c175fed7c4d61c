use std::collections::BTreeSet;
use std::time::Duration;
use thur_storage::instruments::{Instrument, InstrumentDef, InstrumentKind, TelemetryInner};
use thur_storage::live_stats::LiveStats;
use thur_storage::record;
use thur_storage::table::{comes_before, NameTable};
use thur_storage::telemetry::{
    build_resource, check_otlp_headers, header_table, header_verdict, OtlpExporterConfig,
    OtlpProtocol, ResourceAttribute, Sample, SampleValue, Telemetry, TelemetryConfig,
    TelemetryError,
};

/// The series name that the scrape endpoint shows: the exporter adds the unit, and the ending
/// of counters.
fn exported(def: &InstrumentDef) -> String {
    let mut name = def.name.clone();
    match def.unit {
        Some("By") => name.push_str("_bytes"),
        Some("s") => name.push_str("_seconds"),
        _ => {}
    }
    if def.kind == InstrumentKind::CounterU64 {
        name.push_str("_total");
    }
    name
}

fn def_of<'a>(inner: &'a TelemetryInner, instrument: Instrument) -> &'a InstrumentDef {
    inner
        .instruments
        .iter()
        .find(|d| d.instrument == instrument)
        .expect("registered")
}

#[test]
fn build_default_telemetry() {
    let mut t = Telemetry::new(&TelemetryConfig::default()).expect("build");
    let mut samples: Vec<Sample> = Vec::new();
    samples.extend(t.pool_set_used("primary", 0));
    samples.extend(t.pool_set_cap("primary", 1024));
    samples.extend(t.storage_record_request("primary", "put", "ok", 1024));
    samples.extend(t.chunk_inc_seal("primary", "global"));
    samples.extend(t.chunk_add_logical_bytes("primary", "global", 8 * 1024 * 1024));
    samples.extend(t.chunk_add_unique_bytes("primary", "global", 8 * 1024 * 1024));
    samples.extend(t.chunk_inc_storage_head_probe("primary"));
    samples.extend(t.chunk_inc_storage_head_hit("primary"));
    samples.extend(t.chunk_inc_storage_cache_hit("primary"));
    samples.extend(t.chunk_inc_storage_cache_inflight_coalesced("primary"));
    samples.extend(t.chunk_add_storage_cache_warmup_seeded("primary", 42));
    samples.extend(t.upload_set_queue_depth(0));
    samples.extend(t.iscsi_set_sessions_active(0));
    samples.extend(t.iscsi_record_command("write_16", "good"));
    samples.extend(t.audit_inc_entry("daemon.start"));
    samples.extend(t.audit_inc_chain_reset());
    samples.extend(t.audit_inc_queue_drop());
    samples.extend(t.cache_inc_eviction("vol1", "dirty"));
    samples.extend(t.cache_record_miss_after_eviction("primary"));
    samples.extend(t.pool_inc_eviction("primary"));
    samples.extend(t.pool_record_backpressure_wait("primary"));
    samples.extend(t.storage_inc_retry("primary", "Network"));
    samples.extend(t.storage_inc_permanent_error("primary", "Auth"));
    samples.extend(t.chunk_inc_dedup_hit("primary", "global"));
    samples.extend(t.chunk_inc_upload_stranded("primary", "backend_unknown"));
    samples.extend(t.prefetch_inc_hit());
    samples.extend(t.prefetch_inc_miss());
    samples.extend(t.alerts_record("disk_cache", "warning", "log", "fired"));
    samples.extend(t.scsi_xcopy_inc("success"));
    samples.extend(t.scsi_xcopy_add_bytes("fast", 4096));
    samples.extend(t.scsi_xcopy_inc_segment("fast"));
    samples.extend(t.daemon_set_start_time(1));
    samples.extend(t.orphan_scan_record(0));

    let mut dump = String::new();
    for sample in &samples {
        let def = def_of(t.instruments(), sample.instrument);
        let kind = match def.kind {
            InstrumentKind::CounterU64 => "counter",
            InstrumentKind::Histogram => "histogram",
            _ => "gauge",
        };
        dump.push_str(&format!("# TYPE {} {}\n", exported(def), kind));
    }
    assert!(
        !dump.contains("_total_total"),
        "counter name baked in `_total`; exporter doubled it:\n{dump}"
    );
    assert!(
        !dump.contains("_bytes_bytes"),
        "byte metric baked in `_bytes`; exporter doubled it:\n{dump}"
    );
    for exact in [
        "# TYPE thur_pool_evictions_total counter",
        "# TYPE thur_storage_requests_total counter",
        "# TYPE thur_scsi_xcopy_total counter",
        "# TYPE thur_scsi_xcopy_copied_bytes_total counter",
        "# TYPE thur_audit_entries_total counter",
    ] {
        assert!(dump.contains(exact), "missing exact `{exact}` in:\n{dump}");
    }
    for needle in [
        "thur_pool_used_bytes",
        "thur_pool_cap_bytes",
        "thur_storage_requests_total",
        "thur_chunk_seals_total",
        "thur_chunk_logical_bytes",
        "thur_chunk_unique_bytes",
        "thur_chunk_storage_head_probes_total",
        "thur_chunk_storage_head_hits_total",
        "thur_chunk_storage_cache_hits_total",
        "thur_chunk_storage_cache_inflight_coalesced_total",
        "thur_chunk_storage_cache_warmup_seeded_total",
        "thur_cache_evictions_total",
        "thur_cache_miss_after_eviction_seconds",
        "thur_upload_queue_depth",
        "thur_iscsi_sessions_active",
        "thur_audit_entries_total",
    ] {
        assert!(
            dump.contains(needle),
            "missing metric `{needle}` in:\n{dump}"
        );
    }
}

#[test]
fn label_values_distinguish_series() {
    let t = Telemetry::noop();
    let a = t.pool_set_used("primary", 100);
    let b = t.pool_set_used("archive", 200);
    assert_eq!(a[0].labels, vec![("backend", "primary".to_string())]);
    assert_eq!(b[0].labels, vec![("backend", "archive".to_string())]);
    assert_eq!(a[0].value, SampleValue::U64(100));
}

#[test]
fn live_stats_chunk_mirror_folds_scope_per_backend() {
    let mut t = Telemetry::noop();
    t.chunk_add_logical_bytes("primary", "global", 1000);
    t.chunk_add_unique_bytes("primary", "global", 400);
    t.chunk_add_logical_bytes("primary", "local", 500);
    t.chunk_add_unique_bytes("primary", "local", 500);
    t.chunk_add_logical_bytes("archive", "global", 200);
    t.chunk_add_unique_bytes("archive", "global", 50);

    let snap = t.live_stats().snapshot();
    let primary = snap.chunk.get("primary").expect("primary chunk row");
    assert_eq!(primary.logical_bytes, 1500);
    assert_eq!(primary.unique_bytes, 900);
    let archive = snap.chunk.get("archive").expect("archive chunk row");
    assert_eq!(archive.logical_bytes, 200);
    assert_eq!(archive.unique_bytes, 50);
}

#[test]
fn every_instrument_has_its_own_name() {
    let inner = TelemetryInner::build("thur");
    let names: BTreeSet<&str> = inner.instruments.iter().map(|d| d.name.as_str()).collect();
    assert_eq!(names.len(), inner.instruments.len());
    assert_eq!(inner.instruments.len(), Instrument::all().len());
    assert!(names.iter().all(|n| n.starts_with("thur_")));
    let vsa = TelemetryInner::build("vsa");
    assert!(vsa.instruments.iter().all(|d| d.name.starts_with("vsa_")));
}

#[test]
fn histograms_have_boundaries_and_others_do_not() {
    for instrument in Instrument::all() {
        let is_histogram = instrument.kind() == InstrumentKind::Histogram;
        if !is_histogram {
            assert!(instrument.boundaries().is_empty());
        }
        assert!(!instrument.description().is_empty());
    }
}

#[test]
fn only_successful_transfers_count_bytes() {
    let mut stats = LiveStats::default();
    stats.record_storage_op("b", "put", "ok", 10);
    stats.record_storage_op("b", "put", "error", 99);
    stats.record_storage_op("b", "get", "ok", 5);
    let c = stats.storage_for("b");
    assert_eq!((c.put_bytes, c.get_bytes, c.errors), (10, 5, 1));
    assert_eq!(stats.storage_for("other").put_ops, 0);
}

#[test]
fn waiters_balance() {
    let mut stats = LiveStats::default();
    stats.inc_waiters("b");
    stats.inc_waiters("b");
    stats.dec_waiters("b");
    stats.record_pool_wait("b");
    let p = stats.pool_for("b").snapshot();
    assert_eq!((p.waiters_now, p.waits_total), (1, 1));
    stats.record_audit_entry();
    assert_eq!(stats.snapshot().audit_entries_total, 1);
}

#[test]
fn empty_slot_drops_everything() {
    let mut slot: Option<Telemetry> = None;
    assert!(record::pool_used(&slot, "b", 1).is_empty());
    assert!(record::storage_request(&mut slot, "b", "put", "ok", 1).is_empty());
    let mut slot = Some(Telemetry::noop());
    assert_eq!(record::pool_used(&slot, "b", 1).len(), 1);
    assert!(!record::storage_request(&mut slot, "b", "put", "ok", 7).is_empty());
    record::pool_waiters_inc(&mut slot, "b");
    record::pool_waiters_dec(&mut slot, "b");
    let t = slot.expect("installed");
    assert_eq!(t.live_stats().storage_for("b").put_bytes, 7);
    assert_eq!(t.live_stats().pool_for("b").waiters_now, 0);
}

fn otlp(headers: &[(&str, &str)]) -> OtlpExporterConfig {
    OtlpExporterConfig {
        endpoint: "http://collector:4317".to_string(),
        protocol: OtlpProtocol::Grpc,
        interval: Duration::from_secs(10),
        headers: headers
            .iter()
            .map(|(k, v)| (k.to_string(), v.to_string()))
            .collect(),
    }
}

#[test]
fn grpc_headers_are_checked() {
    assert_eq!(check_otlp_headers(&otlp(&[("authorization", "Bearer x")])), Ok(()));
    assert!(matches!(
        check_otlp_headers(&otlp(&[("bad key", "v")])),
        Err(TelemetryError::OtlpHeader(m)) if m.contains("bad key")
    ));
    assert!(matches!(
        check_otlp_headers(&otlp(&[("ok", "line\nbreak")])),
        Err(TelemetryError::OtlpHeader(m)) if m.contains("ok")
    ));
    // Only the gRPC exporter has these rules.
    let mut http = otlp(&[("bad key", "v")]);
    http.protocol = OtlpProtocol::HttpProtobuf;
    assert_eq!(check_otlp_headers(&http), Ok(()));
    assert!(header_verdict("k", None, None).is_ok());
    assert!(header_verdict("k", Some("why".to_string()), None).is_err());
    assert!(header_verdict("k", None, Some("why".to_string())).is_err());
}

#[test]
fn grpc_header_names_are_tokens_without_the_binary_ending() {
    let taken = |key: &str| check_otlp_headers(&otlp(&[(key, "v")])).is_ok();
    for b in 0u8..128 {
        let c = b as char;
        let token = c.is_ascii_alphanumeric() || "!#$%&'*+-.^_`|~".contains(c);
        assert_eq!(taken(&format!("a{c}z")), token, "character {b}");
    }
    assert!(!taken("") && !taken("na\u{ef}ve"));
    assert!(!taken("trace-bin") && !taken("Trace-BIN") && !taken("-bin"));
    assert!(taken("bin") && taken("tracebin") && taken("a-bin-b"));
    assert!(taken(&"k".repeat(65_535)) && !taken(&"k".repeat(65_536)));
    assert_eq!(
        check_otlp_headers(&otlp(&[("bad key", "v")])),
        Err(TelemetryError::OtlpHeader(
            "invalid header key 'bad key': invalid gRPC metadata key name".to_string()
        ))
    );
}

#[test]
fn grpc_header_values_hold_no_control_characters() {
    let taken = |value: &str| check_otlp_headers(&otlp(&[("k", value)])).is_ok();
    for b in 0u8..128 {
        let c = b as char;
        assert_eq!(taken(&format!("a{c}z")), c == '\t' || !c.is_ascii_control(), "character {b}");
    }
    assert!(taken("") && taken("caf\u{e9} \u{1f600}"));
    assert_eq!(
        check_otlp_headers(&otlp(&[("k", "a\nb")])),
        Err(TelemetryError::OtlpHeader(
            "invalid header value for 'k': failed to parse metadata value".to_string()
        ))
    );
}

#[test]
fn later_headers_win() {
    let table = header_table(&vec![
        ("a".to_string(), "1".to_string()),
        ("b".to_string(), "2".to_string()),
        ("a".to_string(), "3".to_string()),
    ]);
    assert_eq!(table.len(), 2);
    assert_eq!(table.get("a").map(String::as_str), Some("3"));
}

#[test]
fn resources_name_the_service() {
    let plain = build_resource(&TelemetryConfig::default(), "1.2.3");
    assert_eq!(
        plain,
        vec![
            (ResourceAttribute::ServiceName, "thurvtl".to_string()),
            (ResourceAttribute::ServiceVersion, "1.2.3".to_string())
        ]
    );
    let named = build_resource(
        &TelemetryConfig {
            service_name: Some("thurvsa".to_string()),
            service_instance_id: Some("node-1".to_string()),
            instrument_prefix: None,
            otlp: None,
        },
        "1.2.3",
    );
    assert_eq!(named[0].1, "thurvsa");
    assert_eq!(named[2], (ResourceAttribute::ServiceInstanceId, "node-1".to_string()));
}

#[test]
fn telemetry_errors_have_texts() {
    assert_eq!(
        TelemetryError::Prometheus("x".to_string()).text(),
        "prometheus exporter init: x"
    );
    assert_eq!(
        TelemetryError::OtlpBuild("x".to_string()).text(),
        "otlp exporter build: x"
    );
    assert_eq!(
        TelemetryError::OtlpHeader("x".to_string()).text(),
        "otlp header config: x"
    );
}

#[test]
fn tables_keep_names_in_order() {
    let mut table: NameTable<u32> = NameTable::new();
    for (i, name) in ["m", "a", "z", "ab"].iter().enumerate() {
        table.insert(name, i as u32);
    }
    table.insert("a", 9);
    let names: Vec<&str> = (0..table.len()).map(|i| table.name_at(i)).collect();
    assert_eq!(names, vec!["a", "ab", "m", "z"]);
    assert_eq!(table.get("a"), Some(&9));
    assert_eq!(*table.value_at(1), 3);
    assert_eq!(table.get("q"), None);
    assert!(comes_before("a", "ab") && !comes_before("b", "ab") && !comes_before("a", "a"));
}
