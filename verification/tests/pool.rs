use std::collections::HashMap;
use thur_storage::budget::{BackpressureError, PoolBudget, ReserveStep};
use thur_storage::disk_cache_size::{DiskCacheBounds, DiskCacheSize, SizeLiteral, BYTES_PER_GB};
use thur_storage::error::{IoFailure, IoKind};
use thur_storage::ghost::{GhostHash, GhostList};
use thur_storage::hash::{content_hash, decode_hash_hex, StreamHasher};
use thur_storage::pins::{PinKey, PinTable};
use thur_storage::pool::{
    after_remove, after_rename, staged_insert, ChunkPool, ChunkPoolError, FileEntry, StagedStep,
};

const SEC: u128 = 1_000_000_000;

fn reserve(b: &mut PoolBudget, bytes: u64) {
    assert!(matches!(
        b.try_reserve(bytes, None, 0, SEC),
        ReserveStep::Admitted { .. }
    ));
}

/// The entries that a walk of a pool with these chunks reports.
fn walk(bodies: &[&[u8]]) -> Vec<FileEntry> {
    bodies
        .iter()
        .map(|b| FileEntry {
            is_file: true,
            name: Some(format!("{}.dat", content_hash(b))),
            size: b.len() as u64,
        })
        .collect()
}

#[test]
fn pool_budget_unbounded_admits_every_reservation() {
    let mut b = PoolBudget::unbounded("/data".to_string());
    reserve(&mut b, 10 * 1024 * 1024 * 1024);
    assert_eq!(b.current_bytes(), 10 * 1024 * 1024 * 1024);
    b.release(10 * 1024 * 1024 * 1024);
    assert_eq!(b.current_bytes(), 0);
}

#[test]
fn pool_budget_times_out_when_no_release_arrives() {
    let mut b = PoolBudget::new("/data".to_string(), 1024, 0, 80);
    reserve(&mut b, 1024);
    let deadline = 150_000_000;
    assert_eq!(
        b.try_reserve(1, None, 0, deadline),
        ReserveStep::Wait { remaining_nanos: deadline }
    );
    match b.try_reserve(1, None, deadline, deadline) {
        ReserveStep::TimedOut(err) => {
            assert_eq!(err.pool_used_bytes, 1024);
            assert_eq!(err.pool_cap_bytes, 1024);
        }
        other => panic!("should have timed out, got {other:?}"),
    }
}

#[test]
fn pool_budget_blocks_then_admits_after_release() {
    let mut b = PoolBudget::with_backend("primary".to_string(), "/data".to_string(), 1024, 0, 80);
    reserve(&mut b, 1024);
    assert!(matches!(
        b.try_reserve(512, None, 0, 2 * SEC),
        ReserveStep::Wait { .. }
    ));
    b.release(512);
    assert_eq!(
        b.try_reserve(512, None, 100_000_000, 2 * SEC),
        ReserveStep::Admitted { waited: true }
    );
    assert_eq!(b.current_bytes(), 1024);
}

#[test]
fn pool_budget_force_reserve_bypasses_cap() {
    let mut b = PoolBudget::new("/data".to_string(), 1024, 0, 80);
    reserve(&mut b, 1024);
    b.force_reserve(2048);
    assert_eq!(b.current_bytes(), 3072);
}

#[test]
fn pool_budget_soft_watermark_fires_at_threshold() {
    let mut b = PoolBudget::new("/data".to_string(), 1000, 0, 80);
    assert!(!b.over_soft_watermark());
    reserve(&mut b, 800);
    assert!(b.over_soft_watermark());
    b.release(50);
    assert!(!b.over_soft_watermark());
}

#[test]
fn set_current_bytes_overwrites() {
    let mut b = PoolBudget::new("/data".to_string(), 1024, 0, 80);
    reserve(&mut b, 1024);
    b.set_current_bytes(0);
    reserve(&mut b, 256);
    assert_eq!(b.current_bytes(), 256);
}

#[test]
fn set_cap_bytes_grow_admits_a_waiter() {
    let mut b = PoolBudget::new("/data".to_string(), 1024, 0, 80);
    reserve(&mut b, 1024);
    assert!(matches!(b.try_reserve(256, None, 0, SEC), ReserveStep::Wait { .. }));
    assert!(b.set_cap_bytes(4096));
    assert!(!b.set_cap_bytes(4096));
    assert_eq!(b.cap_bytes(), 4096);
    reserve(&mut b, 256);
    assert_eq!(b.current_bytes(), 1024 + 256);
}

#[test]
fn set_cap_bytes_shrink_takes_effect_on_next_reserve() {
    let mut b = PoolBudget::new("/data".to_string(), 4096, 0, 80);
    reserve(&mut b, 1024);
    b.set_cap_bytes(512);
    assert_eq!(b.cap_bytes(), 512);
    match b.try_reserve(1, None, 50_000_000, 50_000_000) {
        ReserveStep::TimedOut(err) => assert_eq!(err.pool_cap_bytes, 512),
        other => panic!("over-cap reservation must time out, got {other:?}"),
    }
}

#[test]
fn backpressure_error_format_carries_counters() {
    let err = BackpressureError {
        pool_used_bytes: 100,
        pool_cap_bytes: 80,
        waited_secs: 7,
    };
    let s = err.text();
    assert!(s.contains("100/80"));
    assert!(s.contains("7s"));
}

#[test]
fn free_space_floor_gates_admission() {
    let mut b = PoolBudget::with_backend("primary".to_string(), "/data".to_string(), 0, 1000, 80);
    assert!(b.needs_free_space());
    assert!(b.is_reported());
    assert_eq!(b.backend(), "primary");
    assert_eq!(b.data_dir(), "/data");
    assert!(matches!(b.try_reserve(10, Some(500), 0, SEC), ReserveStep::Wait { .. }));
    assert!(matches!(
        b.try_reserve(10, Some(5000), 0, SEC),
        ReserveStep::Admitted { .. }
    ));
    // An unreadable filesystem does not gate.
    assert!(matches!(b.try_reserve(10, None, 0, SEC), ReserveStep::Admitted { .. }));
}

#[test]
fn explicit_resolves_to_gb_times_gib_ignoring_bounds() {
    let size = DiskCacheSize::Explicit(10);
    let bounds = DiskCacheBounds { min_gb: 100, max_gb: 200 };
    let bytes = size.resolve_bytes(Some(1 << 40), bounds, 1);
    assert_eq!(bytes, 10 * BYTES_PER_GB);
}

#[test]
fn auto_clamps_to_max_when_half_free_exceeds_it() {
    let bytes = DiskCacheSize::Auto.resolve_bytes(
        Some(1 << 40),
        DiskCacheBounds { min_gb: 0, max_gb: 1 },
        1,
    );
    assert_eq!(bytes, BYTES_PER_GB);
}

#[test]
fn auto_floors_to_min_when_derived_undershoots() {
    let bytes = DiskCacheSize::Auto.resolve_bytes(
        Some(1 << 40),
        DiskCacheBounds { min_gb: 100 * 1024, max_gb: 1024 * 1024 },
        1,
    );
    assert_eq!(bytes, 100 * 1024 * BYTES_PER_GB);
}

#[test]
fn auto_splits_share_across_auto_backends() {
    let bounds = DiskCacheBounds { min_gb: 0, max_gb: u64::MAX / BYTES_PER_GB };
    for free in [1u64 << 40, (1 << 40) + 1, (1 << 40) + 3] {
        let one = DiskCacheSize::Auto.resolve_bytes(Some(free), bounds, 1);
        let two = DiskCacheSize::Auto.resolve_bytes(Some(free), bounds, 2);
        assert!(
            (one / 2).abs_diff(two) <= 1,
            "one={one} two={two} (expected ~ one/2)"
        );
    }
}

#[test]
fn auto_handles_zero_auto_backends_like_one() {
    let bounds = DiskCacheBounds { min_gb: 0, max_gb: u64::MAX / BYTES_PER_GB };
    let zero = DiskCacheSize::Auto.resolve_bytes(Some(1 << 40), bounds, 0);
    let one = DiskCacheSize::Auto.resolve_bytes(Some(1 << 40), bounds, 1);
    assert_eq!(zero, one);
}

#[test]
fn auto_swapped_bounds_are_normalized() {
    let bounds = DiskCacheBounds { min_gb: 100, max_gb: 1 };
    let bytes = DiskCacheSize::Auto.resolve_bytes(Some(1 << 40), bounds, 1);
    assert!(bytes >= BYTES_PER_GB);
    assert!(bytes <= 100 * BYTES_PER_GB);
    assert_eq!(bounds.sanitize(), DiskCacheBounds { min_gb: 1, max_gb: 100 });
}

#[test]
fn deserialize_integer_form() {
    assert_eq!(
        DiskCacheSize::parse(&SizeLiteral::Unsigned(4)),
        Ok(DiskCacheSize::Explicit(4))
    );
}

#[test]
fn deserialize_auto_string() {
    assert_eq!(
        DiskCacheSize::parse(&SizeLiteral::Text("auto".to_string())),
        Ok(DiskCacheSize::Auto)
    );
}

#[test]
fn deserialize_rejects_negative() {
    let err = DiskCacheSize::parse(&SizeLiteral::Signed(-1)).unwrap_err();
    assert!(err.contains("negative"));
}

#[test]
fn deserialize_rejects_other_strings() {
    let err = DiskCacheSize::parse(&SizeLiteral::Text("manual".to_string())).unwrap_err();
    assert!(err.contains("manual"));
}

#[test]
fn deserialize_from_json_integer_and_auto() {
    assert_eq!(
        DiskCacheSize::parse(&SizeLiteral::Unsigned(8)),
        Ok(DiskCacheSize::Explicit(8))
    );
    assert_eq!(
        DiskCacheSize::parse(&SizeLiteral::Text("auto".to_string())),
        Ok(DiskCacheSize::Auto)
    );
}

#[test]
fn settings_survive_their_literal() {
    for size in [DiskCacheSize::Auto, DiskCacheSize::Explicit(12)] {
        assert_eq!(DiskCacheSize::parse(&size.literal()), Ok(size));
    }
}

#[test]
fn default_is_auto() {
    assert_eq!(DiskCacheSize::default(), DiskCacheSize::Auto);
}

#[test]
fn is_auto_and_explicit_gb_accessors() {
    assert!(DiskCacheSize::Auto.is_auto());
    assert_eq!(DiskCacheSize::Auto.explicit_gb(), None);
    assert!(!DiskCacheSize::Explicit(7).is_auto());
    assert_eq!(DiskCacheSize::Explicit(7).explicit_gb(), Some(7));
}

fn h(byte: u8) -> GhostHash {
    [byte; 32]
}

fn ghosts(backend: &str, capacity: usize) -> GhostList {
    GhostList::new(backend.to_string(), capacity)
}

#[test]
fn insert_then_lookup_returns_age() {
    let mut gl = ghosts("backendA", 16);
    gl.insert(h(1), 1000);
    assert_eq!(gl.lookup(&h(1), 1042), Some(42));
}

#[test]
fn lookup_without_insert_is_none() {
    let gl = ghosts("backendA", 16);
    assert_eq!(gl.lookup(&h(7), 5000), None);
}

#[test]
fn ring_overflow_drops_oldest() {
    let mut gl = ghosts("backendA", 3);
    gl.insert(h(1), 100);
    gl.insert(h(2), 101);
    gl.insert(h(3), 102);
    gl.insert(h(4), 103);
    assert_eq!(gl.lookup(&h(1), 200), None, "oldest should be dropped");
    assert_eq!(gl.lookup(&h(2), 200), Some(99));
    assert_eq!(gl.lookup(&h(3), 200), Some(98));
    assert_eq!(gl.lookup(&h(4), 200), Some(97));
    assert_eq!(gl.len(), 3);
}

#[test]
fn capacity_zero_is_noop() {
    let mut gl = ghosts("backendA", 0);
    gl.insert(h(1), 100);
    assert_eq!(gl.lookup(&h(1), 200), None);
    assert_eq!(gl.len(), 0);
}

#[test]
fn reinsert_refreshes_timestamp_and_survives_overflow() {
    let mut gl = ghosts("backendA", 3);
    gl.insert(h(1), 100);
    gl.insert(h(2), 101);
    gl.insert(h(3), 102);
    gl.insert(h(1), 103);
    gl.insert(h(4), 104);
    gl.insert(h(5), 105);
    assert_eq!(
        gl.lookup(&h(1), 200),
        Some(97),
        "refresh should survive stale-ring-pop"
    );
}

#[test]
fn age_saturates_on_clock_skew() {
    let mut gl = ghosts("backendA", 4);
    gl.insert(h(1), 1000);
    assert_eq!(gl.lookup(&h(1), 500), Some(0));
}

#[test]
fn backend_label_round_trips() {
    let gl = ghosts("cold-azure", 8);
    assert_eq!(gl.backend(), "cold-azure");
    assert_eq!(gl.capacity(), 8);
}

#[test]
fn store_path_shards_two_levels_under_backend() {
    let pool = ChunkPool::new("/data", "primary");
    let p = pool.store_path("abcd1234");
    assert!(p.ends_with("chunks/primary/ab/cd/abcd1234.dat"), "got: {p}");
    assert_eq!(pool.backend_name(), "primary");
    assert!(pool.namespace().is_none());
}

#[test]
fn namespaced_pool_includes_namespace_segment() {
    let pool = ChunkPool::new_namespaced("/data", "primary", "vol1");
    let p = pool.store_path("deadbeefcafe");
    assert!(
        p.ends_with("chunks/primary/vol1/de/ad/deadbeefcafe.dat"),
        "got: {p}"
    );
    assert_eq!(pool.namespace(), Some("vol1"));
    assert_eq!(pool.cartridge_namespace(), Some("vol1"));
}

#[test]
fn storage_key_strips_backend_keeps_namespace() {
    let global = ChunkPool::new("/data", "primary");
    assert_eq!(global.object_key("deadbeef"), "chunks/de/ad/deadbeef.dat");
    let local = ChunkPool::new_namespaced("/data", "primary", "vol1");
    assert_eq!(
        local.object_key("deadbeef"),
        "chunks/vol1/de/ad/deadbeef.dat"
    );
}

#[test]
fn storage_key_for_static_form_no_namespace() {
    assert_eq!(
        ChunkPool::object_key_for(None, "deadbeef"),
        "chunks/de/ad/deadbeef.dat"
    );
}

#[test]
fn storage_key_for_static_form_with_namespace() {
    assert_eq!(
        ChunkPool::object_key_for(Some("TAPE001"), "deadbeef"),
        "chunks/TAPE001/de/ad/deadbeef.dat"
    );
}

#[test]
fn insert_bytes_seals_then_dedups() {
    let pool = ChunkPool::new("/data", "primary");
    let bytes = b"hello pool".to_vec();

    let plan = pool.insert_bytes(&bytes);
    let path = plan.path.clone();
    let (h1, was_new1) = plan.outcome(false);
    assert!(was_new1);
    assert_eq!(path, pool.store_path(&h1));

    let (h2, was_new2) = pool.insert_bytes(&bytes).outcome(true);
    assert_eq!(h1, h2);
    assert!(!was_new2);
}

#[test]
fn insert_verified_bytes_accepts_matching_hash() {
    let pool = ChunkPool::new("/data", "primary");
    let bytes = b"storage-fetched chunk".to_vec();
    let expected = hex::encode(blake3::hash(&bytes).as_bytes());

    assert!(
        pool.insert_verified_bytes(&expected, &bytes, false).unwrap(),
        "first insert of an absent chunk reports was_new=true"
    );
}

#[test]
fn insert_verified_bytes_rejects_mismatch_and_leaves_pool_clean() {
    let pool = ChunkPool::new("/data", "primary");
    let wrong = "0".repeat(64);

    let err = pool
        .insert_verified_bytes(&wrong, b"some bytes that do not hash to the zeros", false)
        .unwrap_err();
    match err {
        ChunkPoolError::HashMismatch { expected, actual } => {
            assert_eq!(expected, wrong);
            assert_ne!(actual, wrong);
        }
        other => panic!("expected HashMismatch, got {other:?}"),
    }
}

#[test]
fn insert_verified_bytes_dedup_hit_returns_ok_without_rehash() {
    let pool = ChunkPool::new("/data", "primary");
    let bytes = b"already in the pool".to_vec();
    let hash = hex::encode(blake3::hash(&bytes).as_bytes());

    assert!(
        pool.insert_verified_bytes(&hash, &bytes, false).unwrap(),
        "first insert reports was_new=true"
    );
    assert!(
        !pool
            .insert_verified_bytes(&hash, b"wrong bytes ignored on dedup hit", true)
            .unwrap(),
        "dedup-hit insert reports was_new=false so callers skip the budget reserve"
    );
}

#[test]
fn iter_chunks_on_empty_pool_is_empty() {
    let pool = ChunkPool::new("/data", "primary");
    assert!(pool.iter_chunks(&vec![]).is_empty());
}

#[test]
fn iter_chunks_skips_garbage_files() {
    let pool = ChunkPool::new("/data", "primary");
    let mut entries = walk(&[b"real"]);
    entries.push(FileEntry { is_file: true, name: Some(".tmp-garbage".to_string()), size: 7 });
    entries.push(FileEntry { is_file: true, name: None, size: 7 });
    entries.push(FileEntry { is_file: false, ..entries[0].clone() });
    entries.push(FileEntry {
        is_file: true,
        name: Some(format!("{}.dat", "z".repeat(64))),
        size: 7,
    });
    let chunks = pool.iter_chunks(&entries);
    assert_eq!(chunks, vec![(content_hash(b"real"), 4)]);
}

#[test]
fn for_each_chunk_matches_iter_chunks_decoded() {
    let pool = ChunkPool::new("/data", "primary");
    let entries = walk(&[b"alpha", b"beta", b"gamma-payload"]);
    let mut want: HashMap<[u8; 32], u64> = HashMap::new();
    for (hex, size) in pool.iter_chunks(&entries) {
        want.insert(decode_hash_hex(&hex).expect("valid pool hash"), size);
    }
    let mut got: HashMap<[u8; 32], u64> = HashMap::new();
    for (hash, size) in pool.for_each_chunk(&entries) {
        got.insert(hash, size);
    }
    assert_eq!(got, want);
    assert_eq!(got.len(), 3);
}

#[test]
fn decode_hash_hex_round_trips_and_rejects_bad_input() {
    let pool = ChunkPool::new("/data", "primary");
    let (hash, _) = pool.insert_bytes(b"round-trip").outcome(false);
    let bytes = decode_hash_hex(&hash).expect("valid hash decodes");
    let mut rehex = String::with_capacity(64);
    for b in bytes {
        rehex.push_str(&format!("{b:02x}"));
    }
    assert_eq!(rehex, hash);
    assert!(decode_hash_hex("tooshort").is_none());
    assert!(decode_hash_hex(&"z".repeat(64)).is_none());
}

#[test]
fn insert_empty_bytes_hashes_to_known_blake3_zero() {
    let pool = ChunkPool::new("/data", "primary");
    let (hash, was_new) = pool.insert_bytes(&[]).outcome(false);
    assert_eq!(hash.len(), 64);
    assert!(was_new);
    assert_eq!(
        hash,
        "af1349b9f5f9a1a6a0404dea36dcc9499bcb25c9adc112b7cc9a93cae41f3262"
    );
}

#[test]
fn namespaces_do_not_share_chunks() {
    let pool_a = ChunkPool::new_namespaced("/data", "primary", "vol1");
    let pool_b = ChunkPool::new_namespaced("/data", "primary", "vol2");
    let (hash, _) = pool_a.insert_bytes(b"shared payload").outcome(false);
    let (hash_b, was_new) = pool_b.insert_bytes(b"shared payload").outcome(false);
    assert_eq!(hash_b, hash, "same bytes -> same content hash");
    assert!(was_new, "second namespace must seal its own copy");
    assert_ne!(
        pool_a.store_path(&hash),
        pool_b.store_path(&hash),
        "namespaces must isolate chunks"
    );
}

#[test]
fn backends_do_not_share_chunks() {
    let primary = ChunkPool::new("/data", "primary");
    let secondary = ChunkPool::new("/data", "secondary");
    let (hash, _) = primary.insert_bytes(b"only on primary").outcome(false);
    assert_ne!(primary.store_path(&hash), secondary.store_path(&hash));
}

#[test]
fn remove_is_idempotent() {
    let failed = |kind| Err(IoFailure { kind, message: "e".to_string() });
    assert_eq!(after_remove(Ok(())), Ok(()));
    assert_eq!(after_remove(failed(IoKind::NotFound)), Ok(()));
    assert!(matches!(
        after_remove(failed(IoKind::PermissionDenied)),
        Err(ChunkPoolError::Io(_))
    ));
}

#[test]
fn staged_files_are_moved_or_dropped() {
    assert_eq!(staged_insert(true), StagedStep::RemoveStaged);
    assert_eq!(staged_insert(false), StagedStep::Rename);
    assert_eq!(after_rename(Ok(())), Ok(StagedStep::Done));
    let failed = |kind| Err(IoFailure { kind, message: "e".to_string() });
    assert_eq!(
        after_rename(failed(IoKind::CrossesDevices)),
        Ok(StagedStep::CopyThenRemoveStaged)
    );
    assert!(after_rename(failed(IoKind::PermissionDenied)).is_err());
}

#[test]
fn hash_file_matches_insert_bytes_hash() {
    let payload: Vec<u8> = (0..8192).map(|i| (i * 17 % 251) as u8).collect();
    let mut streamed = StreamHasher::new();
    for piece in payload.chunks(1000) {
        streamed.update(piece);
    }
    let pool = ChunkPool::new("/data", "primary");
    let (in_memory, _) = pool.insert_bytes(&payload).outcome(false);
    assert_eq!(streamed.finish(), in_memory);
    assert_eq!(in_memory, hex::encode(blake3::hash(&payload).as_bytes()));
}

#[test]
fn pin_increments_then_drop_releases() {
    let mut table = PinTable::new();
    let pool = ChunkPool::new("/data", "pin_a");
    let (hash, _) = pool.insert_bytes(b"pinable").outcome(false);

    assert!(!pool.is_pinned(&table, &hash));
    let g = pool.pin(&mut table, &hash);
    assert!(pool.is_pinned(&table, &hash));
    g.release(&mut table);
    assert!(!pool.is_pinned(&table, &hash));
}

#[test]
fn pin_refcount_survives_overlapping_holders() {
    let mut table = PinTable::new();
    let pool = ChunkPool::new("/data", "pin_b");
    let (hash, _) = pool.insert_bytes(b"refcount").outcome(false);

    let a = pool.pin(&mut table, &hash);
    let b = pool.pin(&mut table, &hash);
    assert!(pool.is_pinned(&table, &hash));
    a.release(&mut table);
    assert!(pool.is_pinned(&table, &hash), "still held by b");
    b.release(&mut table);
    assert!(!pool.is_pinned(&table, &hash));
}

#[test]
fn capped_budget_refuses_what_no_counter_could_hold() {
    let mut b = PoolBudget::new("/data".to_string(), 1024, 0, 80);
    b.force_reserve(2048);
    assert_eq!(
        b.try_reserve(u64::MAX, None, 0, SEC),
        ReserveStep::Wait { remaining_nanos: SEC }
    );
    match b.try_reserve(u64::MAX, None, SEC, SEC) {
        ReserveStep::TimedOut(e) => {
            assert_eq!((e.pool_used_bytes, e.pool_cap_bytes, e.waited_secs), (2048, 1024, 1));
        }
        other => panic!("expected a timeout, got {other:?}"),
    }
    assert_eq!(b.current_bytes(), 2048);
    assert!(b.has_disk_room(None) && b.has_disk_room(Some(0)));
}

#[test]
fn inserted_chunks_are_there_and_leave_other_pools_alone() {
    let pool = ChunkPool::new("/data", "primary");
    let others = [
        ChunkPool::new("/data", "archive"),
        ChunkPool::new_namespaced("/data", "primary", "vol1"),
        ChunkPool::new_namespaced("/data", "archive", "vol1"),
    ];
    let mut files: HashMap<String, Vec<u8>> = HashMap::new();
    for was_there in [false, true] {
        let plan = pool.insert_bytes(b"payload");
        assert_eq!(plan.hash.len(), 64);
        let path = plan.path.clone();
        assert_eq!(files.contains_key(&path), was_there);
        let (hash, is_new) = plan.outcome(files.contains_key(&path));
        files.entry(path).or_insert_with(|| b"payload".to_vec());
        assert_eq!(is_new, !was_there);
        assert!(files.contains_key(&pool.store_path(&hash)));
        for other in &others {
            assert!(!files.contains_key(&other.store_path(&hash)));
        }
    }
    assert_eq!(files.len(), 1);
}

#[test]
fn pins_are_counted_per_key() {
    let mut table = PinTable::new();
    let key = PinKey::new("b", Some("vol1"), "aa");
    assert_eq!(table.times_pinned(&key), 0);
    table.pin(&key);
    table.pin(&key);
    assert_eq!(table.times_pinned(&key), 2);
    assert_eq!(table.times_pinned(&PinKey::new("b", None, "aa")), 0);
    table.unpin(&key);
    assert_eq!(table.times_pinned(&key), 1);
}

#[test]
fn pins_are_scoped_per_backend_and_namespace() {
    let mut table = PinTable::new();
    let a = ChunkPool::new("/data", "pin_scope_x");
    let b = ChunkPool::new("/data", "pin_scope_y");
    let ns = ChunkPool::new_namespaced("/data", "pin_scope_x", "vol1");

    let hash = "deadbeef".repeat(8);
    let _g = a.pin(&mut table, &hash);

    assert!(a.is_pinned(&table, &hash));
    assert!(!b.is_pinned(&table, &hash), "distinct backend must not see the pin");
    assert!(
        !ns.is_pinned(&table, &hash),
        "namespaced sibling must not see the parent pin"
    );

    assert!(ChunkPool::is_pinned_for(&table, "pin_scope_x", None, &hash));
    assert!(!ChunkPool::is_pinned_for(&table, "pin_scope_x", Some("vol1"), &hash));
    assert!(!ChunkPool::is_pinned_for(&table, "pin_scope_y", None, &hash));
}

#[test]
fn temporary_names_are_no_chunks() {
    let pool = ChunkPool::new("/data", "primary");
    let hash = content_hash(b"x");
    assert_eq!(pool.tmp_path("abcd", 9, 1), pool.store_path("abcd") + ".9.1.tmp");
    assert_eq!(pool.tmp_path("", 9, 1), pool.store_path("") + ".dat.9.1.tmp");
    assert!(pool.tmp_path("", 9, 1).ends_with("/00/00/.dat.dat.9.1.tmp"));
    assert!(pool.tmp_path("abcd/", 9, 1).ends_with("/ab/cd/abcd/.dat.dat.9.1.tmp"));
    assert_eq!(
        std::path::Path::new(&pool.store_path("")).with_extension("dat.9.1.tmp").to_str(),
        Some(pool.tmp_path("", 9, 1).as_str())
    );
    let tmp = pool.tmp_path(&hash, 9, 1);
    assert_ne!(tmp, pool.tmp_path(&hash, 9, 2));
    let name = tmp.rsplit('/').next().unwrap().to_string();
    let entry = FileEntry { is_file: true, name: Some(name), size: 1 };
    assert!(pool.iter_chunks(&vec![entry]).is_empty());
}

#[test]
fn pool_errors_have_texts() {
    let mismatch = ChunkPoolError::HashMismatch {
        expected: "aa".to_string(),
        actual: "bb".to_string(),
    };
    assert!(mismatch.text().contains("aa") && mismatch.text().contains("bb"));
    let io = ChunkPoolError::Io(IoFailure { kind: IoKind::Other, message: "disk".to_string() });
    assert!(io.text().contains("disk"));
}
