use thur_storage::compression::{CompressionAlgo, CompressionConfig};
use thur_storage::error::ObjectStoreError;
use thur_storage::failure::FailureKind;
use thur_storage::helpers::{
    full_key, jitter_window, jittered_backoff_ms, RetryState, RetryStep, INITIAL_BACKOFF_MS, MAX_BACKOFF_MS,
};
use thur_storage::objects::{
    decode_chunk, decode_manifest, encode_chunk, manifest_text, marker, relative_name, DownloadSlots, Listing,
    MAX_CONCURRENT_DOWNLOADS,
};

#[test]
fn unknown_markers_are_refused() {
    assert_eq!(
        decode_chunk(Some("brotli"), vec![1]),
        Err(ObjectStoreError::Other(
            "unsupported compression type: brotli".to_string()
        ))
    );
    assert_eq!(decode_chunk(None, vec![1, 2]), Ok(vec![1, 2]));
    assert_eq!(decode_chunk(Some("none"), vec![1, 2]), Ok(vec![1, 2]));
    assert!(matches!(
        decode_chunk(Some("zstd"), vec![1, 2]),
        Err(ObjectStoreError::Compression(_))
    ));
}

#[test]
fn the_marker_decides_not_the_configuration() {
    let stored = encode_chunk(CompressionConfig::new(Some(CompressionAlgo::Zstd), 3), b"payload")
        .expect("encoded");
    assert_eq!(stored.marker, "zstd");
    assert_ne!(stored.bytes, b"payload");
    assert_eq!(decode_chunk(Some(stored.marker), stored.bytes), Ok(b"payload".to_vec()));
    assert_eq!(marker(None), "none");
}

#[test]
fn manifests_must_be_utf8() {
    let json = "{\"tape\": \"caf\u{e9} \u{1f4fc}\"}";
    assert_eq!(decode_manifest(json.as_bytes().to_vec()), Ok(json.to_string()));
    assert_eq!(
        decode_manifest(vec![b'{', 0xff, b'}']),
        Err(ObjectStoreError::Other(
            "manifest not valid UTF-8: invalid utf-8 sequence of 1 bytes from index 1".to_string()
        ))
    );
    assert_eq!(manifest_text(Ok("{}".to_string())), Ok("{}".to_string()));
    let why = String::from_utf8(vec![0xFF]).map_err(|e| e.to_string());
    assert!(matches!(
        manifest_text(why),
        Err(ObjectStoreError::Other(m)) if m.starts_with("manifest not valid UTF-8: ")
    ));
}

#[test]
fn listings_are_relative_and_complete() {
    let mut listing = Listing::new("tapes/", "chunks/");
    assert_eq!(listing.full_prefix(), "tapes/chunks/");
    assert!(listing.next_token().is_none());
    listing.add(
        &vec![
            Some("tapes/chunks/a".to_string()),
            None,
            Some("other/b".to_string()),
        ],
        Some(true),
        Some("t1".to_string()),
    );
    assert!(!listing.is_done());
    assert_eq!(listing.next_token().as_deref(), Some("t1"));
    listing.add(&vec![Some("tapes/c".to_string())], Some(false), Some("t2".to_string()));
    assert!(listing.is_done());
    assert_eq!(listing.into_keys(), vec!["chunks/a", "other/b", "c"]);
}

#[test]
fn truncated_page_without_token_ends_the_listing() {
    let mut listing = Listing::new("", "x");
    listing.add(&vec![], Some(true), None);
    assert!(listing.is_done());
    let mut listing = Listing::new("", "x");
    listing.add(&vec![], None, Some("t".to_string()));
    assert!(listing.is_done());
}

#[test]
fn relative_names_undo_full_keys() {
    for (prefix, key) in [("tapes/", "chunks/x"), ("", "k"), ("größe/", "ä/b")] {
        assert_eq!(relative_name(prefix, &full_key(prefix, key)), key);
    }
    assert_eq!(relative_name("tapes/", "tape"), "tape");
}

#[test]
fn downloads_stand_by_position() {
    let mut slots = DownloadSlots::new(3);
    slots.arrive(2, b"c".to_vec());
    slots.arrive(0, b"a".to_vec());
    slots.arrive(1, b"b".to_vec());
    assert_eq!(
        slots.finish(),
        Ok(vec![b"a".to_vec(), b"b".to_vec(), b"c".to_vec()])
    );
    assert_eq!(DownloadSlots::new(0).finish(), Ok(vec![]));
}

#[test]
fn missing_download_is_named() {
    let mut slots = DownloadSlots::new(3);
    slots.arrive(0, vec![]);
    assert_eq!(
        slots.finish(),
        Err(ObjectStoreError::Other(
            "Missing download result for chunk at index 1".to_string()
        ))
    );
}

#[test]
fn downloads_are_limited() {
    assert_eq!(MAX_CONCURRENT_DOWNLOADS, 8);
    assert!(DownloadSlots::may_start(7));
    assert!(!DownloadSlots::may_start(8));
}

fn attempts(max_retries: u32, script: &[Option<FailureKind>]) -> usize {
    let mut state = RetryState::new(max_retries);
    for (i, outcome) in script.iter().enumerate() {
        let kind = match outcome {
            None => return i + 1,
            Some(kind) => *kind,
        };
        match state.on_failure(&ObjectStoreError::classified(kind, "x".to_string())) {
            RetryStep::Retry { sleep_ms } => {
                assert!(INITIAL_BACKOFF_MS <= sleep_ms && sleep_ms < MAX_BACKOFF_MS)
            }
            RetryStep::Permanent | RetryStep::Exhausted => return i + 1,
        }
    }
    panic!("script too short")
}

#[test]
fn success_is_immediate() {
    assert_eq!(attempts(3, &[None]), 1);
}

#[test]
fn permanent_failures_are_not_retried() {
    for kind in [
        FailureKind::Auth,
        FailureKind::Authz,
        FailureKind::NotFound,
        FailureKind::RegionMismatch,
    ] {
        assert_eq!(attempts(5, &[Some(kind), None]), 1);
    }
}

#[test]
fn transient_failures_use_up_the_retries() {
    let transient = vec![Some(FailureKind::Other); 10];
    assert_eq!(attempts(3, &transient), 4);
    assert_eq!(attempts(0, &transient), 1);
    assert_eq!(
        attempts(5, &[Some(FailureKind::Network), Some(FailureKind::Timeout), None]),
        3
    );
    assert_eq!(
        attempts(5, &[Some(FailureKind::Other), Some(FailureKind::Auth), None]),
        2
    );
}

#[test]
fn exhaustion_and_permanence_are_told_apart() {
    let mut state = RetryState::new(0);
    assert_eq!(
        state.on_failure(&ObjectStoreError::Timeout("t".to_string())),
        RetryStep::Exhausted
    );
    assert_eq!(state.attempts_failed(), 1);
    let mut state = RetryState::new(0);
    assert_eq!(
        state.on_failure(&ObjectStoreError::PreconditionFailed("p".to_string())),
        RetryStep::Permanent
    );
}

#[test]
fn jitter_stays_in_its_window() {
    for _ in 0..200 {
        let s = jittered_backoff_ms(1000);
        assert!((1000..3000).contains(&s), "{s}");
        let s = jittered_backoff_ms(u64::MAX);
        assert!((1000..30_000).contains(&s), "{s}");
    }
    // A window without room holds its end.
    assert_eq!(jitter_window(0), (0, 0));
    assert_eq!(jitter_window(200), (600, 600));
    assert_eq!(jitter_window(1000), (1000, 3000));
    assert_eq!(jitter_window(9_999), (1000, 29_997));
    assert_eq!(jitter_window(u64::MAX), (1000, MAX_BACKOFF_MS));
    assert_eq!(jittered_backoff_ms(0), 0);
    assert_eq!(jittered_backoff_ms(200), 600);
    // Draws differ.
    let first = jittered_backoff_ms(10_000);
    assert!((0..100).any(|_| jittered_backoff_ms(10_000) != first));
}
