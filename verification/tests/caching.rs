use thur_storage::caching::{
    head_after_join, join_upload, transferred_bytes, CachingObjectStoreBackend, HeadLookup,
    StorageState, UploadInstall, UploadLookup, UploadOutcome, DEFAULT_KNOWN_CAPACITY,
};
use thur_storage::compression::CompressionAlgo;
use thur_storage::error::ObjectStoreError;

fn cache() -> CachingObjectStoreBackend {
    CachingObjectStoreBackend::new("primary".to_string())
}

fn outcome(n: u64) -> UploadOutcome {
    UploadOutcome {
        uncompressed: n,
        compressed: Some(n / 2),
        algo: Some(CompressionAlgo::Zstd),
    }
}

fn upload(c: &mut CachingObjectStoreBackend, key: &str, flight: u64, n: u64) {
    assert_eq!(c.lookup_upload(key, n), UploadLookup::Miss);
    match c.install_upload(key, n, flight) {
        UploadInstall::Installed { epoch } => {
            assert_eq!(c.finish_upload(key, epoch, flight, Ok(outcome(n))), Ok(outcome(n)));
        }
        other => panic!("expected to install, got {other:?}"),
    }
}

fn boom() -> ObjectStoreError {
    ObjectStoreError::Other("boom".to_string())
}

#[test]
fn second_upload_joins_the_first() {
    let mut c = cache();
    assert_eq!(c.name(), "primary");
    let epoch = match c.install_upload("k", 10, 7) {
        UploadInstall::Installed { epoch } => epoch,
        other => panic!("expected to install, got {other:?}"),
    };
    assert_eq!(c.lookup_upload("k", 10), UploadLookup::Join { flight: 7 });
    assert_eq!(c.install_upload("k", 10, 8), UploadInstall::Join { flight: 7 });
    assert_eq!(c.lookup_head("k"), HeadLookup::Join { flight: 7 });
    assert_eq!(c.finish_upload("k", epoch, 7, Ok(outcome(10))), Ok(outcome(10)));
    assert_eq!(c.lookup_upload("k", 10), UploadLookup::Hit(outcome(10)));
    assert_eq!(c.lookup_head("k"), HeadLookup::Hit);
}

#[test]
fn uploaded_key_is_answered_from_the_cache() {
    let mut c = cache();
    upload(&mut c, "k", 1, 100);
    assert_eq!(c.lookup_upload("k", 100), UploadLookup::Hit(outcome(100)));
    assert_eq!(c.install_upload("k", 100, 2), UploadInstall::Hit(outcome(100)));
}

#[test]
fn later_operations_leave_an_uploaded_fact() {
    let mut c = CachingObjectStoreBackend::with_capacity("primary".to_string(), 3);
    upload(&mut c, "k", 1, 100);
    upload(&mut c, "other", 2, 7);
    let epoch = c.current_epoch();
    assert_eq!(c.finish_delete("other", Ok(())), Ok(()));
    assert_eq!(c.finish_head("k", epoch, Ok(true)), Ok(true));
    assert_eq!(c.warmup(&vec!["k".to_string(), "listed".to_string()]), 1);
    assert_eq!(c.lookup_upload("k", 5), UploadLookup::Hit(outcome(100)));
    assert_eq!(c.lookup_zerocopy("k"), UploadLookup::Hit(outcome(100)));
    assert_eq!(c.finish_versioned("k", Ok(())), Ok(()));
    assert_eq!(c.lookup_upload("k", 5), UploadLookup::Miss);
}

#[test]
fn evicted_flight_lands_without_a_trace() {
    let mut c = CachingObjectStoreBackend::with_capacity("primary".to_string(), 1);
    let epoch = match c.install_upload("k", 1, 1) {
        UploadInstall::Installed { epoch } => epoch,
        other => panic!("expected to install, got {other:?}"),
    };
    upload(&mut c, "other", 2, 1);
    assert_eq!(c.peek("k"), None);
    assert_eq!(c.finish_upload("k", epoch, 1, Ok(outcome(1))), Ok(outcome(1)));
    assert_eq!(c.peek("k"), None);
    assert_eq!(c.peek("other"), Some(StorageState::Uploaded { outcome: outcome(1) }));
}

#[test]
fn late_completion_keeps_what_is_known_by_then() {
    let mut c = CachingObjectStoreBackend::with_capacity("primary".to_string(), 1);
    let epoch = match c.install_upload("k", 1, 1) {
        UploadInstall::Installed { epoch } => epoch,
        other => panic!("expected to install, got {other:?}"),
    };
    upload(&mut c, "other", 2, 1);
    upload(&mut c, "k", 3, 50);
    assert_eq!(c.finish_upload("k", epoch, 1, Ok(outcome(1))), Ok(outcome(1)));
    assert_eq!(c.lookup_upload("k", 1), UploadLookup::Hit(outcome(50)));
}

#[test]
fn older_uploads_that_end_do_not_disturb_a_flight() {
    let mut c = CachingObjectStoreBackend::with_capacity("primary".to_string(), 1);
    let stale = c.current_epoch();
    assert_eq!(c.finish_delete("elsewhere", Ok(())), Ok(()));
    let epoch = match c.install_upload("k", 1, 5) {
        UploadInstall::Installed { epoch } => epoch,
        other => panic!("expected to install, got {other:?}"),
    };
    assert_ne!(stale, epoch);
    assert_eq!(c.finish_upload("k", stale, 1, Ok(outcome(1))), Ok(outcome(1)));
    assert!(c.finish_upload("k", epoch, 2, Err(boom())).is_err());
    c.cancel_upload("k", 3);
    assert_eq!(c.lookup_upload("k", 1), UploadLookup::Join { flight: 5 });
    assert_eq!(c.finish_upload("k", epoch, 5, Ok(outcome(9))), Ok(outcome(9)));
    assert_eq!(c.lookup_upload("k", 1), UploadLookup::Hit(outcome(9)));
}

#[test]
fn landing_leaves_another_flight_alone() {
    let mut c = CachingObjectStoreBackend::with_capacity("primary".to_string(), 1);
    let epoch = match c.install_upload("k", 1, 1) {
        UploadInstall::Installed { epoch } => epoch,
        other => panic!("expected to install, got {other:?}"),
    };
    upload(&mut c, "other", 2, 1);
    c.install_upload("k", 1, 3);
    assert!(c.finish_upload("k", epoch, 1, Err(boom())).is_err());
    assert_eq!(c.lookup_upload("k", 1), UploadLookup::Join { flight: 3 });
    c.cancel_upload("k", 1);
    assert_eq!(c.lookup_upload("k", 1), UploadLookup::Join { flight: 3 });
    c.cancel_upload("k", 3);
    assert_eq!(c.lookup_upload("k", 1), UploadLookup::Miss);
}

#[test]
fn facts_are_bounded_and_the_least_recent_leaves() {
    let mut c = CachingObjectStoreBackend::with_capacity("primary".to_string(), 2);
    upload(&mut c, "a", 1, 1);
    upload(&mut c, "b", 2, 1);
    assert_eq!(c.lookup_head("a"), HeadLookup::Hit);
    upload(&mut c, "c", 3, 1);
    assert_eq!(c.peek("b"), None);
    assert!(c.peek("a").is_some() && c.peek("c").is_some());
    assert_eq!(DEFAULT_KNOWN_CAPACITY, 262_144);
}

#[test]
fn capacity_zero_keeps_one_fact() {
    let mut c = CachingObjectStoreBackend::with_capacity("primary".to_string(), 0);
    upload(&mut c, "a", 1, 1);
    assert!(c.peek("a").is_some());
    upload(&mut c, "b", 2, 1);
    assert_eq!(c.peek("a"), None);
}

#[test]
fn failed_upload_leaves_no_fact() {
    let mut c = cache();
    let epoch = match c.install_upload("k", 1, 1) {
        UploadInstall::Installed { epoch } => epoch,
        other => panic!("expected to install, got {other:?}"),
    };
    assert!(c.finish_upload("k", epoch, 1, Err(boom())).is_err());
    assert_eq!(c.peek("k"), None);
    assert_eq!(c.lookup_upload("k", 1), UploadLookup::Miss);
}

#[test]
fn delete_invalidates_and_failed_delete_does_not() {
    let mut c = cache();
    upload(&mut c, "k", 1, 1);
    assert!(c.finish_delete("k", Err(boom())).is_err());
    assert!(c.peek("k").is_some());
    assert_eq!(c.finish_delete("k", Ok(())), Ok(()));
    assert_eq!(c.peek("k"), None);
}

#[test]
fn warmup_seeds_presence_without_sizes() {
    let mut c = cache();
    upload(&mut c, "a", 1, 10);
    let keys = vec!["a".to_string(), "b".to_string(), "c".to_string()];
    assert_eq!(c.warmup(&keys), 2);
    assert_eq!(c.peek("a"), Some(StorageState::Uploaded { outcome: outcome(10) }));
    assert_eq!(c.peek("b"), Some(StorageState::Probed));
    assert_eq!(
        c.lookup_upload("b", 55),
        UploadLookup::Hit(UploadOutcome { uncompressed: 55, compressed: None, algo: None })
    );
}

#[test]
fn waiters_see_the_failure() {
    match join_upload(Err(ObjectStoreError::Timeout("slow".to_string()))) {
        Err(ObjectStoreError::Other(m)) => assert_eq!(m, "object store timeout: slow"),
        other => panic!("expected Other, got {other:?}"),
    }
    assert_eq!(join_upload(Ok(outcome(4))), Ok(outcome(4)));
}

#[test]
fn cancelled_upload_does_not_poison_its_key() {
    let mut c = cache();
    c.install_upload("k", 1, 1);
    c.cancel_upload("k", 1);
    assert_eq!(c.lookup_upload("k", 1), UploadLookup::Miss);
    upload(&mut c, "k", 2, 1);
    c.cancel_upload("k", 2);
    assert!(c.peek("k").is_some(), "a landed upload is not cancelled");
}

#[test]
fn only_positive_heads_are_kept() {
    let mut c = cache();
    assert_eq!(c.lookup_head("k"), HeadLookup::Miss);
    let epoch = c.current_epoch();
    assert_eq!(c.finish_head("k", epoch, Ok(false)), Ok(false));
    assert_eq!(c.peek("k"), None);
    assert_eq!(c.finish_head("k", epoch, Err(boom())), Err(boom()));
    assert_eq!(c.peek("k"), None);
    assert_eq!(c.finish_head("k", epoch, Ok(true)), Ok(true));
    assert_eq!(c.peek("k"), Some(StorageState::Probed));
}

#[test]
fn head_that_raced_a_delete_is_not_kept() {
    let mut c = cache();
    let epoch = c.current_epoch();
    assert_eq!(c.finish_delete("other", Ok(())), Ok(()));
    assert_eq!(c.finish_head("k", epoch, Ok(true)), Ok(true));
    assert_eq!(c.peek("k"), None);
}

#[test]
fn upload_that_raced_a_delete_is_not_kept() {
    let mut c = cache();
    let epoch = match c.install_upload("k", 1, 1) {
        UploadInstall::Installed { epoch } => epoch,
        other => panic!("expected to install, got {other:?}"),
    };
    assert_eq!(c.finish_delete("k", Ok(())), Ok(()));
    assert_eq!(c.finish_upload("k", epoch, 1, Ok(outcome(1))), Ok(outcome(1)));
    assert_eq!(c.peek("k"), None);
}

#[test]
fn versioned_write_invalidates_even_when_it_fails() {
    let mut c = cache();
    upload(&mut c, "k", 1, 1);
    assert!(c.finish_versioned("k", Err(boom())).is_err());
    assert_eq!(c.peek("k"), None);
    upload(&mut c, "k", 2, 1);
    assert_eq!(c.finish_versioned("k", Ok(())), Ok(()));
    assert_eq!(c.peek("k"), None);
}

#[test]
fn zerocopy_needs_the_stored_size() {
    let mut c = cache();
    let epoch = c.current_epoch();
    assert_eq!(c.finish_head("k", epoch, Ok(true)), Ok(true));
    assert_eq!(c.lookup_zerocopy("k"), UploadLookup::Miss);
    let epoch = match c.install_zerocopy("k", 3) {
        UploadInstall::Installed { epoch } => epoch,
        other => panic!("expected to install, got {other:?}"),
    };
    assert_eq!(c.lookup_zerocopy("k"), UploadLookup::Join { flight: 3 });
    assert_eq!(c.finish_zerocopy("k", epoch, 3, Ok(23)), Ok(23));
    match c.lookup_zerocopy("k") {
        UploadLookup::Hit(o) => assert_eq!(o.uncompressed, 23),
        other => panic!("expected a hit, got {other:?}"),
    }
}

#[test]
fn failed_zerocopy_leaves_no_fact() {
    let mut c = cache();
    let epoch = match c.install_zerocopy("k", 1) {
        UploadInstall::Installed { epoch } => epoch,
        other => panic!("expected to install, got {other:?}"),
    };
    assert!(c.finish_zerocopy("k", epoch, 1, Err(boom())).is_err());
    assert_eq!(c.lookup_zerocopy("k"), UploadLookup::Miss);
}

#[test]
fn joined_uploads_answer_heads() {
    assert_eq!(head_after_join(true), HeadLookup::Hit);
    assert_eq!(head_after_join(false), HeadLookup::Miss);
    assert_eq!(transferred_bytes(&outcome(10)), 5);
    assert_eq!(
        transferred_bytes(&UploadOutcome { uncompressed: 10, compressed: None, algo: None }),
        10
    );
}
