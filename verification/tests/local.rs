use thur_storage::error::{IoFailure, IoKind, ObjectStoreError};
use thur_storage::failure::{classify, is_retryable, FailureKind};
use thur_storage::local::{
    listed_key, map_local_io, synthetic_error, temp_suffix, InjectionPlan, KeyPattern, LocalBackend,
    INJECT_ENV_VAR, MAX_LOCAL_INJECT_RETRIES,
};
use thur_storage::lock::LockState;

#[test]
fn key_pattern_prefix_suffix_contains_exact() {
    assert!(KeyPattern::parse("chunks/*").matches("chunks/abc"));
    assert!(!KeyPattern::parse("chunks/*").matches("manifests/foo"));
    assert!(KeyPattern::parse("*manifest-latest.json").matches("manifests/T1/manifest-latest.json"));
    assert!(!KeyPattern::parse("*manifest-latest.json").matches("manifests/T1/manifest-0001.json"));
    assert!(KeyPattern::parse("*index*").matches("indexes/T1/blocks-p0.idx"));
    assert!(KeyPattern::parse("exact/key").matches("exact/key"));
    assert!(!KeyPattern::parse("exact/key").matches("exact/key/extra"));
    assert!(KeyPattern::parse("*").matches("anything"));
    assert!(KeyPattern::parse("").matches("anything"));
}

#[test]
fn injection_plan_parses_each_kind() {
    let plan = InjectionPlan::parse(
        "auth@chunks/*,authz@indexes/*,notfound@deleted/*,regionmismatch@regional/*,network@unreach/*,timeout@slow/*,other@misc/*",
    )
    .expect("non-empty plan");
    assert_eq!(plan.matches("chunks/abc"), Some(FailureKind::Auth));
    assert_eq!(plan.matches("indexes/foo"), Some(FailureKind::Authz));
    assert_eq!(plan.matches("deleted/zz"), Some(FailureKind::NotFound));
    assert_eq!(
        plan.matches("regional/x"),
        Some(FailureKind::RegionMismatch)
    );
    assert_eq!(plan.matches("unreach/x"), Some(FailureKind::Network));
    assert_eq!(plan.matches("slow/x"), Some(FailureKind::Timeout));
    assert_eq!(plan.matches("misc/x"), Some(FailureKind::Other));
    assert_eq!(plan.matches("untouched/x"), None);
}

#[test]
fn injection_plan_rejects_garbage_but_keeps_valid_neighbors() {
    let plan = InjectionPlan::parse("garbage@chunks/*,malformed,auth@manifests/*")
        .expect("at least one valid rule");
    assert_eq!(plan.matches("manifests/T1/x"), Some(FailureKind::Auth));
    assert_eq!(plan.matches("chunks/abc"), None);
}

#[test]
fn synthetic_errors_roundtrip_through_classify() {
    for kind in [
        FailureKind::Auth,
        FailureKind::Authz,
        FailureKind::NotFound,
        FailureKind::RegionMismatch,
        FailureKind::Network,
        FailureKind::Timeout,
        FailureKind::Other,
    ] {
        let err = synthetic_error("upload_chunk", "chunks/abc", kind);
        assert_eq!(classify(&err), kind, "round-trip failed for {kind:?}");
    }
}

#[test]
fn injection_plan_parse_empty_spec_is_none() {
    assert!(InjectionPlan::parse("").is_none());
    assert!(InjectionPlan::parse("   ,  , ").is_none());
}

#[test]
fn injection_plan_from_env_absent_var_is_none() {
    assert!(InjectionPlan::from_env(None).is_none());
}

#[test]
fn kinds_have_aliases_and_ignore_case() {
    let plan =
        InjectionPlan::parse(" Permission@a , NOT_FOUND@b, Region @c,TimeOut@ d ").expect("plan");
    assert_eq!(plan.rule_count(), 4);
    assert_eq!(plan.matches("a"), Some(FailureKind::Authz));
    assert_eq!(plan.matches("b"), Some(FailureKind::NotFound));
    assert_eq!(plan.matches("c"), Some(FailureKind::RegionMismatch));
    assert_eq!(plan.matches("d"), Some(FailureKind::Timeout));
}

#[test]
fn first_covering_rule_wins() {
    let plan = InjectionPlan::parse("auth@chunks/*,timeout@*").expect("plan");
    assert_eq!(plan.matches("chunks/x"), Some(FailureKind::Auth));
    assert_eq!(plan.matches("manifests/x"), Some(FailureKind::Timeout));
}

#[test]
fn only_the_first_at_sign_separates() {
    let plan = InjectionPlan::parse("auth@a@b").expect("plan");
    assert_eq!(plan.matches("a@b"), Some(FailureKind::Auth));
    assert_eq!(plan.matches("a"), None);
}

#[test]
fn unicode_white_space_is_trimmed() {
    let plan = InjectionPlan::parse("\u{2003}auth@k\u{3000}").expect("plan");
    assert_eq!(plan.matches("k"), Some(FailureKind::Auth));
}

#[test]
fn stars_alone_cover_everything() {
    assert!(KeyPattern::parse("**").matches("anything"));
    assert!(KeyPattern::parse("**mid**").matches("a-mid-b"));
    assert!(!KeyPattern::parse("**mid**").matches("a-b"));
}

#[test]
fn clone_box_yields_local_backend() {
    let backend = LocalBackend::new("/data", None);
    let cloned: Box<LocalBackend> = Box::new(backend.clone());
    assert_eq!(cloned.backend_type(), "local");
    assert_eq!(cloned.get_path("k"), backend.get_path("k"));
}

#[test]
fn backend_maps_keys_below_its_root() {
    let backend = LocalBackend::new("/data", None);
    assert_eq!(backend.get_path("chunks/a"), "/data/chunks/a");
    assert_eq!(LocalBackend::new("/data/", None).get_path("k"), "/data/k");
    assert_eq!(backend.get_path("/abs"), "/abs");
    assert_eq!(backend.lock_state(), LockState::Off);
    let outcome = backend.upload_outcome(16);
    assert_eq!(outcome.uncompressed, 16);
    assert_eq!(outcome.compressed, None);
    assert_eq!(outcome.algo, None);
}

#[test]
fn injected_keys_fail_and_others_pass() {
    let backend = LocalBackend::new("/data", Some("auth@injected/*"));
    let err = backend
        .check_injection("upload_chunk", "injected/k")
        .expect_err("injected");
    assert_eq!(
        err,
        ObjectStoreError::Auth(
            "synthetic LocalBackend injection (upload_chunk on key=injected/k)".to_string()
        )
    );
    assert_eq!(backend.check_injection("upload_chunk", "normal/k"), Ok(()));
    assert_eq!(
        LocalBackend::new("/data", None).check_injection("upload_chunk", "injected/k"),
        Ok(())
    );
}

#[test]
fn legal_holds_are_refused() {
    let backend = LocalBackend::new("/data", None);
    assert!(!backend.supports_legal_hold());
    assert!(matches!(
        backend.set_object_legal_hold("k", true),
        Err(ObjectStoreError::NotSupported(_))
    ));
    assert_eq!(
        backend.get_object_legal_hold("k"),
        Err(ObjectStoreError::NotSupported(
            "legal hold is not supported on the local backend".to_string()
        ))
    );
}

#[test]
fn local_failures_are_mapped_by_kind() {
    let fail = |kind: IoKind| IoFailure {
        kind,
        message: "os says no".to_string(),
    };
    let missing = map_local_io("download_chunk", "k", &fail(IoKind::NotFound));
    assert_eq!(
        missing,
        ObjectStoreError::NotFound("download_chunk: object k not found (os says no)".to_string())
    );
    assert!(!is_retryable(classify(&missing)));
    let refused = map_local_io("download_chunk", "k", &fail(IoKind::PermissionDenied));
    assert_eq!(
        refused,
        ObjectStoreError::Authz(
            "download_chunk: permission denied for k (os says no)".to_string()
        )
    );
    assert!(!is_retryable(classify(&refused)));
    let other = map_local_io("download_chunk", "k", &fail(IoKind::Other));
    assert_eq!(other, ObjectStoreError::Io("os says no".to_string()));
    assert!(is_retryable(classify(&other)));
}

#[test]
fn staging_names_differ_by_counter() {
    assert_eq!(temp_suffix(42, 7), ".tmp.42.7");
    assert_ne!(temp_suffix(42, 7), temp_suffix(42, 8));
}

#[test]
fn listed_keys_use_forward_slashes() {
    assert_eq!(listed_key("a\\b\\c.dat"), "a/b/c.dat");
    assert_eq!(listed_key("a/b"), "a/b");
    assert_eq!(listed_key(""), "");
}

#[test]
fn injection_settings_are_documented_values() {
    assert_eq!(INJECT_ENV_VAR, "THUR_STORAGE_INJECT_FAIL");
    assert_eq!(MAX_LOCAL_INJECT_RETRIES, 2);
}
