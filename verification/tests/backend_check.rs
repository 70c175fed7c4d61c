use thur_storage::backend_check::{
    after_init, asks_lock_state, check_retention_state, init_step, probe_deleted, probe_listed,
    probe_written, stage_after, validate_local_short_circuit, CheckStage, LockQuery,
};
use thur_storage::config::{
    AzureBackendConfig, BackendEntry, GcsBackendConfig, LocalBackendConfig, ObjectStoreConfig,
    RetentionMode, S3BackendConfig,
};
use thur_storage::config_error::ObjectStoreConfigError;
use thur_storage::error::ObjectStoreError;
use thur_storage::lock::LockState;

fn with(entry: BackendEntry) -> ObjectStoreConfig {
    let mut cfg = ObjectStoreConfig::default();
    cfg.backends.insert("archive", entry);
    cfg
}

fn local_cfg() -> ObjectStoreConfig {
    with(BackendEntry::Local(LocalBackendConfig {
        root_dir: "/data".to_string(),
        disk_cache_size_gb: None,
    }))
}

fn s3_cfg() -> ObjectStoreConfig {
    with(BackendEntry::S3(S3BackendConfig {
        bucket: "b".to_string(),
        prefix: "tapes/".to_string(),
        region: "us-east-1".to_string(),
        endpoint_url: None,
        path_style: None,
        retention_mode: RetentionMode::NoRetention,
        auth: None,
        disk_cache_size_gb: None,
    }))
}

fn azure_cfg() -> ObjectStoreConfig {
    with(BackendEntry::Azure(AzureBackendConfig {
        storage_account: "a".to_string(),
        container: "c".to_string(),
        prefix: String::new(),
        endpoint_url: None,
        retention_mode: RetentionMode::NoRetention,
        subscription_id: None,
        resource_group: None,
        auth: None,
        disk_cache_size_gb: None,
    }))
}

fn gcs_cfg() -> ObjectStoreConfig {
    with(BackendEntry::Gcs(GcsBackendConfig {
        bucket: "b".to_string(),
        prefix: String::new(),
        project_id: "p".to_string(),
        service_account_key_file: None,
        retention_mode: RetentionMode::NoRetention,
        disk_cache_size_gb: None,
    }))
}

fn mismatch(r: Result<thur_storage::backend_check::ObjectStoreCheckStep, ObjectStoreConfigError>) -> (String, String, String) {
    match r {
        Err(ObjectStoreConfigError::RetentionMismatch { name, configured, actual, hint }) => {
            assert_eq!(name, "archive");
            (configured.to_string(), actual.to_string(), hint)
        }
        other => panic!("expected RetentionMismatch, got {other:?}"),
    }
}

#[test]
fn local_backends_end_after_construction() {
    let step = init_step("local");
    assert_eq!(step.name, "init");
    assert_eq!(step.detail, "backend type: local");
    assert_eq!(after_init(&local_cfg(), "archive").unwrap(), CheckStage::Done);
    assert!(validate_local_short_circuit(&local_cfg(), "archive").unwrap());
    assert_eq!(after_init(&s3_cfg(), "archive").unwrap(), CheckStage::LockState);
    assert!(matches!(
        after_init(&s3_cfg(), "does-not-exist"),
        Err(ObjectStoreConfigError::UnknownBackend(ref n)) if n == "does-not-exist"
    ));
}

#[test]
fn none_matches_off() {
    let step = check_retention_state(
        &local_cfg(),
        "archive",
        RetentionMode::NoRetention,
        &LockQuery::Answered(LockState::Off),
    )
    .expect("matches");
    assert_eq!(step.name, "lock_state");
    assert_eq!(
        step.detail,
        "retention_mode 'none' matches bucket lock state 'off'"
    );
}

#[test]
fn skip_flag_emits_only_a_note() {
    let mut cfg = local_cfg();
    assert!(asks_lock_state(&cfg));
    cfg.skip_retention_mode_check = true;
    assert!(!asks_lock_state(&cfg));
    let step = check_retention_state(
        &cfg,
        "archive",
        RetentionMode::Governance,
        &LockQuery::NotAsked,
    )
    .expect("skip flag bypasses the comparison");
    assert!(step.detail.contains("skip_retention_mode_check"));
    assert!(step.detail.starts_with("retention_mode 'governance' — "));
}

#[test]
fn failed_query_is_a_note() {
    let step = check_retention_state(
        &s3_cfg(),
        "archive",
        RetentionMode::Compliance,
        &LockQuery::Failed(ObjectStoreError::Authz("denied".to_string())),
    )
    .expect("a failed query does not refuse");
    assert!(step
        .detail
        .ends_with("proceeding without verification"));
}

#[test]
fn mismatches_are_refused_in_both_directions() {
    let off = LockQuery::Answered(LockState::Off);
    let (c, a, hint) = mismatch(check_retention_state(
        &local_cfg(),
        "archive",
        RetentionMode::Governance,
        &off,
    ));
    assert_eq!((c.as_str(), a.as_str()), ("governance", "off"));
    assert!(hint.starts_with("Bucket has no retention policy. Configure"));
    let (_, _, hint) = mismatch(check_retention_state(
        &s3_cfg(),
        "archive",
        RetentionMode::Compliance,
        &off,
    ));
    assert!(hint.contains("Object Lock"), "hint = {hint}");
    let locked = LockQuery::Answered(LockState::Compliance { default_days: 30 });
    let (c, a, hint) = mismatch(check_retention_state(
        &azure_cfg(),
        "archive",
        RetentionMode::NoRetention,
        &locked,
    ));
    assert_eq!((c.as_str(), a.as_str()), ("none", "compliance"));
    assert!(hint.contains("immutability policy"), "hint = {hint}");
    let (_, _, hint) = mismatch(check_retention_state(
        &gcs_cfg(),
        "archive",
        RetentionMode::Governance,
        &locked,
    ));
    assert_eq!(
        hint,
        "Bucket retention policy is irrevocable / locked / COMPLIANCE. Update retention_mode to \
         'compliance', or reconfigure the bucket."
    );
    let (_, _, hint) = mismatch(check_retention_state(
        &s3_cfg(),
        "archive",
        RetentionMode::Compliance,
        &LockQuery::Answered(LockState::Governance { default_days: 7 }),
    ));
    assert!(hint.starts_with("Bucket Object Lock is mutable / unlocked / GOVERNANCE."));
}

#[test]
fn governance_matches_governance() {
    let step = check_retention_state(
        &s3_cfg(),
        "archive",
        RetentionMode::Governance,
        &LockQuery::Answered(LockState::Governance { default_days: 7 }),
    )
    .expect("matches");
    assert!(step.detail.contains("matches"));
}

#[test]
fn probe_lists_writes_and_deletes() {
    let cfg = s3_cfg();
    let (steps, stage) =
        probe_listed(&cfg, "archive", RetentionMode::NoRetention, Ok(3)).expect("listed");
    assert_eq!(stage, CheckStage::Write);
    assert_eq!(steps.len(), 1);
    assert_eq!(steps[0].name, "list");
    assert_eq!(
        steps[0].detail,
        "bucket 'b' reachable (3 objects under 'tapes/')"
    );
    let step = probe_written(&cfg, "archive", Ok(())).expect("written");
    assert_eq!(step.name, "write");
    assert_eq!(
        step.detail,
        "uploaded test object 'tapes/.thurvtl-cloud-check'"
    );
    let step = probe_deleted(&cfg, "archive", Ok(())).expect("deleted");
    assert_eq!(step.name, "delete");
    assert_eq!(
        step.detail,
        "deleted test object 'tapes/.thurvtl-cloud-check'"
    );
}

#[test]
fn probe_skips_writing_to_a_locked_bucket() {
    let (steps, stage) =
        probe_listed(&local_cfg(), "archive", RetentionMode::Governance, Ok(0)).expect("listed");
    assert_eq!(stage, CheckStage::Done);
    let names: Vec<&str> = steps.iter().map(|s| s.name).collect();
    assert_eq!(names, vec!["list", "skip_probe"]);
    assert_eq!(
        steps[1].detail,
        "bucket '/data' is locked (retention_mode=governance); skipping write/delete probe"
    );
}

#[test]
fn probe_failures_name_their_step() {
    let cfg = azure_cfg();
    let boom = || ObjectStoreError::Other("boom".to_string());
    match probe_listed(&cfg, "archive", RetentionMode::NoRetention, Err(boom())) {
        Err(ObjectStoreConfigError::ListFailed { bucket, prefix, source }) => {
            assert_eq!(bucket, "a/c");
            assert_eq!(prefix, "");
            assert_eq!(source, boom());
        }
        other => panic!("expected ListFailed, got {other:?}"),
    }
    assert!(matches!(
        probe_written(&cfg, "archive", Err(boom())),
        Err(ObjectStoreConfigError::WriteFailed { .. })
    ));
    assert!(matches!(
        probe_deleted(&cfg, "archive", Err(boom())),
        Err(ObjectStoreConfigError::DeleteFailed { .. })
    ));
}

#[test]
fn stages_follow_each_other() {
    let walk = |mode: RetentionMode| {
        let mut seen = Vec::new();
        let mut stage = CheckStage::LockState;
        while stage != CheckStage::Done {
            seen.push(stage);
            stage = stage_after(stage, mode);
        }
        seen
    };
    assert_eq!(
        walk(RetentionMode::NoRetention),
        vec![
            CheckStage::LockState,
            CheckStage::List,
            CheckStage::Write,
            CheckStage::Delete
        ]
    );
    assert_eq!(
        walk(RetentionMode::Compliance),
        vec![CheckStage::LockState, CheckStage::List]
    );
}

#[test]
fn lock_states_have_labels() {
    assert_eq!(LockState::Off.label(), "off");
    assert_eq!(LockState::Governance { default_days: 1 }.label(), "governance");
    assert_eq!(LockState::Compliance { default_days: 1 }.label(), "compliance");
}
