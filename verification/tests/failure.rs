use thur_storage::config::{CompressionAlgoYaml, CompressionConfigYaml};
use thur_storage::compression::CompressionAlgo;
use thur_storage::config_error::ObjectStoreConfigError;
use thur_storage::error::ObjectStoreError;
use thur_storage::failure::{classify, http_status_to_failure_kind, is_retryable, FailureKind};

#[test]
fn classified_and_classify_are_inverses() {
    for kind in [
        FailureKind::Auth,
        FailureKind::Authz,
        FailureKind::NotFound,
        FailureKind::RegionMismatch,
        FailureKind::Network,
        FailureKind::Timeout,
        FailureKind::Other,
    ] {
        let err = ObjectStoreError::classified(kind, "x".to_string());
        assert_eq!(classify(&err), kind, "round-trip failed for {kind:?}");
    }
}

#[test]
fn permanent_kinds_fail_fast_transient_kinds_retry() {
    for kind in [
        FailureKind::Auth,
        FailureKind::Authz,
        FailureKind::NotFound,
        FailureKind::RegionMismatch,
    ] {
        assert!(!is_retryable(kind), "{kind:?} must be permanent");
    }
    for kind in [
        FailureKind::Network,
        FailureKind::Timeout,
        FailureKind::Other,
    ] {
        assert!(is_retryable(kind), "{kind:?} must be retryable");
    }
}

#[test]
fn classify_precondition_failed_is_authz_permanent() {
    let err = ObjectStoreError::PreconditionFailed("Object locked".to_string());
    assert_eq!(classify(&err), FailureKind::Authz);
    assert!(!is_retryable(FailureKind::Authz));
}

#[test]
fn classify_conflict_is_retryable_other() {
    let err = ObjectStoreError::Conflict("concurrent update".to_string());
    assert_eq!(classify(&err), FailureKind::Other);
    assert!(is_retryable(FailureKind::Other));
}

#[test]
fn classify_local_shaped_failures_are_other() {
    for err in [
        ObjectStoreError::Other("brand new sdk error nobody mapped".to_string()),
        ObjectStoreError::NotSupported("legal hold on local".to_string()),
        ObjectStoreError::Io(std::io::Error::other("disk blip").to_string()),
        ObjectStoreError::Compression("zstd failed".to_string()),
    ] {
        assert_eq!(classify(&err), FailureKind::Other);
        assert!(is_retryable(classify(&err)));
    }
}

#[test]
fn failure_kind_label_diagnosis_hints_cover_every_variant() {
    for kind in [
        FailureKind::Network,
        FailureKind::Auth,
        FailureKind::Authz,
        FailureKind::NotFound,
        FailureKind::RegionMismatch,
        FailureKind::Timeout,
        FailureKind::Other,
    ] {
        assert!(!kind.label().is_empty(), "label empty for {kind:?}");
        assert!(!kind.diagnosis().is_empty(), "diagnosis empty for {kind:?}");
        assert!(!kind.hints().is_empty(), "hints empty for {kind:?}");
    }
    assert_eq!(FailureKind::Auth.label(), "AUTH");
    assert_eq!(FailureKind::Authz.label(), "PERMISSION");
    assert_eq!(FailureKind::NotFound.label(), "NOT_FOUND");
    assert_eq!(FailureKind::RegionMismatch.label(), "REGION");
}

#[test]
fn object_store_config_error_step_and_kind() {
    let unknown = ObjectStoreConfigError::UnknownBackend("x".to_string());
    assert_eq!(unknown.step(), "config");
    assert_eq!(unknown.kind(), FailureKind::Other);

    let auth_missing = ObjectStoreConfigError::AuthEnvVarMissing("VAR".to_string());
    assert_eq!(auth_missing.step(), "config");
    assert_eq!(auth_missing.kind(), FailureKind::Other);

    let init = ObjectStoreConfigError::BackendInit {
        backend: "S3",
        source: ObjectStoreError::Authz("AccessDenied".to_string()),
    };
    assert_eq!(init.step(), "init");
    assert_eq!(init.kind(), FailureKind::Authz);

    let listed = ObjectStoreConfigError::ListFailed {
        bucket: "b".to_string(),
        prefix: "p".to_string(),
        source: ObjectStoreError::NotFound("NoSuchBucket".to_string()),
    };
    assert_eq!(listed.step(), "list");
    assert_eq!(listed.kind(), FailureKind::NotFound);

    let wrote = ObjectStoreConfigError::WriteFailed {
        bucket: "b".to_string(),
        source: ObjectStoreError::Other("boom".to_string()),
    };
    assert_eq!(wrote.step(), "write");

    let deleted = ObjectStoreConfigError::DeleteFailed {
        bucket: "b".to_string(),
        source: ObjectStoreError::Other("boom".to_string()),
    };
    assert_eq!(deleted.step(), "delete");

    let lock = ObjectStoreConfigError::LockStateQueryFailed {
        name: "n".to_string(),
        source: ObjectStoreError::Auth("InvalidAccessKeyId".to_string()),
    };
    assert_eq!(lock.step(), "lock_state");
    assert_eq!(lock.kind(), FailureKind::Auth);

    let mismatch = ObjectStoreConfigError::RetentionMismatch {
        name: "n".to_string(),
        configured: "compliance",
        actual: "off",
        hint: "h".to_string(),
    };
    assert_eq!(mismatch.step(), "lock_state");
    assert_eq!(mismatch.kind(), FailureKind::Other);
    // The text carries the backend name.
    assert!(mismatch.text().contains("'n'"));
}

#[test]
fn compression_yaml_to_core_maps_each_algorithm() {
    let none = CompressionConfigYaml {
        algorithm: CompressionAlgoYaml::NoCompression,
        level: 3,
    };
    assert!(!none.to_core().enabled());

    let lz4 = CompressionConfigYaml {
        algorithm: CompressionAlgoYaml::Lz4,
        level: 3,
    };
    assert_eq!(lz4.to_core().algorithm, Some(CompressionAlgo::Lz4));

    let zstd = CompressionConfigYaml {
        algorithm: CompressionAlgoYaml::Zstd,
        level: 9,
    };
    let core = zstd.to_core();
    assert_eq!(core.algorithm, Some(CompressionAlgo::Zstd));
    assert_eq!(core.level, 9);

    let def = CompressionConfigYaml::default();
    assert_eq!(def.algorithm, CompressionAlgoYaml::Zstd);
}

#[test]
fn every_error_has_its_prefix() {
    let m = || "m".to_string();
    assert_eq!(ObjectStoreError::Other(m()).text(), "object store: m");
    assert_eq!(ObjectStoreError::Auth(m()).text(), "object store auth: m");
    assert_eq!(ObjectStoreError::Authz(m()).text(), "object store permission: m");
    assert_eq!(ObjectStoreError::NotFound(m()).text(), "object store not found: m");
    assert_eq!(
        ObjectStoreError::RegionMismatch(m()).text(),
        "object store region mismatch: m"
    );
    assert_eq!(ObjectStoreError::Network(m()).text(), "object store network: m");
    assert_eq!(ObjectStoreError::Timeout(m()).text(), "object store timeout: m");
    assert_eq!(
        ObjectStoreError::PreconditionFailed(m()).text(),
        "object store precondition failed: m"
    );
    assert_eq!(ObjectStoreError::Conflict(m()).text(), "object store conflict: m");
    assert_eq!(
        ObjectStoreError::NotSupported(m()).text(),
        "object store op not supported: m"
    );
    assert_eq!(ObjectStoreError::Io(m()).text(), "io: m");
    assert_eq!(ObjectStoreError::Compression(m()).text(), "compression: m");
}

#[test]
fn statuses_map_to_kinds() {
    for (status, kind) in [
        (401, FailureKind::Auth),
        (403, FailureKind::Authz),
        (404, FailureKind::NotFound),
        (408, FailureKind::Timeout),
        (412, FailureKind::Authz),
        (409, FailureKind::Other),
        (429, FailureKind::Other),
        (500, FailureKind::Other),
        (200, FailureKind::Other),
    ] {
        assert_eq!(http_status_to_failure_kind(status), kind, "{status}");
    }
}

#[test]
fn config_errors_read_as_documented() {
    let source = || ObjectStoreError::Other("boom".to_string());
    assert_eq!(
        ObjectStoreConfigError::UnknownBackend("x".to_string()).text(),
        "backend name 'x' not defined under `cloud.backends:` in the YAML conffile"
    );
    assert!(ObjectStoreConfigError::AuthEnvVarMissing("VAR".to_string())
        .text()
        .starts_with("auth env var 'VAR' is not set. The backend's `auth` block names this env var"));
    assert!(
        ObjectStoreConfigError::AzureRetentionFieldsMissing { name: "cold".to_string() }
            .text()
            .starts_with("Azure backend 'cold' has retention_mode != none but is missing")
    );
    assert_eq!(
        ObjectStoreConfigError::BackendInit { backend: "S3", source: source() }.text(),
        "failed to initialize S3 backend: object store: boom"
    );
    assert_eq!(
        ObjectStoreConfigError::ListFailed {
            bucket: "b".to_string(),
            prefix: "p/".to_string(),
            source: source()
        }
        .text(),
        "list failed on bucket 'b' (prefix 'p/'): object store: boom"
    );
    assert_eq!(
        ObjectStoreConfigError::WriteFailed { bucket: "b".to_string(), source: source() }.text(),
        "write of test object failed on bucket 'b': object store: boom"
    );
    assert_eq!(
        ObjectStoreConfigError::DeleteFailed { bucket: "b".to_string(), source: source() }.text(),
        "delete of test object failed on bucket 'b': object store: boom"
    );
    assert_eq!(
        ObjectStoreConfigError::LockStateQueryFailed { name: "n".to_string(), source: source() }
            .text(),
        "lock_state query failed for backend 'n': object store: boom"
    );
    assert_eq!(
        ObjectStoreConfigError::RetentionMismatch {
            name: "n".to_string(),
            configured: "compliance",
            actual: "off",
            hint: "Fix it.".to_string()
        }
        .text(),
        "backend 'n': configured retention_mode is 'compliance' but bucket lock state is 'off'. \
         The bucket is the contract — either change retention_mode to match, or reconfigure the \
         bucket. Fix it."
    );
}
