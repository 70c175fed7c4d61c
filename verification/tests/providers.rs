use thur_storage::azure::{
    self, chain_step, classify_azure_error, classify_azure_signal, discover_credentials_from_env,
    sas_url_verdict, upload_options_with_metadata, AzureBackend, AzureConnection, AzureCredential, AzureErrorKind,
    AzureFailure, ChainStep, LockLookup, PolicyProperties,
};
use thur_storage::compression::{CompressionAlgo, CompressionConfig};
use thur_storage::config::{ResolvedAzureAuth, ResolvedS3Auth};
use thur_storage::error::ObjectStoreError;
use thur_storage::failure::{classify, is_retryable, FailureKind};
use thur_storage::gcs::{self, check_key_file, key_file_verdict, GcsBackend, GcsFailure, RetentionPolicy};
use thur_storage::helpers::full_key;
use thur_storage::lock::LockState;
use thur_storage::s3::{
    self, classify_s3_sdk_error, classify_s3_service_code, describe_sdk_error, S3Backend,
    S3Connection, S3Failure, S3LockConfig, S3Report, S3Retention, S3RetentionMode,
};

fn s3_backend(prefix: &str, compression: CompressionConfig) -> S3Backend {
    let (backend, _) = S3Backend::new(
        "test-bucket".to_string(),
        prefix.to_string(),
        "us-east-1".to_string(),
        None,
        None,
        None,
        compression,
    );
    backend
}

fn gcs_backend(prefix: &str, compression: CompressionConfig) -> GcsBackend {
    GcsBackend::new(
        "my-bucket".to_string(),
        prefix.to_string(),
        "my-project".to_string(),
        compression,
    )
}

fn azure_backend(
    address: Option<(&str, &str)>,
    auth: Option<ResolvedAzureAuth>,
) -> (AzureBackend, AzureConnection, AzureCredential) {
    AzureBackend::new(
        "acct".to_string(),
        "box".to_string(),
        "tapes/".to_string(),
        None,
        address.map(|a| a.0.to_string()),
        address.map(|a| a.1.to_string()),
        auth,
        AzureCredential::FallbackChain,
        CompressionConfig::disabled(),
    )
    .expect("a usable address")
}

fn service(code: Option<&str>, message: Option<&str>) -> S3Failure {
    S3Failure::Service {
        code: code.map(str::to_string),
        message: message.map(str::to_string),
    }
}

fn report(failure: S3Failure, display: &str) -> S3Report {
    S3Report {
        failure,
        display: display.to_string(),
        rust_type: "SdkError".to_string(),
    }
}

#[test]
fn azure_test_full_key_with_prefix() {
    let prefix = "tapes/";
    let key = "chunks/aa/abc123.dat";
    let expected = "tapes/chunks/aa/abc123.dat";
    assert_eq!(full_key(prefix, key), expected);
    let (backend, _, _) = azure_backend(None, None);
    assert_eq!(backend.full_key(key), expected);
}

#[test]
fn azure_test_full_key_without_prefix() {
    let prefix = "";
    let key = "chunks/aa/abc123.dat";
    assert_eq!(full_key(prefix, key), key);
}

#[test]
fn classify_azure_signal_table() {
    assert_eq!(classify_azure_signal(None, true, false), FailureKind::Auth);
    assert_eq!(
        classify_azure_signal(None, false, true),
        FailureKind::Network
    );
    assert_eq!(
        classify_azure_signal(Some(401), false, false),
        FailureKind::Auth
    );
    assert_eq!(
        classify_azure_signal(Some(403), false, false),
        FailureKind::Authz
    );
    assert_eq!(
        classify_azure_signal(Some(404), false, false),
        FailureKind::NotFound
    );
    assert_eq!(
        classify_azure_signal(Some(412), false, false),
        FailureKind::Authz
    );
    for http in [None, Some(409), Some(429), Some(500), Some(503)] {
        assert_eq!(
            classify_azure_signal(http, false, false),
            FailureKind::Other,
            "http={http:?}"
        );
        assert!(is_retryable(classify_azure_signal(http, false, false)));
    }
}

#[test]
fn s3_test_full_key_with_prefix() {
    assert_eq!(
        s3_backend("tapes/", CompressionConfig::disabled()).full_key("chunks/TAPE001/obj-000001.dat"),
        "tapes/chunks/TAPE001/obj-000001.dat"
    );
}

#[test]
fn s3_test_full_key_without_prefix() {
    assert_eq!(
        s3_backend("", CompressionConfig::disabled()).full_key("chunks/TAPE001/obj-000001.dat"),
        "chunks/TAPE001/obj-000001.dat"
    );
}

#[test]
fn classify_s3_service_code_table() {
    let c = classify_s3_service_code;
    assert_eq!(c(Some("AccessDenied")), FailureKind::Authz);
    assert_eq!(c(Some("AllAccessDisabled")), FailureKind::Authz);
    assert_eq!(c(Some("InvalidAccessKeyId")), FailureKind::Auth);
    assert_eq!(c(Some("SignatureDoesNotMatch")), FailureKind::Auth);
    assert_eq!(c(Some("ExpiredToken")), FailureKind::Auth);
    assert_eq!(c(Some("RequestTimeTooSkewed")), FailureKind::Auth);
    assert_eq!(c(Some("PermanentRedirect")), FailureKind::RegionMismatch);
    assert_eq!(
        c(Some("AuthorizationHeaderMalformed")),
        FailureKind::RegionMismatch
    );
    assert_eq!(c(Some("NoSuchBucket")), FailureKind::NotFound);
    assert_eq!(c(Some("NoSuchKey")), FailureKind::NotFound);
    assert_eq!(c(Some("RequestTimeout")), FailureKind::Timeout);
    assert_eq!(c(Some("SlowDown")), FailureKind::Other);
    assert_eq!(c(Some("InternalError")), FailureKind::Other);
    assert_eq!(c(Some("ServiceUnavailable")), FailureKind::Other);
    assert_eq!(c(Some("AccountProblem")), FailureKind::Other);
    assert_eq!(c(Some("SomeBrandNewCodeWeNeverSaw")), FailureKind::Other);
    assert_eq!(c(None), FailureKind::Other);
}

#[test]
fn classify_s3_service_code_is_case_insensitive() {
    let c = classify_s3_service_code;
    assert_eq!(c(Some("accessdenied")), FailureKind::Authz);
    assert_eq!(c(Some("NOSUCHBUCKET")), FailureKind::NotFound);
}

#[test]
fn classify_s3_permanent_codes_are_not_retryable() {
    let c = classify_s3_service_code;
    for code in [
        "AccessDenied",
        "InvalidAccessKeyId",
        "PermanentRedirect",
        "NoSuchBucket",
    ] {
        assert!(
            !is_retryable(c(Some(code))),
            "{code} must fail fast, not retry"
        );
    }
}

#[test]
fn s3_backend_type_and_clone_box() {
    let backend = s3_backend("tapes/", CompressionConfig::disabled());
    assert_eq!(backend.backend_type(), "s3");
    assert!(backend.supports_legal_hold());
    assert_eq!(backend.clone().backend_type(), "s3");
}

#[test]
fn full_key_with_prefix() {
    assert_eq!(
        gcs_backend("tapes/", CompressionConfig::disabled()).full_key("chunks/TAPE001/obj-000001.dat"),
        "tapes/chunks/TAPE001/obj-000001.dat"
    );
}

#[test]
fn full_key_without_prefix() {
    assert_eq!(
        gcs_backend("", CompressionConfig::disabled()).full_key("chunks/TAPE001/obj-000001.dat"),
        "chunks/TAPE001/obj-000001.dat"
    );
}

#[test]
fn backend_type_is_gcs_and_supports_legal_hold() {
    let backend = gcs_backend("tapes/", CompressionConfig::disabled());
    assert_eq!(backend.backend_type(), "gcs");
    assert!(backend.supports_legal_hold());
}

#[test]
fn debug_omits_sdk_internals() {
    let backend = gcs_backend("tapes/", CompressionConfig::disabled());
    let s = format!("{:?}", backend);
    assert!(s.contains("bucket"));
    assert!(s.contains("my-bucket"));
    assert!(s.contains("my-project"));
}

#[test]
fn clone_box_yields_independent_handle() {
    let backend = gcs_backend("tapes/", CompressionConfig::disabled());
    assert_eq!(backend.clone().backend_type(), "gcs");
    assert_eq!(backend.project_id(), "my-project");
}

#[test]
fn bucket_resource_wraps_into_projects_underscore_buckets() {
    assert_eq!(
        gcs::bucket_resource("my-bucket"),
        "projects/_/buckets/my-bucket"
    );
    assert_eq!(
        gcs::bucket_resource("name.with.dots"),
        "projects/_/buckets/name.with.dots"
    );
}

#[test]
fn s3_client_settings_follow_the_endpoint() {
    let build = |endpoint: Option<&str>, style: Option<bool>| -> S3Connection {
        S3Backend::new(
            "b".to_string(),
            String::new(),
            "eu-west-1".to_string(),
            endpoint.map(str::to_string),
            style,
            Some(ResolvedS3Auth::Profile { name: "p".to_string() }),
            CompressionConfig::disabled(),
        )
        .1
    };
    let aws = build(None, None);
    assert!(aws.use_dual_stack && !aws.force_path_style);
    assert_eq!(aws.region, "eu-west-1");
    assert!(matches!(aws.auth, Some(ResolvedS3Auth::Profile { .. })));
    let minio = build(Some("http://localhost:9000"), None);
    assert!(!minio.use_dual_stack && minio.force_path_style);
    assert_eq!(minio.endpoint_url.as_deref(), Some("http://localhost:9000"));
    assert!(!build(Some("http://x"), Some(false)).force_path_style);
    assert!(build(None, Some(true)).force_path_style);
}

#[test]
fn s3_failures_are_classified_by_shape() {
    let dispatch = |is_io, is_timeout, is_user| S3Failure::Dispatch {
        is_io,
        is_timeout,
        is_user,
        causes: None,
    };
    assert_eq!(
        classify_s3_sdk_error(&service(Some("NoSuchBucket"), None)),
        FailureKind::NotFound
    );
    assert_eq!(classify_s3_sdk_error(&service(None, Some("AccessDenied"))), FailureKind::Other);
    assert_eq!(classify_s3_sdk_error(&dispatch(true, false, false)), FailureKind::Network);
    assert_eq!(classify_s3_sdk_error(&dispatch(true, true, false)), FailureKind::Timeout);
    assert_eq!(classify_s3_sdk_error(&dispatch(false, false, true)), FailureKind::Auth);
    assert_eq!(classify_s3_sdk_error(&dispatch(false, false, false)), FailureKind::Other);
    assert_eq!(classify_s3_sdk_error(&S3Failure::Timeout), FailureKind::Timeout);
    assert_eq!(
        classify_s3_sdk_error(&S3Failure::Construction { debug: String::new() }),
        FailureKind::Auth
    );
    assert_eq!(
        classify_s3_sdk_error(&S3Failure::Response { debug: String::new() }),
        FailureKind::Other
    );
    assert_eq!(
        classify_s3_sdk_error(&S3Failure::Unknown { display: String::new() }),
        FailureKind::Other
    );
}

#[test]
fn s3_failures_are_described_in_one_line() {
    assert_eq!(
        describe_sdk_error("list", &service(Some("A\"B"), None)),
        "list failed: service error (code: Some(\"A\\\"B\"), message: no message)"
    );
    assert_eq!(
        describe_sdk_error("list", &service(None, Some("m"))),
        "list failed: service error (code: None, message: m)"
    );
    assert_eq!(
        describe_sdk_error(
            "put",
            &S3Failure::Dispatch {
                is_io: true,
                is_timeout: true,
                is_user: false,
                causes: Some(vec!["a".to_string(), "b".to_string(), "c".to_string()]),
            }
        ),
        "put failed: dispatch failure (io: a -> b -> c)"
    );
    assert_eq!(
        describe_sdk_error(
            "put",
            &S3Failure::Dispatch {
                is_io: false,
                is_timeout: false,
                is_user: true,
                causes: None,
            }
        ),
        "put failed: dispatch failure (user: no connector error attached)"
    );
    assert_eq!(describe_sdk_error("put", &S3Failure::Timeout), "put failed: timeout");
    assert_eq!(
        describe_sdk_error("put", &S3Failure::Construction { debug: "X".to_string() }),
        "put failed: construction failure (X) — typically missing/invalid credentials or bad configuration"
    );
    assert_eq!(
        describe_sdk_error("put", &S3Failure::Response { debug: "X".to_string() }),
        "put failed: response error (X)"
    );
    assert_eq!(
        describe_sdk_error("put", &S3Failure::Unknown { display: "odd".to_string() }),
        "put failed: odd"
    );
}

#[test]
fn s3_heads_tell_absence_from_failure() {
    let backend = s3_backend("tapes/", CompressionConfig::disabled());
    assert_eq!(backend.chunk_exists("k", Ok(())), Ok(true));
    assert_eq!(
        backend.chunk_exists("k", Err(report(service(Some("NotFound"), None), "service error"))),
        Ok(false)
    );
    assert_eq!(
        backend.chunk_exists("k", Err(report(S3Failure::Timeout, "status 404"))),
        Ok(false)
    );
    assert_eq!(
        backend.chunk_exists(
            "k",
            Err(report(service(Some("AccessDenied"), Some("no")), "service error"))
        ),
        Err(ObjectStoreError::Authz(
            "head_object failed: service error (code: Some(\"AccessDenied\"), message: no, \
             bucket: test-bucket, key: tapes/k)"
                .to_string()
        ))
    );
    assert_eq!(
        backend.chunk_exists("k", Err(report(S3Failure::Timeout, "slow"))),
        Err(ObjectStoreError::Timeout(
            "head_object failed: slow (bucket: test-bucket, key: tapes/k, error type: \"SdkError\")"
                .to_string()
        ))
    );
}

#[test]
fn s3_calls_report_bucket_and_key() {
    let backend = s3_backend("tapes/", CompressionConfig::disabled());
    assert_eq!(backend.delete_object("k", Ok(())), Ok(()));
    assert_eq!(
        backend.delete_object("k", Err(S3Failure::Timeout)),
        Err(ObjectStoreError::Timeout(
            "delete_object failed: timeout (bucket: test-bucket, key: tapes/k)".to_string()
        ))
    );
    assert_eq!(
        backend.upload_manifest("m", Err(S3Failure::Timeout)),
        Err(ObjectStoreError::Timeout(
            "manifest upload failed: timeout (bucket: test-bucket, key: tapes/m)".to_string()
        ))
    );
    assert_eq!(
        backend.set_object_legal_hold("k", Err(service(Some("AccessDenied"), None))),
        Err(ObjectStoreError::Authz(
            "put_object_legal_hold failed: service error (code: Some(\"AccessDenied\"), message: \
             no message) (bucket: test-bucket, key: tapes/k)"
                .to_string()
        ))
    );
    assert_eq!(
        backend.list_failed(&S3Failure::Timeout, "chunks/"),
        ObjectStoreError::Timeout(
            "list_objects failed: timeout (bucket: test-bucket, prefix: tapes/chunks/)".to_string()
        )
    );
}

#[test]
fn s3_lock_states_follow_the_configuration() {
    let config = |enabled: Option<&str>, retention: Option<S3Retention>| {
        Some(S3LockConfig { enabled: enabled.map(str::to_string), retention })
    };
    let retention = |days, years, mode| Some(S3Retention { days, years, mode });
    assert_eq!(s3::lock_state_of(&None), LockState::Off);
    assert_eq!(
        s3::lock_state_of(&config(
            Some("Enabled"),
            retention(Some(30), Some(9), S3RetentionMode::Governance)
        )),
        LockState::Governance { default_days: 30 }
    );
    assert_eq!(
        s3::lock_state_of(&config(
            Some("Enabled"),
            retention(None, Some(7), S3RetentionMode::Compliance)
        )),
        LockState::Compliance { default_days: 2555 }
    );
    assert_eq!(
        s3::lock_state_of(&config(
            Some("Enabled"),
            retention(None, Some(i32::MAX), S3RetentionMode::Compliance)
        )),
        LockState::Compliance { default_days: u32::MAX }
    );
    assert_eq!(
        s3::lock_state_of(&config(
            Some("Enabled"),
            retention(Some(-5), None, S3RetentionMode::Governance)
        )),
        LockState::Governance { default_days: 0 }
    );
    for off in [
        config(Some("Disabled"), retention(Some(1), None, S3RetentionMode::Governance)),
        config(None, retention(Some(1), None, S3RetentionMode::Governance)),
        config(Some("Enabled"), None),
        config(Some("Enabled"), retention(None, None, S3RetentionMode::Governance)),
        config(Some("Enabled"), retention(Some(1), None, S3RetentionMode::Unknown)),
    ] {
        assert_eq!(s3::lock_state_of(&off), LockState::Off);
    }
}

#[test]
fn s3_lock_and_hold_queries_read_their_failures() {
    let backend = s3_backend("", CompressionConfig::disabled());
    let f = service(Some("AccessDenied"), None);
    for debug in ["xObjectLockConfigurationNotFoundErrorx", "InvalidRequest"] {
        assert_eq!(backend.lock_query_failed(&f, debug), Ok(LockState::Off));
    }
    assert_eq!(
        backend.lock_query_failed(&f, "denied"),
        Err(ObjectStoreError::Authz(
            "GetObjectLockConfiguration on test-bucket: denied".to_string()
        ))
    );
    for debug in [
        "NoSuchObjectLockConfiguration",
        "object does not have a ObjectLock configuration",
        "Bucket is missing Object Lock Configuration",
    ] {
        assert_eq!(backend.hold_query_failed(&f, debug, "k"), Ok(false));
    }
    assert!(matches!(
        backend.hold_query_failed(&f, "denied", "k"),
        Err(ObjectStoreError::Authz(_))
    ));
}

#[test]
fn azure_kinds_are_classified() {
    assert_eq!(
        classify_azure_error(AzureErrorKind::Credential, Some(500)),
        FailureKind::Auth
    );
    assert_eq!(
        classify_azure_error(AzureErrorKind::Connection, Some(404)),
        FailureKind::Network
    );
    assert_eq!(classify_azure_error(AzureErrorKind::Io, None), FailureKind::Network);
    assert_eq!(
        classify_azure_error(AzureErrorKind::Other, Some(404)),
        FailureKind::NotFound
    );
}

#[test]
fn azure_credentials_are_found_in_order() {
    assert!(matches!(
        discover_credentials_from_env(Some("https://sas"), Some("t"), Some("c"), Some("s")),
        AzureCredential::SasUrl(u) if u == "https://sas"
    ));
    assert!(matches!(
        discover_credentials_from_env(None, Some("t"), Some("c"), Some("s")),
        AzureCredential::ServicePrincipal { tenant_id, client_id, client_secret }
            if tenant_id == "t" && client_id == "c" && client_secret == "s"
    ));
    assert!(matches!(
        discover_credentials_from_env(None, Some("t"), None, Some("s")),
        AzureCredential::FallbackChain
    ));
}

#[test]
fn azure_addresses_follow_the_credential() {
    let (_, connection, credential) = azure_backend(None, None);
    assert!(matches!(credential, AzureCredential::FallbackChain));
    assert!(matches!(
        connection,
        AzureConnection::FromEndpoint { endpoint } if endpoint == "https://acct.blob.core.windows.net/"
    ));
    let (_, connection, credential) =
        azure_backend(None, Some(ResolvedAzureAuth::SasUrl("https://sas".to_string())));
    assert!(matches!(credential, AzureCredential::SasUrl(_)));
    assert!(matches!(connection, AzureConnection::FromUrl { url } if url == "https://sas"));
    let (_, connection, _) = AzureBackend::new(
        "acct".to_string(),
        "box".to_string(),
        String::new(),
        Some("http://127.0.0.1:10000/acct".to_string()),
        None,
        None,
        None,
        AzureCredential::FallbackChain,
        CompressionConfig::disabled(),
    )
    .expect("a usable address");
    assert!(matches!(
        connection,
        AzureConnection::FromEndpoint { endpoint } if endpoint == "http://127.0.0.1:10000/acct"
    ));
}

#[test]
fn signed_urls_must_be_urls() {
    let with = |auth: Option<ResolvedAzureAuth>, found: AzureCredential| {
        AzureBackend::new(
            "acct".to_string(),
            "box".to_string(),
            String::new(),
            None,
            None,
            None,
            auth,
            found,
            CompressionConfig::disabled(),
        )
        .map(|_| ())
    };
    let refused = Err(ObjectStoreError::Other(
        "Azure SAS URL parse failed: relative URL without a base".to_string(),
    ));
    let bad = || "not a url".to_string();
    let chain = || AzureCredential::FallbackChain;
    assert_eq!(with(Some(ResolvedAzureAuth::SasUrl(bad())), chain()), refused);
    assert_eq!(with(None, AzureCredential::SasUrl(bad())), refused);
    let good = "https://acct.blob.core.windows.net/box?sv=1&sig=x".to_string();
    assert_eq!(with(Some(ResolvedAzureAuth::SasUrl(good)), AzureCredential::SasUrl(bad())), Ok(()));
    assert_eq!(sas_url_verdict(None), Ok(()));
    assert_eq!(
        sas_url_verdict(Some("why".to_string())),
        Err(ObjectStoreError::Other("Azure SAS URL parse failed: why".to_string()))
    );
}

#[test]
fn key_files_must_be_json() {
    assert_eq!(check_key_file("/k.json", "{\"type\": \"service_account\"}"), Ok(()));
    assert_eq!(
        check_key_file("/k.json", "not json"),
        Err(ObjectStoreError::Other(
            "GCS service-account key file '/k.json' could not be loaded: expected ident at line 1 \
             column 2"
                .to_string()
        ))
    );
    assert_eq!(key_file_verdict("/k.json", None), Ok(()));
    assert_eq!(
        key_file_verdict("/no/such/key.json", Some("No such file".to_string())),
        Err(ObjectStoreError::Other(
            "GCS service-account key file '/no/such/key.json' could not be loaded: No such file"
                .to_string()
        ))
    );
    assert_eq!(
        gcs::auth_failed(Some("/k.json"), "why").text(),
        "object store: GCS auth from key file '/k.json' failed: why"
    );
    assert_eq!(gcs::auth_failed(None, "why").text(), "object store: GCS auth failed: why");
}

#[test]
fn azure_lock_state_needs_an_address_and_a_token() {
    let (backend, _, _) = azure_backend(None, None);
    assert!(matches!(backend.lock_state(), Ok(LockLookup::Known(LockState::Off))));
    assert_eq!(backend.backend_type(), "azure");
    assert!(backend.supports_legal_hold());
    let (backend, _, _) = azure_backend(Some(("sub", "rg")), None);
    match backend.lock_state() {
        Ok(LockLookup::Query { url }) => assert_eq!(
            url,
            "https://management.azure.com/subscriptions/sub/resourceGroups/rg/providers/\
             Microsoft.Storage/storageAccounts/acct/blobServices/default/containers/box/\
             immutabilityPolicies/default?api-version=2023-01-01"
        ),
        other => panic!("expected a query, got {other:?}"),
    }
    let (backend, _, _) = azure_backend(
        Some(("sub", "rg")),
        Some(ResolvedAzureAuth::SasUrl("https://sas".to_string())),
    );
    assert!(matches!(backend.lock_state(), Err(ObjectStoreError::Other(m)) if m.contains("requires AAD")));
}

#[test]
fn azure_policies_become_lock_states() {
    let policy = |days, state: Option<&str>| {
        Some(PolicyProperties { period_days: days, state: state.map(str::to_string) })
    };
    assert_eq!(azure::lock_state_of(&None), LockState::Off);
    assert_eq!(
        azure::lock_state_of(&policy(Some(2555), Some("Locked"))),
        LockState::Compliance { default_days: 2555 }
    );
    assert_eq!(
        azure::lock_state_of(&policy(Some(7), Some("Unlocked"))),
        LockState::Governance { default_days: 7 }
    );
    for off in [
        policy(Some(0), Some("Locked")),
        policy(None, Some("Locked")),
        policy(Some(7), Some("Odd")),
        policy(Some(7), None),
    ] {
        assert_eq!(azure::lock_state_of(&off), LockState::Off);
    }
    let (backend, _, _) = azure_backend(None, None);
    assert_eq!(backend.policy_status(404, "404 Not Found", ""), Ok(Some(LockState::Off)));
    assert_eq!(backend.policy_status(200, "200 OK", ""), Ok(None));
    assert_eq!(
        backend.policy_status(403, "403 Forbidden", "no"),
        Err(ObjectStoreError::Other(
            "Azure ARM immutabilityPolicies GET returned 403 Forbidden: no".to_string()
        ))
    );
}

#[test]
fn azure_hold_refusals_are_told_apart() {
    let (backend, _, _) = azure_backend(None, None);
    let detail = "Azure Set Blob Legal Hold for box/tapes/k: e";
    assert_eq!(
        backend.hold_refused("k", "e", Some(412), "412"),
        ObjectStoreError::PreconditionFailed(detail.to_string())
    );
    assert_eq!(
        backend.hold_refused("k", "e", Some(409), "409"),
        ObjectStoreError::Conflict(detail.to_string())
    );
    assert_eq!(
        backend.hold_refused("k", "e", Some(500), "500"),
        ObjectStoreError::Other(format!("status 500: {detail}"))
    );
    assert_eq!(
        backend.hold_refused("k", "e", None, ""),
        ObjectStoreError::Other(detail.to_string())
    );
}

#[test]
fn azure_metadata_carries_the_zstd_level() {
    assert_eq!(
        upload_options_with_metadata(Some(CompressionAlgo::Zstd), -3),
        vec![
            ("compression".to_string(), "zstd".to_string()),
            ("compression_level".to_string(), "-3".to_string())
        ]
    );
    assert_eq!(
        upload_options_with_metadata(Some(CompressionAlgo::Lz4), 9),
        vec![("compression".to_string(), "lz4".to_string())]
    );
    assert_eq!(
        upload_options_with_metadata(None, 0),
        vec![("compression".to_string(), "none".to_string())]
    );
}

#[test]
fn azure_failures_name_account_container_and_key() {
    let (backend, _, _) = azure_backend(None, None);
    let failure = AzureFailure {
        kind: AzureErrorKind::Other,
        http: Some(403),
        display: "denied".to_string(),
    };
    assert_eq!(
        backend.call_failed("Azure chunk upload", &failure, "key", "k", ""),
        ObjectStoreError::Authz(
            "Azure chunk upload failed: denied (account: acct, container: box, key: tapes/k)"
                .to_string()
        )
    );
    assert_eq!(
        backend.metadata_unreadable("bad header", "k"),
        ObjectStoreError::Other(
            "Azure chunk metadata header parse: bad header (account: acct, container: box, key: \
             tapes/k)"
                .to_string()
        )
    );
    assert_eq!(
        backend
            .call_failed("Azure manifest upload", &failure, "key", "m.json", ", size: 9 bytes")
            .text(),
        "object store permission: Azure manifest upload failed: denied (account: acct, \
         container: box, key: tapes/m.json, size: 9 bytes)"
    );
}

#[test]
fn credential_chains_use_the_first_token() {
    assert_eq!(chain_step(0, 2, true), ChainStep::Use);
    assert_eq!(chain_step(0, 2, false), ChainStep::TryNext);
    assert_eq!(chain_step(1, 2, false), ChainStep::Fail);
    assert_eq!(chain_step(1, 2, true), ChainStep::Use);
}

#[test]
fn gcs_policies_become_lock_states() {
    assert_eq!(gcs::lock_state_of(None), LockState::Off);
    let policy = |seconds, is_locked| Some(RetentionPolicy { seconds, is_locked });
    assert_eq!(
        gcs::lock_state_of(policy(30 * 86_400, false)),
        LockState::Governance { default_days: 30 }
    );
    assert_eq!(
        gcs::lock_state_of(policy(7 * 86_400 + 1, true)),
        LockState::Compliance { default_days: 8 }
    );
    assert_eq!(
        gcs::lock_state_of(policy(60, false)),
        LockState::Governance { default_days: 1 }
    );
    assert_eq!(
        gcs::lock_state_of(policy(u64::MAX, true)),
        LockState::Compliance { default_days: u32::MAX }
    );
    assert_eq!(gcs::retention_policy(None, true), None);
    assert_eq!(gcs::retention_policy(Some(0), true), None);
    assert_eq!(gcs::retention_policy(Some(-1), true), None);
    assert_eq!(gcs::retention_policy(Some(5), true), policy(5, true));
}

#[test]
fn gcs_lookups_tell_absence_from_failure() {
    let backend = gcs_backend("tapes/", CompressionConfig::disabled());
    let failure = |http, grpc_not_found| GcsFailure {
        http,
        grpc_not_found,
        display: "e".to_string(),
    };
    assert_eq!(backend.absent_or_failed(&failure(Some(404), false), "k"), Ok(false));
    assert_eq!(backend.absent_or_failed(&failure(None, true), "k"), Ok(false));
    assert_eq!(
        backend.absent_or_failed(&failure(Some(503), false), "k"),
        Err(ObjectStoreError::Other(
            "GCS get_object failed: e (bucket: my-bucket, key: tapes/k)".to_string()
        ))
    );
    let denied = backend.call_failed("write_object", &failure(Some(403), false), "key", "k");
    assert_eq!(
        denied,
        ObjectStoreError::Authz(
            "GCS write_object failed: e (bucket: my-bucket, key: tapes/k)".to_string()
        )
    );
    assert!(!is_retryable(classify(&denied)));
    assert_eq!(
        backend.bucket_failed(&failure(Some(401), false)),
        ObjectStoreError::Auth("GCS get_bucket on my-bucket: e".to_string())
    );
    assert_eq!(
        classify(&backend.call_failed("read_object", &failure(None, true), "key", "k")),
        FailureKind::NotFound
    );
}

#[test]
fn gcs_metadata_is_the_marker_alone() {
    assert_eq!(
        gcs::compression_metadata(Some(CompressionAlgo::Zstd)),
        vec![("compression".to_string(), "zstd".to_string())]
    );
    assert_eq!(
        gcs::compression_metadata(None),
        vec![("compression".to_string(), "none".to_string())]
    );
}

#[test]
fn uploads_store_what_downloads_read() {
    let data = vec![b'x'; 4096];
    for algo in [None, Some(CompressionAlgo::Lz4), Some(CompressionAlgo::Zstd)] {
        let writer = CompressionConfig::new(algo, 3);
        let reader = gcs_backend("tapes/", CompressionConfig::new(Some(CompressionAlgo::Lz4), 1));
        let (key, stored) = gcs_backend("tapes/", writer).upload_chunk("chunks/x", &data).unwrap();
        assert_eq!(key, "tapes/chunks/x");
        assert_eq!(stored.outcome.uncompressed, 4096);
        assert_eq!(stored.outcome.algo, algo);
        assert_eq!(stored.outcome.compressed, algo.map(|_| stored.bytes.len() as u64));
        assert_eq!(
            reader.download_chunk(Some(stored.marker), stored.bytes.clone()),
            Ok(data.clone())
        );
        let (_, by_s3) = s3_backend("", writer).upload_chunk("k", &data).unwrap();
        assert_eq!(by_s3.bytes, stored.bytes);
        let (azure, _, _) = azure_backend(None, None);
        assert_eq!(azure.download_chunk(Some(by_s3.marker), by_s3.bytes), Ok(data.clone()));
    }
    let sldc = s3_backend("", CompressionConfig::new(Some(CompressionAlgo::Sldc), 3));
    assert!(matches!(
        sldc.upload_chunk("k", &data),
        Err(ObjectStoreError::Compression(_))
    ));
}
