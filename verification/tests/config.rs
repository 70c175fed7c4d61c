use thur_storage::config::{
    legacy_backends_path, reject_legacy_cloud_backends_json, AzureAuth, AzureBackendConfig,
    BackendEntry, GcsBackendConfig, LocalBackendConfig, ObjectStoreConfig, ResolvedAuth,
    ResolvedAzureAuth, ResolvedS3Auth, RetentionMode, S3Auth, S3BackendConfig, UploadConfig,
};
use thur_storage::config_error::ObjectStoreConfigError;
use thur_storage::disk_cache_size::DiskCacheSize;
use thur_storage::error::ObjectStoreError;
use thur_storage::table::NameTable;

fn s3(bucket: &str, prefix: &str) -> S3BackendConfig {
    S3BackendConfig {
        bucket: bucket.to_string(),
        prefix: prefix.to_string(),
        region: "us-east-1".to_string(),
        endpoint_url: None,
        path_style: None,
        retention_mode: RetentionMode::default(),
        auth: None,
        disk_cache_size_gb: None,
    }
}

fn gcs(bucket: &str) -> GcsBackendConfig {
    GcsBackendConfig {
        bucket: bucket.to_string(),
        prefix: String::new(),
        project_id: "my-project".to_string(),
        service_account_key_file: None,
        retention_mode: RetentionMode::default(),
        disk_cache_size_gb: None,
    }
}

fn azure(account: &str, container: &str) -> AzureBackendConfig {
    AzureBackendConfig {
        storage_account: account.to_string(),
        container: container.to_string(),
        prefix: String::new(),
        endpoint_url: None,
        retention_mode: RetentionMode::default(),
        subscription_id: None,
        resource_group: None,
        auth: None,
        disk_cache_size_gb: None,
    }
}

fn local(root_dir: &str) -> LocalBackendConfig {
    LocalBackendConfig {
        root_dir: root_dir.to_string(),
        disk_cache_size_gb: None,
    }
}

fn config(entries: Vec<(&str, BackendEntry)>) -> ObjectStoreConfig {
    let mut cfg = ObjectStoreConfig::default();
    for (name, entry) in entries {
        cfg.backends.insert(name, entry);
    }
    cfg
}

fn no_env() -> NameTable<String> {
    NameTable::new()
}

fn env(pairs: &[(&str, &str)]) -> NameTable<String> {
    let mut table = NameTable::new();
    for (name, value) in pairs {
        table.insert(name, value.to_string());
    }
    table
}

#[test]
fn multi_backend_yaml_parses_and_validates() {
    let cfg = config(vec![
        ("primary", BackendEntry::S3(s3("thurvtl-data", ""))),
        ("archive", BackendEntry::Gcs(gcs("thurvtl-cold"))),
    ]);
    cfg.validate_backends().expect("validate ok");
    let mut names = cfg.backend_names();
    names.sort();
    assert_eq!(names, vec!["archive".to_string(), "primary".to_string()]);
    assert!(!cfg.is_single_backend());
}

#[test]
fn single_entry_is_recognized() {
    let cfg = config(vec![("only", BackendEntry::S3(s3("b", "")))]);
    cfg.validate_backends().expect("validate ok");
    assert!(cfg.is_single_backend());
    assert_eq!(cfg.backend_names(), vec!["only".to_string()]);
}

#[test]
fn s3_auth_static_parses_and_resolves_inline() {
    let mut backend = s3("b", "");
    backend.auth = Some(S3Auth::Static {
        access_key_id: "AKIA1234".to_string(),
        secret_access_key: "secret-value".to_string(),
        session_token: None,
    });
    let cfg = config(vec![("primary", BackendEntry::S3(backend))]);
    cfg.validate_backends().unwrap();
    let entry = cfg.backend_entry("primary").unwrap();
    let BackendEntry::S3(s3) = entry else {
        panic!("expected S3")
    };
    let resolved = s3.auth.as_ref().unwrap().resolve(&no_env()).unwrap();
    match resolved {
        ResolvedS3Auth::Static {
            access_key_id,
            secret_access_key,
            session_token,
        } => {
            assert_eq!(access_key_id, "AKIA1234");
            assert_eq!(secret_access_key, "secret-value");
            assert!(session_token.is_none());
        }
        _ => panic!("expected Static"),
    }
}

#[test]
fn s3_auth_env_parses_and_records_var_names() {
    let auth = S3Auth::Env {
        access_key_id_env: "THUR_TEST_KEY".to_string(),
        secret_access_key_env: "THUR_TEST_SECRET".to_string(),
        session_token_env: Some("THUR_TEST_TOKEN".to_string()),
    };
    match &auth {
        S3Auth::Env {
            access_key_id_env,
            secret_access_key_env,
            session_token_env,
        } => {
            assert_eq!(access_key_id_env, "THUR_TEST_KEY");
            assert_eq!(secret_access_key_env, "THUR_TEST_SECRET");
            assert_eq!(session_token_env.as_deref(), Some("THUR_TEST_TOKEN"));
        }
        _ => panic!("expected Env"),
    }
    assert_eq!(
        auth.env_names(),
        vec!["THUR_TEST_KEY", "THUR_TEST_SECRET", "THUR_TEST_TOKEN"]
    );
}

#[test]
fn s3_auth_env_missing_var_surfaces_structured_error() {
    let auth = S3Auth::Env {
        access_key_id_env: "THUR_TEST_DEFINITELY_UNSET_X1".to_string(),
        secret_access_key_env: "THUR_TEST_DEFINITELY_UNSET_X2".to_string(),
        session_token_env: None,
    };
    let err = auth.resolve(&no_env()).unwrap_err();
    assert!(
        matches!(err, ObjectStoreConfigError::AuthEnvVarMissing(ref n) if n == "THUR_TEST_DEFINITELY_UNSET_X1")
    );
}

#[test]
fn s3_auth_profile_round_trips() {
    let auth = S3Auth::Profile {
        name: "production".to_string(),
    };
    match auth.resolve(&no_env()).unwrap() {
        ResolvedS3Auth::Profile { name } => assert_eq!(name, "production"),
        _ => panic!("expected Profile"),
    }
}

#[test]
fn gcs_service_account_key_file_round_trips() {
    let mut backend = gcs("b");
    backend.service_account_key_file = Some("/etc/thurvtl/gcs.json".to_string());
    let cfg = config(vec![("archive", BackendEntry::Gcs(backend))]);
    let entry = cfg.backend_entry("archive").unwrap();
    let BackendEntry::Gcs(gcs) = entry else {
        panic!()
    };
    assert_eq!(
        gcs.service_account_key_file.as_deref(),
        Some("/etc/thurvtl/gcs.json")
    );
}

#[test]
fn azure_auth_sas_url_inline_parses() {
    let mut backend = azure("a", "c");
    backend.auth = Some(AzureAuth::SasUrl {
        value: "https://a.blob.core.windows.net/c?sv=foo".to_string(),
    });
    let cfg = config(vec![("cold", BackendEntry::Azure(backend))]);
    cfg.validate_backends().unwrap();
    let entry = cfg.backend_entry("cold").unwrap();
    let BackendEntry::Azure(az) = entry else {
        panic!()
    };
    match az.auth.as_ref().unwrap().resolve(&no_env()).unwrap() {
        ResolvedAzureAuth::SasUrl(s) => assert!(s.contains("?sv=foo")),
        _ => panic!("expected SasUrl"),
    }
}

#[test]
fn azure_auth_service_principal_inline_parses() {
    let auth = AzureAuth::ServicePrincipal {
        tenant_id: "t".to_string(),
        client_id: "c".to_string(),
        client_secret: "s".to_string(),
    };
    match auth.resolve(&no_env()).unwrap() {
        ResolvedAzureAuth::ServicePrincipal {
            tenant_id,
            client_id,
            client_secret,
        } => {
            assert_eq!(tenant_id, "t");
            assert_eq!(client_id, "c");
            assert_eq!(client_secret, "s");
        }
        _ => panic!("expected ServicePrincipal"),
    }
}

#[test]
fn empty_backends_map_validates_ok() {
    let cfg = config(vec![]);
    cfg.validate_backends().expect("empty backends OK at boot");
    assert!(cfg.backends.len() == 0);
    assert!(cfg.backend_names().is_empty());
}

#[test]
fn unknown_backend_lookup_errors() {
    let cfg = config(vec![("primary", BackendEntry::S3(s3("b", "")))]);
    cfg.validate_backends().unwrap();
    let err = cfg.backend_entry("does-not-exist").unwrap_err();
    assert!(matches!(err, ObjectStoreConfigError::UnknownBackend(_)));
}

#[test]
fn retention_mode_default_is_none() {
    let cfg = config(vec![("primary", BackendEntry::S3(s3("b", "")))]);
    cfg.validate_backends().unwrap();
    assert_eq!(
        cfg.retention_mode_named("primary"),
        RetentionMode::NoRetention
    );
}

#[test]
fn retention_mode_governance_and_compliance_parse() {
    let mut worm = s3("thurvtl-worm", "");
    worm.retention_mode = RetentionMode::Governance;
    let mut locked = s3("thurvtl-locked", "");
    locked.retention_mode = RetentionMode::Compliance;
    let cfg = config(vec![
        ("worm", BackendEntry::S3(worm)),
        ("locked", BackendEntry::S3(locked)),
    ]);
    cfg.validate_backends().unwrap();
    assert_eq!(cfg.retention_mode_named("worm"), RetentionMode::Governance);
    assert_eq!(
        cfg.retention_mode_named("locked"),
        RetentionMode::Compliance
    );
    assert!(RetentionMode::Governance.requires_lock());
    assert!(RetentionMode::Compliance.requires_lock());
    assert!(!RetentionMode::NoRetention.requires_lock());
}

#[test]
fn skip_retention_mode_check_default_is_false() {
    assert!(!ObjectStoreConfig::default().skip_retention_mode_check);
}

#[test]
fn skip_retention_mode_check_relaxes_azure_field_requirement() {
    let mut backend = azure("thurvtl", "worm");
    backend.retention_mode = RetentionMode::Governance;
    let mut cfg = config(vec![("cold", BackendEntry::Azure(backend))]);
    let err = cfg
        .validate_backends()
        .expect_err("should require Azure fields");
    assert!(matches!(
        err,
        ObjectStoreConfigError::AzureRetentionFieldsMissing { .. }
    ));

    cfg.skip_retention_mode_check = true;
    cfg.validate_backends()
        .expect("Azure WORM without sub/rg validates when check is skipped");
}

#[test]
fn azure_retention_governance_requires_subscription_and_rg() {
    let mut backend = azure("thurvtl", "worm");
    backend.retention_mode = RetentionMode::Governance;
    let cfg = config(vec![("cold", BackendEntry::Azure(backend))]);
    let err = cfg
        .validate_backends()
        .expect_err("Azure retention without sub/rg must error");
    assert!(matches!(
        err,
        ObjectStoreConfigError::AzureRetentionFieldsMissing { .. }
    ));
}

#[test]
fn azure_retention_governance_with_subscription_and_rg_validates() {
    let mut backend = azure("thurvtl", "worm");
    backend.retention_mode = RetentionMode::Governance;
    backend.subscription_id = Some("00000000-0000-0000-0000-000000000000".to_string());
    backend.resource_group = Some("thurvtl-rg".to_string());
    let cfg = config(vec![("cold", BackendEntry::Azure(backend))]);
    cfg.validate_backends()
        .expect("Azure WORM with both fields validates");
    assert_eq!(cfg.retention_mode_named("cold"), RetentionMode::Governance);
}

#[test]
fn azure_retention_none_does_not_require_subscription_or_rg() {
    let cfg = config(vec![("cold", BackendEntry::Azure(azure("thurvtl", "cold")))]);
    cfg.validate_backends().unwrap();
    assert_eq!(cfg.retention_mode_named("cold"), RetentionMode::NoRetention);
}

#[test]
fn retention_mode_named_is_none_for_local_and_unknown() {
    let cfg = config(vec![("primary", BackendEntry::Local(local("/tmp/x")))]);
    cfg.validate_backends().unwrap();
    assert_eq!(
        cfg.retention_mode_named("primary"),
        RetentionMode::NoRetention
    );
    assert_eq!(
        cfg.retention_mode_named("doesnotexist"),
        RetentionMode::NoRetention
    );
}

#[test]
fn target_label_and_prefix_resolve_per_backend() {
    let cfg = config(vec![
        ("primary", BackendEntry::S3(s3("thurvtl-data", "tapes/"))),
        ("cold", BackendEntry::Azure(azure("thurvtl", "cold"))),
    ]);
    cfg.validate_backends().unwrap();
    assert_eq!(cfg.target_label_named("primary").unwrap(), "thurvtl-data");
    assert_eq!(cfg.prefix_named("primary"), "tapes/");
    assert_eq!(cfg.target_label_named("cold").unwrap(), "thurvtl/cold");
    assert_eq!(cfg.prefix_named("cold"), "");
}

#[test]
fn prefix_defaults_to_empty_when_omitted() {
    let cfg = config(vec![
        ("s3-no-prefix", BackendEntry::S3(s3("b", ""))),
        ("gcs-no-prefix", BackendEntry::Gcs(gcs("b"))),
        ("azure-no-prefix", BackendEntry::Azure(azure("a", "c"))),
    ]);
    cfg.validate_backends().unwrap();
    assert_eq!(cfg.prefix_named("s3-no-prefix"), "");
    assert_eq!(cfg.prefix_named("gcs-no-prefix"), "");
    assert_eq!(cfg.prefix_named("azure-no-prefix"), "");
}

#[test]
fn upload_default_is_auto_scale_sentinel() {
    let cfg = UploadConfig::default();
    assert_eq!(
        cfg.max_concurrent, 0,
        "default must be 0 (auto-scale sentinel)"
    );
    let (resolved, source) = cfg.resolve_max_concurrent(Some(8));
    assert!(
        (1..=16).contains(&resolved),
        "auto-scale must resolve into 1..=16, got {resolved}"
    );
    assert!(
        source.starts_with("auto-detected"),
        "source label must say auto-detected, got {source:?}"
    );
}

#[test]
fn upload_explicit_value_honored_as_override() {
    let cfg = UploadConfig {
        max_concurrent: 32,
        ..UploadConfig::default()
    };
    let (resolved, source) = cfg.resolve_max_concurrent(Some(8));
    assert_eq!(resolved, 32, "explicit value must round-trip");
    assert_eq!(source, "operator override");
}

#[test]
fn upload_serde_default_yields_auto_scale() {
    assert_eq!(ObjectStoreConfig::default().upload.max_concurrent, 0);
}

#[test]
fn auto_concurrency_scales_with_processors() {
    let cfg = UploadConfig::default();
    assert_eq!(
        cfg.resolve_max_concurrent(Some(1)),
        (4, "auto-detected from num_cpus=1".to_string())
    );
    assert_eq!(cfg.resolve_max_concurrent(Some(3)).0, 12);
    assert_eq!(
        cfg.resolve_max_concurrent(None),
        (16, "auto-detected from num_cpus=4".to_string())
    );
    assert_eq!(cfg.resolve_max_concurrent(Some(usize::MAX)).0, 16);
}

#[test]
fn target_label_for_local_is_root_dir() {
    let cfg = config(vec![("archive", BackendEntry::Local(local("/var/lib/thur")))]);
    assert_eq!(
        cfg.target_label_named("archive").unwrap(),
        "/var/lib/thur"
    );
    assert_eq!(cfg.prefix_named("archive"), "");
    assert!(cfg.target_label_named("missing").is_none());
}

#[test]
fn reject_legacy_json_passes_when_absent() {
    reject_legacy_cloud_backends_json("/var/lib/thurvtl", "/etc/thurvtl/thurvtl.yaml", false)
        .expect("absent legacy file is OK");
}

#[test]
fn reject_legacy_json_refuses_when_present() {
    let err =
        reject_legacy_cloud_backends_json("/var/lib/thurvtl", "/etc/thurvtl/thurvtl.yaml", true)
            .expect_err("legacy file must refuse start");
    assert!(err.contains("cloud-backends.json"));
    assert!(err.contains("cloud.backends:"));
    assert!(err.starts_with("refusing to start: /var/lib/thurvtl/cloud-backends.json exists.\n\n"));
    assert!(err.contains("block of /etc/thurvtl/thurvtl.yaml, then remove "));
    assert_eq!(
        legacy_backends_path("/var/lib/thurvtl"),
        "/var/lib/thurvtl/cloud-backends.json"
    );
}

#[test]
fn env_credentials_come_from_the_environment() {
    let auth = S3Auth::Env {
        access_key_id_env: "K".to_string(),
        secret_access_key_env: "S".to_string(),
        session_token_env: Some("T".to_string()),
    };
    let set = env(&[("K", "key"), ("S", "secret"), ("T", "token")]);
    match auth.resolve(&set).unwrap() {
        ResolvedS3Auth::Static {
            access_key_id,
            secret_access_key,
            session_token,
        } => {
            assert_eq!(access_key_id, "key");
            assert_eq!(secret_access_key, "secret");
            assert_eq!(session_token.as_deref(), Some("token"));
        }
        other => panic!("expected Static, got {other:?}"),
    }
    for (set, missing) in [
        (env(&[("S", "secret"), ("T", "token")]), "K"),
        (env(&[("K", "key")]), "S"),
        (env(&[("K", "key"), ("S", "secret")]), "T"),
    ] {
        match auth.resolve(&set) {
            Err(ObjectStoreConfigError::AuthEnvVarMissing(n)) => assert_eq!(n, missing),
            other => panic!("expected a missing variable, got {other:?}"),
        }
    }
}

#[test]
fn azure_env_credentials_report_the_first_missing_variable() {
    let auth = AzureAuth::ServicePrincipalEnv {
        tenant_id_env: "T".to_string(),
        client_id_env: "C".to_string(),
        client_secret_env: "S".to_string(),
    };
    assert_eq!(auth.env_names(), vec!["T", "C", "S"]);
    match auth.resolve(&env(&[("T", "t"), ("S", "s")])) {
        Err(ObjectStoreConfigError::AuthEnvVarMissing(n)) => assert_eq!(n, "C"),
        other => panic!("expected a missing variable, got {other:?}"),
    }
    assert!(matches!(
        auth.resolve(&env(&[("T", "t"), ("C", "c"), ("S", "s")])),
        Ok(ResolvedAzureAuth::ServicePrincipal { .. })
    ));
    let sas = AzureAuth::SasUrlEnv { env: "U".to_string() };
    match sas.resolve(&env(&[("U", "https://x")])) {
        Ok(ResolvedAzureAuth::SasUrl(u)) => assert_eq!(u, "https://x"),
        other => panic!("expected SasUrl, got {other:?}"),
    }
    assert!(sas.resolve(&no_env()).is_err());
}

#[test]
fn plans_carry_entry_credentials_and_compression() {
    let mut backend = s3("b", "");
    backend.auth = Some(S3Auth::Profile { name: "p".to_string() });
    let cfg = config(vec![
        ("primary", BackendEntry::S3(backend)),
        ("archive", BackendEntry::Local(local("/data"))),
    ]);
    let plan = cfg.create_backend_named("primary", &no_env()).unwrap();
    assert_eq!(plan.entry.backend_type(), "s3");
    assert!(matches!(plan.auth, ResolvedAuth::S3(ResolvedS3Auth::Profile { .. })));
    assert_eq!(plan.compression, cfg.compression.to_core());
    let plan = cfg.create_backend_named("archive", &no_env()).unwrap();
    assert!(matches!(plan.auth, ResolvedAuth::Default));
    match plan.init_failed(ObjectStoreError::Io("disk".to_string())) {
        ObjectStoreConfigError::BackendInit { backend, source } => {
            assert_eq!(backend, "Local");
            assert_eq!(source, ObjectStoreError::Io("disk".to_string()));
        }
        other => panic!("expected BackendInit, got {other:?}"),
    }
    assert!(matches!(
        cfg.create_backend_named("nope", &no_env()),
        Err(ObjectStoreConfigError::UnknownBackend(_))
    ));
}

#[test]
fn plans_fail_where_a_variable_is_missing() {
    let mut backend = azure("a", "c");
    backend.auth = Some(AzureAuth::SasUrlEnv { env: "UNSET".to_string() });
    let cfg = config(vec![("cold", BackendEntry::Azure(backend))]);
    match cfg.create_backend_named("cold", &no_env()) {
        Err(ObjectStoreConfigError::AuthEnvVarMissing(n)) => assert_eq!(n, "UNSET"),
        other => panic!("expected a missing variable, got {other:?}"),
    }
}

#[test]
fn validation_names_the_first_offender() {
    let mut a = azure("x", "y");
    a.retention_mode = RetentionMode::Compliance;
    let mut half = azure("x", "y");
    half.retention_mode = RetentionMode::Governance;
    half.subscription_id = Some("sub".to_string());
    let cfg = config(vec![
        ("zeta", BackendEntry::Azure(a)),
        ("beta", BackendEntry::Azure(half)),
        ("alpha", BackendEntry::S3(s3("b", ""))),
    ]);
    match cfg.validate_backends() {
        Err(ObjectStoreConfigError::AzureRetentionFieldsMissing { name }) => {
            assert_eq!(name, "beta")
        }
        other => panic!("expected missing fields, got {other:?}"),
    }
}

#[test]
fn entries_know_their_type_and_cache_size() {
    let mut backend = gcs("b");
    backend.disk_cache_size_gb = Some(DiskCacheSize::Explicit(4));
    let entry = BackendEntry::Gcs(backend);
    assert_eq!(entry.backend_type(), "gcs");
    assert_eq!(entry.disk_cache_size_gb(), Some(DiskCacheSize::Explicit(4)));
    assert!(!entry.is_local());
    assert_eq!(entry.provider_label(), "GCS");
    assert!(BackendEntry::Local(local("/")).is_local());
    assert_eq!(BackendEntry::Azure(azure("a", "c")).backend_type(), "azure");
    assert_eq!(RetentionMode::NoRetention.label(), "none");
    assert_eq!(RetentionMode::Governance.label(), "governance");
    assert_eq!(RetentionMode::Compliance.label(), "compliance");
    for mode in [RetentionMode::NoRetention, RetentionMode::Governance, RetentionMode::Compliance] {
        assert_eq!(RetentionMode::parse(mode.label()), Some(mode));
    }
    assert_eq!(RetentionMode::parse(""), None);
    assert_eq!(RetentionMode::parse("None"), None);
    assert_eq!(RetentionMode::parse("governance "), None);
}
