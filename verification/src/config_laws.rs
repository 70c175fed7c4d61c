//! Laws of the configuration: what its questions answer about the entries that are written down.

use vstd::prelude::*;

use crate::compression::{CompressionAlgo, CompressionConfig};
use crate::config::{
    self, AzureAuth, BackendEntry, BackendPlan, CompressionAlgoYaml, CompressionConfigYaml,
    ObjectStoreConfig, ResolvedAuth, ResolvedAzureAuth, ResolvedS3Auth, RetentionMode, S3Auth,
    UploadConfig,
};
use crate::config_error::ObjectStoreConfigError;
use crate::disk_cache_size::DiskCacheSize;
use crate::error::ObjectStoreError;
use crate::table::NameTable;

verus! {

/// The declared retention of a remote backend is the one that its entry states, whichever
/// provider it is of. A directory and an unknown name declare none.
pub proof fn law_declared_retention_is_the_stated_one(
    cfg: ObjectStoreConfig,
    name: &str,
    r: RetentionMode,
)
    requires
        call_ensures(ObjectStoreConfig::retention_mode_named, (&cfg, name), r),
    ensures
        cfg.backends@.contains_key(name@) ==> match cfg.backends@[name@] {
            BackendEntry::S3(c) => r == c.retention_mode,
            BackendEntry::Gcs(c) => r == c.retention_mode,
            BackendEntry::Azure(c) => r == c.retention_mode,
            BackendEntry::Local(_) => r == RetentionMode::NoRetention,
        },
        !cfg.backends@.contains_key(name@) ==> r == RetentionMode::NoRetention,
{
}

/// Two configurations that state different retentions for a bucket get different answers about
/// it.
pub proof fn law_stated_retentions_are_told_apart(
    a: ObjectStoreConfig,
    b: ObjectStoreConfig,
    name: &str,
    ra: RetentionMode,
    rb: RetentionMode,
)
    requires
        call_ensures(ObjectStoreConfig::retention_mode_named, (&a, name), ra),
        call_ensures(ObjectStoreConfig::retention_mode_named, (&b, name), rb),
        a.backends@.contains_key(name@),
        b.backends@.contains_key(name@),
        match (a.backends@[name@], b.backends@[name@]) {
            (BackendEntry::S3(x), BackendEntry::S3(y)) => x.retention_mode != y.retention_mode,
            (BackendEntry::Gcs(x), BackendEntry::Gcs(y)) => x.retention_mode != y.retention_mode,
            (BackendEntry::Azure(x), BackendEntry::Azure(y)) => x.retention_mode
                != y.retention_mode,
            _ => false,
        },
    ensures
        ra != rb,
{
}

/// The prefix and the target of a backend are those that its entry states. A directory has no
/// prefix and is its own target; an unknown name has neither.
pub proof fn law_prefix_and_target_are_the_stated_ones(
    cfg: ObjectStoreConfig,
    name: &str,
    prefix: &str,
    target: Option<String>,
)
    requires
        call_ensures(ObjectStoreConfig::prefix_named, (&cfg, name), prefix),
        call_ensures(ObjectStoreConfig::target_label_named, (&cfg, name), target),
    ensures
        cfg.backends@.contains_key(name@) ==> match cfg.backends@[name@] {
            BackendEntry::S3(c) => prefix@ == c.prefix@ && (target matches Some(t) && t@
                == c.bucket@),
            BackendEntry::Gcs(c) => prefix@ == c.prefix@ && (target matches Some(t) && t@
                == c.bucket@),
            BackendEntry::Azure(c) => prefix@ == c.prefix@ && (target matches Some(t) && t@
                == c.storage_account@ + "/"@ + c.container@),
            BackendEntry::Local(c) => prefix@.len() == 0 && (target matches Some(t) && t@
                == c.root_dir@),
        },
        !cfg.backends@.contains_key(name@) ==> prefix@.len() == 0 && target is None,
{
}

/// A backend is found under its name exactly if it is configured, and the error about one that
/// is not carries the name.
pub proof fn law_backends_are_found_by_name(
    cfg: ObjectStoreConfig,
    name: &str,
    r: Result<&BackendEntry, ObjectStoreConfigError>,
)
    requires
        call_ensures(ObjectStoreConfig::backend_entry, (&cfg, name), r),
    ensures
        r is Ok <==> cfg.backends@.contains_key(name@),
        r matches Ok(entry) ==> *entry == cfg.backends@[name@],
        r matches Err(e) ==> (e matches ObjectStoreConfigError::UnknownBackend(n) && n@ == name@),
{
}

/// Every configured name is listed once and in order, and nothing else is.
pub proof fn law_every_backend_is_listed(
    cfg: ObjectStoreConfig,
    names: Vec<String>,
    single: bool,
    name: Seq<char>,
)
    requires
        cfg.wf(),
        call_ensures(ObjectStoreConfig::backend_names, (&cfg,), names),
        call_ensures(ObjectStoreConfig::is_single_backend, (&cfg,), single),
    ensures
        cfg.backends@.contains_key(name) <==> exists|i: int|
            0 <= i < names@.len() && (#[trigger] names@[i])@ == name,
        forall|i: int, j: int|
            0 <= i < j < names@.len() ==> (#[trigger] names@[i])@ != (#[trigger] names@[j])@,
        single <==> names@.len() == 1,
{
    let all = cfg.backends.names();
    let v = names@.map_values(|s: String| s@);
    cfg.backends.lemma_names();
    assert(v == all && v.len() == names@.len());
    if cfg.backends@.contains_key(name) {
        let i = choose|i: int| 0 <= i < all.len() && all[i] == name;
        assert(v[i] == names@[i]@);
    }
    if exists|i: int| 0 <= i < names@.len() && (#[trigger] names@[i])@ == name {
        let i = choose|i: int| 0 <= i < names@.len() && (#[trigger] names@[i])@ == name;
        assert(v[i] == names@[i]@);
        assert(all.contains(name));
    }
    assert forall|i: int, j: int| 0 <= i < j < names@.len() implies (#[trigger] names@[i])@ != (
    #[trigger] names@[j])@ by {
        assert(v[i] == names@[i]@ && v[j] == names@[j]@);
    }
}

/// The configuration is refused exactly if an Azure backend declares retention without both the
/// subscription and the resource group, unless the retention check is off. The error names
/// such a backend.
pub proof fn law_retention_needs_a_policy_address(
    cfg: ObjectStoreConfig,
    r: Result<(), ObjectStoreConfigError>,
    name: Seq<char>,
)
    requires
        cfg.wf(),
        call_ensures(ObjectStoreConfig::validate_backends, (&cfg,), r),
    ensures
        cfg.skip_retention_mode_check ==> r is Ok,
        r is Ok && !cfg.skip_retention_mode_check && cfg.backends@.contains_key(name) ==> (
        cfg.backends@[name] matches BackendEntry::Azure(a) ==> a.retention_mode
            == RetentionMode::NoRetention || (a.subscription_id is Some && a.resource_group
            is Some)),
        r matches Err(e) ==> (e matches ObjectStoreConfigError::AzureRetentionFieldsMissing {
            name: n,
        } && cfg.backends@.contains_key(n@) && (cfg.backends@[n@] matches BackendEntry::Azure(a)
            && a.retention_mode != RetentionMode::NoRetention && (a.subscription_id is None
            || a.resource_group is None))),
{
    let all = cfg.backends.names();
    cfg.backends.lemma_names();
    if cfg.backends@.contains_key(name) {
        let i = choose|i: int| 0 <= i < all.len() && all[i] == name;
        assert(all[i] == name);
    }
    if r is Err {
        let i = choose|i: int|
            0 <= i < all.len() && config::lacks_policy_address(cfg.backends@[#[trigger] all[i]])
                && (r->Err_0 matches ObjectStoreConfigError::AzureRetentionFieldsMissing { name: n }
                && n@ == all[i]);
        assert(all.contains(all[i]));
    }
}

/// A retention mode reads back from its name, and no other word is a mode. It requires a lock
/// exactly if it declares any immutability.
pub proof fn law_retention_words(
    mode: RetentionMode,
    label: &'static str,
    word: &str,
    read: Option<RetentionMode>,
    locks: bool,
)
    requires
        call_ensures(RetentionMode::label, (mode,), label),
        call_ensures(RetentionMode::parse, (word,), read),
        call_ensures(RetentionMode::requires_lock, (mode,), locks),
    ensures
        read == Some(mode) <==> word@ == label@,
        read == Some(RetentionMode::NoRetention) <==> word@ == "none"@,
        read == Some(RetentionMode::Governance) <==> word@ == "governance"@,
        read == Some(RetentionMode::Compliance) <==> word@ == "compliance"@,
        locks <==> mode != RetentionMode::NoRetention,
{
    config::law_label_reads_back(mode, mode, word@);
    config::law_label_reads_back(RetentionMode::NoRetention, mode, word@);
    config::law_label_reads_back(RetentionMode::Governance, mode, word@);
    config::law_label_reads_back(RetentionMode::Compliance, mode, word@);
}

/// S3 credentials resolve exactly if every variable that they name is set. Written credentials
/// and profiles stand as they are; named variables are replaced by their values.
pub proof fn law_bucket_credentials_resolve(
    auth: S3Auth,
    env: NameTable<String>,
    names: Vec<String>,
    r: Result<ResolvedS3Auth, ObjectStoreConfigError>,
)
    requires
        call_ensures(S3Auth::env_names, (&auth,), names),
        call_ensures(S3Auth::resolve, (&auth, &env), r),
    ensures
        r is Ok <==> forall|i: int| 0 <= i < names@.len() ==> env@.contains_key(
            (#[trigger] names@[i])@,
        ),
        r matches Err(e) ==> (e matches ObjectStoreConfigError::AuthEnvVarMissing(n)
            && !env@.contains_key(n@) && names@.contains(n)),
        auth matches S3Auth::Static { access_key_id: a, secret_access_key: s, session_token: t }
            ==> names@.len() == 0 && (r matches Ok(
            ResolvedS3Auth::Static { access_key_id, secret_access_key, session_token },
        ) && access_key_id == a && secret_access_key == s && session_token == t),
        auth matches S3Auth::Profile { name: p } ==> names@.len() == 0 && (r matches Ok(
            ResolvedS3Auth::Profile { name },
        ) && name == p),
        (auth matches S3Auth::Env {
            access_key_id_env: a,
            secret_access_key_env: s,
            session_token_env: t,
        } && r is Ok) ==> (r matches Ok(
            ResolvedS3Auth::Static { access_key_id, secret_access_key, session_token },
        ) && access_key_id == env@[auth->access_key_id_env@] && secret_access_key
            == env@[auth->secret_access_key_env@] && (session_token is Some
            <==> auth->session_token_env is Some) && (auth->session_token_env matches Some(n)
            ==> session_token == Some(env@[n@]))),
        auth is Env ==> names@.len() == (if auth->session_token_env is Some {
            3int
        } else {
            2
        }),
{
    if auth is Env {
        assert(names@[0] == auth->access_key_id_env);
        assert(names@[1] == auth->secret_access_key_env);
        if auth->session_token_env is Some {
            assert(names@[2] == auth->session_token_env->Some_0);
        }
    }
}

/// The same of a container's credentials.
pub proof fn law_container_credentials_resolve(
    auth: AzureAuth,
    env: NameTable<String>,
    names: Vec<String>,
    r: Result<ResolvedAzureAuth, ObjectStoreConfigError>,
)
    requires
        call_ensures(AzureAuth::env_names, (&auth,), names),
        call_ensures(AzureAuth::resolve, (&auth, &env), r),
    ensures
        r is Ok <==> forall|i: int| 0 <= i < names@.len() ==> env@.contains_key(
            (#[trigger] names@[i])@,
        ),
        r matches Err(e) ==> (e matches ObjectStoreConfigError::AuthEnvVarMissing(n)
            && !env@.contains_key(n@) && names@.contains(n)),
        auth matches AzureAuth::SasUrl { value } ==> names@.len() == 0 && (r matches Ok(
            ResolvedAzureAuth::SasUrl(url),
        ) && url == value),
        auth matches AzureAuth::ServicePrincipal { tenant_id: t, client_id: c, client_secret: s }
            ==> names@.len() == 0 && (r matches Ok(
            ResolvedAzureAuth::ServicePrincipal { tenant_id, client_id, client_secret },
        ) && tenant_id == t && client_id == c && client_secret == s),
        auth is SasUrlEnv ==> names@.len() == 1 && (r is Ok ==> (r matches Ok(
            ResolvedAzureAuth::SasUrl(url),
        ) && url == env@[auth->env@])),
        auth is ServicePrincipalEnv ==> names@.len() == 3 && (r is Ok ==> (r matches Ok(
            ResolvedAzureAuth::ServicePrincipal { tenant_id, client_id, client_secret },
        ) && tenant_id == env@[auth->tenant_id_env@] && client_id == env@[auth->client_id_env@]
            && client_secret == env@[auth->client_secret_env@])),
{
    match auth {
        AzureAuth::SasUrlEnv { env: name } => {
            assert(names@[0] == name);
        },
        AzureAuth::ServicePrincipalEnv { tenant_id_env, client_id_env, client_secret_env } => {
            assert(names@[0] == tenant_id_env);
            assert(names@[1] == client_id_env);
            assert(names@[2] == client_secret_env);
        },
        _ => {},
    }
}

/// A backend is constructed from its own entry, with the credentials that the entry names and
/// the compression of the configuration. Without credentials in the entry the provider's own
/// are used, and an unknown name is refused.
pub proof fn law_backends_are_made_from_their_entries(
    cfg: ObjectStoreConfig,
    name: &str,
    env: NameTable<String>,
    r: Result<BackendPlan<'_>, ObjectStoreConfigError>,
    compression: CompressionConfig,
)
    requires
        call_ensures(ObjectStoreConfig::create_backend_named, (&cfg, name, &env), r),
        call_ensures(CompressionConfigYaml::to_core, (&cfg.compression,), compression),
    ensures
        !cfg.backends@.contains_key(name@) ==> (r matches Err(
            ObjectStoreConfigError::UnknownBackend(n),
        ) && n@ == name@),
        r matches Ok(plan) ==> cfg.backends@.contains_key(name@) && *plan.entry
            == cfg.backends@[name@] && plan.compression == compression,
        cfg.backends@.contains_key(name@) ==> match cfg.backends@[name@] {
            BackendEntry::S3(c) => c.auth is None ==> (r matches Ok(plan) && plan.auth
                == ResolvedAuth::Default),
            BackendEntry::Azure(c) => c.auth is None ==> (r matches Ok(plan) && plan.auth
                == ResolvedAuth::Default),
            _ => r matches Ok(plan) && plan.auth == ResolvedAuth::Default,
        },
{
}

/// The credentials that an entry states are the ones its backend is constructed with: written
/// ones stand in the plan as they are, and those that name a variable that is not set keep the
/// backend from being constructed.
pub proof fn law_stated_credentials_reach_the_backend(
    cfg: ObjectStoreConfig,
    name: &str,
    env: NameTable<String>,
    r: Result<BackendPlan<'_>, ObjectStoreConfigError>,
)
    requires
        call_ensures(ObjectStoreConfig::create_backend_named, (&cfg, name, &env), r),
        cfg.backends@.contains_key(name@),
    ensures
        cfg.backends@[name@] matches BackendEntry::S3(c) ==> (c.auth matches Some(
            S3Auth::Static { access_key_id: a, secret_access_key: s, session_token: t },
        ) ==> (r matches Ok(plan) && plan.auth == ResolvedAuth::S3(
            ResolvedS3Auth::Static { access_key_id: a, secret_access_key: s, session_token: t },
        ))),
        cfg.backends@[name@] matches BackendEntry::S3(c) ==> (c.auth matches Some(
            S3Auth::Env { access_key_id_env: a, .. },
        ) ==> (!env@.contains_key(a@) ==> (r matches Err(
            ObjectStoreConfigError::AuthEnvVarMissing(n),
        ) && n == a))),
        cfg.backends@[name@] matches BackendEntry::Azure(c) ==> (c.auth matches Some(
            AzureAuth::SasUrl { value },
        ) ==> (r matches Ok(plan) && plan.auth == ResolvedAuth::Azure(
            ResolvedAzureAuth::SasUrl(value),
        ))),
        cfg.backends@[name@] matches BackendEntry::Azure(c) ==> (c.auth matches Some(
            AzureAuth::SasUrlEnv { env: v },
        ) ==> (!env@.contains_key(v@) ==> (r matches Err(
            ObjectStoreConfigError::AuthEnvVarMissing(n),
        ) && n == v))),
{
}

/// The configured compression is the one asked for: none, LZ4 or Zstandard, at the level given.
pub proof fn law_configured_compression(yaml: CompressionConfigYaml, r: CompressionConfig)
    requires
        call_ensures(CompressionConfigYaml::to_core, (&yaml,), r),
    ensures
        r.algorithm is None <==> yaml.algorithm == CompressionAlgoYaml::NoCompression,
        r.algorithm == Some(CompressionAlgo::Lz4) <==> yaml.algorithm == CompressionAlgoYaml::Lz4,
        r.algorithm == Some(CompressionAlgo::Zstd) <==> yaml.algorithm == CompressionAlgoYaml::Zstd,
        r.level == yaml.level,
{
}

/// An operator's choice of concurrency stands. Without one there are four uploads for each
/// processor, sixteen at most, and sixteen on a host that does not tell.
pub proof fn law_upload_concurrency(
    upload: UploadConfig,
    cpus: Option<usize>,
    r: (usize, String),
)
    requires
        call_ensures(UploadConfig::resolve_max_concurrent, (&upload, cpus), r),
    ensures
        upload.max_concurrent > 0 ==> r.0 == upload.max_concurrent,
        upload.max_concurrent == 0 && cpus is None ==> r.0 == 16,
        upload.max_concurrent == 0 ==> (cpus matches Some(n) ==> r.0 <= 16 && r.0 <= 4 * n && (r.0
            == 16 || r.0 == 4 * n)),
{
}

/// An entry is of the provider that it is written for, in every word that tells providers
/// apart, and its cache size is the one it states.
pub proof fn law_entries_know_their_provider(
    entry: BackendEntry,
    kind: &'static str,
    provider: &'static str,
    local: bool,
    size: Option<DiskCacheSize>,
)
    requires
        call_ensures(BackendEntry::backend_type, (&entry,), kind),
        call_ensures(BackendEntry::provider_label, (&entry,), provider),
        call_ensures(BackendEntry::is_local, (&entry,), local),
        call_ensures(BackendEntry::disk_cache_size_gb, (&entry,), size),
    ensures
        match entry {
            BackendEntry::S3(c) => kind@ == "s3"@ && provider@ == "S3"@ && !local && size
                == c.disk_cache_size_gb,
            BackendEntry::Gcs(c) => kind@ == "gcs"@ && provider@ == "GCS"@ && !local && size
                == c.disk_cache_size_gb,
            BackendEntry::Azure(c) => kind@ == "azure"@ && provider@ == "Azure"@ && !local && size
                == c.disk_cache_size_gb,
            BackendEntry::Local(c) => kind@ == "local"@ && provider@ == "Local"@ && local && size
                == c.disk_cache_size_gb,
        },
{
}

/// A failed construction is reported under the provider's name with the failure itself.
pub proof fn law_failed_constructions(
    plan: BackendPlan<'_>,
    source: ObjectStoreError,
    r: ObjectStoreConfigError,
    provider: &'static str,
)
    requires
        call_ensures(BackendPlan::init_failed, (&plan, source), r),
        call_ensures(BackendEntry::provider_label, (plan.entry,), provider),
    ensures
        r matches ObjectStoreConfigError::BackendInit { backend, source: s } && backend@
            == provider@ && s == source,
{
}

/// A left-over backend file of an older release stops the start exactly if it is there, and the
/// refusal names its path.
pub proof fn law_legacy_file_stops_the_start(
    data_dir: &str,
    config_path: &str,
    present: bool,
    path: String,
    r: Result<(), String>,
)
    requires
        call_ensures(config::legacy_backends_path, (data_dir,), path),
        call_ensures(
            config::reject_legacy_cloud_backends_json,
            (data_dir, config_path, present),
            r,
        ),
    ensures
        r is Err <==> present,
        r matches Err(m) ==> m@.len() >= path@.len(),
        data_dir@.len() > 0 && data_dir@.last() != '/' ==> path@ == data_dir@ + "/"@
            + "cloud-backends.json"@,
{
    reveal_strlit("cloud-backends.json");
}

} // verus!
