//! The storage section of the configuration: named backends and the settings they share.

use vstd::prelude::*;

use crate::compression::{CompressionAlgo, CompressionConfig, ZSTD_DEFAULT_LEVEL};
use crate::config_error::ObjectStoreConfigError;
use crate::disk_cache_size::DiskCacheSize;
use crate::error::ObjectStoreError;
use crate::table::NameTable;
use crate::text;

verus! {

/// A result of the configuration layer.
pub type ObjectStoreConfigResult<T> = Result<T, ObjectStoreConfigError>;

/// The immutability that the operator declares for a bucket. The bucket is the contract: the
/// declaration says what to expect, not what to set up.
#[derive(Debug, Clone, Copy, PartialEq, Eq, Structural)]
pub enum RetentionMode {
    /// No immutability.
    NoRetention,
    /// Retention that privileged users can shorten.
    Governance,
    /// Irrevocable retention.
    Compliance,
}

/// The short name of a retention mode.
pub open spec fn mode_label(mode: RetentionMode) -> Seq<char> {
    match mode {
        RetentionMode::NoRetention => "none"@,
        RetentionMode::Governance => "governance"@,
        RetentionMode::Compliance => "compliance"@,
    }
}

/// The retention mode that a word of the configuration stands for, if it stands for one.
pub open spec fn mode_named(word: Seq<char>) -> Option<RetentionMode> {
    if word == "none"@ {
        Some(RetentionMode::NoRetention)
    } else if word == "governance"@ {
        Some(RetentionMode::Governance)
    } else if word == "compliance"@ {
        Some(RetentionMode::Compliance)
    } else {
        None
    }
}

/// A mode is read from its short name and from no other word, and different modes have
/// different names.
pub proof fn law_label_reads_back(mode: RetentionMode, other: RetentionMode, word: Seq<char>)
    ensures
        mode_named(mode_label(mode)) == Some(mode),
        mode_named(word) == Some(mode) <==> word == mode_label(mode),
        mode_label(mode) == mode_label(other) <==> mode == other,
{
    reveal_strlit("none");
    reveal_strlit("governance");
    reveal_strlit("compliance");
    assert("none"@.len() == 4);
    assert("governance"@[0] == 'g');
    assert("compliance"@[0] == 'c');
}

impl RetentionMode {
    /// Reads a mode as the configuration spells it.
    pub fn parse(word: &str) -> (r: Option<Self>)
        ensures
            r == mode_named(word@),
    {
        if text::same(word, "none") {
            Some(RetentionMode::NoRetention)
        } else if text::same(word, "governance") {
            Some(RetentionMode::Governance)
        } else if text::same(word, "compliance") {
            Some(RetentionMode::Compliance)
        } else {
            None
        }
    }

    /// Whether any immutability is declared.
    pub fn requires_lock(self) -> (r: bool)
        ensures
            r == (self != RetentionMode::NoRetention),
    {
        match self {
            RetentionMode::NoRetention => false,
            _ => true,
        }
    }

    /// Short name for logs and messages, which is also the word of the configuration.
    pub fn label(self) -> (r: &'static str)
        ensures
            r@ == mode_label(self),
            mode_named(r@) == Some(self),
    {
        proof {
            law_label_reads_back(self, self, mode_label(self));
        }
        match self {
            RetentionMode::NoRetention => "none",
            RetentionMode::Governance => "governance",
            RetentionMode::Compliance => "compliance",
        }
    }
}

impl Default for RetentionMode {
    fn default() -> (r: Self)
        ensures
            r == RetentionMode::NoRetention,
    {
        RetentionMode::NoRetention
    }
}

/// Credentials of an S3 backend. Where they are given, nothing else is consulted.
#[derive(Debug, Clone)]
pub enum S3Auth {
    /// Written in the configuration.
    Static { access_key_id: String, secret_access_key: String, session_token: Option<String> },
    /// Read from the named environment variables.
    Env {
        access_key_id_env: String,
        secret_access_key_env: String,
        session_token_env: Option<String>,
    },
    /// A named profile of the AWS configuration files.
    Profile { name: String },
}

/// S3 credentials after the environment was consulted.
#[derive(Debug, Clone)]
pub enum ResolvedS3Auth {
    Static { access_key_id: String, secret_access_key: String, session_token: Option<String> },
    Profile { name: String },
}

/// Credentials of an Azure backend. Where they are given, nothing else is consulted.
#[derive(Debug, Clone)]
pub enum AzureAuth {
    /// A URL that carries a shared access signature.
    SasUrl { value: String },
    /// Such a URL in the named environment variable.
    SasUrlEnv { env: String },
    /// A service principal. Needed for containers with retention.
    ServicePrincipal { tenant_id: String, client_id: String, client_secret: String },
    /// A service principal from the named environment variables.
    ServicePrincipalEnv {
        tenant_id_env: String,
        client_id_env: String,
        client_secret_env: String,
    },
}

/// Azure credentials after the environment was consulted.
#[derive(Debug, Clone)]
pub enum ResolvedAzureAuth {
    SasUrl(String),
    ServicePrincipal { tenant_id: String, client_id: String, client_secret: String },
}

/// `r` reports that the variable `name` is not set.
pub open spec fn reports_missing<T>(r: ObjectStoreConfigResult<T>, name: String) -> bool {
    r matches Err(ObjectStoreConfigError::AuthEnvVarMissing(n)) && n == name
}

/// What S3 credentials resolve to in an environment. Variables are consulted in the order key,
/// secret, token, and the first that is not set is reported.
pub open spec fn s3_resolves(
    auth: S3Auth,
    env: Map<Seq<char>, String>,
    r: ObjectStoreConfigResult<ResolvedS3Auth>,
) -> bool {
    match auth {
        S3Auth::Static { access_key_id, secret_access_key, session_token } => r == Ok::<
            ResolvedS3Auth,
            ObjectStoreConfigError,
        >(ResolvedS3Auth::Static { access_key_id, secret_access_key, session_token }),
        S3Auth::Profile { name } => r == Ok::<ResolvedS3Auth, ObjectStoreConfigError>(
            ResolvedS3Auth::Profile { name },
        ),
        S3Auth::Env { access_key_id_env, secret_access_key_env, session_token_env } => if !env.contains_key(
            access_key_id_env@,
        ) {
            reports_missing(r, access_key_id_env)
        } else if !env.contains_key(secret_access_key_env@) {
            reports_missing(r, secret_access_key_env)
        } else if session_token_env is Some && !env.contains_key(session_token_env->Some_0@) {
            reports_missing(r, session_token_env->Some_0)
        } else {
            r == Ok::<ResolvedS3Auth, ObjectStoreConfigError>(
                ResolvedS3Auth::Static {
                    access_key_id: env[access_key_id_env@],
                    secret_access_key: env[secret_access_key_env@],
                    session_token: match session_token_env {
                        Some(name) => Some(env[name@]),
                        None => None,
                    },
                },
            )
        },
    }
}

/// What Azure credentials resolve to in an environment. Variables are consulted in the order
/// tenant, client, secret, and the first that is not set is reported.
pub open spec fn azure_resolves(
    auth: AzureAuth,
    env: Map<Seq<char>, String>,
    r: ObjectStoreConfigResult<ResolvedAzureAuth>,
) -> bool {
    match auth {
        AzureAuth::SasUrl { value } => r == Ok::<ResolvedAzureAuth, ObjectStoreConfigError>(
            ResolvedAzureAuth::SasUrl(value),
        ),
        AzureAuth::SasUrlEnv { env: name } => if !env.contains_key(name@) {
            reports_missing(r, name)
        } else {
            r == Ok::<ResolvedAzureAuth, ObjectStoreConfigError>(
                ResolvedAzureAuth::SasUrl(env[name@]),
            )
        },
        AzureAuth::ServicePrincipal { tenant_id, client_id, client_secret } => r == Ok::<
            ResolvedAzureAuth,
            ObjectStoreConfigError,
        >(ResolvedAzureAuth::ServicePrincipal { tenant_id, client_id, client_secret }),
        AzureAuth::ServicePrincipalEnv { tenant_id_env, client_id_env, client_secret_env } => if !env.contains_key(
            tenant_id_env@,
        ) {
            reports_missing(r, tenant_id_env)
        } else if !env.contains_key(client_id_env@) {
            reports_missing(r, client_id_env)
        } else if !env.contains_key(client_secret_env@) {
            reports_missing(r, client_secret_env)
        } else {
            r == Ok::<ResolvedAzureAuth, ObjectStoreConfigError>(
                ResolvedAzureAuth::ServicePrincipal {
                    tenant_id: env[tenant_id_env@],
                    client_id: env[client_id_env@],
                    client_secret: env[client_secret_env@],
                },
            )
        },
    }
}

/// The value of an environment variable.
fn read_env(env: &NameTable<String>, name: &String) -> (r: ObjectStoreConfigResult<String>)
    requires
        env.wf(),
    ensures
        r is Ok <==> env@.contains_key(name@),
        r matches Ok(v) ==> v == env@[name@],
        r is Err ==> reports_missing(r, *name),
{
    match env.get(name) {
        Some(v) => Ok(v.clone()),
        None => Err(ObjectStoreConfigError::AuthEnvVarMissing(name.clone())),
    }
}

impl S3Auth {
    /// The environment variables that these credentials may consult, in order.
    pub fn env_names(&self) -> (r: Vec<String>)
        ensures
            r@ == (match *self {
                S3Auth::Env { access_key_id_env, secret_access_key_env, session_token_env } => match session_token_env {
                    Some(token) => seq![access_key_id_env, secret_access_key_env, token],
                    None => seq![access_key_id_env, secret_access_key_env],
                },
                _ => Seq::<String>::empty(),
            }),
    {
        let mut names: Vec<String> = Vec::new();
        match self {
            S3Auth::Env { access_key_id_env, secret_access_key_env, session_token_env } => {
                names.push(access_key_id_env.clone());
                names.push(secret_access_key_env.clone());
                match session_token_env {
                    Some(token) => names.push(token.clone()),
                    None => {},
                }
            },
            _ => {},
        }
        names
    }

    /// Resolves the credentials; `env` holds the variables that are set.
    pub fn resolve(&self, env: &NameTable<String>) -> (r: ObjectStoreConfigResult<ResolvedS3Auth>)
        requires
            env.wf(),
        ensures
            s3_resolves(*self, env@, r),
    {
        match self {
            S3Auth::Static { access_key_id, secret_access_key, session_token } => Ok(
                ResolvedS3Auth::Static {
                    access_key_id: access_key_id.clone(),
                    secret_access_key: secret_access_key.clone(),
                    session_token: text::clone_opt(session_token),
                },
            ),
            S3Auth::Env { access_key_id_env, secret_access_key_env, session_token_env } => {
                let access_key_id = match read_env(env, access_key_id_env) {
                    Ok(v) => v,
                    Err(e) => return Err(e),
                };
                let secret_access_key = match read_env(env, secret_access_key_env) {
                    Ok(v) => v,
                    Err(e) => return Err(e),
                };
                let session_token = match session_token_env {
                    Some(name) => match read_env(env, name) {
                        Ok(v) => Some(v),
                        Err(e) => return Err(e),
                    },
                    None => None,
                };
                Ok(ResolvedS3Auth::Static { access_key_id, secret_access_key, session_token })
            },
            S3Auth::Profile { name } => Ok(ResolvedS3Auth::Profile { name: name.clone() }),
        }
    }
}

impl AzureAuth {
    /// The environment variables that these credentials may consult, in order.
    pub fn env_names(&self) -> (r: Vec<String>)
        ensures
            r@ == (match *self {
                AzureAuth::SasUrlEnv { env } => seq![env],
                AzureAuth::ServicePrincipalEnv {
                    tenant_id_env,
                    client_id_env,
                    client_secret_env,
                } => seq![tenant_id_env, client_id_env, client_secret_env],
                _ => Seq::<String>::empty(),
            }),
    {
        let mut names: Vec<String> = Vec::new();
        match self {
            AzureAuth::SasUrlEnv { env } => {
                names.push(env.clone());
            },
            AzureAuth::ServicePrincipalEnv { tenant_id_env, client_id_env, client_secret_env } => {
                names.push(tenant_id_env.clone());
                names.push(client_id_env.clone());
                names.push(client_secret_env.clone());
            },
            _ => {},
        }
        names
    }

    /// Resolves the credentials; `env` holds the variables that are set.
    pub fn resolve(&self, env: &NameTable<String>) -> (r: ObjectStoreConfigResult<
        ResolvedAzureAuth,
    >)
        requires
            env.wf(),
        ensures
            azure_resolves(*self, env@, r),
    {
        match self {
            AzureAuth::SasUrl { value } => Ok(ResolvedAzureAuth::SasUrl(value.clone())),
            AzureAuth::SasUrlEnv { env: name } => match read_env(env, name) {
                Ok(v) => Ok(ResolvedAzureAuth::SasUrl(v)),
                Err(e) => Err(e),
            },
            AzureAuth::ServicePrincipal { tenant_id, client_id, client_secret } => Ok(
                ResolvedAzureAuth::ServicePrincipal {
                    tenant_id: tenant_id.clone(),
                    client_id: client_id.clone(),
                    client_secret: client_secret.clone(),
                },
            ),
            AzureAuth::ServicePrincipalEnv { tenant_id_env, client_id_env, client_secret_env } => {
                let tenant_id = match read_env(env, tenant_id_env) {
                    Ok(v) => v,
                    Err(e) => return Err(e),
                };
                let client_id = match read_env(env, client_id_env) {
                    Ok(v) => v,
                    Err(e) => return Err(e),
                };
                let client_secret = match read_env(env, client_secret_env) {
                    Ok(v) => v,
                    Err(e) => return Err(e),
                };
                Ok(ResolvedAzureAuth::ServicePrincipal { tenant_id, client_id, client_secret })
            },
        }
    }
}

/// An S3 or S3-compatible bucket.
#[derive(Debug, Clone)]
pub struct S3BackendConfig {
    pub bucket: String,
    /// Put in front of every key; empty keeps objects at the bucket root.
    pub prefix: String,
    pub region: String,
    pub endpoint_url: Option<String>,
    /// Overrides the choice of path-style request URLs.
    pub path_style: Option<bool>,
    pub retention_mode: RetentionMode,
    /// Without credentials the provider's default chain is used.
    pub auth: Option<S3Auth>,
    /// Overrides the shared disk-cache size.
    pub disk_cache_size_gb: Option<DiskCacheSize>,
}

/// A Google Cloud Storage bucket.
#[derive(Debug, Clone)]
pub struct GcsBackendConfig {
    pub bucket: String,
    pub prefix: String,
    pub project_id: String,
    /// A key file; without one the application default credentials are used.
    pub service_account_key_file: Option<String>,
    pub retention_mode: RetentionMode,
    pub disk_cache_size_gb: Option<DiskCacheSize>,
}

/// An Azure blob container.
#[derive(Debug, Clone)]
pub struct AzureBackendConfig {
    pub storage_account: String,
    pub container: String,
    pub prefix: String,
    pub endpoint_url: Option<String>,
    pub retention_mode: RetentionMode,
    /// Subscription and resource group address the immutability policy of the container.
    pub subscription_id: Option<String>,
    pub resource_group: Option<String>,
    pub auth: Option<AzureAuth>,
    pub disk_cache_size_gb: Option<DiskCacheSize>,
}

/// A local directory.
#[derive(Debug, Clone)]
pub struct LocalBackendConfig {
    pub root_dir: String,
    pub disk_cache_size_gb: Option<DiskCacheSize>,
}

/// One named backend.
#[derive(Debug, Clone)]
pub enum BackendEntry {
    S3(S3BackendConfig),
    Gcs(GcsBackendConfig),
    Azure(AzureBackendConfig),
    Local(LocalBackendConfig),
}

/// The type name of a backend.
pub open spec fn kind_name(entry: BackendEntry) -> Seq<char> {
    match entry {
        BackendEntry::S3(_) => "s3"@,
        BackendEntry::Gcs(_) => "gcs"@,
        BackendEntry::Azure(_) => "azure"@,
        BackendEntry::Local(_) => "local"@,
    }
}

/// What a backend stores into, for messages.
pub open spec fn target_of(entry: BackendEntry) -> Seq<char> {
    match entry {
        BackendEntry::S3(c) => c.bucket@,
        BackendEntry::Gcs(c) => c.bucket@,
        BackendEntry::Azure(c) => c.storage_account@ + "/"@ + c.container@,
        BackendEntry::Local(c) => c.root_dir@,
    }
}

/// The key prefix of a backend.
pub open spec fn prefix_of(entry: BackendEntry) -> Seq<char> {
    match entry {
        BackendEntry::S3(c) => c.prefix@,
        BackendEntry::Gcs(c) => c.prefix@,
        BackendEntry::Azure(c) => c.prefix@,
        BackendEntry::Local(_) => Seq::empty(),
    }
}

/// The declared retention of a backend; a directory has none.
pub open spec fn retention_of(entry: BackendEntry) -> RetentionMode {
    match entry {
        BackendEntry::S3(c) => c.retention_mode,
        BackendEntry::Gcs(c) => c.retention_mode,
        BackendEntry::Azure(c) => c.retention_mode,
        BackendEntry::Local(_) => RetentionMode::NoRetention,
    }
}

/// An Azure backend that declares retention without the fields that address its policy.
pub open spec fn lacks_policy_address(entry: BackendEntry) -> bool {
    entry matches BackendEntry::Azure(a) && a.retention_mode != RetentionMode::NoRetention && (
    a.subscription_id is None || a.resource_group is None)
}

impl BackendEntry {
    /// The type name of this backend.
    pub fn backend_type(&self) -> (r: &'static str)
        ensures
            r@ == kind_name(*self),
    {
        match self {
            BackendEntry::S3(_) => "s3",
            BackendEntry::Gcs(_) => "gcs",
            BackendEntry::Azure(_) => "azure",
            BackendEntry::Local(_) => "local",
        }
    }

    /// This backend's override of the shared disk-cache size, if it has one.
    pub fn disk_cache_size_gb(&self) -> (r: Option<DiskCacheSize>)
        ensures
            r == (match *self {
                BackendEntry::S3(c) => c.disk_cache_size_gb,
                BackendEntry::Gcs(c) => c.disk_cache_size_gb,
                BackendEntry::Azure(c) => c.disk_cache_size_gb,
                BackendEntry::Local(c) => c.disk_cache_size_gb,
            }),
    {
        match self {
            BackendEntry::S3(c) => c.disk_cache_size_gb,
            BackendEntry::Gcs(c) => c.disk_cache_size_gb,
            BackendEntry::Azure(c) => c.disk_cache_size_gb,
            BackendEntry::Local(c) => c.disk_cache_size_gb,
        }
    }

    /// Whether this is a local directory.
    pub fn is_local(&self) -> (r: bool)
        ensures
            r == (*self is Local),
    {
        match self {
            BackendEntry::Local(_) => true,
            _ => false,
        }
    }

    /// Whether this backend lacks the fields that address its immutability policy.
    fn policy_address_missing(&self) -> (r: bool)
        ensures
            r == lacks_policy_address(*self),
    {
        match self {
            BackendEntry::Azure(a) => a.retention_mode.requires_lock() && (
            a.subscription_id.is_none() || a.resource_group.is_none()),
            _ => false,
        }
    }
}

/// Upload tuning.
#[derive(Debug, Clone, Copy, PartialEq, Eq, Structural)]
pub struct UploadConfig {
    /// Concurrent uploads per backend; zero scales with the host.
    pub max_concurrent: usize,
    pub retry_max_attempts: u32,
    /// How long one write may wait for room in the pool.
    pub backpressure_max_wait_seconds: u32,
}

/// Largest concurrency that is chosen automatically.
pub const AUTO_CONCURRENCY_CAP: usize = 16;

/// Processors assumed where the host does not tell.
pub const ASSUMED_CPUS: usize = 4;

/// Four uploads per processor, at most [`AUTO_CONCURRENCY_CAP`].
pub open spec fn auto_concurrency(cpus: usize) -> int {
    if cpus * 4 < AUTO_CONCURRENCY_CAP {
        cpus * 4
    } else {
        AUTO_CONCURRENCY_CAP as int
    }
}

impl UploadConfig {
    /// The effective concurrency and where it comes from. `parallelism` is what the host says
    /// of its processors, if it says anything.
    pub fn resolve_max_concurrent(&self, parallelism: Option<usize>) -> (r: (usize, String))
        ensures
            self.max_concurrent == 0 ==> {
                let cpus = match parallelism {
                    Some(n) => n,
                    None => ASSUMED_CPUS,
                };
                &&& r.0 == auto_concurrency(cpus)
                &&& r.1@ == "auto-detected from num_cpus="@ + text::decimal(cpus as nat)
            },
            self.max_concurrent != 0 ==> r.0 == self.max_concurrent && r.1@ == "operator override"@,
    {
        if self.max_concurrent == 0 {
            let cpus: usize = match parallelism {
                Some(n) => n,
                None => ASSUMED_CPUS,
            };
            let resolved: usize = if cpus < AUTO_CONCURRENCY_CAP / 4 {
                cpus * 4
            } else {
                AUTO_CONCURRENCY_CAP
            };
            let source = text::concat2(
                "auto-detected from num_cpus=",
                text::decimal_text(cpus as u64).as_str(),
            );
            (resolved, source)
        } else {
            (self.max_concurrent, "operator override".to_owned())
        }
    }
}

impl Default for UploadConfig {
    fn default() -> (r: Self)
        ensures
            r == (UploadConfig {
                max_concurrent: 0,
                retry_max_attempts: 10,
                backpressure_max_wait_seconds: 60,
            }),
    {
        UploadConfig { max_concurrent: 0, retry_max_attempts: 10, backpressure_max_wait_seconds: 60 }
    }
}

/// The compression algorithm as the configuration spells it.
#[derive(Debug, Clone, Copy, PartialEq, Eq, Structural)]
pub enum CompressionAlgoYaml {
    NoCompression,
    Lz4,
    Zstd,
}

/// The compression section of the configuration.
#[derive(Debug, Clone, Copy, PartialEq, Eq, Structural)]
pub struct CompressionConfigYaml {
    pub algorithm: CompressionAlgoYaml,
    /// Applies to zstd alone.
    pub level: i32,
}

impl CompressionConfigYaml {
    /// The compression settings that this section asks for.
    pub open spec fn settings(self) -> CompressionConfig {
        CompressionConfig {
            algorithm: match self.algorithm {
                CompressionAlgoYaml::NoCompression => None,
                CompressionAlgoYaml::Lz4 => Some(CompressionAlgo::Lz4),
                CompressionAlgoYaml::Zstd => Some(CompressionAlgo::Zstd),
            },
            level: self.level,
        }
    }

    /// The compression settings that this section asks for.
    pub fn to_core(&self) -> (r: CompressionConfig)
        ensures
            r == self.settings(),
    {
        let algo = match self.algorithm {
            CompressionAlgoYaml::NoCompression => None,
            CompressionAlgoYaml::Lz4 => Some(CompressionAlgo::Lz4),
            CompressionAlgoYaml::Zstd => Some(CompressionAlgo::Zstd),
        };
        CompressionConfig::new(algo, self.level)
    }
}

impl Default for CompressionConfigYaml {
    fn default() -> (r: Self)
        ensures
            r == (CompressionConfigYaml {
                algorithm: CompressionAlgoYaml::Zstd,
                level: ZSTD_DEFAULT_LEVEL,
            }),
    {
        CompressionConfigYaml { algorithm: CompressionAlgoYaml::Zstd, level: ZSTD_DEFAULT_LEVEL }
    }
}

/// The storage section.
#[derive(Debug)]
pub struct ObjectStoreConfig {
    pub upload: UploadConfig,
    pub compression: CompressionConfigYaml,
    /// May be empty: what names a missing backend fails when it is used.
    pub backends: NameTable<BackendEntry>,
    /// Trust the declared retention without asking the bucket.
    pub skip_retention_mode_check: bool,
    /// Seconds between reachability checks; zero checks on demand only.
    pub check_interval_seconds: u64,
}

impl Default for ObjectStoreConfig {
    fn default() -> (r: Self)
        ensures
            r.wf(),
            r.upload == (UploadConfig {
                max_concurrent: 0,
                retry_max_attempts: 10,
                backpressure_max_wait_seconds: 60,
            }),
            r.compression == (CompressionConfigYaml {
                algorithm: CompressionAlgoYaml::Zstd,
                level: ZSTD_DEFAULT_LEVEL,
            }),
            r.backends@ == Map::<Seq<char>, BackendEntry>::empty(),
            !r.skip_retention_mode_check,
            r.check_interval_seconds == 0,
    {
        ObjectStoreConfig {
            upload: UploadConfig::default(),
            compression: CompressionConfigYaml::default(),
            backends: NameTable::new(),
            skip_retention_mode_check: false,
            check_interval_seconds: 0,
        }
    }
}

/// Credentials that a backend is constructed with.
#[derive(Debug, Clone)]
pub enum ResolvedAuth {
    /// The provider's own chain, or none needed.
    Default,
    S3(ResolvedS3Auth),
    Azure(ResolvedAzureAuth),
}

/// What a backend is constructed from. The constructed backend is put behind a fact cache that
/// goes by the backend's name.
#[derive(Debug)]
pub struct BackendPlan<'a> {
    pub entry: &'a BackendEntry,
    pub auth: ResolvedAuth,
    pub compression: CompressionConfig,
}

/// The credentials of an entry resolved in an environment.
pub open spec fn entry_resolves(
    entry: BackendEntry,
    env: Map<Seq<char>, String>,
    r: ObjectStoreConfigResult<ResolvedAuth>,
) -> bool {
    match entry {
        BackendEntry::S3(c) if c.auth is Some => exists|x: ObjectStoreConfigResult<ResolvedS3Auth>|
            #![trigger s3_resolves(c.auth->Some_0, env, x)]
            s3_resolves(c.auth->Some_0, env, x) && match x {
                Ok(a) => r == Ok::<ResolvedAuth, ObjectStoreConfigError>(ResolvedAuth::S3(a)),
                Err(e) => r == Err::<ResolvedAuth, ObjectStoreConfigError>(e),
            },
        BackendEntry::Azure(c) if c.auth is Some => exists|
            x: ObjectStoreConfigResult<ResolvedAzureAuth>,
        |
            #![trigger azure_resolves(c.auth->Some_0, env, x)]
            azure_resolves(c.auth->Some_0, env, x) && match x {
                Ok(a) => r == Ok::<ResolvedAuth, ObjectStoreConfigError>(ResolvedAuth::Azure(a)),
                Err(e) => r == Err::<ResolvedAuth, ObjectStoreConfigError>(e),
            },
        _ => r == Ok::<ResolvedAuth, ObjectStoreConfigError>(ResolvedAuth::Default),
    }
}

impl BackendEntry {
    /// Resolves this backend's credentials, if it has any.
    fn resolve_auth(&self, env: &NameTable<String>) -> (r: ObjectStoreConfigResult<ResolvedAuth>)
        requires
            env.wf(),
        ensures
            entry_resolves(*self, env@, r),
    {
        match self {
            BackendEntry::S3(c) => match &c.auth {
                Some(auth) => {
                    let resolved = auth.resolve(env);
                    assert(s3_resolves(c.auth->Some_0, env@, resolved));
                    match resolved {
                        Ok(a) => Ok(ResolvedAuth::S3(a)),
                        Err(e) => Err(e),
                    }
                },
                None => Ok(ResolvedAuth::Default),
            },
            BackendEntry::Azure(c) => match &c.auth {
                Some(auth) => {
                    let resolved = auth.resolve(env);
                    assert(azure_resolves(c.auth->Some_0, env@, resolved));
                    match resolved {
                        Ok(a) => Ok(ResolvedAuth::Azure(a)),
                        Err(e) => Err(e),
                    }
                },
                None => Ok(ResolvedAuth::Default),
            },
            _ => Ok(ResolvedAuth::Default),
        }
    }

    /// The provider's name in construction failures.
    pub fn provider_label(&self) -> (r: &'static str)
        ensures
            r@ == provider_name(*self),
    {
        match self {
            BackendEntry::S3(_) => "S3",
            BackendEntry::Gcs(_) => "GCS",
            BackendEntry::Azure(_) => "Azure",
            BackendEntry::Local(_) => "Local",
        }
    }
}

/// The provider's name.
pub open spec fn provider_name(entry: BackendEntry) -> Seq<char> {
    match entry {
        BackendEntry::S3(_) => "S3"@,
        BackendEntry::Gcs(_) => "GCS"@,
        BackendEntry::Azure(_) => "Azure"@,
        BackendEntry::Local(_) => "Local"@,
    }
}

impl<'a> BackendPlan<'a> {
    /// Reports that construction failed.
    pub fn init_failed(&self, source: ObjectStoreError) -> (r: ObjectStoreConfigError)
        ensures
            r matches ObjectStoreConfigError::BackendInit { backend, source: s } && backend@
                == provider_name(*self.entry) && s == source,
    {
        ObjectStoreConfigError::BackendInit { backend: self.entry.provider_label(), source }
    }
}

impl ObjectStoreConfig {
    /// The backend table is well formed.
    pub open spec fn wf(&self) -> bool {
        self.backends.wf()
    }

    /// The named backend.
    pub open spec fn entry(&self, name: Seq<char>) -> Option<BackendEntry> {
        if self.backends@.contains_key(name) {
            Some(self.backends@[name])
        } else {
            None
        }
    }

    /// Checks that every Azure backend with retention can address its policy, and reports the
    /// first by name that cannot. Nothing is checked where the retention check is off.
    pub fn validate_backends(&self) -> (r: ObjectStoreConfigResult<()>)
        requires
            self.wf(),
        ensures
            r is Ok <==> self.skip_retention_mode_check || (forall|i: int|
                0 <= i < self.backends.names().len() ==> !lacks_policy_address(
                    self.backends@[#[trigger] self.backends.names()[i]],
                )),
            r matches Err(e) ==> exists|i: int|
                0 <= i < self.backends.names().len() && lacks_policy_address(
                    self.backends@[#[trigger] self.backends.names()[i]],
                ) && (forall|j: int|
                    0 <= j < i ==> !lacks_policy_address(
                        self.backends@[#[trigger] self.backends.names()[j]],
                    )) && (e matches ObjectStoreConfigError::AzureRetentionFieldsMissing { name }
                    && name@ == self.backends.names()[i]),
    {
        if self.skip_retention_mode_check {
            return Ok(());
        }
        let mut i: usize = 0;
        while i < self.backends.len()
            invariant
                self.wf(),
                0 <= i <= self.backends.names().len(),
                !self.skip_retention_mode_check,
                forall|j: int|
                    0 <= j < i ==> !lacks_policy_address(
                        self.backends@[#[trigger] self.backends.names()[j]],
                    ),
            decreases self.backends.names().len() - i,
        {
            let entry = self.backends.value_at(i);
            if entry.policy_address_missing() {
                let name = self.backends.name_at(i).to_owned();
                return Err(ObjectStoreConfigError::AzureRetentionFieldsMissing { name });
            }
            i = i + 1;
        }
        Ok(())
    }

    /// The names of all backends, in order.
    pub fn backend_names(&self) -> (r: Vec<String>)
        requires
            self.wf(),
        ensures
            r@.map_values(|s: String| s@) == self.backends.names(),
    {
        let mut out: Vec<String> = Vec::new();
        let mut i: usize = 0;
        let ghost read = |s: String| s@;
        assert(out@.map_values(read) =~= self.backends.names().take(0));
        while i < self.backends.len()
            invariant
                0 <= i <= self.backends.names().len(),
                read == (|s: String| s@),
                out@.map_values(read) == self.backends.names().take(i as int),
            decreases self.backends.names().len() - i,
        {
            let ghost before = out@;
            let name = self.backends.name_at(i).to_owned();
            out.push(name);
            assert(out@.map_values(read) =~= before.map_values(read).push(name@));
            assert(self.backends.names().take(i as int + 1) =~= self.backends.names().take(
                i as int,
            ).push(name@));
            i = i + 1;
        }
        assert(self.backends.names().take(i as int) =~= self.backends.names());
        out
    }

    /// Whether exactly one backend is configured, so that it need not be named.
    pub fn is_single_backend(&self) -> (r: bool)
        ensures
            r == (self.backends.names().len() == 1),
    {
        self.backends.len() == 1
    }

    /// The named backend, or an error that carries the name.
    pub fn backend_entry(&self, name: &str) -> (r: ObjectStoreConfigResult<&BackendEntry>)
        requires
            self.wf(),
        ensures
            match r {
                Ok(entry) => self.entry(name@) == Some(*entry),
                Err(e) => self.entry(name@) is None && (e matches ObjectStoreConfigError::UnknownBackend(
                    n,
                ) && n@ == name@),
            },
    {
        match self.backends.get(name) {
            Some(entry) => Ok(entry),
            None => Err(ObjectStoreConfigError::UnknownBackend(name.to_owned())),
        }
    }

    /// What the named backend is constructed from; `env` holds the variables that are set.
    pub fn create_backend_named(&self, name: &str, env: &NameTable<String>) -> (r:
        ObjectStoreConfigResult<BackendPlan<'_>>)
        requires
            self.wf(),
            env.wf(),
        ensures
            match self.entry(name@) {
                None => r matches Err(ObjectStoreConfigError::UnknownBackend(n)) && n@ == name@,
                Some(entry) => exists|auth: ObjectStoreConfigResult<ResolvedAuth>|
                    #![trigger entry_resolves(entry, env@, auth)]
                    entry_resolves(entry, env@, auth) && match auth {
                        Ok(a) => r matches Ok(plan) && *plan.entry == entry && plan.auth == a
                            && plan.compression == self.compression.settings(),
                        Err(e) => r matches Err(e2) && e2 == e,
                    },
            },
    {
        let compression = self.compression.to_core();
        let entry = match self.backend_entry(name) {
            Ok(entry) => entry,
            Err(e) => return Err(e),
        };
        let auth = entry.resolve_auth(env);
        assert(entry_resolves(*entry, env@, auth));
        match auth {
            Ok(auth) => Ok(BackendPlan { entry, auth, compression }),
            Err(e) => Err(e),
        }
    }

    /// What the named backend stores into, for messages.
    pub fn target_label_named(&self, name: &str) -> (r: Option<String>)
        requires
            self.wf(),
        ensures
            match self.entry(name@) {
                Some(entry) => r matches Some(s) && s@ == target_of(entry),
                None => r is None,
            },
    {
        match self.backends.get(name) {
            None => None,
            Some(entry) => Some(
                match entry {
                    BackendEntry::S3(c) => c.bucket.clone(),
                    BackendEntry::Gcs(c) => c.bucket.clone(),
                    BackendEntry::Azure(c) => {
                        let mut s = text::concat2(&c.storage_account, "/");
                        s.append(&c.container);
                        s
                    },
                    BackendEntry::Local(c) => c.root_dir.clone(),
                },
            ),
        }
    }

    /// The key prefix of the named backend; empty for directories and unknown names.
    pub fn prefix_named(&self, name: &str) -> (r: &str)
        requires
            self.wf(),
        ensures
            r@ == (match self.entry(name@) {
                Some(entry) => prefix_of(entry),
                None => Seq::empty(),
            }),
    {
        proof {
            reveal_strlit("");
        }
        match self.backends.get(name) {
            Some(BackendEntry::S3(c)) => c.prefix.as_str(),
            Some(BackendEntry::Gcs(c)) => c.prefix.as_str(),
            Some(BackendEntry::Azure(c)) => c.prefix.as_str(),
            _ => "",
        }
    }

    /// The declared retention of the named backend; none for directories and unknown names.
    pub fn retention_mode_named(&self, name: &str) -> (r: RetentionMode)
        requires
            self.wf(),
        ensures
            r == (match self.entry(name@) {
                Some(entry) => retention_of(entry),
                None => RetentionMode::NoRetention,
            }),
    {
        match self.backends.get(name) {
            Some(BackendEntry::S3(c)) => c.retention_mode,
            Some(BackendEntry::Gcs(c)) => c.retention_mode,
            Some(BackendEntry::Azure(c)) => c.retention_mode,
            _ => RetentionMode::NoRetention,
        }
    }
}

pub const LEGACY_FILE: &'static str = "cloud-backends.json";

pub const LEGACY_EXISTS: &'static str =
    " exists.\n\
     \n\
     Cloud backend definitions now live in the YAML conffile.\n\
     Copy each entry from ";

pub const LEGACY_BLOCK: &'static str =
    " into the `cloud.backends:`\n\
     block of ";

pub const LEGACY_TAIL: &'static str =
    ". The JSON\n\
     shape maps 1:1 to YAML — keys and field names are unchanged.\n\
     \n\
     See /usr/share/doc/<product>/AUTH.md (or docs/AUTH.md\n\
     in source) for the YAML shape per provider.";

/// The path of the backend file that older releases kept in the data directory.
pub fn legacy_backends_path(data_dir: &str) -> (r: String)
    ensures
        r@ == text::joined(data_dir@, LEGACY_FILE@),
{
    text::join_path(data_dir, LEGACY_FILE)
}

/// The refusal to start next to a legacy backend file.
pub open spec fn legacy_refusal(legacy: Seq<char>, config_path: Seq<char>) -> Seq<char> {
    "refusing to start: "@ + legacy + LEGACY_EXISTS@ + legacy + LEGACY_BLOCK@ + config_path
        + ", then remove "@ + legacy + LEGACY_TAIL@
}

/// Refuses to start while the legacy backend file is present.
pub fn reject_legacy_cloud_backends_json(
    data_dir: &str,
    config_path: &str,
    present: bool,
) -> (r: Result<(), String>)
    ensures
        r is Ok <==> !present,
        r matches Err(m) ==> m@ == legacy_refusal(
            text::joined(data_dir@, LEGACY_FILE@),
            config_path@,
        ),
{
    let legacy = legacy_backends_path(data_dir);
    if !present {
        return Ok(());
    }
    let mut m = text::concat2("refusing to start: ", &legacy);
    m.append(LEGACY_EXISTS);
    m.append(&legacy);
    m.append(LEGACY_BLOCK);
    m.append(config_path);
    m.append(", then remove ");
    m.append(&legacy);
    m.append(LEGACY_TAIL);
    Err(m)
}

/// The automatic concurrency of a host with a processor is between one and its cap.
pub proof fn law_auto_concurrency_is_bounded(cpus: usize)
    requires
        cpus > 0,
    ensures
        1 <= auto_concurrency(cpus) <= AUTO_CONCURRENCY_CAP,
{
}

/// Credentials that consult no variable resolve in every environment, to the same thing.
pub proof fn law_inline_credentials_ignore_the_environment(
    auth: S3Auth,
    a: Map<Seq<char>, String>,
    b: Map<Seq<char>, String>,
    r: ObjectStoreConfigResult<ResolvedS3Auth>,
)
    requires
        !(auth is Env),
    ensures
        s3_resolves(auth, a, r) == s3_resolves(auth, b, r),
        s3_resolves(auth, a, r) ==> r is Ok,
{
}

/// The same of a container's credentials.
pub proof fn law_inline_container_credentials_ignore_the_environment(
    auth: AzureAuth,
    a: Map<Seq<char>, String>,
    b: Map<Seq<char>, String>,
    r: ObjectStoreConfigResult<ResolvedAzureAuth>,
)
    requires
        auth is SasUrl || auth is ServicePrincipal,
    ensures
        azure_resolves(auth, a, r) == azure_resolves(auth, b, r),
        azure_resolves(auth, a, r) ==> r is Ok,
{
}

} // verus!
