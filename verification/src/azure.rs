//! The Azure Blob backend around its provider calls: credentials, addresses, and what replies
//! and failures mean.

use vstd::prelude::*;

use crate::compression::{self, CompressionAlgo, CompressionConfig};
use crate::config::ResolvedAzureAuth;
use crate::error::{self, ObjectStoreError};
use crate::failure::{self, FailureKind};
use crate::helpers;
use crate::lock::LockState;
use crate::objects::{self, Listing, StoredChunk};
use crate::text;

verus! {

/// Environment variable with a URL that carries a shared access signature.
pub const SAS_URL_VAR: &'static str = "AZURE_STORAGE_SAS_URL";

/// Environment variables with a service principal.
pub const TENANT_VAR: &'static str = "AZURE_TENANT_ID";

pub const CLIENT_VAR: &'static str = "AZURE_CLIENT_ID";

pub const SECRET_VAR: &'static str = "AZURE_CLIENT_SECRET";

/// Scope of the tokens for the management plane.
pub const ARM_SCOPE: &'static str = "https://management.azure.com/.default";

/// Metadata key of the compression level.
pub const LEVEL_KEY: &'static str = "compression_level";

/// The kinds of client failure that are told apart.
#[derive(Debug, Clone, Copy, PartialEq, Eq, Structural)]
pub enum AzureErrorKind {
    /// A token could not be had.
    Credential,
    /// The service could not be reached.
    Connection,
    /// Local input or output failed.
    Io,
    Other,
}

/// The class that the signals of a failure amount to: a credential failure outranks a network
/// failure, which outranks the HTTP status.
pub open spec fn signal_class(
    http: Option<u16>,
    is_credential: bool,
    is_network: bool,
) -> FailureKind {
    if is_credential {
        FailureKind::Auth
    } else if is_network {
        FailureKind::Network
    } else {
        match http {
            Some(status) => failure::class_of_status(status),
            None => FailureKind::Other,
        }
    }
}

/// Classifies a failure by its signals.
pub fn classify_azure_signal(http: Option<u16>, is_credential: bool, is_network: bool) -> (r:
    FailureKind)
    ensures
        r == signal_class(http, is_credential, is_network),
{
    if is_credential {
        return FailureKind::Auth;
    }
    if is_network {
        return FailureKind::Network;
    }
    match http {
        Some(status) => failure::http_status_to_failure_kind(status),
        None => FailureKind::Other,
    }
}

/// The class of a client failure.
pub open spec fn error_class(kind: AzureErrorKind, http: Option<u16>) -> FailureKind {
    signal_class(
        http,
        kind == AzureErrorKind::Credential,
        kind == AzureErrorKind::Connection || kind == AzureErrorKind::Io,
    )
}

/// Classifies a client failure.
pub fn classify_azure_error(kind: AzureErrorKind, http: Option<u16>) -> (r: FailureKind)
    ensures
        r == error_class(kind, http),
{
    let (is_credential, is_network) = match kind {
        AzureErrorKind::Credential => (true, false),
        AzureErrorKind::Connection | AzureErrorKind::Io => (false, true),
        AzureErrorKind::Other => (false, false),
    };
    classify_azure_signal(http, is_credential, is_network)
}

/// A failed call: its kind, its HTTP status and its text.
#[derive(Debug, Clone)]
pub struct AzureFailure {
    pub kind: AzureErrorKind,
    pub http: Option<u16>,
    pub display: String,
}

/// What a backend authenticates with.
#[derive(Debug, Clone)]
pub enum AzureCredential {
    /// A URL that carries a shared access signature; it is also the container's address.
    SasUrl(String),
    /// A service principal.
    ServicePrincipal { tenant_id: String, client_id: String, client_secret: String },
    /// The managed identity of the host, then the developer tools.
    FallbackChain,
}

/// What the environment offers to authenticate with: a shared access signature outranks a
/// service principal, which must be complete; the fallback chain is what is left.
pub open spec fn discovered(
    sas: Option<Seq<char>>,
    tenant: Option<Seq<char>>,
    client: Option<Seq<char>>,
    secret: Option<Seq<char>>,
    c: AzureCredential,
) -> bool {
    match sas {
        Some(url) => c matches AzureCredential::SasUrl(u) && u@ == url,
        None => if tenant is Some && client is Some && secret is Some {
            c matches AzureCredential::ServicePrincipal { tenant_id, client_id, client_secret }
                && tenant_id@ == tenant->Some_0 && client_id@ == client->Some_0 && client_secret@
                == secret->Some_0
        } else {
            c is FallbackChain
        },
    }
}

/// What the environment offers to authenticate with; the arguments are the values of the
/// variables that are set.
pub fn discover_credentials_from_env(
    sas: Option<&str>,
    tenant: Option<&str>,
    client: Option<&str>,
    secret: Option<&str>,
) -> (r: AzureCredential)
    ensures
        discovered(text::opt_text(sas), text::opt_text(tenant), text::opt_text(client), text::opt_text(secret), r),
{
    match sas {
        Some(url) => AzureCredential::SasUrl(url.to_owned()),
        None => match (tenant, client, secret) {
            (Some(t), Some(c), Some(s)) => AzureCredential::ServicePrincipal {
                tenant_id: t.to_owned(),
                client_id: c.to_owned(),
                client_secret: s.to_owned(),
            },
            _ => AzureCredential::FallbackChain,
        },
    }
}

/// Why a text is not a URL, if it is none.
pub uninterp spec fn sas_url_complaint(url: Seq<char>) -> Option<Seq<char>>;

/// `azure_core::http::Url::parse`: the error's text when the URL is refused, named by
/// `sas_url_complaint`.
#[verifier::external_body]
fn sas_url_error(url: &str) -> (r: Option<String>)
    ensures
        text::opt_view(r) == sas_url_complaint(url@),
{
    azure_core::http::Url::parse(url).err().map(|e| e.to_string())
}

/// The verdict on a signed URL, given what was found wrong with it.
pub fn sas_url_verdict(complaint: Option<String>) -> (r: Result<(), ObjectStoreError>)
    ensures
        match complaint {
            None => r is Ok,
            Some(e) => r matches Err(ObjectStoreError::Other(m)) && m@
                == "Azure SAS URL parse failed: "@ + e@,
        },
{
    match complaint {
        None => Ok(()),
        Some(e) => Err(ObjectStoreError::Other(text::concat2("Azure SAS URL parse failed: ", &e))),
    }
}

/// The credential that is used: the given one alone, or without any what was found.
pub open spec fn chosen_credential(
    auth: Option<ResolvedAzureAuth>,
    found: AzureCredential,
) -> AzureCredential {
    match auth {
        Some(ResolvedAzureAuth::SasUrl(url)) => AzureCredential::SasUrl(url),
        Some(ResolvedAzureAuth::ServicePrincipal { tenant_id, client_id, client_secret }) =>
            AzureCredential::ServicePrincipal { tenant_id, client_id, client_secret },
        None => found,
    }
}

/// What is wrong with the address that a credential carries, if anything.
pub open spec fn address_complaint(credential: AzureCredential) -> Option<Seq<char>> {
    match credential {
        AzureCredential::SasUrl(url) => sas_url_complaint(url@),
        _ => None,
    }
}

/// How the container client of a backend is set up.
#[derive(Debug, Clone)]
pub enum AzureConnection {
    /// From a container URL that carries its own authorization.
    FromUrl { url: String },
    /// From the account's endpoint and a token credential.
    FromEndpoint { endpoint: String },
}

/// What the service reports of a container's immutability policy.
#[derive(Debug, Clone)]
pub struct PolicyProperties {
    pub period_days: Option<u32>,
    pub state: Option<String>,
}

/// The lock state that a policy amounts to. A policy without a period, or in an unknown state,
/// is no lock.
pub open spec fn policy_meant(policy: Option<PolicyProperties>) -> LockState {
    match policy {
        None => LockState::Off,
        Some(p) => match (p.period_days, p.state) {
            (Some(days), Some(state)) => if days == 0 {
                LockState::Off
            } else if state@ == "Locked"@ {
                LockState::Compliance { default_days: days }
            } else if state@ == "Unlocked"@ {
                LockState::Governance { default_days: days }
            } else {
                LockState::Off
            },
            _ => LockState::Off,
        },
    }
}

/// The lock state that a policy amounts to.
pub fn lock_state_of(policy: &Option<PolicyProperties>) -> (r: LockState)
    ensures
        r == policy_meant(*policy),
{
    let policy = match policy {
        Some(p) => p,
        None => return LockState::Off,
    };
    let days: u32 = match policy.period_days {
        Some(d) => d,
        None => 0,
    };
    if days == 0 {
        return LockState::Off;
    }
    match &policy.state {
        Some(state) => if text::same(state, "Locked") {
            LockState::Compliance { default_days: days }
        } else if text::same(state, "Unlocked") {
            LockState::Governance { default_days: days }
        } else {
            LockState::Off
        },
        None => LockState::Off,
    }
}

/// What has to be done to learn a container's lock state.
#[derive(Debug, Clone)]
pub enum LockLookup {
    /// Nothing: it is known.
    Known(LockState),
    /// Get the policy from this address, with a token for the management plane.
    Query { url: String },
}

pub const LOCK_NEEDS_AAD: &'static str =
    "Azure lock_state requires AAD (managed identity / az login / \
     service principal); SAS auth cannot query the ARM management \
     plane";

/// The address of a container's immutability policy.
pub open spec fn policy_url(
    subscription: Seq<char>,
    group: Seq<char>,
    account: Seq<char>,
    container: Seq<char>,
) -> Seq<char> {
    "https://management.azure.com/subscriptions/"@ + subscription + "/resourceGroups/"@ + group
        + "/providers/Microsoft.Storage/storageAccounts/"@ + account
        + "/blobServices/default/containers/"@ + container
        + "/immutabilityPolicies/default?api-version=2023-01-01"@
}

/// The metadata of an uploaded chunk: the compression marker, and for zstd the level.
pub open spec fn chunk_metadata(algo: Option<CompressionAlgo>, level: i32) -> Seq<
    (Seq<char>, Seq<char>),
> {
    let marker = (objects::MARKER_KEY@, objects::marker_of(algo));
    if algo == Some(CompressionAlgo::Zstd) {
        seq![marker, (LEVEL_KEY@, text::decimal_int(level as int))]
    } else {
        seq![marker]
    }
}

/// The metadata of an uploaded chunk.
pub fn upload_options_with_metadata(algo: Option<CompressionAlgo>, level: i32) -> (r: Vec<
    (String, String),
>)
    ensures
        objects::pair_views(r@) == chunk_metadata(algo, level),
{
    let mut out: Vec<(String, String)> = Vec::new();
    let marker = objects::marker(algo);
    out.push((objects::MARKER_KEY.to_owned(), marker.to_owned()));
    if let Some(CompressionAlgo::Zstd) = algo {
        out.push((LEVEL_KEY.to_owned(), text::decimal_int_text(level)));
    }
    assert(objects::pair_views(out@) =~= chunk_metadata(algo, level));
    out
}

/// What to do after a source of a credential chain was asked for a token.
#[derive(Debug, Clone, Copy, PartialEq, Eq, Structural)]
pub enum ChainStep {
    /// Use its token.
    Use,
    /// Ask the next source.
    TryNext,
    /// Report its failure.
    Fail,
}

/// What to do after source `index` of `count` gave a token or failed to: only the failure of
/// the last source is reported.
pub open spec fn chain_rule(index: nat, count: nat, gave_token: bool) -> ChainStep {
    if gave_token {
        ChainStep::Use
    } else if index + 1 < count {
        ChainStep::TryNext
    } else {
        ChainStep::Fail
    }
}

/// What to do after source `index` of `count` gave a token or failed to.
pub fn chain_step(index: usize, count: usize, gave_token: bool) -> (r: ChainStep)
    requires
        index < count,
    ensures
        r == chain_rule(index as nat, count as nat, gave_token),
{
    if gave_token {
        ChainStep::Use
    } else if index < count - 1 {
        ChainStep::TryNext
    } else {
        ChainStep::Fail
    }
}

/// The source that a chain stops at, asking from `index` on, and whether its token is used.
/// `gives[i]` tells whether source `i` gives a token.
pub open spec fn chain_end(gives: Seq<bool>, index: nat) -> (nat, bool)
    decreases gives.len() - index,
{
    match chain_rule(index, gives.len(), gives[index as int]) {
        ChainStep::Use => (index, true),
        ChainStep::Fail => (index, false),
        ChainStep::TryNext => if index < gives.len() {
            chain_end(gives, index + 1)
        } else {
            (index, false)
        },
    }
}

/// The Azure Blob backend.
#[derive(Debug, Clone)]
pub struct AzureBackend {
    account: String,
    container_name: String,
    prefix: String,
    endpoint_url: Option<String>,
    subscription_id: Option<String>,
    resource_group: Option<String>,
    compression_config: CompressionConfig,
    has_token_credential: bool,
}

impl AzureBackend {
    /// The storage account.
    pub closed spec fn account(self) -> Seq<char> {
        self.account@
    }

    /// The container.
    pub closed spec fn container(self) -> Seq<char> {
        self.container_name@
    }

    /// The key prefix.
    pub closed spec fn prefix(self) -> Seq<char> {
        self.prefix@
    }

    /// The subscription and the resource group, where both are known.
    pub closed spec fn policy_address(self) -> Option<(Seq<char>, Seq<char>)> {
        match (self.subscription_id, self.resource_group) {
            (Some(s), Some(g)) => Some((s@, g@)),
            _ => None,
        }
    }

    /// The compression settings.
    pub closed spec fn compression(self) -> CompressionConfig {
        self.compression_config
    }

    /// Whether tokens for the management plane can be had.
    pub closed spec fn mints_tokens(self) -> bool {
        self.has_token_credential
    }

    /// A backend, the set-up of its client and its credential. Credentials that are given are
    /// used alone; without any, `found` is what the environment offers. A signed URL is the
    /// address of the container, and one that is no URL is refused; otherwise the container is
    /// addressed through the custom endpoint or the account's own.
    pub fn new(
        account: String,
        container_name: String,
        prefix: String,
        endpoint_url: Option<String>,
        subscription_id: Option<String>,
        resource_group: Option<String>,
        auth: Option<ResolvedAzureAuth>,
        found: AzureCredential,
        compression_config: CompressionConfig,
    ) -> (r: Result<(Self, AzureConnection, AzureCredential), ObjectStoreError>)
        ensures
            match address_complaint(chosen_credential(auth, found)) {
                Some(e) => r matches Err(ObjectStoreError::Other(m)) && m@
                    == "Azure SAS URL parse failed: "@ + e,
                None => r matches Ok((backend, connection, credential)) && {
                    &&& backend.account() == account@
                    &&& backend.container() == container_name@
                    &&& backend.prefix() == prefix@
                    &&& backend.compression() == compression_config
                    &&& backend.policy_address() == (match (subscription_id, resource_group) {
                        (Some(s), Some(g)) => Some((s@, g@)),
                        _ => None,
                    })
                    &&& credential == chosen_credential(auth, found)
                    &&& backend.mints_tokens() <==> !(credential is SasUrl)
                    &&& match credential {
                        AzureCredential::SasUrl(url) => connection == (AzureConnection::FromUrl {
                            url,
                        }),
                        _ => connection matches AzureConnection::FromEndpoint { endpoint }
                            && endpoint@ == (match endpoint_url {
                            Some(custom) => custom@,
                            None => "https://"@ + account@ + ".blob.core.windows.net/"@,
                        }),
                    }
                },
            },
    {
        let credential = match auth {
            Some(ResolvedAzureAuth::SasUrl(url)) => AzureCredential::SasUrl(url),
            Some(ResolvedAzureAuth::ServicePrincipal { tenant_id, client_id, client_secret }) =>
                AzureCredential::ServicePrincipal { tenant_id, client_id, client_secret },
            None => found,
        };
        let connection = match &credential {
            AzureCredential::SasUrl(url) => {
                match sas_url_verdict(sas_url_error(url.as_str())) {
                    Ok(()) => AzureConnection::FromUrl { url: url.clone() },
                    Err(e) => return Err(e),
                }
            },
            _ => {
                let endpoint = match &endpoint_url {
                    Some(custom) => custom.clone(),
                    None => {
                        let mut s = text::concat2("https://", &account);
                        s.append(".blob.core.windows.net/");
                        s
                    },
                };
                AzureConnection::FromEndpoint { endpoint }
            },
        };
        let has_token_credential = match &credential {
            AzureCredential::SasUrl(_) => false,
            _ => true,
        };
        let backend = AzureBackend {
            account,
            container_name,
            prefix,
            endpoint_url,
            subscription_id,
            resource_group,
            compression_config,
            has_token_credential,
        };
        Ok((backend, connection, credential))
    }

    /// Legal holds can be placed on objects.
    pub fn supports_legal_hold(&self) -> (r: bool)
        ensures
            r,
    {
        true
    }

    /// The kind of this backend.
    pub fn backend_type(&self) -> (r: &'static str)
        ensures
            r@ == "azure"@,
    {
        "azure"
    }

    /// The blob name as the service sees it.
    pub fn full_key(&self, key: &str) -> (r: String)
        ensures
            r@ == self.prefix() + key@,
    {
        helpers::full_key(&self.prefix, key)
    }

    /// What is stored, and where, to upload a chunk.
    pub fn upload_chunk(&self, key: &str, data: &[u8]) -> (r: Result<
        (String, StoredChunk),
        ObjectStoreError,
    >)
        ensures
            match objects::stored_bytes(self.compression(), data@) {
                Ok(bytes) => r matches Ok((full_key, stored)) && {
                    &&& full_key@ == self.prefix() + key@
                    &&& stored.bytes@ == bytes
                    &&& stored.outcome.uncompressed == data@.len()
                    &&& stored.outcome.algo == self.compression().algorithm
                    &&& stored.outcome.compressed is Some <==> self.compression().algorithm is Some
                    &&& stored.outcome.compressed matches Some(n) ==> n == bytes.len()
                    &&& stored.marker@ == objects::marker_of(self.compression().algorithm)
                },
                Err(m) => r matches Err(ObjectStoreError::Compression(t)) && t@ == m,
            },
            r matches Ok((_, stored)) ==> (objects::chunk_of(Some(stored.marker@), stored.bytes@)
                matches Ok(d) && d == data@),
    {
        match objects::encode_chunk(self.compression_config, data) {
            Ok(stored) => Ok((self.full_key(key), stored)),
            Err(e) => Err(e),
        }
    }

    /// The metadata that an uploaded chunk gets.
    pub fn metadata_of(&self, stored: &StoredChunk) -> (r: Vec<(String, String)>)
        ensures
            objects::pair_views(r@) == chunk_metadata(stored.outcome.algo, self.compression().level),
    {
        upload_options_with_metadata(stored.outcome.algo, self.compression_config.level)
    }

    /// Begins a listing below `key_prefix`.
    pub fn list_objects(&self, key_prefix: &str) -> (r: Listing)
        ensures
            r.prefix() == self.prefix(),
            r.requested() == self.prefix() + key_prefix@,
            r.found() == Seq::<Seq<char>>::empty(),
            r.token() is None,
            !r.done(),
    {
        Listing::new(&self.prefix, key_prefix)
    }

    /// The chunk that a downloaded object holds, going by its compression marker.
    pub fn download_chunk(&self, marker: Option<&str>, bytes: Vec<u8>) -> (r: Result<
        Vec<u8>,
        ObjectStoreError,
    >)
        ensures
            objects::read_as(marker, bytes@, r),
    {
        objects::decode_chunk(marker, bytes)
    }

    /// Turns the bytes of a downloaded manifest into its text.
    pub fn download_manifest(&self, bytes: Vec<u8>) -> (r: Result<String, ObjectStoreError>)
        ensures
            match r {
                Ok(json) => vstd::utf8::valid_utf8(bytes@) && json@ == vstd::utf8::decode_utf8(
                    bytes@,
                ),
                Err(e) => !vstd::utf8::valid_utf8(bytes@) && (e matches ObjectStoreError::Other(t)
                    && t@ == "manifest not valid UTF-8: "@ + objects::utf8_complaint(bytes@)),
            },
    {
        objects::decode_manifest(bytes)
    }

    /// The error of a failed call: `what` failed, with the account, the container and, behind
    /// `label`, what it was about below the prefix; `extra` ends the list.
    pub fn call_failed(
        &self,
        what: &str,
        f: &AzureFailure,
        label: &str,
        key: &str,
        extra: &str,
    ) -> (r: ObjectStoreError)
        ensures
            error::reported(
                r,
                error_class(f.kind, f.http),
                what@ + " failed: "@ + f.display@ + " (account: "@ + self.account()
                    + ", container: "@ + self.container() + ", "@ + label@ + ": "@ + (self.prefix()
                    + key@) + extra@ + ")"@,
            ),
    {
        let mut m = text::concat2(what, " failed: ");
        m.append(&f.display);
        m.append(" (account: ");
        m.append(&self.account);
        m.append(", container: ");
        m.append(&self.container_name);
        m.append(", ");
        m.append(label);
        m.append(": ");
        m.append(self.full_key(key).as_str());
        m.append(extra);
        m.append(")");
        ObjectStoreError::classified(classify_azure_error(f.kind, f.http), m)
    }

    /// The error of a chunk whose metadata cannot be read.
    pub fn metadata_unreadable(&self, display: &str, key: &str) -> (r: ObjectStoreError)
        ensures
            r matches ObjectStoreError::Other(m) && m@ == "Azure chunk metadata header parse: "@
                + display@ + " (account: "@ + self.account() + ", container: "@ + self.container()
                + ", key: "@ + (self.prefix() + key@) + ")"@,
    {
        let mut m = text::concat2("Azure chunk metadata header parse: ", display);
        m.append(" (account: ");
        m.append(&self.account);
        m.append(", container: ");
        m.append(&self.container_name);
        m.append(", key: ");
        m.append(self.full_key(key).as_str());
        m.append(")");
        ObjectStoreError::Other(m)
    }

    /// How the lock state is learned. Without a subscription and a resource group the policy
    /// cannot be addressed, and the container counts as unlocked. A signed URL cannot query
    /// the management plane.
    pub fn lock_state(&self) -> (r: Result<LockLookup, ObjectStoreError>)
        ensures
            match self.policy_address() {
                None => r == Ok::<LockLookup, ObjectStoreError>(LockLookup::Known(LockState::Off)),
                Some((subscription, group)) => if self.mints_tokens() {
                    r matches Ok(LockLookup::Query { url }) && url@ == policy_url(
                        subscription,
                        group,
                        self.account(),
                        self.container(),
                    )
                } else {
                    r matches Err(ObjectStoreError::Other(m)) && m@ == LOCK_NEEDS_AAD@
                },
            },
    {
        let (subscription, group) = match (&self.subscription_id, &self.resource_group) {
            (Some(s), Some(g)) => (s, g),
            _ => return Ok(LockLookup::Known(LockState::Off)),
        };
        if !self.has_token_credential {
            return Err(ObjectStoreError::Other(LOCK_NEEDS_AAD.to_owned()));
        }
        let mut url = text::concat2("https://management.azure.com/subscriptions/", subscription);
        url.append("/resourceGroups/");
        url.append(group);
        url.append("/providers/Microsoft.Storage/storageAccounts/");
        url.append(&self.account);
        url.append("/blobServices/default/containers/");
        url.append(&self.container_name);
        url.append("/immutabilityPolicies/default?api-version=2023-01-01");
        Ok(LockLookup::Query { url })
    }

    /// What the status of a policy query means: not found is a container without a policy,
    /// success is to be read, anything else is reported. `shown` is the status as text.
    pub fn policy_status(&self, status: u16, shown: &str, body: &str) -> (r: Result<
        Option<LockState>,
        ObjectStoreError,
    >)
        ensures
            status == 404 ==> r == Ok::<Option<LockState>, ObjectStoreError>(
                Some(LockState::Off),
            ),
            200 <= status < 300 ==> r == Ok::<Option<LockState>, ObjectStoreError>(None),
            status != 404 && !(200 <= status < 300) ==> (r matches Err(ObjectStoreError::Other(m))
                && m@ == "Azure ARM immutabilityPolicies GET returned "@ + shown@ + ": "@ + body@),
    {
        if status == 404 {
            return Ok(Some(LockState::Off));
        }
        if status < 200 || status >= 300 {
            let mut m = text::concat2("Azure ARM immutabilityPolicies GET returned ", shown);
            m.append(": ");
            m.append(body);
            return Err(ObjectStoreError::Other(m));
        }
        Ok(None)
    }

    /// The error of a refused legal hold. A policy that forbids it and a concurrent change are
    /// told apart from everything else. `shown` is the status as text.
    pub fn hold_refused(&self, key: &str, display: &str, status: Option<u16>, shown: &str) -> (r:
        ObjectStoreError)
        ensures
            ({
                let detail = "Azure Set Blob Legal Hold for "@ + self.container() + "/"@ + (
                self.prefix() + key@) + ": "@ + display@;
                match status {
                    Some(412) => r matches ObjectStoreError::PreconditionFailed(m) && m@ == detail,
                    Some(409) => r matches ObjectStoreError::Conflict(m) && m@ == detail,
                    Some(_) => r matches ObjectStoreError::Other(m) && m@ == "status "@ + shown@
                        + ": "@ + detail,
                    None => r matches ObjectStoreError::Other(m) && m@ == detail,
                }
            }),
    {
        let mut detail = text::concat2("Azure Set Blob Legal Hold for ", &self.container_name);
        detail.append("/");
        detail.append(self.full_key(key).as_str());
        detail.append(": ");
        detail.append(display);
        match status {
            Some(412) => ObjectStoreError::PreconditionFailed(detail),
            Some(409) => ObjectStoreError::Conflict(detail),
            Some(_) => {
                let mut m = text::concat2("status ", shown);
                m.append(": ");
                m.append(&detail);
                ObjectStoreError::Other(m)
            },
            None => ObjectStoreError::Other(detail),
        }
    }
}

/// A chain uses the token of the first source that gives one, and fails with the failure of the
/// last source where none does.
pub proof fn law_chain_uses_first_token(gives: Seq<bool>, index: nat)
    requires
        index < gives.len(),
    ensures
        ({
            let (at, used) = chain_end(gives, index);
            &&& index <= at < gives.len()
            &&& used == gives[at as int]
            &&& forall|j: int| index <= j < at ==> !(#[trigger] gives[j])
            &&& !used ==> at == gives.len() - 1
        }),
    decreases gives.len() - index,
{
    if !gives[index as int] && index + 1 < gives.len() {
        law_chain_uses_first_token(gives, index + 1);
    }
}

/// A rejected credential fails fast, whatever else the failure says.
pub proof fn law_rejected_credentials_fail_fast(http: Option<u16>, kind: AzureErrorKind)
    requires
        kind == AzureErrorKind::Credential || (kind == AzureErrorKind::Other && http == Some(401u16)),
    ensures
        error_class(kind, http) == FailureKind::Auth,
        !failure::transient(error_class(kind, http)),
{
}

/// Throttling, conflicts and failures of the service are retried.
pub proof fn law_provider_trouble_is_retried(status: u16)
    requires
        status == 409 || status == 429 || 500 <= status < 600,
    ensures
        failure::transient(error_class(AzureErrorKind::Other, Some(status))),
{
}

/// A refused legal hold is permanent where a policy forbids it, and retried where a concurrent
/// change got in the way.
pub proof fn law_hold_refusals_differ(m: String)
    ensures
        !failure::transient(failure::class_of(ObjectStoreError::PreconditionFailed(m))),
        failure::transient(failure::class_of(ObjectStoreError::Conflict(m))),
{
}

} // verus!
