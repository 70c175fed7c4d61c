//! Laws of the Azure backend: credentials, addresses, locks and failures.

use vstd::prelude::*;

use crate::azure::{
    self, AzureBackend, AzureConnection, AzureCredential, AzureErrorKind, AzureFailure, ChainStep,
    LockLookup, PolicyProperties,
};
use crate::compression::{CompressionAlgo, CompressionConfig};
use crate::config::ResolvedAzureAuth;
use crate::error::ObjectStoreError;
use crate::failure::{self, FailureKind};
use crate::lock::LockState;

verus! {

/// A token that could not be had is refused credentials and a service that could not be reached
/// a network failure, whatever status comes with them; otherwise the status decides.
pub proof fn law_signals_outrank_the_status(
    kind: AzureErrorKind,
    status: Option<u16>,
    class: FailureKind,
    by_status: FailureKind,
)
    requires
        call_ensures(azure::classify_azure_error, (kind, status), class),
        status is Some ==> call_ensures(
            failure::http_status_to_failure_kind,
            (status->Some_0,),
            by_status,
        ),
    ensures
        kind == AzureErrorKind::Credential ==> class == FailureKind::Auth,
        kind == AzureErrorKind::Connection || kind == AzureErrorKind::Io ==> class
            == FailureKind::Network,
        kind == AzureErrorKind::Other && status is Some ==> class == by_status,
        kind == AzureErrorKind::Other && status is None ==> class == FailureKind::Other,
{
}

/// The same of bare signals, where a credential failure outranks a network failure.
pub proof fn law_credential_signal_comes_first(
    status: Option<u16>,
    credential: bool,
    network: bool,
    class: FailureKind,
)
    requires
        call_ensures(azure::classify_azure_signal, (status, credential, network), class),
    ensures
        credential ==> class == FailureKind::Auth,
        network && !credential ==> class == FailureKind::Network,
        !network && !credential && status is None ==> class == FailureKind::Other,
        !network && !credential ==> (class == FailureKind::NotFound <==> status == Some(404u16))
            && (class == FailureKind::Timeout <==> status == Some(408u16)) && (class
            == FailureKind::Auth <==> status == Some(401u16)) && (class == FailureKind::Authz
            <==> status == Some(403u16) || status == Some(412u16)),
{
}

/// A failed call is reported with the class of its failure and a text that begins with what
/// failed.
pub proof fn law_failed_calls_keep_their_class(
    backend: AzureBackend,
    what: &str,
    f: AzureFailure,
    label: &str,
    key: &str,
    extra: &str,
    e: ObjectStoreError,
    class: FailureKind,
    reported: FailureKind,
)
    requires
        call_ensures(AzureBackend::call_failed, (&backend, what, &f, label, key, extra), e),
        call_ensures(azure::classify_azure_error, (f.kind, f.http), class),
        call_ensures(failure::classify, (&e,), reported),
    ensures
        reported == class,
{
}

/// What the environment offers: a signed URL before anything else, a service principal only if
/// all three of its parts are there, and the fallback chain otherwise.
pub proof fn law_environment_credentials(
    sas: Option<&str>,
    tenant: Option<&str>,
    client: Option<&str>,
    secret: Option<&str>,
    r: AzureCredential,
)
    requires
        call_ensures(azure::discover_credentials_from_env, (sas, tenant, client, secret), r),
    ensures
        r is SasUrl <==> sas is Some,
        r is ServicePrincipal <==> sas is None && tenant is Some && client is Some && secret is Some,
        r is FallbackChain <==> sas is None && (tenant is None || client is None || secret is None),
        r matches AzureCredential::SasUrl(url) ==> url@ == sas->Some_0@,
        r matches AzureCredential::ServicePrincipal { tenant_id, client_id, client_secret }
            ==> tenant_id@ == tenant->Some_0@ && client_id@ == client->Some_0@ && client_secret@
            == secret->Some_0@,
{
}

/// Credentials that are given are used, and what was found only without them. A signed URL is
/// the address of the container; any other credential goes to the custom endpoint or, without
/// one, to the account's own.
pub proof fn law_given_credentials_come_first(
    account: String,
    container: String,
    prefix: String,
    endpoint: Option<String>,
    subscription: Option<String>,
    group: Option<String>,
    auth: Option<ResolvedAzureAuth>,
    found: AzureCredential,
    compression: CompressionConfig,
    r: Result<(AzureBackend, AzureConnection, AzureCredential), ObjectStoreError>,
)
    requires
        call_ensures(
            AzureBackend::new,
            (
                account,
                container,
                prefix,
                endpoint,
                subscription,
                group,
                auth,
                found,
                compression,
            ),
            r,
        ),
    ensures
        r matches Ok((_, _, credential)) ==> match auth {
            Some(ResolvedAzureAuth::SasUrl(url)) => credential == AzureCredential::SasUrl(url),
            Some(ResolvedAzureAuth::ServicePrincipal { tenant_id, client_id, client_secret }) =>
                credential == (AzureCredential::ServicePrincipal {
                tenant_id,
                client_id,
                client_secret,
            }),
            None => credential == found,
        },
        r matches Ok((_, connection, credential)) ==> match credential {
            AzureCredential::SasUrl(url) => connection == (AzureConnection::FromUrl { url })
                && azure::sas_url_complaint(url@) is None,
            _ => match endpoint {
                Some(custom) => connection matches AzureConnection::FromEndpoint { endpoint: e }
                    && e@ == custom@,
                None => connection matches AzureConnection::FromEndpoint { endpoint: e } && e@
                    == "https://"@ + account@ + ".blob.core.windows.net/"@,
            },
        },
        auth matches Some(ResolvedAzureAuth::ServicePrincipal { .. }) ==> r is Ok,
        auth is None && !(found is SasUrl) ==> r is Ok,
        auth matches Some(ResolvedAzureAuth::SasUrl(url)) ==> (r is Ok <==> azure::sas_url_complaint(
            url@,
        ) is None),
        r matches Ok((backend, _, _)) ==> backend.account() == account@ && backend.container()
            == container@ && backend.prefix() == prefix@,
{
}

/// A signed URL is refused exactly if something is wrong with it, and the refusal says what.
pub proof fn law_signed_urls(complaint: Option<String>, r: Result<(), ObjectStoreError>)
    requires
        call_ensures(azure::sas_url_verdict, (complaint,), r),
    ensures
        r is Err <==> complaint is Some,
        r matches Err(e) ==> (e matches ObjectStoreError::Other(m) && m@
            == "Azure SAS URL parse failed: "@ + complaint->Some_0@),
{
}

/// A container is locked exactly if its policy has a period of at least a day and is in one of
/// two states: locked for good, or still open to changes.
pub proof fn law_container_locks(days: Option<u32>, state: Option<String>, r: LockState, none: LockState)
    requires
        call_ensures(
            azure::lock_state_of,
            (&Some(PolicyProperties { period_days: days, state }),),
            r,
        ),
        call_ensures(azure::lock_state_of, (&None::<PolicyProperties>,), none),
    ensures
        none == LockState::Off,
        r is Compliance <==> (days matches Some(n) && n > 0) && (state matches Some(s) && s@
            == "Locked"@),
        r is Governance <==> (days matches Some(n) && n > 0) && (state matches Some(s) && s@
            == "Unlocked"@),
        r matches LockState::Compliance { default_days } ==> Some(default_days) == days,
        r matches LockState::Governance { default_days } ==> Some(default_days) == days,
{
    reveal_strlit("Locked");
    reveal_strlit("Unlocked");
    assert("Locked"@.len() != "Unlocked"@.len());
}

/// The lock state of a container is asked for exactly if its policy can be addressed and a token
/// can be had; without an address it counts as unlocked, and a signed URL cannot ask.
pub proof fn law_asking_for_a_container_lock(
    account: String,
    container: String,
    prefix: String,
    endpoint: Option<String>,
    subscription: Option<String>,
    group: Option<String>,
    auth: Option<ResolvedAzureAuth>,
    found: AzureCredential,
    compression: CompressionConfig,
    made: Result<(AzureBackend, AzureConnection, AzureCredential), ObjectStoreError>,
    r: Result<LockLookup, ObjectStoreError>,
)
    requires
        call_ensures(
            AzureBackend::new,
            (
                account,
                container,
                prefix,
                endpoint,
                subscription,
                group,
                auth,
                found,
                compression,
            ),
            made,
        ),
        made is Ok,
        call_ensures(AzureBackend::lock_state, (&made->Ok_0.0,), r),
    ensures
        subscription is None || group is None ==> r == Ok::<LockLookup, ObjectStoreError>(
            LockLookup::Known(LockState::Off),
        ),
        subscription is Some && group is Some && made->Ok_0.2 is SasUrl ==> (r matches Err(e)
            && e is Other),
        subscription is Some && group is Some && !(made->Ok_0.2 is SasUrl) ==> (r matches Ok(
            LockLookup::Query { url },
        ) && url@ == "https://management.azure.com/subscriptions/"@ + subscription->Some_0@
            + "/resourceGroups/"@ + group->Some_0@
            + "/providers/Microsoft.Storage/storageAccounts/"@ + account@
            + "/blobServices/default/containers/"@ + container@
            + "/immutabilityPolicies/default?api-version=2023-01-01"@),
{
}

/// A policy that is not found is no lock, one that is found is to be read, and every other
/// answer fails.
pub proof fn law_policy_answers(
    backend: AzureBackend,
    status: u16,
    shown: &str,
    body: &str,
    r: Result<Option<LockState>, ObjectStoreError>,
)
    requires
        call_ensures(AzureBackend::policy_status, (&backend, status, shown, body), r),
    ensures
        r == Ok::<Option<LockState>, ObjectStoreError>(Some(LockState::Off)) <==> status == 404,
        r == Ok::<Option<LockState>, ObjectStoreError>(None) <==> 200 <= status <= 299,
        r is Err <==> status != 404 && (status < 200 || status > 299),
{
}

/// A legal hold that a policy forbids is not tried again, one that a concurrent change got in
/// the way of is, and so is every other failure.
pub proof fn law_refused_holds(
    backend: AzureBackend,
    key: &str,
    display: &str,
    status: Option<u16>,
    shown: &str,
    e: ObjectStoreError,
    class: FailureKind,
    retry: bool,
)
    requires
        call_ensures(AzureBackend::hold_refused, (&backend, key, display, status, shown), e),
        call_ensures(failure::classify, (&e,), class),
        call_ensures(failure::is_retryable, (class,), retry),
    ensures
        e is PreconditionFailed <==> status == Some(412u16),
        e is Conflict <==> status == Some(409u16),
        e is Other <==> status != Some(412u16) && status != Some(409u16),
        retry <==> status != Some(412u16),
{
}

/// The next source of a chain is asked exactly while the sources so far gave no token and one is
/// left; the last failure is the one reported.
pub proof fn law_chains_go_on_until_a_token(
    index: usize,
    count: usize,
    gave: bool,
    r: ChainStep,
)
    requires
        index < count,
        call_ensures(azure::chain_step, (index, count, gave), r),
    ensures
        r == ChainStep::Use <==> gave,
        r == ChainStep::TryNext <==> !gave && index + 1 < count,
        r == ChainStep::Fail <==> !gave && index + 1 == count,
{
}

/// Every chunk carries its compression marker, and a Zstandard chunk its level too.
pub proof fn law_chunk_metadata(
    algo: Option<CompressionAlgo>,
    level: i32,
    r: Vec<(String, String)>,
)
    requires
        call_ensures(azure::upload_options_with_metadata, (algo, level), r),
    ensures
        r@.len() == (if algo == Some(CompressionAlgo::Zstd) {
            2int
        } else {
            1
        }),
        r@[0].0@ == "compression"@,
        algo is None ==> r@[0].1@ == "none"@,
        algo == Some(CompressionAlgo::Lz4) ==> r@[0].1@ == "lz4"@,
        algo == Some(CompressionAlgo::Zstd) ==> r@[0].1@ == "zstd"@ && r@[1].0@
            == "compression_level"@ && r@[1].1@ == crate::text::decimal_int(level as int),
{
    let v = crate::objects::pair_views(r@);
    assert(v.len() == r@.len());
    assert(v[0] == (r@[0].0@, r@[0].1@));
    if algo == Some(CompressionAlgo::Zstd) {
        assert(v[1] == (r@[1].0@, r@[1].1@));
    }
}

/// A chunk is uploaded with the metadata of the algorithm that it was stored with, at the level
/// of the backend.
pub proof fn law_uploaded_metadata(
    backend: AzureBackend,
    stored: crate::objects::StoredChunk,
    r: Vec<(String, String)>,
    expected: Vec<(String, String)>,
    k: int,
)
    requires
        call_ensures(AzureBackend::metadata_of, (&backend, &stored), r),
        call_ensures(
            azure::upload_options_with_metadata,
            (stored.outcome.algo, backend.compression().level),
            expected,
        ),
        0 <= k < r@.len(),
    ensures
        r@.len() == expected@.len(),
        r@[k].0@ == expected@[k].0@,
        r@[k].1@ == expected@[k].1@,
{
    let v = crate::objects::pair_views(r@);
    let w = crate::objects::pair_views(expected@);
    assert(v.len() == r@.len() && w.len() == expected@.len());
    assert(v[k] == (r@[k].0@, r@[k].1@));
    assert(w[k] == (expected@[k].0@, expected@[k].1@));
}

} // verus!
