//! Laws of the S3 backend: what replies and failures of the service mean.

use vstd::prelude::*;

use crate::compression::CompressionConfig;
use crate::config::ResolvedS3Auth;
use crate::error::{self, ObjectStoreError};
use crate::failure::{self, FailureKind};
use crate::lock::LockState;
use crate::s3::{
    self, S3Backend, S3Connection, S3Failure, S3LockConfig, S3Report, S3Retention, S3RetentionMode,
};
use crate::text;

verus! {

/// `word` stands somewhere in `text`.
pub open spec fn holds(text: Seq<char>, word: Seq<char>) -> bool {
    exists|i: int|
        #![trigger text.subrange(i, i + word.len())]
        0 <= i <= text.len() - word.len() && text.subrange(i, i + word.len()) == word
}

proof fn lemma_holds(t: Seq<char>, word: Seq<char>)
    ensures
        holds(t, word) <==> text::has_substring(t, word),
{
    if holds(t, word) {
        let i = choose|i: int|
            #![trigger t.subrange(i, i + word.len())]
            0 <= i <= t.len() - word.len() && t.subrange(i, i + word.len()) == word;
        assert(text::occurs_at(t, word, i));
    }
    if text::has_substring(t, word) {
        let i = choose|i: int| #[trigger] text::occurs_at(t, word, i);
        assert(t.subrange(i, i + word.len()) == word);
    }
}

/// The kind that a failure carries when it is reported for that kind.
proof fn lemma_reported(e: ObjectStoreError, kind: FailureKind, message: Seq<char>)
    requires
        error::reported(e, kind, message),
    ensures
        match e {
            ObjectStoreError::Auth(m) => kind == FailureKind::Auth && m@ == message,
            ObjectStoreError::Authz(m) => kind == FailureKind::Authz && m@ == message,
            ObjectStoreError::NotFound(m) => kind == FailureKind::NotFound && m@ == message,
            ObjectStoreError::RegionMismatch(m) => kind == FailureKind::RegionMismatch && m@
                == message,
            ObjectStoreError::Network(m) => kind == FailureKind::Network && m@ == message,
            ObjectStoreError::Timeout(m) => kind == FailureKind::Timeout && m@ == message,
            ObjectStoreError::Other(m) => kind == FailureKind::Other && m@ == message,
            _ => false,
        },
{
}

/// An object counts as absent only where the service said so: its error code is `NotFound`, or
/// the failure's text holds 404 or NotFound. It counts as present exactly if the service
/// answered the lookup.
pub proof fn law_absence_is_only_what_the_service_says(
    backend: S3Backend,
    key: &str,
    head: Result<(), S3Report>,
    r: Result<bool, ObjectStoreError>,
)
    requires
        call_ensures(S3Backend::chunk_exists, (&backend, key, head), r),
    ensures
        r == Ok::<bool, ObjectStoreError>(true) <==> head is Ok,
        r == Ok::<bool, ObjectStoreError>(false) <==> (head matches Err(report) && ((
        report.failure matches S3Failure::Service { code: Some(code), .. } && code@ == "NotFound"@)
            || holds(report.display@, "404"@) || holds(report.display@, "NotFound"@))),
        r is Err <==> (head matches Err(report) && !(
        report.failure matches S3Failure::Service { code: Some(code), .. } && code@ == "NotFound"@)
            && !holds(report.display@, "404"@) && !holds(report.display@, "NotFound"@)),
{
    if let Err(report) = head {
        lemma_holds(report.display@, "404"@);
        lemma_holds(report.display@, "NotFound"@);
    }
}

/// Where no answer arrived, a lookup whose failure's text holds neither 404 nor NotFound is
/// never answered with absence but fails: a request that timed out as a timeout, one that could
/// not be sent as a network failure, one that could not be signed or built as refused
/// credentials. The error carries the failure's text, the bucket and the key.
pub proof fn law_unanswered_lookups_fail(
    backend: S3Backend,
    key: &str,
    report: S3Report,
    r: Result<bool, ObjectStoreError>,
)
    requires
        call_ensures(S3Backend::chunk_exists, (&backend, key, Err::<(), S3Report>(report)), r),
        !(report.failure is Service),
        !holds(report.display@, "404"@),
        !holds(report.display@, "NotFound"@),
    ensures
        r is Err,
        report.failure is Timeout ==> r->Err_0 is Timeout,
        report.failure is Construction ==> r->Err_0 is Auth,
        report.failure is Response || report.failure is Unknown ==> r->Err_0 is Other,
        report.failure matches S3Failure::Dispatch { is_io, is_timeout, is_user, .. } ==> {
            &&& is_timeout ==> r->Err_0 is Timeout
            &&& !is_timeout && is_io ==> r->Err_0 is Network
            &&& !is_timeout && !is_io && is_user ==> r->Err_0 is Auth
            &&& !is_timeout && !is_io && !is_user ==> r->Err_0 is Other
        },
        ({
            let message = "head_object failed: "@ + report.display@ + " (bucket: "@ + backend.bucket()
                + ", key: "@ + (backend.prefix() + key@) + ", error type: "@ + s3::quoted(
                report.rust_type@,
            ) + ")"@;
            match r->Err_0 {
                ObjectStoreError::Timeout(m) => m@ == message,
                ObjectStoreError::Network(m) => m@ == message,
                ObjectStoreError::Auth(m) => m@ == message,
                ObjectStoreError::Other(m) => m@ == message,
                _ => false,
            }
        }),
{
    lemma_holds(report.display@, "404"@);
    lemma_holds(report.display@, "NotFound"@);
    let e = r->Err_0;
    let text = s3::object_failure_text(
        "head_object"@,
        report,
        backend.bucket(),
        backend.prefix() + key@,
    );
    lemma_reported(e, s3::failure_class(report.failure), text);
    reveal_strlit("head_object");
    reveal_strlit(" failed: ");
    reveal_strlit("head_object failed: ");
    assert("head_object"@ + " failed: "@ =~= "head_object failed: "@);
}

/// An answer of the service that does not say that the object is absent fails the lookup with
/// the class of the service's code.
pub proof fn law_refused_lookups_keep_their_class(
    backend: S3Backend,
    key: &str,
    report: S3Report,
    r: Result<bool, ObjectStoreError>,
    kind: FailureKind,
    class: FailureKind,
)
    requires
        call_ensures(S3Backend::chunk_exists, (&backend, key, Err::<(), S3Report>(report)), r),
        call_ensures(s3::classify_s3_sdk_error, (&report.failure,), kind),
        r is Err,
        call_ensures(failure::classify, (&r->Err_0,), class),
    ensures
        class == kind,
{
    let text = s3::object_failure_text(
        "head_object"@,
        report,
        backend.bucket(),
        backend.prefix() + key@,
    );
    lemma_reported(r->Err_0, s3::failure_class(report.failure), text);
}

/// Every way to report a failed call keeps the class of the failure, and reports a failure
/// exactly if there was one.
pub proof fn law_reports_keep_the_class(
    backend: S3Backend,
    what: &str,
    key: &str,
    report: S3Report,
    kind: FailureKind,
    object: ObjectStoreError,
    described: ObjectStoreError,
    listed: ObjectStoreError,
    object_class: FailureKind,
    described_class: FailureKind,
    listed_class: FailureKind,
)
    requires
        call_ensures(s3::classify_s3_sdk_error, (&report.failure,), kind),
        call_ensures(S3Backend::object_failed, (&backend, what, &report, key), object),
        call_ensures(S3Backend::described, (&backend, what, &report.failure, key), described),
        call_ensures(S3Backend::list_failed, (&backend, &report.failure, key), listed),
        call_ensures(failure::classify, (&object,), object_class),
        call_ensures(failure::classify, (&described,), described_class),
        call_ensures(failure::classify, (&listed,), listed_class),
    ensures
        object_class == kind,
        described_class == kind,
        listed_class == kind,
{
    let full = backend.prefix() + key@;
    let f = report.failure;
    lemma_reported(
        object,
        s3::failure_class(f),
        s3::object_failure_text(what@, report, backend.bucket(), full),
    );
    lemma_reported(
        described,
        s3::failure_class(f),
        s3::described_text(what@, f, backend.bucket(), full),
    );
    lemma_reported(
        listed,
        s3::failure_class(f),
        s3::failure_text("list_objects"@, f) + " (bucket: "@ + backend.bucket() + ", prefix: "@ + full
            + ")"@,
    );
}

/// A manifest is written, an object deleted and a hold changed exactly if the service did it;
/// otherwise the failure is reported with its class.
pub proof fn law_writes_fail_with_their_class(
    backend: S3Backend,
    key: &str,
    outcome: Result<(), S3Failure>,
    kind: FailureKind,
    manifest: Result<(), ObjectStoreError>,
    deleted: Result<(), ObjectStoreError>,
    held: Result<(), ObjectStoreError>,
)
    requires
        call_ensures(S3Backend::upload_manifest, (&backend, key, outcome), manifest),
        call_ensures(S3Backend::delete_object, (&backend, key, outcome), deleted),
        call_ensures(S3Backend::set_object_legal_hold, (&backend, key, outcome), held),
        outcome is Err ==> call_ensures(s3::classify_s3_sdk_error, (&outcome->Err_0,), kind),
    ensures
        manifest is Ok <==> outcome is Ok,
        deleted is Ok <==> outcome is Ok,
        held is Ok <==> outcome is Ok,
        outcome is Err ==> failure::class_of(manifest->Err_0) == kind && failure::class_of(
            deleted->Err_0,
        ) == kind && failure::class_of(held->Err_0) == kind,
{
    if let Err(f) = outcome {
        let full = backend.prefix() + key@;
        lemma_reported(
            manifest->Err_0,
            s3::failure_class(f),
            s3::described_text("manifest upload"@, f, backend.bucket(), full),
        );
        lemma_reported(
            deleted->Err_0,
            s3::failure_class(f),
            s3::described_text("delete_object"@, f, backend.bucket(), full),
        );
        lemma_reported(
            held->Err_0,
            s3::failure_class(f),
            s3::described_text("put_object_legal_hold"@, f, backend.bucket(), full),
        );
    }
}

/// The letters of one case.
pub open spec fn lowered(c: char) -> char {
    if 'A' <= c <= 'Z' {
        (c as u32 + 32) as char
    } else {
        c
    }
}

/// `code` is `word` but for the case of its letters.
pub open spec fn is_code(code: Seq<char>, word: Seq<char>) -> bool {
    code.len() == word.len() && forall|i: int|
        0 <= i < code.len() ==> lowered(#[trigger] code[i]) == lowered(word[i])
}

proof fn lemma_is_code(code: Seq<char>, word: Seq<char>)
    ensures
        is_code(code, word) <==> text::same_ignoring_ascii_case(code, word),
{
    assert forall|c: char| lowered(c) == #[trigger] text::ascii_lower(c) by {}
    if is_code(code, word) {
        assert forall|i: int| 0 <= i < code.len() implies text::ascii_lower(#[trigger] code[i])
            == text::ascii_lower(word[i]) by {
            assert(lowered(code[i]) == lowered(word[i]));
        }
    }
    if text::same_ignoring_ascii_case(code, word) {
        assert forall|i: int| 0 <= i < code.len() implies lowered(#[trigger] code[i]) == lowered(
            word[i],
        ) by {
            assert(text::ascii_lower(code[i]) == text::ascii_lower(word[i]));
        }
    }
}

/// The codes of a refused permission.
pub open spec fn refuses_permission(code: Seq<char>) -> bool {
    is_code(code, "AccessDenied"@) || is_code(code, "AllAccessDisabled"@)
}

/// The codes of refused credentials.
pub open spec fn refuses_credentials(code: Seq<char>) -> bool {
    is_code(code, "InvalidAccessKeyId"@) || is_code(code, "SignatureDoesNotMatch"@) || is_code(
        code,
        "InvalidToken"@,
    ) || is_code(code, "ExpiredToken"@) || is_code(code, "TokenRefreshRequired"@) || is_code(
        code,
        "InvalidClientTokenId"@,
    ) || is_code(code, "MissingAuthenticationToken"@) || is_code(code, "InvalidSecurity"@)
        || is_code(code, "RequestTimeTooSkewed"@)
}

/// The codes of a bucket in another region.
pub open spec fn names_another_region(code: Seq<char>) -> bool {
    is_code(code, "PermanentRedirect"@) || is_code(code, "AuthorizationHeaderMalformed"@) || is_code(
        code,
        "IllegalLocationConstraintException"@,
    ) || is_code(code, "BucketRegionError"@)
}

/// The codes of something that does not exist.
pub open spec fn names_nothing(code: Seq<char>) -> bool {
    is_code(code, "NoSuchBucket"@) || is_code(code, "NoSuchKey"@) || is_code(code, "NotFound"@)
}

/// The class of a service code, whatever the case of its letters: exactly the codes of each
/// list are of the list's class, and every other code, and none at all, is unclassified.
pub proof fn law_classes_of_service_codes(code: &str, kind: FailureKind, none: FailureKind)
    requires
        call_ensures(s3::classify_s3_service_code, (Some(code),), kind),
        call_ensures(s3::classify_s3_service_code, (None,), none),
    ensures
        none == FailureKind::Other,
        kind == FailureKind::Authz <==> refuses_permission(code@),
        kind == FailureKind::Auth <==> refuses_credentials(code@),
        kind == FailureKind::RegionMismatch <==> names_another_region(code@),
        kind == FailureKind::NotFound <==> names_nothing(code@),
        kind == FailureKind::Timeout <==> is_code(code@, "RequestTimeout"@),
        kind != FailureKind::Network,
{
    let c = code@;
    reveal_strlit("AccessDenied");
    reveal_strlit("AllAccessDisabled");
    reveal_strlit("InvalidAccessKeyId");
    reveal_strlit("SignatureDoesNotMatch");
    reveal_strlit("InvalidToken");
    reveal_strlit("ExpiredToken");
    reveal_strlit("TokenRefreshRequired");
    reveal_strlit("InvalidClientTokenId");
    reveal_strlit("MissingAuthenticationToken");
    reveal_strlit("InvalidSecurity");
    reveal_strlit("RequestTimeTooSkewed");
    reveal_strlit("PermanentRedirect");
    reveal_strlit("AuthorizationHeaderMalformed");
    reveal_strlit("IllegalLocationConstraintException");
    reveal_strlit("BucketRegionError");
    reveal_strlit("NoSuchBucket");
    reveal_strlit("NoSuchKey");
    reveal_strlit("NotFound");
    reveal_strlit("RequestTimeout");
    lemma_is_code(c, "AccessDenied"@);
    lemma_is_code(c, "AllAccessDisabled"@);
    lemma_is_code(c, "InvalidAccessKeyId"@);
    lemma_is_code(c, "SignatureDoesNotMatch"@);
    lemma_is_code(c, "InvalidToken"@);
    lemma_is_code(c, "ExpiredToken"@);
    lemma_is_code(c, "TokenRefreshRequired"@);
    lemma_is_code(c, "InvalidClientTokenId"@);
    lemma_is_code(c, "MissingAuthenticationToken"@);
    lemma_is_code(c, "InvalidSecurity"@);
    lemma_is_code(c, "RequestTimeTooSkewed"@);
    lemma_is_code(c, "PermanentRedirect"@);
    lemma_is_code(c, "AuthorizationHeaderMalformed"@);
    lemma_is_code(c, "IllegalLocationConstraintException"@);
    lemma_is_code(c, "BucketRegionError"@);
    lemma_is_code(c, "NoSuchBucket"@);
    lemma_is_code(c, "NoSuchKey"@);
    lemma_is_code(c, "NotFound"@);
    lemma_is_code(c, "RequestTimeout"@);
    if refuses_permission(c) {
        assert(lowered(c[0]) == 'a');
    }
    if refuses_credentials(c) {
        assert(lowered(c[0]) != 'a' && lowered(c[0]) != 'p' && lowered(c[0]) != 'b' && lowered(c[0])
            != 'n');
    }
    if names_another_region(c) {
        assert(lowered(c[0]) != 'n' && lowered(c[0]) != 'r');
        assert(c.len() != 12);
    }
    if names_nothing(c) {
        assert(lowered(c[0]) == 'n');
    }
    if is_code(c, "RequestTimeout"@) {
        assert(lowered(c[0]) == 'r' && c.len() == 14);
    }
}

/// The class of a failed call goes by its kind: the service's code where it answered, the
/// transport's flags where the request could not be sent.
pub proof fn law_classes_of_failed_calls(f: S3Failure, kind: FailureKind, coded: FailureKind, code: &str)
    requires
        call_ensures(s3::classify_s3_sdk_error, (&f,), kind),
        call_ensures(s3::classify_s3_service_code, (Some(code),), coded),
    ensures
        f matches S3Failure::Service { code: Some(c), .. } ==> (c@ == code@ ==> kind == coded),
        f matches S3Failure::Service { code: None, .. } ==> kind == FailureKind::Other,
        f matches S3Failure::Dispatch { is_io, is_timeout, is_user, .. } ==> {
            &&& kind == FailureKind::Timeout <==> is_timeout
            &&& kind == FailureKind::Network <==> is_io && !is_timeout
            &&& kind == FailureKind::Auth <==> is_user && !is_io && !is_timeout
            &&& kind == FailureKind::Other <==> !is_user && !is_io && !is_timeout
        },
        f is Timeout ==> kind == FailureKind::Timeout,
        f is Construction ==> kind == FailureKind::Auth,
        f is Response || f is Unknown ==> kind == FailureKind::Other,
{
}

/// A bucket is locked exactly if object lock is enabled with a default retention that has a
/// mode and a length. The mode decides how. Days are taken as they are, a year counts 365 days
/// up to what can be represented, and less than none is none.
pub proof fn law_bucket_locks(enabled: Option<String>, retention: Option<S3Retention>, r: LockState)
    requires
        call_ensures(s3::lock_state_of, (&Some(S3LockConfig { enabled, retention }),), r),
    ensures
        r != LockState::Off <==> (enabled matches Some(e) && e@ == "Enabled"@) && (
        retention matches Some(p) && p.mode != S3RetentionMode::Unknown && (p.days is Some
            || p.years is Some)),
        r is Governance ==> retention->Some_0.mode == S3RetentionMode::Governance,
        r is Compliance ==> retention->Some_0.mode == S3RetentionMode::Compliance,
        r != LockState::Off ==> ({
            let n = match r {
                LockState::Governance { default_days } => default_days as int,
                LockState::Compliance { default_days } => default_days as int,
                LockState::Off => 0,
            };
            let p = retention->Some_0;
            &&& p.days matches Some(d) ==> (d >= 0 ==> n == d) && (d < 0 ==> n == 0)
            &&& p.days is None ==> (p.years matches Some(y) ==> (y < 0 ==> n == 0) && (0 <= y
                <= 11_767_033 ==> n == 365 * y) && (y > 11_767_033 ==> n == u32::MAX))
        }),
{
}

/// A bucket without a lock configuration is not locked.
pub proof fn law_no_configuration_is_no_lock(r: LockState)
    requires
        call_ensures(s3::lock_state_of, (&None::<S3LockConfig>,), r),
    ensures
        r == LockState::Off,
{
}

/// A failed query of the lock counts as no lock only where the failure says that there is none;
/// any other failure is reported with its class.
pub proof fn law_unknown_locks_are_not_open_ones(
    backend: S3Backend,
    f: S3Failure,
    debug: &str,
    r: Result<LockState, ObjectStoreError>,
    kind: FailureKind,
)
    requires
        call_ensures(S3Backend::lock_query_failed, (&backend, &f, debug), r),
        call_ensures(s3::classify_s3_sdk_error, (&f,), kind),
    ensures
        r is Ok <==> holds(debug@, "ObjectLockConfigurationNotFoundError"@) || holds(
            debug@,
            "InvalidRequest"@,
        ),
        r matches Ok(state) ==> state == LockState::Off,
        r matches Err(e) ==> failure::class_of(e) == kind,
{
    lemma_holds(debug@, "ObjectLockConfigurationNotFoundError"@);
    lemma_holds(debug@, "InvalidRequest"@);
    if r is Err {
        lemma_reported(
            r->Err_0,
            s3::failure_class(f),
            "GetObjectLockConfiguration on "@ + backend.bucket() + ": "@ + debug@,
        );
    }
}

/// A failed query of a legal hold counts as no hold only where the failure says that there is
/// none; any other failure is reported with its class.
pub proof fn law_unknown_holds_are_not_lifted_ones(
    backend: S3Backend,
    f: S3Failure,
    debug: &str,
    key: &str,
    r: Result<bool, ObjectStoreError>,
    kind: FailureKind,
)
    requires
        call_ensures(S3Backend::hold_query_failed, (&backend, &f, debug, key), r),
        call_ensures(s3::classify_s3_sdk_error, (&f,), kind),
    ensures
        r is Ok <==> holds(debug@, "NoSuchObjectLockConfiguration"@) || holds(
            debug@,
            "does not have a ObjectLock configuration"@,
        ) || holds(debug@, "Bucket is missing Object Lock Configuration"@),
        r matches Ok(held) ==> !held,
        r matches Err(e) ==> failure::class_of(e) == kind,
{
    lemma_holds(debug@, "NoSuchObjectLockConfiguration"@);
    lemma_holds(debug@, "does not have a ObjectLock configuration"@);
    lemma_holds(debug@, "Bucket is missing Object Lock Configuration"@);
    if r is Err {
        lemma_reported(
            r->Err_0,
            s3::failure_class(f),
            s3::described_text(
                "get_object_legal_hold"@,
                f,
                backend.bucket(),
                backend.prefix() + key@,
            ),
        );
    }
}

/// A custom endpoint is used without its dual-stack variant and with path-style addresses; the
/// provider's own is used with the variant and without. A choice of style wins either way.
pub proof fn law_endpoints_and_styles(
    bucket: String,
    prefix: String,
    region: String,
    endpoint: Option<String>,
    style: Option<bool>,
    auth: Option<ResolvedS3Auth>,
    compression: CompressionConfig,
    r: (S3Backend, S3Connection),
    key: &str,
    full: String,
)
    requires
        call_ensures(
            S3Backend::new,
            (bucket, prefix, region, endpoint, style, auth, compression),
            r,
        ),
        call_ensures(S3Backend::full_key, (&r.0, key), full),
    ensures
        r.1.region == region,
        r.1.endpoint_url == endpoint,
        r.1.auth == auth,
        r.1.use_dual_stack <==> endpoint is None,
        style matches Some(choice) ==> r.1.force_path_style == choice,
        style is None ==> (r.1.force_path_style <==> endpoint is Some),
        full@ == prefix@ + key@,
        r.0.bucket() == bucket@,
{
}

} // verus!
