//! Laws of the Google Cloud Storage backend: locks, absence and failures.

use vstd::prelude::*;

use crate::compression::CompressionAlgo;
use crate::error::ObjectStoreError;
use crate::failure::{self, FailureKind};
use crate::gcs::{self, GcsBackend, GcsFailure, RetentionPolicy};
use crate::lock::LockState;
use crate::objects;

verus! {

/// A bucket is locked exactly if it reports a period, for good if the policy is locked and
/// open to changes if not. The period is counted in days, a day that has begun as a whole one,
/// up to the largest number that can be represented.
pub proof fn law_bucket_periods(
    duration: Option<i64>,
    locked: bool,
    policy: Option<RetentionPolicy>,
    r: LockState,
)
    requires
        call_ensures(gcs::retention_policy, (duration, locked), policy),
        call_ensures(gcs::lock_state_of, (policy,), r),
    ensures
        r == LockState::Off <==> !(duration matches Some(s) && s > 0),
        r is Compliance <==> (duration matches Some(s) && s > 0) && locked,
        r is Governance <==> (duration matches Some(s) && s > 0) && !locked,
        (duration matches Some(s) && s > 0) ==> ({
            let n = match r {
                LockState::Governance { default_days } => default_days as int,
                LockState::Compliance { default_days } => default_days as int,
                LockState::Off => 0,
            };
            let s = duration->Some_0;
            &&& n < u32::MAX ==> 86_400 * (n - 1) < s <= 86_400 * n
            &&& n == u32::MAX ==> s > 86_400 * (u32::MAX - 1)
        }),
{
    if duration is Some && duration->Some_0 > 0 {
        let s = duration->Some_0 as int;
        let days = (s + 86_399) / 86_400;
        assert(86_400 * (days - 1) < s <= 86_400 * days);
    }
}

/// An object counts as absent exactly if the service says so, by status or by code; any other
/// failed lookup fails, with the class of its failure.
pub proof fn law_absence_is_only_what_the_service_says(
    backend: GcsBackend,
    f: GcsFailure,
    key: &str,
    r: Result<bool, ObjectStoreError>,
    class: FailureKind,
)
    requires
        call_ensures(GcsBackend::absent_or_failed, (&backend, &f, key), r),
        call_ensures(gcs::classify_gcs_failure, (&f,), class),
    ensures
        r is Ok <==> f.http == Some(404u16) || f.grpc_not_found,
        r matches Ok(present) ==> !present,
        r matches Err(e) ==> failure::class_of(e) == class,
{
}

/// What does not exist is of that class; any other failure goes by its status, and one without
/// a status is unclassified.
pub proof fn law_classes_of_failed_calls(f: GcsFailure, class: FailureKind)
    requires
        call_ensures(gcs::classify_gcs_failure, (&f,), class),
    ensures
        class == FailureKind::NotFound <==> f.grpc_not_found || f.http == Some(404u16),
        !f.grpc_not_found ==> (class == FailureKind::Auth <==> f.http == Some(401u16)) && (class
            == FailureKind::Authz <==> f.http == Some(403u16) || f.http == Some(412u16)) && (class
            == FailureKind::Timeout <==> f.http == Some(408u16)),
        !f.grpc_not_found && f.http is None ==> class == FailureKind::Other,
{
}

/// Failed calls are reported with the class of their failure.
pub proof fn law_reports_keep_the_class(
    backend: GcsBackend,
    what: &str,
    f: GcsFailure,
    label: &str,
    key: &str,
    call: ObjectStoreError,
    bucket: ObjectStoreError,
    class: FailureKind,
    call_class: FailureKind,
    bucket_class: FailureKind,
)
    requires
        call_ensures(GcsBackend::call_failed, (&backend, what, &f, label, key), call),
        call_ensures(GcsBackend::bucket_failed, (&backend, &f), bucket),
        call_ensures(gcs::classify_gcs_failure, (&f,), class),
        call_ensures(failure::classify, (&call,), call_class),
        call_ensures(failure::classify, (&bucket,), bucket_class),
    ensures
        call_class == class,
        bucket_class == class,
{
}

/// A key file is used exactly if nothing is wrong with it; the refusal names the file and says
/// what is wrong.
pub proof fn law_key_files(
    path: &str,
    complaint: Option<String>,
    verdict: Result<(), ObjectStoreError>,
    json: &str,
    checked: Result<(), ObjectStoreError>,
)
    requires
        call_ensures(gcs::key_file_verdict, (path, complaint), verdict),
        call_ensures(gcs::check_key_file, (path, json), checked),
    ensures
        verdict is Err <==> complaint is Some,
        checked is Err <==> gcs::json_complaint(json@) is Some,
        verdict matches Err(e) ==> (e matches ObjectStoreError::Other(m) && m@
            == "GCS service-account key file '"@ + path@ + "' could not be loaded: "@
            + complaint->Some_0@),
        checked matches Err(e) ==> (e matches ObjectStoreError::Other(m) && m@
            == "GCS service-account key file '"@ + path@ + "' could not be loaded: "@
            + gcs::json_complaint(json@)->Some_0),
{
}

/// Every chunk carries its compression marker and nothing else.
pub proof fn law_chunk_metadata(algo: Option<CompressionAlgo>, r: Vec<(String, String)>)
    requires
        call_ensures(gcs::compression_metadata, (algo,), r),
    ensures
        r@.len() == 1,
        r@[0].0@ == "compression"@,
        algo is None ==> r@[0].1@ == "none"@,
        algo == Some(CompressionAlgo::Lz4) ==> r@[0].1@ == "lz4"@,
        algo == Some(CompressionAlgo::Zstd) ==> r@[0].1@ == "zstd"@,
{
    let v = objects::pair_views(r@);
    assert(v.len() == r@.len());
    assert(v[0] == (r@[0].0@, r@[0].1@));
}

} // verus!
