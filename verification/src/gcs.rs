//! The Google Cloud Storage backend around its provider calls.

use vstd::prelude::*;

use crate::compression::{CompressionAlgo, CompressionConfig};
use crate::error::{self, ObjectStoreError};
use crate::failure::{self, FailureKind};
use crate::helpers;
use crate::lock::LockState;
use crate::objects::{self, Listing, StoredChunk};
use crate::text;

verus! {

/// Seconds in a day.
pub const SECONDS_PER_DAY: u64 = 86_400;

/// The retention policy of a bucket.
#[derive(Debug, Clone, Copy, PartialEq, Eq, Structural)]
pub struct RetentionPolicy {
    /// A period of at least one second.
    pub seconds: u64,
    /// Whether the policy can no longer be shortened or removed.
    pub is_locked: bool,
}

/// The retention policy that a bucket reports; a period of no seconds or less is no policy.
pub open spec fn policy_reported(duration_seconds: Option<i64>, is_locked: bool) -> Option<
    RetentionPolicy,
> {
    match duration_seconds {
        Some(s) if s > 0 => Some(RetentionPolicy { seconds: s as u64, is_locked }),
        _ => None,
    }
}

/// The retention policy that a bucket reports. `duration_seconds` is its period, if it has one.
pub fn retention_policy(duration_seconds: Option<i64>, is_locked: bool) -> (r: Option<
    RetentionPolicy,
>)
    ensures
        r == policy_reported(duration_seconds, is_locked),
{
    match duration_seconds {
        Some(s) => if s > 0 {
            Some(RetentionPolicy { seconds: s as u64, is_locked })
        } else {
            None
        },
        None => None,
    }
}

/// A period in days, with a day that has begun counted whole, up to the largest representable
/// number.
pub open spec fn whole_days(seconds: u64) -> int {
    let days = (seconds + SECONDS_PER_DAY - 1) / SECONDS_PER_DAY as int;
    if days > u32::MAX {
        u32::MAX as int
    } else {
        days
    }
}

/// The lock state that a policy amounts to.
pub open spec fn policy_lock(policy: Option<RetentionPolicy>) -> LockState {
    match policy {
        None => LockState::Off,
        Some(p) => if p.is_locked {
            LockState::Compliance { default_days: whole_days(p.seconds) as u32 }
        } else {
            LockState::Governance { default_days: whole_days(p.seconds) as u32 }
        },
    }
}

/// The lock state that a policy amounts to.
pub fn lock_state_of(policy: Option<RetentionPolicy>) -> (r: LockState)
    ensures
        r == policy_lock(policy),
{
    let policy = match policy {
        Some(p) => p,
        None => return LockState::Off,
    };
    let full: u64 = policy.seconds / SECONDS_PER_DAY;
    let begun: u64 = if policy.seconds % SECONDS_PER_DAY == 0 {
        full
    } else {
        full + 1
    };
    proof {
        let s = policy.seconds as int;
        let d = SECONDS_PER_DAY as int;
        assert(begun == (s + d - 1) / d) by (nonlinear_arith)
            requires
                d == 86_400,
                s >= 0,
                full == s / d,
                begun == (if s % d == 0 {
                    full as int
                } else {
                    full + 1
                }),
        ;
    }
    let days: u32 = if begun > u32::MAX as u64 {
        u32::MAX
    } else {
        begun as u32
    };
    if policy.is_locked {
        LockState::Compliance { default_days: days }
    } else {
        LockState::Governance { default_days: days }
    }
}

/// The resource name of a bucket.
pub fn bucket_resource(bucket: &str) -> (r: String)
    ensures
        r@ == "projects/_/buckets/"@ + bucket@,
{
    text::concat2("projects/_/buckets/", bucket)
}

/// The metadata of an uploaded chunk: the compression marker alone.
pub fn compression_metadata(algo: Option<CompressionAlgo>) -> (r: Vec<(String, String)>)
    ensures
        objects::pair_views(r@) == seq![(objects::MARKER_KEY@, objects::marker_of(algo))],
{
    let mut out: Vec<(String, String)> = Vec::new();
    out.push((objects::MARKER_KEY.to_owned(), objects::marker(algo).to_owned()));
    assert(objects::pair_views(out@) =~= seq![(objects::MARKER_KEY@, objects::marker_of(algo))]);
    out
}

/// Why a text is not JSON, if it is none.
pub uninterp spec fn json_complaint(json: Seq<char>) -> Option<Seq<char>>;

/// `serde_json::from_str` into a `serde_json::Value`: the error's text when the JSON is
/// refused, named by `json_complaint`.
#[verifier::external_body]
fn json_error(json: &str) -> (r: Option<String>)
    ensures
        text::opt_view(r) == json_complaint(json@),
{
    serde_json::from_str::<serde_json::Value>(json).err().map(|e| e.to_string())
}

/// The report about a service-account key file that cannot be used.
pub open spec fn key_file_refusal(path: Seq<char>, complaint: Seq<char>) -> Seq<char> {
    "GCS service-account key file '"@ + path + "' could not be loaded: "@ + complaint
}

/// The verdict on a service-account key file, given why it could not be read or understood.
pub fn key_file_verdict(path: &str, complaint: Option<String>) -> (r: Result<(), ObjectStoreError>)
    ensures
        match complaint {
            None => r is Ok,
            Some(e) => r matches Err(ObjectStoreError::Other(m)) && m@ == key_file_refusal(
                path@,
                e@,
            ),
        },
{
    match complaint {
        None => Ok(()),
        Some(e) => {
            let mut m = text::concat2("GCS service-account key file '", path);
            m.append("' could not be loaded: ");
            m.append(e.as_str());
            Err(ObjectStoreError::Other(m))
        },
    }
}

/// Checks the text of a service-account key file: anything that is not JSON is refused.
pub fn check_key_file(path: &str, json: &str) -> (r: Result<(), ObjectStoreError>)
    ensures
        match json_complaint(json@) {
            None => r is Ok,
            Some(e) => r matches Err(ObjectStoreError::Other(m)) && m@ == key_file_refusal(
                path@,
                e,
            ),
        },
{
    key_file_verdict(path, json_error(json))
}

/// The error of a credential that could not be built: from the key file `path`, or from the
/// default chain.
pub fn auth_failed(path: Option<&str>, complaint: &str) -> (r: ObjectStoreError)
    ensures
        r matches ObjectStoreError::Other(m) && m@ == (match path {
            Some(p) => "GCS auth from key file '"@ + p@ + "' failed: "@ + complaint@,
            None => "GCS auth failed: "@ + complaint@,
        }),
{
    match path {
        Some(p) => {
            let mut m = text::concat2("GCS auth from key file '", p);
            m.append("' failed: ");
            m.append(complaint);
            ObjectStoreError::Other(m)
        },
        None => ObjectStoreError::Other(text::concat2("GCS auth failed: ", complaint)),
    }
}

/// A failed call. The service answers over REST with an HTTP status, over gRPC with a code.
#[derive(Debug, Clone)]
pub struct GcsFailure {
    pub http: Option<u16>,
    /// The gRPC code says that the object or bucket does not exist.
    pub grpc_not_found: bool,
    pub display: String,
}

/// The failure says that what was asked for does not exist.
pub open spec fn says_absent(f: GcsFailure) -> bool {
    f.http == Some(404u16) || f.grpc_not_found
}

/// The class of a failed call: absence, then what the HTTP status says.
pub open spec fn failure_class(f: GcsFailure) -> FailureKind {
    if says_absent(f) {
        FailureKind::NotFound
    } else {
        match f.http {
            Some(status) => failure::class_of_status(status),
            None => FailureKind::Other,
        }
    }
}

/// Classifies a failed call.
pub fn classify_gcs_failure(f: &GcsFailure) -> (r: FailureKind)
    ensures
        r == failure_class(*f),
{
    if f.grpc_not_found {
        return FailureKind::NotFound;
    }
    match f.http {
        Some(status) => failure::http_status_to_failure_kind(status),
        None => FailureKind::Other,
    }
}

/// The Google Cloud Storage backend.
#[derive(Debug, Clone)]
pub struct GcsBackend {
    bucket: String,
    prefix: String,
    project_id: String,
    compression_config: CompressionConfig,
}

impl GcsBackend {
    /// The bucket.
    pub closed spec fn bucket(self) -> Seq<char> {
        self.bucket@
    }

    /// The key prefix.
    pub closed spec fn prefix(self) -> Seq<char> {
        self.prefix@
    }

    /// The project.
    pub closed spec fn project(self) -> Seq<char> {
        self.project_id@
    }

    /// The compression settings.
    pub closed spec fn compression(self) -> CompressionConfig {
        self.compression_config
    }

    /// A backend on a bucket.
    pub fn new(
        bucket: String,
        prefix: String,
        project_id: String,
        compression_config: CompressionConfig,
    ) -> (r: Self)
        ensures
            r.bucket() == bucket@,
            r.prefix() == prefix@,
            r.project() == project_id@,
            r.compression() == compression_config,
    {
        GcsBackend { bucket, prefix, project_id, compression_config }
    }

    /// Legal holds can be placed on objects.
    pub fn supports_legal_hold(&self) -> (r: bool)
        ensures
            r,
    {
        true
    }

    /// The kind of this backend.
    pub fn backend_type(&self) -> (r: &'static str)
        ensures
            r@ == "gcs"@,
    {
        "gcs"
    }

    /// The project of this backend.
    pub fn project_id(&self) -> (r: &str)
        ensures
            r@ == self.project(),
    {
        self.project_id.as_str()
    }

    /// The object name as the service sees it.
    pub fn full_key(&self, key: &str) -> (r: String)
        ensures
            r@ == self.prefix() + key@,
    {
        helpers::full_key(&self.prefix, key)
    }

    /// What is stored, and where, to upload a chunk.
    pub fn upload_chunk(&self, key: &str, data: &[u8]) -> (r: Result<
        (String, StoredChunk),
        ObjectStoreError,
    >)
        ensures
            match objects::stored_bytes(self.compression(), data@) {
                Ok(bytes) => r matches Ok((full_key, stored)) && {
                    &&& full_key@ == self.prefix() + key@
                    &&& stored.bytes@ == bytes
                    &&& stored.outcome.uncompressed == data@.len()
                    &&& stored.outcome.algo == self.compression().algorithm
                    &&& stored.outcome.compressed is Some <==> self.compression().algorithm is Some
                    &&& stored.outcome.compressed matches Some(n) ==> n == bytes.len()
                    &&& stored.marker@ == objects::marker_of(self.compression().algorithm)
                },
                Err(m) => r matches Err(ObjectStoreError::Compression(t)) && t@ == m,
            },
            r matches Ok((_, stored)) ==> (objects::chunk_of(Some(stored.marker@), stored.bytes@)
                matches Ok(d) && d == data@),
    {
        match objects::encode_chunk(self.compression_config, data) {
            Ok(stored) => Ok((self.full_key(key), stored)),
            Err(e) => Err(e),
        }
    }

    /// Begins a listing below `key_prefix`.
    pub fn list_objects(&self, key_prefix: &str) -> (r: Listing)
        ensures
            r.prefix() == self.prefix(),
            r.requested() == self.prefix() + key_prefix@,
            r.found() == Seq::<Seq<char>>::empty(),
            r.token() is None,
            !r.done(),
    {
        Listing::new(&self.prefix, key_prefix)
    }

    /// The chunk that a downloaded object holds, going by its compression marker.
    pub fn download_chunk(&self, marker: Option<&str>, bytes: Vec<u8>) -> (r: Result<
        Vec<u8>,
        ObjectStoreError,
    >)
        ensures
            objects::read_as(marker, bytes@, r),
    {
        objects::decode_chunk(marker, bytes)
    }

    /// Turns the bytes of a downloaded manifest into its text.
    pub fn download_manifest(&self, bytes: Vec<u8>) -> (r: Result<String, ObjectStoreError>)
        ensures
            match r {
                Ok(json) => vstd::utf8::valid_utf8(bytes@) && json@ == vstd::utf8::decode_utf8(
                    bytes@,
                ),
                Err(e) => !vstd::utf8::valid_utf8(bytes@) && (e matches ObjectStoreError::Other(t)
                    && t@ == "manifest not valid UTF-8: "@ + objects::utf8_complaint(bytes@)),
            },
    {
        objects::decode_manifest(bytes)
    }

    /// The error of a failed call: `what` failed, with the bucket and, behind `label`, what it
    /// was about below the prefix.
    pub fn call_failed(&self, what: &str, f: &GcsFailure, label: &str, key: &str) -> (r:
        ObjectStoreError)
        ensures
            error::reported(
                r,
                failure_class(*f),
                "GCS "@ + what@ + " failed: "@ + f.display@ + " (bucket: "@ + self.bucket() + ", "@
                    + label@ + ": "@ + (self.prefix() + key@) + ")"@,
            ),
    {
        let mut m = text::concat2("GCS ", what);
        m.append(" failed: ");
        m.append(&f.display);
        m.append(" (bucket: ");
        m.append(&self.bucket);
        m.append(", ");
        m.append(label);
        m.append(": ");
        m.append(self.full_key(key).as_str());
        m.append(")");
        ObjectStoreError::classified(classify_gcs_failure(f), m)
    }

    /// The error of a failed query of the bucket itself.
    pub fn bucket_failed(&self, f: &GcsFailure) -> (r: ObjectStoreError)
        ensures
            error::reported(
                r,
                failure_class(*f),
                "GCS get_bucket on "@ + self.bucket() + ": "@ + f.display@,
            ),
    {
        let mut m = text::concat2("GCS get_bucket on ", &self.bucket);
        m.append(": ");
        m.append(&f.display);
        ObjectStoreError::classified(classify_gcs_failure(f), m)
    }

    /// Whether a failed lookup says that the object does not exist. Any other failure is
    /// reported.
    pub fn absent_or_failed(&self, f: &GcsFailure, key: &str) -> (r: Result<
        bool,
        ObjectStoreError,
    >)
        ensures
            says_absent(*f) ==> r == Ok::<bool, ObjectStoreError>(false),
            !says_absent(*f) ==> (r matches Err(e) && error::reported(
                e,
                failure_class(*f),
                "GCS get_object failed: "@ + f.display@ + " (bucket: "@ + self.bucket() + ", key: "@
                    + (self.prefix() + key@) + ")"@,
            )),
    {
        let not_found = match f.http {
            Some(status) => status == 404,
            None => false,
        };
        if not_found || f.grpc_not_found {
            return Ok(false);
        }
        let e = self.call_failed("get_object", f, "key", key);
        proof {
            reveal_strlit("GCS ");
            reveal_strlit("get_object");
            reveal_strlit(" failed: ");
            reveal_strlit("GCS get_object failed: ");
            reveal_strlit(", ");
            reveal_strlit("key");
            reveal_strlit(": ");
            reveal_strlit(", key: ");
            assert("GCS "@ + "get_object"@ + " failed: "@ =~= "GCS get_object failed: "@);
            assert(", "@ + "key"@ + ": "@ =~= ", key: "@);
            let a = "GCS "@ + "get_object"@ + " failed: "@ + f.display@ + " (bucket: "@
                + self.bucket() + ", "@ + "key"@ + ": "@ + (self.prefix() + key@) + ")"@;
            let b = "GCS get_object failed: "@ + f.display@ + " (bucket: "@ + self.bucket()
                + ", key: "@ + (self.prefix() + key@) + ")"@;
            assert(a =~= "GCS get_object failed: "@ + f.display@ + " (bucket: "@ + self.bucket() + (
            ", "@ + "key"@ + ": "@) + (self.prefix() + key@) + ")"@);
            assert(a =~= b);
        }
        Err(e)
    }
}

/// A bucket is locked as soon as it has a period, however short: part of a day counts as one.
pub proof fn law_any_period_locks(policy: RetentionPolicy)
    requires
        policy.seconds > 0,
    ensures
        policy_lock(Some(policy)) != LockState::Off,
        1 <= whole_days(policy.seconds) <= u32::MAX,
{
}

/// A period of whole days is reported as that many days.
pub proof fn law_whole_days_are_exact(days: u32)
    ensures
        whole_days((days * SECONDS_PER_DAY) as u64) == days,
{
    assert(0 <= days * 86_400 <= 0xFFFF_FFFF * 86_400);
    assert((days * 86_400 + 86_399) / 86_400 == days);
}

/// What does not exist fails fast.
pub proof fn law_absence_is_permanent(f: GcsFailure)
    requires
        says_absent(f),
    ensures
        !failure::transient(failure_class(f)),
{
}

} // verus!
