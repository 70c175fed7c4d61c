//! The S3 backend around its provider calls: how requests are shaped and what replies and
//! failures mean.
//!
//! Failures are classified by their structure (the service's error code, the transport's
//! flags), never by their text, so that a change of wording cannot turn a permanent failure
//! into a transient one.

use vstd::prelude::*;

use crate::compression::CompressionConfig;
use crate::config::ResolvedS3Auth;
use crate::error::{self, ObjectStoreError};
use crate::failure::FailureKind;
use crate::helpers;
use crate::lock::LockState;
use crate::objects::{self, Listing, StoredChunk};
use crate::text;

verus! {

/// A failed S3 call.
#[derive(Debug, Clone)]
pub enum S3Failure {
    /// The service answered with an error.
    Service { code: Option<String>, message: Option<String> },
    /// The request could not be sent. `causes` is the connector's error followed by its
    /// sources, if there is one.
    Dispatch { is_io: bool, is_timeout: bool, is_user: bool, causes: Option<Vec<String>> },
    Timeout,
    /// The request could not be built.
    Construction { debug: String },
    /// The response could not be read.
    Response { debug: String },
    /// Any other failure.
    Unknown { display: String },
}

/// A failed call together with its text and the name of its type.
#[derive(Debug, Clone)]
pub struct S3Report {
    pub failure: S3Failure,
    pub display: String,
    pub rust_type: String,
}

/// `code` is one of the codes for a refused permission. A problem of the account, such as
/// billing, is not among them: it can clear on its own.
pub open spec fn is_authz_code(code: Seq<char>) -> bool {
    ||| text::same_ignoring_ascii_case(code, "AccessDenied"@)
    ||| text::same_ignoring_ascii_case(code, "AllAccessDisabled"@)
}

/// `code` is one of the codes for missing, invalid or expired credentials. A skewed clock is
/// among them: it breaks the signature.
pub open spec fn is_auth_code(code: Seq<char>) -> bool {
    ||| text::same_ignoring_ascii_case(code, "InvalidAccessKeyId"@)
    ||| text::same_ignoring_ascii_case(code, "SignatureDoesNotMatch"@)
    ||| text::same_ignoring_ascii_case(code, "InvalidToken"@)
    ||| text::same_ignoring_ascii_case(code, "ExpiredToken"@)
    ||| text::same_ignoring_ascii_case(code, "TokenRefreshRequired"@)
    ||| text::same_ignoring_ascii_case(code, "InvalidClientTokenId"@)
    ||| text::same_ignoring_ascii_case(code, "MissingAuthenticationToken"@)
    ||| text::same_ignoring_ascii_case(code, "InvalidSecurity"@)
    ||| text::same_ignoring_ascii_case(code, "RequestTimeTooSkewed"@)
}

/// `code` is one of the codes for a bucket in another region.
pub open spec fn is_region_code(code: Seq<char>) -> bool {
    ||| text::same_ignoring_ascii_case(code, "PermanentRedirect"@)
    ||| text::same_ignoring_ascii_case(code, "AuthorizationHeaderMalformed"@)
    ||| text::same_ignoring_ascii_case(code, "IllegalLocationConstraintException"@)
    ||| text::same_ignoring_ascii_case(code, "BucketRegionError"@)
}

/// `code` is one of the codes for a missing bucket or object.
pub open spec fn is_absence_code(code: Seq<char>) -> bool {
    ||| text::same_ignoring_ascii_case(code, "NoSuchBucket"@)
    ||| text::same_ignoring_ascii_case(code, "NoSuchKey"@)
    ||| text::same_ignoring_ascii_case(code, "NotFound"@)
}

/// The class of a service error code. Codes are compared without regard to case; an unknown
/// code, and none at all, are worth retrying.
pub open spec fn code_class(code: Option<Seq<char>>) -> FailureKind {
    match code {
        None => FailureKind::Other,
        Some(code) => if is_authz_code(code) {
            FailureKind::Authz
        } else if is_auth_code(code) {
            FailureKind::Auth
        } else if is_region_code(code) {
            FailureKind::RegionMismatch
        } else if is_absence_code(code) {
            FailureKind::NotFound
        } else if text::same_ignoring_ascii_case(code, "RequestTimeout"@) {
            FailureKind::Timeout
        } else {
            FailureKind::Other
        },
    }
}

/// Classifies a service error code.
pub fn classify_s3_service_code(code: Option<&str>) -> (r: FailureKind)
    ensures
        r == code_class(
            match code {
                Some(c) => Some(c@),
                None => None,
            },
        ),
{
    let code = match code {
        Some(code) => code,
        None => return FailureKind::Other,
    };
    if text::eq_ignore_ascii_case(code, "AccessDenied") || text::eq_ignore_ascii_case(
        code,
        "AllAccessDisabled",
    ) {
        FailureKind::Authz
    } else if text::eq_ignore_ascii_case(code, "InvalidAccessKeyId") || text::eq_ignore_ascii_case(
        code,
        "SignatureDoesNotMatch",
    ) || text::eq_ignore_ascii_case(code, "InvalidToken") || text::eq_ignore_ascii_case(
        code,
        "ExpiredToken",
    ) || text::eq_ignore_ascii_case(code, "TokenRefreshRequired") || text::eq_ignore_ascii_case(
        code,
        "InvalidClientTokenId",
    ) || text::eq_ignore_ascii_case(code, "MissingAuthenticationToken")
        || text::eq_ignore_ascii_case(code, "InvalidSecurity") || text::eq_ignore_ascii_case(
        code,
        "RequestTimeTooSkewed",
    ) {
        FailureKind::Auth
    } else if text::eq_ignore_ascii_case(code, "PermanentRedirect") || text::eq_ignore_ascii_case(
        code,
        "AuthorizationHeaderMalformed",
    ) || text::eq_ignore_ascii_case(code, "IllegalLocationConstraintException")
        || text::eq_ignore_ascii_case(code, "BucketRegionError") {
        FailureKind::RegionMismatch
    } else if text::eq_ignore_ascii_case(code, "NoSuchBucket") || text::eq_ignore_ascii_case(
        code,
        "NoSuchKey",
    ) || text::eq_ignore_ascii_case(code, "NotFound") {
        FailureKind::NotFound
    } else if text::eq_ignore_ascii_case(code, "RequestTimeout") {
        FailureKind::Timeout
    } else {
        FailureKind::Other
    }
}

/// The class of a failed call. A request that could not be built, or not be signed, points at
/// the credentials.
pub open spec fn failure_class(f: S3Failure) -> FailureKind {
    match f {
        S3Failure::Service { code, .. } => code_class(text::opt_view(code)),
        S3Failure::Dispatch { is_io, is_timeout, is_user, .. } => if is_timeout {
            FailureKind::Timeout
        } else if is_io {
            FailureKind::Network
        } else if is_user {
            FailureKind::Auth
        } else {
            FailureKind::Other
        },
        S3Failure::Timeout => FailureKind::Timeout,
        S3Failure::Construction { .. } => FailureKind::Auth,
        S3Failure::Response { .. } => FailureKind::Other,
        S3Failure::Unknown { .. } => FailureKind::Other,
    }
}

/// Classifies a failed call.
pub fn classify_s3_sdk_error(f: &S3Failure) -> (r: FailureKind)
    ensures
        r == failure_class(*f),
{
    match f {
        S3Failure::Service { code, .. } => match code {
            Some(c) => classify_s3_service_code(Some(c.as_str())),
            None => classify_s3_service_code(None),
        },
        S3Failure::Dispatch { is_io, is_timeout, is_user, .. } => if *is_timeout {
            FailureKind::Timeout
        } else if *is_io {
            FailureKind::Network
        } else if *is_user {
            FailureKind::Auth
        } else {
            FailureKind::Other
        },
        S3Failure::Timeout => FailureKind::Timeout,
        S3Failure::Construction { .. } => FailureKind::Auth,
        S3Failure::Response { .. } => FailureKind::Other,
        S3Failure::Unknown { .. } => FailureKind::Other,
    }
}

/// A text in double quotes, with the characters escaped that `Debug` escapes.
pub uninterp spec fn quoted(s: Seq<char>) -> Seq<char>;

/// `std::fmt::Debug` of a string slice, through the format macro. The result is named by
/// `quoted`.
#[verifier::external_body]
fn debug_quoted(s: &str) -> (r: String)
    ensures
        r@ == quoted(s@),
{
    format!("{:?}", s)
}

/// An optional code as messages show it.
pub open spec fn shown_code(code: Option<Seq<char>>) -> Seq<char> {
    match code {
        Some(c) => "Some("@ + quoted(c) + ")"@,
        None => "None"@,
    }
}

/// An optional code as messages show it.
fn show_code(code: &Option<String>) -> (r: String)
    ensures
        r@ == shown_code(text::opt_view(*code)),
{
    match code {
        Some(c) => {
            let mut s = text::concat2("Some(", debug_quoted(c).as_str());
            s.append(")");
            s
        },
        None => "None".to_owned(),
    }
}

/// The service's message, or that there is none.
pub open spec fn shown_message(message: Option<String>) -> Seq<char> {
    match message {
        Some(m) => m@,
        None => "no message"@,
    }
}

/// The service's message, or that there is none.
fn show_message(message: &Option<String>) -> (r: String)
    ensures
        r@ == shown_message(*message),
{
    match message {
        Some(m) => m.clone(),
        None => "no message".to_owned(),
    }
}

/// The kind of a dispatch failure in messages.
pub open spec fn dispatch_tag(is_io: bool, is_timeout: bool, is_user: bool) -> Seq<char> {
    if is_io {
        "io"@
    } else if is_timeout {
        "timeout"@
    } else if is_user {
        "user"@
    } else {
        "other"@
    }
}

/// The first `n` causes with arrows between them.
pub open spec fn cause_chain(causes: Seq<String>, n: nat) -> Seq<char>
    decreases n,
{
    if n == 0 {
        Seq::empty()
    } else if n == 1 {
        causes[0]@
    } else {
        cause_chain(causes, (n - 1) as nat) + " -> "@ + causes[n - 1]@
    }
}

/// The connector's error and its sources, or that there is none.
pub open spec fn shown_causes(causes: Option<Vec<String>>) -> Seq<char> {
    match causes {
        Some(c) => cause_chain(c@, c@.len()),
        None => "no connector error attached"@,
    }
}

/// The connector's error and its sources, or that there is none.
fn show_causes(causes: &Option<Vec<String>>) -> (r: String)
    ensures
        r@ == shown_causes(*causes),
{
    match causes {
        None => "no connector error attached".to_owned(),
        Some(c) => {
            let mut s = String::new();
            let mut i: usize = 0;
            assert(s@ =~= cause_chain(c@, 0));
            while i < c.len()
                invariant
                    0 <= i <= c.len(),
                    s@ == cause_chain(c@, i as nat),
                decreases c.len() - i,
            {
                if i > 0 {
                    s.append(" -> ");
                }
                s.append(&c[i]);
                i = i + 1;
                assert(s@ =~= cause_chain(c@, i as nat));
            }
            s
        },
    }
}

pub const CONSTRUCTION_TAIL: &'static str =
    ") — typically missing/invalid credentials or bad configuration";

/// The one-line description of a failed call.
pub open spec fn failure_text(op: Seq<char>, f: S3Failure) -> Seq<char> {
    match f {
        S3Failure::Service { code, message } => op + " failed: service error (code: "@ + shown_code(
            text::opt_view(code),
        ) + ", message: "@ + shown_message(message) + ")"@,
        S3Failure::Dispatch { is_io, is_timeout, is_user, causes } => op
            + " failed: dispatch failure ("@ + dispatch_tag(is_io, is_timeout, is_user) + ": "@
            + shown_causes(causes) + ")"@,
        S3Failure::Timeout => op + " failed: timeout"@,
        S3Failure::Construction { debug } => op + " failed: construction failure ("@ + debug@
            + CONSTRUCTION_TAIL@,
        S3Failure::Response { debug } => op + " failed: response error ("@ + debug@ + ")"@,
        S3Failure::Unknown { display } => op + " failed: "@ + display@,
    }
}

/// Describes a failed call in one line that tells service errors, transport failures,
/// timeouts and construction failures apart.
pub fn describe_sdk_error(op: &str, f: &S3Failure) -> (r: String)
    ensures
        r@ == failure_text(op@, *f),
{
    match f {
        S3Failure::Service { code, message } => {
            let mut s = text::concat2(op, " failed: service error (code: ");
            s.append(show_code(code).as_str());
            s.append(", message: ");
            s.append(show_message(message).as_str());
            s.append(")");
            s
        },
        S3Failure::Dispatch { is_io, is_timeout, is_user, causes } => {
            let tag = if *is_io {
                "io"
            } else if *is_timeout {
                "timeout"
            } else if *is_user {
                "user"
            } else {
                "other"
            };
            let mut s = text::concat2(op, " failed: dispatch failure (");
            s.append(tag);
            s.append(": ");
            s.append(show_causes(causes).as_str());
            s.append(")");
            s
        },
        S3Failure::Timeout => text::concat2(op, " failed: timeout"),
        S3Failure::Construction { debug } => {
            let mut s = text::concat2(op, " failed: construction failure (");
            s.append(debug);
            s.append(CONSTRUCTION_TAIL);
            s
        },
        S3Failure::Response { debug } => {
            let mut s = text::concat2(op, " failed: response error (");
            s.append(debug);
            s.append(")");
            s
        },
        S3Failure::Unknown { display } => {
            let mut s = text::concat2(op, " failed: ");
            s.append(display);
            s
        },
    }
}

/// The default retention of a bucket, as the service reports it.
#[derive(Debug, Clone, Copy, PartialEq, Eq, Structural)]
pub struct S3Retention {
    pub days: Option<i32>,
    pub years: Option<i32>,
    pub mode: S3RetentionMode,
}

/// The mode of a default retention.
#[derive(Debug, Clone, Copy, PartialEq, Eq, Structural)]
pub enum S3RetentionMode {
    Governance,
    Compliance,
    /// Not given, or not known.
    Unknown,
}

/// The object-lock configuration of a bucket, as the service reports it.
#[derive(Debug, Clone)]
pub struct S3LockConfig {
    pub enabled: Option<String>,
    /// The default retention of the bucket's rule, where there is a rule with one.
    pub retention: Option<S3Retention>,
}

/// A number of days, with less than none read as none.
pub open spec fn days_of(n: i32) -> int {
    if n < 0 {
        0
    } else {
        n as int
    }
}

/// The length of a default retention in days: a year counts as 365, up to the largest
/// representable number. Days win where both are given.
pub open spec fn retention_days(r: S3Retention) -> Option<int> {
    match r.days {
        Some(d) => Some(days_of(d)),
        None => match r.years {
            Some(y) => Some(
                if days_of(y) * 365 > u32::MAX {
                    u32::MAX as int
                } else {
                    days_of(y) * 365
                },
            ),
            None => None,
        },
    }
}

/// The lock state that an object-lock configuration amounts to. Anything short of an enabled
/// lock with a default retention of known mode and length is no lock.
pub open spec fn lock_meant(config: Option<S3LockConfig>) -> LockState {
    match config {
        Some(S3LockConfig { enabled: Some(e), retention: Some(r) }) => if e@ != "Enabled"@ {
            LockState::Off
        } else {
            match retention_days(r) {
                None => LockState::Off,
                Some(days) => match r.mode {
                    S3RetentionMode::Governance => LockState::Governance {
                        default_days: days as u32,
                    },
                    S3RetentionMode::Compliance => LockState::Compliance {
                        default_days: days as u32,
                    },
                    S3RetentionMode::Unknown => LockState::Off,
                },
            }
        },
        _ => LockState::Off,
    }
}

/// The length of a default retention in days.
fn days_in(r: &S3Retention) -> (n: Option<u32>)
    ensures
        match n {
            Some(d) => retention_days(*r) == Some(d as int),
            None => retention_days(*r) is None,
        },
{
    match r.days {
        Some(d) => Some(
            if d < 0 {
                0
            } else {
                d as u32
            },
        ),
        None => match r.years {
            Some(y) => {
                let years: u32 = if y < 0 {
                    0
                } else {
                    y as u32
                };
                Some(
                    if years > u32::MAX / 365 {
                        u32::MAX
                    } else {
                        years * 365
                    },
                )
            },
            None => None,
        },
    }
}

/// The lock state that an object-lock configuration amounts to.
pub fn lock_state_of(config: &Option<S3LockConfig>) -> (r: LockState)
    ensures
        r == lock_meant(*config),
{
    let config = match config {
        Some(c) => c,
        None => return LockState::Off,
    };
    let enabled = match &config.enabled {
        Some(e) => text::same(e, "Enabled"),
        None => false,
    };
    if !enabled {
        return LockState::Off;
    }
    let retention = match &config.retention {
        Some(r) => r,
        None => return LockState::Off,
    };
    let days: u32 = match days_in(retention) {
        Some(d) => d,
        None => return LockState::Off,
    };
    match retention.mode {
        S3RetentionMode::Governance => LockState::Governance { default_days: days },
        S3RetentionMode::Compliance => LockState::Compliance { default_days: days },
        S3RetentionMode::Unknown => LockState::Off,
    }
}

/// How the client of a backend is set up.
#[derive(Debug, Clone)]
pub struct S3Connection {
    pub region: String,
    pub endpoint_url: Option<String>,
    /// Use the endpoint that answers on both address families.
    pub use_dual_stack: bool,
    /// Put the bucket into the path of request URLs.
    pub force_path_style: bool,
    /// Credentials that replace the provider's chain.
    pub auth: Option<ResolvedS3Auth>,
}

/// The S3 backend.
#[derive(Debug, Clone)]
pub struct S3Backend {
    bucket: String,
    prefix: String,
    compression_config: CompressionConfig,
}

impl S3Backend {
    /// The bucket.
    pub closed spec fn bucket(self) -> Seq<char> {
        self.bucket@
    }

    /// The key prefix.
    pub closed spec fn prefix(self) -> Seq<char> {
        self.prefix@
    }

    /// The compression settings.
    pub closed spec fn compression(self) -> CompressionConfig {
        self.compression_config
    }

    /// A backend and the set-up of its client. A custom endpoint has no dual-stack variant and
    /// gets path-style URLs unless told otherwise, as most compatible services support no
    /// other; an explicit choice of URL style always wins.
    pub fn new(
        bucket: String,
        prefix: String,
        region: String,
        endpoint_url: Option<String>,
        path_style: Option<bool>,
        auth: Option<ResolvedS3Auth>,
        compression_config: CompressionConfig,
    ) -> (r: (Self, S3Connection))
        ensures
            r.0.bucket() == bucket@,
            r.0.prefix() == prefix@,
            r.0.compression() == compression_config,
            r.1 == (S3Connection {
                region,
                endpoint_url,
                use_dual_stack: endpoint_url is None,
                force_path_style: match path_style {
                    Some(choice) => choice,
                    None => endpoint_url is Some,
                },
                auth,
            }),
    {
        let endpoint_was_set = endpoint_url.is_some();
        let force_path_style = match path_style {
            Some(choice) => choice,
            None => endpoint_was_set,
        };
        let connection = S3Connection {
            region,
            endpoint_url,
            use_dual_stack: !endpoint_was_set,
            force_path_style,
            auth,
        };
        (S3Backend { bucket, prefix, compression_config }, connection)
    }

    /// Legal holds can be placed on objects.
    pub fn supports_legal_hold(&self) -> (r: bool)
        ensures
            r,
    {
        true
    }

    /// The kind of this backend.
    pub fn backend_type(&self) -> (r: &'static str)
        ensures
            r@ == "s3"@,
    {
        "s3"
    }

    /// The object key as the service sees it.
    pub fn full_key(&self, key: &str) -> (r: String)
        ensures
            r@ == self.prefix() + key@,
    {
        helpers::full_key(&self.prefix, key)
    }

    /// What is stored, and where, to upload a chunk.
    pub fn upload_chunk(&self, key: &str, data: &[u8]) -> (r: Result<
        (String, StoredChunk),
        ObjectStoreError,
    >)
        ensures
            match objects::stored_bytes(self.compression(), data@) {
                Ok(bytes) => r matches Ok((full_key, stored)) && {
                    &&& full_key@ == self.prefix() + key@
                    &&& stored.bytes@ == bytes
                    &&& stored.outcome.uncompressed == data@.len()
                    &&& stored.outcome.algo == self.compression().algorithm
                    &&& stored.outcome.compressed is Some <==> self.compression().algorithm is Some
                    &&& stored.outcome.compressed matches Some(n) ==> n == bytes.len()
                    &&& stored.marker@ == objects::marker_of(self.compression().algorithm)
                },
                Err(m) => r matches Err(ObjectStoreError::Compression(t)) && t@ == m,
            },
            r matches Ok((_, stored)) ==> (objects::chunk_of(Some(stored.marker@), stored.bytes@)
                matches Ok(d) && d == data@),
    {
        match objects::encode_chunk(self.compression_config, data) {
            Ok(stored) => Ok((self.full_key(key), stored)),
            Err(e) => Err(e),
        }
    }

    /// The error of a call on an object that is reported with the failure's own text: `what`
    /// failed, with the service's code and message where there are any.
    pub fn object_failed(&self, what: &str, report: &S3Report, key: &str) -> (r: ObjectStoreError)
        ensures
            error::reported(
                r,
                failure_class(report.failure),
                object_failure_text(what@, *report, self.bucket(), self.prefix() + key@),
            ),
    {
        let full_key = self.full_key(key);
        let mut m = text::concat2(what, " failed: ");
        m.append(&report.display);
        match &report.failure {
            S3Failure::Service { code, message } => {
                m.append(" (code: ");
                m.append(show_code(code).as_str());
                m.append(", message: ");
                m.append(show_message(message).as_str());
                m.append(", bucket: ");
                m.append(&self.bucket);
                m.append(", key: ");
                m.append(&full_key);
                m.append(")");
            },
            _ => {
                m.append(" (bucket: ");
                m.append(&self.bucket);
                m.append(", key: ");
                m.append(&full_key);
                m.append(", error type: ");
                m.append(debug_quoted(&report.rust_type).as_str());
                m.append(")");
            },
        }
        ObjectStoreError::classified(classify_s3_sdk_error(&report.failure), m)
    }

    /// The error of a call on an object that is reported with a description of the failure.
    pub fn described(&self, op: &str, f: &S3Failure, key: &str) -> (r: ObjectStoreError)
        ensures
            error::reported(
                r,
                failure_class(*f),
                described_text(op@, *f, self.bucket(), self.prefix() + key@),
            ),
    {
        let mut m = describe_sdk_error(op, f);
        m.append(" (bucket: ");
        m.append(&self.bucket);
        m.append(", key: ");
        m.append(self.full_key(key).as_str());
        m.append(")");
        ObjectStoreError::classified(classify_s3_sdk_error(f), m)
    }

    /// The error of a failed listing.
    pub fn list_failed(&self, f: &S3Failure, key_prefix: &str) -> (r: ObjectStoreError)
        ensures
            error::reported(
                r,
                failure_class(*f),
                failure_text("list_objects"@, *f) + " (bucket: "@ + self.bucket() + ", prefix: "@
                    + (self.prefix() + key_prefix@) + ")"@,
            ),
    {
        let mut m = describe_sdk_error("list_objects", f);
        m.append(" (bucket: ");
        m.append(&self.bucket);
        m.append(", prefix: ");
        m.append(self.full_key(key_prefix).as_str());
        m.append(")");
        ObjectStoreError::classified(classify_s3_sdk_error(f), m)
    }

    /// Begins a listing below `key_prefix`.
    pub fn list_objects(&self, key_prefix: &str) -> (r: Listing)
        ensures
            r.prefix() == self.prefix(),
            r.requested() == self.prefix() + key_prefix@,
            r.found() == Seq::<Seq<char>>::empty(),
            r.token() is None,
            !r.done(),
    {
        Listing::new(&self.prefix, key_prefix)
    }

    /// The chunk that a downloaded object holds, going by its compression marker.
    pub fn download_chunk(&self, marker: Option<&str>, bytes: Vec<u8>) -> (r: Result<
        Vec<u8>,
        ObjectStoreError,
    >)
        ensures
            objects::read_as(marker, bytes@, r),
    {
        objects::decode_chunk(marker, bytes)
    }

    /// Turns the bytes of a downloaded manifest into its text.
    pub fn download_manifest(&self, bytes: Vec<u8>) -> (r: Result<String, ObjectStoreError>)
        ensures
            match r {
                Ok(json) => vstd::utf8::valid_utf8(bytes@) && json@ == vstd::utf8::decode_utf8(
                    bytes@,
                ),
                Err(e) => !vstd::utf8::valid_utf8(bytes@) && (e matches ObjectStoreError::Other(t)
                    && t@ == "manifest not valid UTF-8: "@ + objects::utf8_complaint(bytes@)),
            },
    {
        objects::decode_manifest(bytes)
    }

    /// The outcome of writing a manifest.
    pub fn upload_manifest(&self, key: &str, outcome: Result<(), S3Failure>) -> (r: Result<
        (),
        ObjectStoreError,
    >)
        ensures
            match outcome {
                Ok(_) => r is Ok,
                Err(f) => r matches Err(e) && error::reported(
                    e,
                    failure_class(f),
                    described_text("manifest upload"@, f, self.bucket(), self.prefix() + key@),
                ),
            },
    {
        match outcome {
            Ok(_) => Ok(()),
            Err(f) => Err(self.described("manifest upload", &f, key)),
        }
    }

    /// The outcome of deleting an object.
    pub fn delete_object(&self, key: &str, outcome: Result<(), S3Failure>) -> (r: Result<
        (),
        ObjectStoreError,
    >)
        ensures
            match outcome {
                Ok(_) => r is Ok,
                Err(f) => r matches Err(e) && error::reported(
                    e,
                    failure_class(f),
                    described_text("delete_object"@, f, self.bucket(), self.prefix() + key@),
                ),
            },
    {
        match outcome {
            Ok(_) => Ok(()),
            Err(f) => Err(self.described("delete_object", &f, key)),
        }
    }

    /// The outcome of placing or lifting a legal hold.
    pub fn set_object_legal_hold(&self, key: &str, outcome: Result<(), S3Failure>) -> (r: Result<
        (),
        ObjectStoreError,
    >)
        ensures
            match outcome {
                Ok(_) => r is Ok,
                Err(f) => r matches Err(e) && error::reported(
                    e,
                    failure_class(f),
                    described_text("put_object_legal_hold"@, f, self.bucket(), self.prefix() + key@),
                ),
            },
    {
        match outcome {
            Ok(_) => Ok(()),
            Err(f) => Err(self.described("put_object_legal_hold", &f, key)),
        }
    }

    /// Whether an object exists, from the reply to a HEAD. A failure that says that there is no
    /// such object is an answer; any other failure is reported.
    pub fn chunk_exists(&self, key: &str, head: Result<(), S3Report>) -> (r: Result<
        bool,
        ObjectStoreError,
    >)
        ensures
            match head {
                Ok(_) => r == Ok::<bool, ObjectStoreError>(true),
                Err(report) => if says_absent(report.failure, report.display@) {
                    r == Ok::<bool, ObjectStoreError>(false)
                } else {
                    r matches Err(e) && error::reported(
                        e,
                        failure_class(report.failure),
                        object_failure_text(
                            "head_object"@,
                            report,
                            self.bucket(),
                            self.prefix() + key@,
                        ),
                    )
                },
            },
    {
        let report = match head {
            Ok(_) => return Ok(true),
            Err(report) => report,
        };
        if let S3Failure::Service { code: Some(code), .. } = &report.failure {
            if text::same(code, "NotFound") {
                return Ok(false);
            }
        }
        if text::contains(&report.display, "404") || text::contains(&report.display, "NotFound") {
            return Ok(false);
        }
        Err(self.object_failed("head_object", &report, key))
    }

    /// What a failed query of the object-lock configuration means: a bucket without one is not
    /// locked, any other failure is reported. `debug` is the failure's debug text.
    pub fn lock_query_failed(&self, f: &S3Failure, debug: &str) -> (r: Result<
        LockState,
        ObjectStoreError,
    >)
        ensures
            says_no_lock(debug@) ==> r == Ok::<LockState, ObjectStoreError>(LockState::Off),
            !says_no_lock(debug@) ==> (r matches Err(e) && error::reported(
                e,
                failure_class(*f),
                "GetObjectLockConfiguration on "@ + self.bucket() + ": "@ + debug@,
            )),
    {
        if text::contains(debug, "ObjectLockConfigurationNotFoundError") || text::contains(
            debug,
            "InvalidRequest",
        ) {
            return Ok(LockState::Off);
        }
        let mut m = text::concat2("GetObjectLockConfiguration on ", &self.bucket);
        m.append(": ");
        m.append(debug);
        Err(ObjectStoreError::classified(classify_s3_sdk_error(f), m))
    }

    /// What a failed query of a legal hold means: an object that never had one, and one in a
    /// bucket without object lock, are not held; any other failure is reported.
    pub fn hold_query_failed(&self, f: &S3Failure, debug: &str, key: &str) -> (r: Result<
        bool,
        ObjectStoreError,
    >)
        ensures
            says_not_held(debug@) ==> r == Ok::<bool, ObjectStoreError>(false),
            !says_not_held(debug@) ==> (r matches Err(e) && error::reported(
                e,
                failure_class(*f),
                described_text("get_object_legal_hold"@, *f, self.bucket(), self.prefix() + key@),
            )),
    {
        if text::contains(debug, "NoSuchObjectLockConfiguration") || text::contains(
            debug,
            "does not have a ObjectLock configuration",
        ) || text::contains(debug, "Bucket is missing Object Lock Configuration") {
            return Ok(false);
        }
        Err(self.described("get_object_legal_hold", f, key))
    }
}

/// The text of a failed call on an object, with the failure's own text.
pub open spec fn object_failure_text(
    what: Seq<char>,
    report: S3Report,
    bucket: Seq<char>,
    full_key: Seq<char>,
) -> Seq<char> {
    match report.failure {
        S3Failure::Service { code, message } => what + " failed: "@ + report.display@ + " (code: "@
            + shown_code(text::opt_view(code)) + ", message: "@ + shown_message(message) + ", bucket: "@
            + bucket + ", key: "@ + full_key + ")"@,
        _ => what + " failed: "@ + report.display@ + " (bucket: "@ + bucket + ", key: "@ + full_key
            + ", error type: "@ + quoted(report.rust_type@) + ")"@,
    }
}

/// The text of a failed call on an object, with a description of the failure.
pub open spec fn described_text(
    op: Seq<char>,
    f: S3Failure,
    bucket: Seq<char>,
    full_key: Seq<char>,
) -> Seq<char> {
    failure_text(op, f) + " (bucket: "@ + bucket + ", key: "@ + full_key + ")"@
}

/// A failed HEAD says that the object does not exist.
pub open spec fn says_absent(f: S3Failure, display: Seq<char>) -> bool {
    ||| (f matches S3Failure::Service { code: Some(code), .. } && code@ == "NotFound"@)
    ||| text::has_substring(display, "404"@)
    ||| text::has_substring(display, "NotFound"@)
}

/// A failed query says that the bucket has no object lock.
pub open spec fn says_no_lock(debug: Seq<char>) -> bool {
    ||| text::has_substring(debug, "ObjectLockConfigurationNotFoundError"@)
    ||| text::has_substring(debug, "InvalidRequest"@)
}

/// A failed query says that the object carries no legal hold.
pub open spec fn says_not_held(debug: Seq<char>) -> bool {
    ||| text::has_substring(debug, "NoSuchObjectLockConfiguration"@)
    ||| text::has_substring(debug, "does not have a ObjectLock configuration"@)
    ||| text::has_substring(debug, "Bucket is missing Object Lock Configuration"@)
}

/// The class of a code does not depend on its case.
pub proof fn law_code_class_ignores_case(a: Seq<char>, b: Seq<char>)
    requires
        text::same_ignoring_ascii_case(a, b),
    ensures
        code_class(Some(a)) == code_class(Some(b)),
{
    assert forall|c: Seq<char>|
        text::same_ignoring_ascii_case(a, c) == #[trigger] text::same_ignoring_ascii_case(b, c) by {
        if text::same_ignoring_ascii_case(b, c) {
            assert forall|i: int| 0 <= i < a.len() implies text::ascii_lower(#[trigger] a[i])
                == text::ascii_lower(c[i]) by {
                assert(text::ascii_lower(b[i]) == text::ascii_lower(c[i]));
            }
        }
        if text::same_ignoring_ascii_case(a, c) {
            assert forall|i: int| 0 <= i < b.len() implies text::ascii_lower(#[trigger] b[i])
                == text::ascii_lower(c[i]) by {
                assert(text::ascii_lower(a[i]) == text::ascii_lower(c[i]));
            }
        }
    }
    assert(is_authz_code(a) == is_authz_code(b));
    assert(is_auth_code(a) == is_auth_code(b));
    assert(is_region_code(a) == is_region_code(b));
    assert(is_absence_code(a) == is_absence_code(b));
}

/// The class of a failure does not depend on any message in it.
pub proof fn law_failure_class_ignores_messages(
    code: Option<String>,
    a: Option<String>,
    b: Option<String>,
)
    ensures
        failure_class(S3Failure::Service { code, message: a }) == failure_class(
            S3Failure::Service { code, message: b },
        ),
{
}

/// A bucket counts as locked only where object lock is enabled with a default retention.
pub proof fn law_lock_needs_enabled_retention(config: Option<S3LockConfig>)
    requires
        lock_meant(config) != LockState::Off,
    ensures
        config matches Some(c) && (c.enabled matches Some(e) && e@ == "Enabled"@) && (
        c.retention matches Some(r) && retention_days(r) is Some && r.mode
            != S3RetentionMode::Unknown),
{
}

} // verus!
