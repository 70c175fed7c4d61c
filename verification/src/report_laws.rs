//! Laws of names and texts: what labels and messages tell, and where they begin.

use vstd::prelude::*;

use crate::azure::AzureBackend;
use crate::backend_check::{self, ObjectStoreCheckStep};
use crate::budget::BackpressureError;
use crate::compression::{
    self,
    CompressionAlgo,
    CompressionConfig,
    DriveCompressionState,
    Lz4Stage,
};
use crate::config_error::ObjectStoreConfigError;
use crate::error::ObjectStoreError;
use crate::failure::{self, FailureKind};
use crate::gcs::{self, GcsBackend};
use crate::ghost::GhostList;
use crate::live_stats::{LiveStats, PoolCounters};
use crate::lock::LockState;
use crate::objects::{self, Listing};
use crate::pins::PinKey;
use crate::pool::{self, ChunkPoolError};
use crate::record;
use crate::s3::{self, S3Backend, S3Failure};
use crate::table::NameTable;
use crate::telemetry::Telemetry;
use crate::text;

verus! {

/// Algorithms and lock states are named in lower case; the days of a lock do not show.
pub proof fn law_short_names(
    algo: CompressionAlgo,
    a: &'static str,
    lock: LockState,
    l: &'static str,
)
    requires
        call_ensures(CompressionAlgo::as_str, (&algo,), a),
        call_ensures(LockState::label, (lock,), l),
    ensures
        a@ == "lz4"@ <==> algo == CompressionAlgo::Lz4,
        a@ == "zstd"@ <==> algo == CompressionAlgo::Zstd,
        a@ == "sldc"@ <==> algo == CompressionAlgo::Sldc,
        l@ == "off"@ <==> lock is Off,
        l@ == "governance"@ <==> lock is Governance,
        l@ == "compliance"@ <==> lock is Compliance,
{
    reveal_strlit("lz4");
    reveal_strlit("zstd");
    reveal_strlit("sldc");
    reveal_strlit("off");
    reveal_strlit("governance");
    reveal_strlit("compliance");
    assert("zstd"@[0] != "sldc"@[0]);
    assert("governance"@[0] != "compliance"@[0]);
}

/// A drive compresses what it writes exactly if it was made to; it has the algorithm and the
/// level it was made with, and LZ4 and level three where none was chosen.
pub proof fn law_drive_compression(
    algo: CompressionAlgo,
    level: i32,
    plain: DriveCompressionState,
    on: DriveCompressionState,
    with: DriveCompressionState,
    with_level: DriveCompressionState,
    writes: (bool, bool, bool, bool),
)
    requires
        call_ensures(DriveCompressionState::disabled, (), plain),
        call_ensures(DriveCompressionState::enabled, (), on),
        call_ensures(DriveCompressionState::enabled_with, (algo,), with),
        call_ensures(DriveCompressionState::enabled_with_level, (algo, level), with_level),
        call_ensures(DriveCompressionState::compress_on_write, (&plain,), writes.0),
        call_ensures(DriveCompressionState::compress_on_write, (&on,), writes.1),
        call_ensures(DriveCompressionState::compress_on_write, (&with,), writes.2),
        call_ensures(DriveCompressionState::compress_on_write, (&with_level,), writes.3),
    ensures
        !writes.0 && writes.1 && writes.2 && writes.3,
        on.algorithm == CompressionAlgo::Lz4 && on.level == 3,
        with.algorithm == algo && with.level == 3,
        with_level.algorithm == algo && with_level.level == level,
{
}

/// A configuration compresses exactly if it names an algorithm, at the level it was made with.
pub proof fn law_upload_compression(
    algo: Option<CompressionAlgo>,
    level: i32,
    made: CompressionConfig,
    off: CompressionConfig,
    a: bool,
    b: bool,
)
    requires
        call_ensures(CompressionConfig::new, (algo, level), made),
        call_ensures(CompressionConfig::disabled, (), off),
        call_ensures(CompressionConfig::enabled, (&made,), a),
        call_ensures(CompressionConfig::enabled, (&off,), b),
    ensures
        made.algorithm == algo && made.level == level,
        a <==> algo is Some,
        !b,
{
}

/// What a codec returned is passed on; a failed codec is told with the stage it failed in.
pub proof fn law_codec_outcomes(
    stage: &str,
    r: Result<Vec<u8>, String>,
    out: Result<Vec<u8>, ObjectStoreError>,
    lz4: Result<Vec<u8>, (Lz4Stage, String)>,
    lz4_out: Result<Vec<u8>, ObjectStoreError>,
)
    requires
        call_ensures(compression::codec_outcome, (stage, r), out),
        call_ensures(compression::lz4_outcome, (lz4,), lz4_out),
    ensures
        out is Ok <==> r is Ok,
        r is Ok ==> out->Ok_0@ == r->Ok_0@,
        r is Err ==> (out matches Err(ObjectStoreError::Compression(t)) && t@ == stage@
            + r->Err_0@),
        lz4_out is Ok <==> lz4 is Ok,
        lz4 is Ok ==> lz4_out->Ok_0@ == lz4->Ok_0@,
        lz4 is Err ==> (lz4_out matches Err(ObjectStoreError::Compression(t)) && t@ == (
        if lz4->Err_0.0 is Write {
            "lz4 write: "@
        } else {
            "lz4 finish: "@
        }) + lz4->Err_0.1@),
{
}

/// Whether a text begins with another.
pub open spec fn begins(s: Seq<char>, head: Seq<char>) -> bool {
    head.len() <= s.len() && s.take(head.len() as int) == head
}

proof fn lemma_begins(head: Seq<char>, tail: Seq<char>)
    ensures
        begins(head + tail, head),
{
    assert((head + tail).take(head.len() as int) =~= head);
}

/// A configuration error tells what it is about, and ends in the failure behind it where there
/// is one.
pub proof fn law_configuration_errors_tell_their_subject(
    e: ObjectStoreConfigError,
    r: String,
    source: ObjectStoreError,
    inner: String,
)
    requires
        call_ensures(ObjectStoreConfigError::text, (&e,), r),
        call_ensures(ObjectStoreError::text, (&source,), inner),
    ensures
        e matches ObjectStoreConfigError::UnknownBackend(n) ==> r@ == "backend name '"@ + n@
            + "' not defined under `cloud.backends:` in the YAML conffile"@,
        e matches ObjectStoreConfigError::AuthEnvVarMissing(n) ==> begins(
            r@,
            "auth env var '"@ + n@,
        ),
        e matches ObjectStoreConfigError::AzureRetentionFieldsMissing { name: n } ==> begins(
            r@,
            "Azure backend '"@ + n@,
        ),
        e matches ObjectStoreConfigError::BackendInit { backend: b, source: s } ==> (s == source
            ==> r@ == "failed to initialize "@ + b@ + " backend: "@ + inner@),
        e matches ObjectStoreConfigError::RetentionMismatch {
            name: n,
            configured: c,
            actual: a,
            hint: h,
        } ==> begins(
            r@,
            "backend '"@ + n@ + "': configured retention_mode is '"@ + c@
                + "' but bucket lock state is '"@ + a@,
        ) && begins(r@.reverse(), h@.reverse()),
        e matches ObjectStoreConfigError::ListFailed { bucket: b, prefix: p, source: s } ==> (s
            == source ==> r@ == "list failed on bucket '"@ + b@ + "' (prefix '"@ + p@ + "'): "@
            + inner@),
        e matches ObjectStoreConfigError::WriteFailed { bucket: b, source: s } ==> (s == source
            ==> r@ == "write of test object failed on bucket '"@ + b@ + "': "@ + inner@),
        e matches ObjectStoreConfigError::DeleteFailed { bucket: b, source: s } ==> (s == source
            ==> r@ == "delete of test object failed on bucket '"@ + b@ + "': "@ + inner@),
        e matches ObjectStoreConfigError::LockStateQueryFailed { name: n, source: s } ==> (s
            == source ==> r@ == "lock_state query failed for backend '"@ + n@ + "': "@ + inner@),
{
    match e {
        ObjectStoreConfigError::AuthEnvVarMissing(n) => {
            lemma_begins("auth env var '"@ + n@, crate::config_error::ENV_MISSING_TAIL@);
        },
        ObjectStoreConfigError::AzureRetentionFieldsMissing { name: n } => {
            lemma_begins("Azure backend '"@ + n@, crate::config_error::AZURE_FIELDS_TAIL@);
        },
        ObjectStoreConfigError::RetentionMismatch {
            name: n,
            configured: c,
            actual: a,
            hint: h,
        } => {
            let head = "backend '"@ + n@ + "': configured retention_mode is '"@ + c@
                + "' but bucket lock state is '"@ + a@;
            let middle = crate::config_error::MISMATCH_CONTRACT@;
            assert(r@ =~= head + (middle + h@));
            lemma_begins(head, middle + h@);
            assert(r@.reverse() =~= h@.reverse() + (head + middle).reverse());
            lemma_begins(h@.reverse(), (head + middle).reverse());
        },
        _ => {},
    }
}

/// A diagnosis tells the class of a failure by its first words.
pub proof fn law_diagnoses(kind: FailureKind, r: &'static str)
    requires
        call_ensures(FailureKind::diagnosis, (kind,), r),
    ensures
        kind == FailureKind::Network <==> begins(r@, "Cannot reach"@),
        kind == FailureKind::Auth <==> begins(r@, "Credentials"@),
        kind == FailureKind::Authz <==> begins(r@, "Authentication succeeded"@),
        kind == FailureKind::NotFound <==> begins(r@, "The bucket ("@),
        kind == FailureKind::RegionMismatch <==> begins(r@, "The bucket exists in"@),
        kind == FailureKind::Timeout <==> begins(r@, "Request timed out"@),
        kind == FailureKind::Other <==> begins(r@, "Unclassified"@),
{
    reveal_strlit("Cannot reach the cloud provider — DNS, network, TLS, or endpoint URL.");
    reveal_strlit("Credentials were rejected — missing, expired, or wrong access key / secret.");
    reveal_strlit("Authentication succeeded but the credentials lack the required permission.");
    reveal_strlit("The bucket (or project) does not exist.");
    reveal_strlit("The bucket exists in a different region than configured.");
    reveal_strlit("Request timed out — slow link, blocked port, or provider degraded.");
    reveal_strlit("Unclassified error — see the raw message below.");
    reveal_strlit("Cannot reach");
    reveal_strlit("Credentials");
    reveal_strlit("Authentication succeeded");
    reveal_strlit("The bucket (");
    reveal_strlit("The bucket exists in");
    reveal_strlit("Request timed out");
    reveal_strlit("Unclassified");
    let s = r@;
    assert(begins(s, "Cannot reach"@) ==> s[0] == 'C' && s[1] == 'a') by {
        if begins(s, "Cannot reach"@) {
            assert(s.take(12)[0] == s[0] && s.take(12)[1] == s[1]);
        }
    }
    assert(begins(s, "Credentials"@) ==> s[0] == 'C' && s[1] == 'r') by {
        if begins(s, "Credentials"@) {
            assert(s.take(11)[0] == s[0] && s.take(11)[1] == s[1]);
        }
    }
    assert(begins(s, "Authentication succeeded"@) ==> s[0] == 'A') by {
        if begins(s, "Authentication succeeded"@) {
            assert(s.take(24)[0] == s[0]);
        }
    }
    assert(begins(s, "The bucket ("@) ==> s[0] == 'T' && s[11] == '(') by {
        if begins(s, "The bucket ("@) {
            assert(s.take(12)[0] == s[0] && s.take(12)[11] == s[11]);
        }
    }
    assert(begins(s, "The bucket exists in"@) ==> s[0] == 'T' && s[11] == 'e') by {
        if begins(s, "The bucket exists in"@) {
            assert(s.take(20)[0] == s[0] && s.take(20)[11] == s[11]);
        }
    }
    assert(begins(s, "Request timed out"@) ==> s[0] == 'R') by {
        if begins(s, "Request timed out"@) {
            assert(s.take(17)[0] == s[0]);
        }
    }
    assert(begins(s, "Unclassified"@) ==> s[0] == 'U') by {
        if begins(s, "Unclassified"@) {
            assert(s.take(12)[0] == s[0]);
        }
    }
    match kind {
        FailureKind::Network => {
            assert(s.take(12) =~= "Cannot reach"@);
        },
        FailureKind::Auth => {
            assert(s.take(11) =~= "Credentials"@);
        },
        FailureKind::Authz => {
            assert(s.take(24) =~= "Authentication succeeded"@);
        },
        FailureKind::NotFound => {
            assert(s.take(12) =~= "The bucket ("@);
        },
        FailureKind::RegionMismatch => {
            assert(s.take(20) =~= "The bucket exists in"@);
        },
        FailureKind::Timeout => {
            assert(s.take(17) =~= "Request timed out"@);
        },
        FailureKind::Other => {
            assert(s.take(12) =~= "Unclassified"@);
        },
    }
}

/// Each class of failures has the hints that are written for it.
pub proof fn law_hints(kind: FailureKind, r: &'static str)
    requires
        call_ensures(FailureKind::hints, (kind,), r),
    ensures
        kind == FailureKind::Network ==> r@ == failure::HINTS_NETWORK@,
        kind == FailureKind::Auth ==> r@ == failure::HINTS_AUTH@,
        kind == FailureKind::Authz ==> r@ == failure::HINTS_AUTHZ@,
        kind == FailureKind::NotFound ==> r@ == failure::HINTS_NOT_FOUND@,
        kind == FailureKind::RegionMismatch ==> r@ == failure::HINTS_REGION@,
        kind == FailureKind::Timeout ==> r@ == failure::HINTS_TIMEOUT@,
        kind == FailureKind::Other ==> r@ == failure::HINTS_OTHER@,
{
}

/// What an S3 request failed with is told with the operation: the code and the message of the
/// service, or how the request broke off.
#[verifier::rlimit(60)]
#[verifier::spinoff_prover]
pub proof fn law_s3_failures_are_described(op: &str, f: S3Failure, r: String)
    requires
        call_ensures(s3::describe_sdk_error, (op, &f), r),
    ensures
        begins(r@, op@ + " failed: "@),
        f matches S3Failure::Service { code: None, message: Some(m) } ==> r@ == op@
            + " failed: service error (code: None, message: "@ + m@ + ")"@,
        f matches S3Failure::Service { code: Some(_), message: Some(m) } ==> begins(
            r@,
            op@ + " failed: service error (code: Some("@,
        ) && begins(r@.reverse(), (", message: "@ + m@ + ")"@).reverse()),
        f is Timeout ==> r@ == op@ + " failed: timeout"@,
        f matches S3Failure::Response { debug: d } ==> r@ == op@ + " failed: response error ("@ + d@
            + ")"@,
        f matches S3Failure::Unknown { display: d } ==> r@ == op@ + " failed: "@ + d@,
        f is Dispatch ==> begins(r@, op@ + " failed: dispatch failure ("@),
        f matches S3Failure::Construction { debug: d } ==> begins(
            r@,
            op@ + " failed: construction failure ("@ + d@,
        ),
{
    reveal_strlit(" failed: ");
    reveal_strlit(" failed: service error (code: ");
    reveal_strlit(" failed: dispatch failure (");
    reveal_strlit(" failed: timeout");
    reveal_strlit(" failed: construction failure (");
    reveal_strlit(" failed: response error (");
    let n = op@.len() as int;
    assert(r@.take(n + 9) =~= op@ + " failed: "@);
    match f {
        S3Failure::Service { code: None, message: Some(m) } => {
            reveal_strlit("None");
            reveal_strlit(", message: ");
            reveal_strlit(" failed: service error (code: None, message: ");
            assert(" failed: service error (code: None, message: "@
                =~= " failed: service error (code: "@ + "None"@ + ", message: "@);
            assert(r@ =~= op@ + " failed: service error (code: None, message: "@ + m@ + ")"@);
        },
        S3Failure::Service { code: Some(c), message: Some(m) } => {
            reveal_strlit("Some(");
            reveal_strlit(" failed: service error (code: Some(");
            let front = op@ + " failed: service error (code: "@ + s3::shown_code(Some(c@));
            let back = ", message: "@ + m@ + ")"@;
            assert(r@ =~= front + back);
            assert(r@.reverse() =~= back.reverse() + front.reverse());
            lemma_begins(back.reverse(), front.reverse());
            assert(r@.take(n + 35) =~= op@ + " failed: service error (code: Some("@);
        },
        S3Failure::Dispatch { .. } => {
            assert(r@.take(n + 27) =~= op@ + " failed: dispatch failure ("@);
        },
        S3Failure::Construction { debug } => {
            lemma_begins(op@ + " failed: construction failure ("@ + debug@, s3::CONSTRUCTION_TAIL@);
        },
        _ => {},
    }
}

/// A backend is named by its kind, and whether it can hold objects is known; each listing asks
/// for the keys behind the backend's prefix and has found nothing yet.
pub proof fn law_backends_and_their_listings(
    s: S3Backend,
    g: GcsBackend,
    a: AzureBackend,
    key_prefix: &str,
    names: (&'static str, &'static str, &'static str),
    holds: (bool, bool, bool),
    lists: (Listing, Listing, Listing),
)
    requires
        call_ensures(S3Backend::backend_type, (&s,), names.0),
        call_ensures(GcsBackend::backend_type, (&g,), names.1),
        call_ensures(AzureBackend::backend_type, (&a,), names.2),
        call_ensures(S3Backend::supports_legal_hold, (&s,), holds.0),
        call_ensures(GcsBackend::supports_legal_hold, (&g,), holds.1),
        call_ensures(AzureBackend::supports_legal_hold, (&a,), holds.2),
        call_ensures(S3Backend::list_objects, (&s, key_prefix), lists.0),
        call_ensures(GcsBackend::list_objects, (&g, key_prefix), lists.1),
        call_ensures(AzureBackend::list_objects, (&a, key_prefix), lists.2),
    ensures
        names.0@ == "s3"@ && names.1@ == "gcs"@ && names.2@ == "azure"@,
        holds.0 && holds.1 && holds.2,
        lists.0.requested() == s.prefix() + key_prefix@ && lists.0.found().len() == 0
            && !lists.0.done(),
        lists.1.requested() == g.prefix() + key_prefix@ && lists.1.found().len() == 0
            && !lists.1.done(),
        lists.2.requested() == a.prefix() + key_prefix@ && lists.2.found().len() == 0
            && !lists.2.done(),
{
}

/// A manifest is read exactly if its bytes are text, and is then the text that has those bytes;
/// the provider makes no difference.
pub proof fn law_manifests_are_texts(
    s: S3Backend,
    g: GcsBackend,
    a: AzureBackend,
    bytes: Vec<u8>,
    x: Result<String, ObjectStoreError>,
    y: Result<String, ObjectStoreError>,
    z: Result<String, ObjectStoreError>,
)
    requires
        call_ensures(S3Backend::download_manifest, (&s, bytes), x),
        call_ensures(GcsBackend::download_manifest, (&g, bytes), y),
        call_ensures(AzureBackend::download_manifest, (&a, bytes), z),
    ensures
        x is Ok <==> vstd::utf8::valid_utf8(bytes@),
        y is Ok <==> vstd::utf8::valid_utf8(bytes@),
        z is Ok <==> vstd::utf8::valid_utf8(bytes@),
        x is Ok ==> vstd::utf8::encode_utf8(x->Ok_0@) == bytes@,
        y is Ok ==> y->Ok_0@ == x->Ok_0@,
        z is Ok ==> z->Ok_0@ == x->Ok_0@,
        x is Err ==> (x matches Err(ObjectStoreError::Other(_))) && (y matches Err(
            ObjectStoreError::Other(_),
        )) && (z matches Err(ObjectStoreError::Other(_))),
{
    if x is Ok {
        vstd::utf8::decode_utf8_encode_utf8(bytes@);
    }
}

/// A manifest that was decoded is passed on, and one that was not is told with the reason.
pub proof fn law_decoded_manifests(
    decoded: Result<String, String>,
    r: Result<String, ObjectStoreError>,
)
    requires
        call_ensures(objects::manifest_text, (decoded,), r),
    ensures
        r is Ok <==> decoded is Ok,
        decoded is Ok ==> r->Ok_0@ == decoded->Ok_0@,
        decoded is Err ==> (r matches Err(ObjectStoreError::Other(t)) && t@
            == "manifest not valid UTF-8: "@ + decoded->Err_0@),
{
}

/// A GCS backend has the project it was made with, and its bucket is addressed as a resource.
/// Refused credentials are told with the reason, and with the key file where there is one.
pub proof fn law_gcs_names(
    bucket: String,
    prefix: String,
    project: String,
    compression: CompressionConfig,
    backend: GcsBackend,
    id: &str,
    name: &str,
    resource: String,
    path: &str,
    complaint: &str,
    with_file: ObjectStoreError,
    without: ObjectStoreError,
)
    requires
        call_ensures(GcsBackend::new, (bucket, prefix, project, compression), backend),
        call_ensures(GcsBackend::project_id, (&backend,), id),
        call_ensures(gcs::bucket_resource, (name,), resource),
        call_ensures(gcs::auth_failed, (Some(path), complaint), with_file),
        call_ensures(gcs::auth_failed, (None::<&str>, complaint), without),
    ensures
        id@ == project@,
        backend.bucket() == bucket@ && backend.prefix() == prefix@,
        backend.compression() == compression,
        resource@ == "projects/_/buckets/"@ + name@,
        with_file matches ObjectStoreError::Other(m) && m@ == "GCS auth from key file '"@ + path@
            + "' failed: "@ + complaint@,
        without matches ObjectStoreError::Other(m) && m@ == "GCS auth failed: "@ + complaint@,
{
}

/// Metadata that cannot be read is told with the account, the container and the whole key.
pub proof fn law_unreadable_metadata(
    a: AzureBackend,
    display: &str,
    key: &str,
    r: ObjectStoreError,
)
    requires
        call_ensures(AzureBackend::metadata_unreadable, (&a, display, key), r),
    ensures
        r matches ObjectStoreError::Other(m) && m@ == "Azure chunk metadata header parse: "@
            + display@ + " (account: "@ + a.account() + ", container: "@ + a.container()
            + ", key: "@ + a.prefix() + key@ + ")"@,
{
    assert(forall|x: Seq<char>, y: Seq<char>, z: Seq<char>|
        #![trigger (x + y) + z]
        x + (y + z) =~= (x + y) + z);
}

/// A first step names the kind of the backend, and a wait that ran out the bytes in use, the cap
/// and the seconds.
pub proof fn law_progress_texts(
    kind: &str,
    step: ObjectStoreCheckStep,
    e: BackpressureError,
    r: String,
    used: String,
    cap: String,
    waited: String,
)
    requires
        call_ensures(backend_check::init_step, (kind,), step),
        call_ensures(BackpressureError::text, (&e,), r),
        call_ensures(text::decimal_text, (e.pool_used_bytes,), used),
        call_ensures(text::decimal_text, (e.pool_cap_bytes,), cap),
        call_ensures(text::decimal_text, (e.waited_secs,), waited),
    ensures
        step.name@ == "init"@ && step.detail@ == "backend type: "@ + kind@,
        r@ == "upload backpressure timed out: pool "@ + used@ + "/"@ + cap@ + " bytes, waited "@
            + waited@ + "s"@,
{
}

/// An address is accepted exactly if it is the expected one; otherwise both are reported, in
/// their places.
pub proof fn law_addresses_must_agree(
    expected: &str,
    actual: String,
    r: Result<(), ChunkPoolError>,
    message: String,
)
    requires
        call_ensures(pool::check_address, (expected, actual), r),
        r is Err ==> call_ensures(ChunkPoolError::text, (&r->Err_0,), message),
    ensures
        r is Ok <==> expected@ == actual@,
        r is Err ==> message@ == "content hash mismatch: expected "@ + expected@ + ", got "@
            + actual@,
{
}

/// A pin key is made of what it was given, and a ring of evictions has the backend's name.
pub proof fn law_names_are_kept(
    backend: &str,
    namespace: &str,
    hash: &str,
    a: PinKey,
    b: PinKey,
    owned: String,
    capacity: usize,
    ring: GhostList,
    name: &str,
)
    requires
        call_ensures(PinKey::new, (backend, Some(namespace), hash), a),
        call_ensures(PinKey::new, (backend, None::<&str>, hash), b),
        call_ensures(GhostList::new, (owned, capacity), ring),
        call_ensures(GhostList::backend, (&ring,), name),
    ensures
        a@.backend == backend@ && a@.namespace == Some(namespace@) && a@.hash == hash@,
        b@.backend == backend@ && b@.namespace is None && b@.hash == hash@,
        name@ == owned@,
{
}

/// What is listed at a place of a table is what is found under its name.
pub proof fn law_tables_list_what_they_hold(
    t: NameTable<u64>,
    i: usize,
    n: usize,
    name: &str,
    value: &u64,
    found: Option<&u64>,
)
    requires
        call_ensures(NameTable::<u64>::len, (&t,), n),
        i < n,
        call_ensures(NameTable::<u64>::name_at, (&t, i), name),
        call_ensures(NameTable::<u64>::value_at, (&t, i), value),
        call_ensures(NameTable::<u64>::get, (&t, name), found),
    ensures
        found matches Some(v) && *v == *value,
{
}

/// Waiters are counted through a slot as through the instance in it, and not at all through an
/// empty one.
pub proof fn law_waiters_through_a_slot(
    full: &mut Option<Telemetry>,
    again: &mut Option<Telemetry>,
    empty: &mut Option<Telemetry>,
    backend: &str,
    first: &LiveStats,
    during: &LiveStats,
    last: &LiveStats,
    a: PoolCounters,
    b: PoolCounters,
    c: PoolCounters,
)
    requires
        *old(full) is Some,
        call_ensures(Telemetry::live_stats, (&old(full)->Some_0,), first),
        call_ensures(LiveStats::pool_for, (first, backend), a),
        call_ensures(record::pool_waiters_inc, (full, backend), ()),
        *final(full) is Some ==> call_ensures(
            Telemetry::live_stats,
            (&final(full)->Some_0,),
            during,
        ),
        call_ensures(LiveStats::pool_for, (during, backend), b),
        *old(again) == *final(full),
        call_ensures(record::pool_waiters_dec, (again, backend), ()),
        *final(again) is Some ==> call_ensures(
            Telemetry::live_stats,
            (&final(again)->Some_0,),
            last,
        ),
        call_ensures(LiveStats::pool_for, (last, backend), c),
        *old(empty) is None,
        call_ensures(record::pool_waiters_inc, (empty, backend), ()),
    ensures
        *final(full) is Some,
        a.waiters_now < i64::MAX ==> b.waiters_now == a.waiters_now + 1,
        b.waits_total == a.waits_total,
        *final(again) is Some,
        c == a,
        *final(empty) is None,
{
}

} // verus!
