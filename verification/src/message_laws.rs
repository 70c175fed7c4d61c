//! Laws of messages: what an operator is told by a validation, a failed request and a refusal.

use vstd::prelude::*;

use crate::azure::{AzureBackend, AzureFailure};
use crate::backend_check::{self, CheckStage, LockQuery, ObjectStoreCheckStep};
use crate::chunk_laws;
use crate::compression::{self, CompressionAlgo};
use crate::config::{
    self,
    BackendEntry,
    ObjectStoreConfig,
    RetentionMode,
    UploadConfig,
};
use crate::config_error::ObjectStoreConfigError;
use crate::error::ObjectStoreError;
use crate::gcs::{GcsBackend, GcsFailure};
use crate::hash;
use crate::lock::LockState;
use crate::objects::{self, DownloadSlots, StoredChunk};
use crate::report_laws;
use crate::s3::{self, S3Backend, S3Failure};
use crate::text;

verus! {

/// A text begins with another if the two agree as far as the other goes.
proof fn lemma_begins(s: Seq<char>, head: Seq<char>, tail: Seq<char>)
    requires
        s == head + tail,
    ensures
        report_laws::begins(s, head),
{
    assert(s.take(head.len() as int) =~= head);
}

/// What a provider calls the lock of a bucket.
pub open spec fn lock_word(entry: BackendEntry) -> Seq<char> {
    match entry {
        BackendEntry::S3(_) => "Object Lock"@,
        BackendEntry::Azure(_) => "immutability policy"@,
        _ => "retention policy"@,
    }
}

/// A refused lock state comes with a hint in the provider's words: that the bucket has a lock
/// which is not declared, that it lacks the one declared, or that it has the other kind.
pub proof fn law_hints_speak_of_the_bucket(
    cfg: ObjectStoreConfig,
    name: &str,
    entry: &BackendEntry,
    configured: RetentionMode,
    actual: LockState,
    r: Result<ObjectStoreCheckStep, ObjectStoreConfigError>,
)
    requires
        call_ensures(ObjectStoreConfig::backend_entry, (&cfg, name), Ok(entry)),
        call_ensures(
            backend_check::check_retention_state,
            (&cfg, name, configured, &LockQuery::Answered(actual)),
            r,
        ),
        r is Err,
    ensures
        r matches Err(ObjectStoreConfigError::RetentionMismatch { hint, .. }) && ({
            let word = lock_word(*entry);
            &&& configured == RetentionMode::NoRetention ==> report_laws::begins(
                hint@,
                "Bucket has a "@ + word,
            )
            &&& configured == RetentionMode::Governance && actual is Off ==> report_laws::begins(
                hint@,
                "Bucket has no "@ + word
                    + ". Configure a default retention period in mutable"@,
            )
            &&& configured == RetentionMode::Compliance && actual is Off ==> report_laws::begins(
                hint@,
                "Bucket has no "@ + word
                    + ". Configure a default retention period in irrevocable"@,
            )
            &&& configured == RetentionMode::Governance && actual is Compliance
                ==> report_laws::begins(hint@, "Bucket "@ + word + " is irrevocable"@)
            &&& configured == RetentionMode::Compliance && actual is Governance
                ==> report_laws::begins(hint@, "Bucket "@ + word + " is mutable"@)
        }),
{
    let word = lock_word(*entry);
    let hint = r->Err_0->hint;
    if configured == RetentionMode::NoRetention {
        let tail = backend_check::HINT_NONE_MIDDLE@ + word + "."@;
        assert(hint@ =~= ("Bucket has a "@ + word) + tail);
        lemma_begins(hint@, "Bucket has a "@ + word, tail);
    } else if actual is Off {
        reveal_strlit(
            ". Configure a default retention period in mutable / \
     GOVERNANCE / unlocked mode, or remove retention_mode from this backend.",
        );
        reveal_strlit(
            ". Configure a default retention period in irrevocable / \
     COMPLIANCE / locked mode, or remove retention_mode.",
        );
        reveal_strlit(". Configure a default retention period in mutable");
        reveal_strlit(". Configure a default retention period in irrevocable");
        let front = "Bucket has no "@ + word;
        if configured == RetentionMode::Governance {
            let said = ". Configure a default retention period in mutable"@;
            let all = backend_check::HINT_GOVERNANCE_OFF@;
            assert(all =~= said + all.skip(said.len() as int));
            assert(hint@ =~= (front + said) + all.skip(said.len() as int));
            lemma_begins(hint@, front + said, all.skip(said.len() as int));
        } else {
            let said = ". Configure a default retention period in irrevocable"@;
            let all = backend_check::HINT_COMPLIANCE_OFF@;
            assert(all =~= said + all.skip(said.len() as int));
            assert(hint@ =~= (front + said) + all.skip(said.len() as int));
            lemma_begins(hint@, front + said, all.skip(said.len() as int));
        }
    } else {
        reveal_strlit(
            " is irrevocable / locked / COMPLIANCE. Update retention_mode \
     to 'compliance', or reconfigure the bucket.",
        );
        reveal_strlit(
            " is mutable / unlocked / GOVERNANCE. For compliance you need \
     an irrevocable lock — reconfigure the bucket, or downgrade \
     retention_mode to 'governance'.",
        );
        reveal_strlit(" is irrevocable");
        reveal_strlit(" is mutable");
        let front = "Bucket "@ + word;
        if configured == RetentionMode::Governance {
            let said = " is irrevocable"@;
            let all = backend_check::HINT_GOVERNANCE_LOCKED@;
            assert(all =~= said + all.skip(said.len() as int));
            assert(hint@ =~= (front + said) + all.skip(said.len() as int));
            lemma_begins(hint@, front + said, all.skip(said.len() as int));
        } else {
            let said = " is mutable"@;
            let all = backend_check::HINT_COMPLIANCE_MUTABLE@;
            assert(all =~= said + all.skip(said.len() as int));
            assert(hint@ =~= (front + said) + all.skip(said.len() as int));
            lemma_begins(hint@, front + said, all.skip(said.len() as int));
        }
    }
}

/// A lock state that is not refused is reported with what is declared and, where the bucket
/// answered, with what it answered.
pub proof fn law_lock_reports(
    cfg: ObjectStoreConfig,
    name: &str,
    configured: RetentionMode,
    query: LockQuery,
    r: Result<ObjectStoreCheckStep, ObjectStoreConfigError>,
    mode: &'static str,
    actual: LockState,
    lock: &'static str,
)
    requires
        call_ensures(
            backend_check::check_retention_state,
            (&cfg, name, configured, &query),
            r,
        ),
        call_ensures(RetentionMode::label, (configured,), mode),
        call_ensures(LockState::label, (actual,), lock),
        r is Ok,
    ensures
        report_laws::begins(r->Ok_0.detail@, "retention_mode '"@ + mode@),
        !cfg.skip_retention_mode_check && query == LockQuery::Answered(actual) ==> r->Ok_0.detail@
            == "retention_mode '"@ + mode@ + "' matches bucket lock state '"@ + lock@ + "'"@,
{
    let front = "retention_mode '"@ + mode@;
    let detail = r->Ok_0.detail@;
    if cfg.skip_retention_mode_check {
        lemma_begins(detail, front, backend_check::CHECK_DISABLED@);
    } else {
        match query {
            LockQuery::Answered(a) => {
                let tail = "' matches bucket lock state '"@ + crate::lock::lock_label(a) + "'"@;
                assert(detail =~= front + tail);
                lemma_begins(detail, front, tail);
            },
            _ => {
                lemma_begins(detail, front, backend_check::QUERY_FAILED@);
            },
        }
    }
}

/// A listing is reported with the bucket, the number of objects and the prefix, and a probe that
/// ends there with the retention that is declared.
pub proof fn law_listing_reports(
    cfg: ObjectStoreConfig,
    name: &str,
    configured: RetentionMode,
    count: usize,
    r: Result<(Vec<ObjectStoreCheckStep>, CheckStage), ObjectStoreConfigError>,
    target: String,
    prefix: &str,
    number: String,
    mode: &'static str,
)
    requires
        call_ensures(backend_check::probe_listed, (&cfg, name, configured, Ok(count)), r),
        call_ensures(ObjectStoreConfig::target_label_named, (&cfg, name), Some(target)),
        call_ensures(ObjectStoreConfig::prefix_named, (&cfg, name), prefix),
        call_ensures(text::decimal_text, (count as u64,), number),
        call_ensures(RetentionMode::label, (configured,), mode),
    ensures
        r matches Ok((steps, _)) && steps@[0].detail@ == "bucket '"@ + target@ + "' reachable ("@
            + number@ + " objects under '"@ + prefix@ + "')"@ && (configured
            != RetentionMode::NoRetention ==> steps@[1].detail@ == "bucket '"@ + target@
            + "' is locked (retention_mode="@ + mode@ + "); skipping write/delete probe"@),
{
}

/// A request that could not be sent is told with what kept it, and with the connector's errors,
/// the outermost first.
pub proof fn law_dispatch_failures_are_described(
    op: &str,
    is_io: bool,
    is_timeout: bool,
    is_user: bool,
    causes: Vec<String>,
    bare: String,
    with_one: String,
    with_two: String,
)
    requires
        call_ensures(
            s3::describe_sdk_error,
            (op, &S3Failure::Dispatch { is_io, is_timeout, is_user, causes: None }),
            bare,
        ),
        causes@.len() == 1 ==> call_ensures(
            s3::describe_sdk_error,
            (op, &S3Failure::Dispatch { is_io, is_timeout, is_user, causes: Some(causes) }),
            with_one,
        ),
        causes@.len() == 2 ==> call_ensures(
            s3::describe_sdk_error,
            (op, &S3Failure::Dispatch { is_io, is_timeout, is_user, causes: Some(causes) }),
            with_two,
        ),
    ensures
        ({
            let why = if is_io {
                "io"@
            } else if is_timeout {
                "timeout"@
            } else if is_user {
                "user"@
            } else {
                "other"@
            };
            let front = op@ + " failed: dispatch failure ("@ + why + ": "@;
            &&& bare@ == front + "no connector error attached"@ + ")"@
            &&& causes@.len() == 1 ==> with_one@ == front + causes@[0]@ + ")"@
            &&& causes@.len() == 2 ==> with_two@ == front + causes@[0]@ + " -> "@ + causes@[1]@
                + ")"@
        }),
{
    reveal_with_fuel(s3::cause_chain, 3);
    if causes@.len() == 2 {
        assert(s3::cause_chain(causes@, 2) == causes@[0]@ + " -> "@ + causes@[1]@);
        assert(with_two@ =~= op@ + " failed: dispatch failure ("@ + s3::dispatch_tag(
            is_io,
            is_timeout,
            is_user,
        ) + ": "@ + causes@[0]@ + " -> "@ + causes@[1]@ + ")"@);
    }
}

/// Each further cause stands at the end, behind an arrow.
pub proof fn law_causes_are_told_in_order(
    op: &str,
    is_io: bool,
    is_timeout: bool,
    is_user: bool,
    causes: Vec<String>,
    more: Vec<String>,
    a: String,
    b: String,
    front: Seq<char>,
)
    requires
        causes@.len() > 0,
        more@.len() == causes@.len() + 1,
        more@.drop_last() == causes@,
        call_ensures(
            s3::describe_sdk_error,
            (op, &S3Failure::Dispatch { is_io, is_timeout, is_user, causes: Some(causes) }),
            a,
        ),
        call_ensures(
            s3::describe_sdk_error,
            (op, &S3Failure::Dispatch { is_io, is_timeout, is_user, causes: Some(more) }),
            b,
        ),
        a@ == front + ")"@,
    ensures
        b@ == front + " -> "@ + more@.last()@ + ")"@,
{
    let n = causes@.len();
    lemma_same_chain(causes@, more@, n);
    let head = op@ + " failed: dispatch failure ("@ + s3::dispatch_tag(is_io, is_timeout, is_user)
        + ": "@;
    let chain = s3::cause_chain(causes@, n);
    reveal_strlit(")");
    assert(a@ =~= (head + chain) + ")"@);
    assert(front =~= head + chain) by {
        assert(a@.drop_last() =~= front);
        assert(a@.drop_last() =~= head + chain);
    }
    assert(s3::cause_chain(more@, n + 1) == s3::cause_chain(more@, n) + " -> "@ + more@[n as int]@);
    assert(b@ =~= front + " -> "@ + more@.last()@ + ")"@);
}

proof fn lemma_same_chain(a: Seq<String>, b: Seq<String>, n: nat)
    requires
        n <= a.len(),
        n <= b.len(),
        forall|i: int| 0 <= i < n ==> #[trigger] a[i] == b[i],
    ensures
        s3::cause_chain(a, n) == s3::cause_chain(b, n),
    decreases n,
{
    if n > 1 {
        lemma_same_chain(a, b, (n - 1) as nat);
        assert(a[n - 1] == b[n - 1]);
    } else if n == 1 {
        assert(a[0] == b[0]);
    }
}

/// A service error without a message says so.
pub proof fn law_missing_messages(op: &str, r: String)
    requires
        call_ensures(
            s3::describe_sdk_error,
            (op, &S3Failure::Service { code: None, message: None }),
            r,
        ),
    ensures
        r@ == op@ + " failed: service error (code: None, message: no message)"@,
{
    reveal_strlit(" failed: service error (code: None, message: no message)");
    reveal_strlit(" failed: service error (code: ");
    reveal_strlit("None");
    reveal_strlit(", message: ");
    reveal_strlit("no message");
    reveal_strlit(")");
    assert(r@ =~= op@ + " failed: service error (code: None, message: no message)"@);
}

/// A failed request on an object is told with the description of the failure, the bucket and the
/// whole key, in a report of the failure's class.
pub proof fn law_described_failures_name_the_object(
    backend: S3Backend,
    op: &str,
    f: S3Failure,
    key: &str,
    described: ObjectStoreError,
    failure: String,
)
    requires
        call_ensures(S3Backend::described, (&backend, op, &f, key), described),
        call_ensures(s3::describe_sdk_error, (op, &f), failure),
    ensures
        ({
            let m = failure@ + " (bucket: "@ + backend.bucket() + ", key: "@ + (backend.prefix()
                + key@) + ")"@;
            match described {
                ObjectStoreError::Auth(s) => s@ == m,
                ObjectStoreError::Authz(s) => s@ == m,
                ObjectStoreError::NotFound(s) => s@ == m,
                ObjectStoreError::RegionMismatch(s) => s@ == m,
                ObjectStoreError::Network(s) => s@ == m,
                ObjectStoreError::Timeout(s) => s@ == m,
                ObjectStoreError::Other(s) => s@ == m,
                _ => false,
            }
        }),
{
}

/// The refusal to start names the file that stands in the way, says that its contents go into
/// the configuration file, and that the file is then to be removed.
pub proof fn law_refusal_to_start(
    data_dir: &str,
    config_path: &str,
    path: String,
    r: Result<(), String>,
)
    requires
        call_ensures(config::legacy_backends_path, (data_dir,), path),
        call_ensures(
            config::reject_legacy_cloud_backends_json,
            (data_dir, config_path, true),
            r,
        ),
    ensures
        r matches Err(m) && m@ == "refusing to start: "@ + path@ + config::LEGACY_EXISTS@ + path@
            + config::LEGACY_BLOCK@ + config_path@ + ", then remove "@ + path@
            + config::LEGACY_TAIL@,
{
}

/// A chunk with an unknown marker is not read, and the marker is told.
pub proof fn law_unknown_markers(
    marker: &str,
    bytes: Vec<u8>,
    r: Result<Vec<u8>, ObjectStoreError>,
)
    requires
        call_ensures(objects::decode_chunk, (Some(marker), bytes), r),
        marker@ != "zstd"@,
        marker@ != "lz4"@,
        marker@ != "none"@,
    ensures
        r matches Err(ObjectStoreError::Other(m)) && m@ == "unsupported compression type: "@
            + marker@,
{
}

/// A codec that failed is told with its name and the direction.
pub proof fn law_failed_codecs(
    data: &[u8],
    level: i32,
    packed: Result<Vec<u8>, ObjectStoreError>,
    unpacked: Result<Vec<u8>, ObjectStoreError>,
    unpacked_lz4: Result<Vec<u8>, ObjectStoreError>,
)
    requires
        call_ensures(compression::compress_data, (CompressionAlgo::Zstd, data, level), packed),
        call_ensures(compression::decompress_data, (CompressionAlgo::Zstd, data), unpacked),
        call_ensures(compression::decompress_data, (CompressionAlgo::Lz4, data), unpacked_lz4),
    ensures
        packed matches Err(e) ==> (e matches ObjectStoreError::Compression(m)
            && report_laws::begins(m@, "zstd encode: "@)),
        unpacked matches Err(e) ==> (e matches ObjectStoreError::Compression(m)
            && report_laws::begins(m@, "zstd decode: "@)),
        unpacked_lz4 matches Err(e) ==> (e matches ObjectStoreError::Compression(m)
            && report_laws::begins(m@, "lz4 decode: "@)),
{
    if packed is Err {
        let m = packed->Err_0->Compression_0;
        let why = compression::zstd_frame(data@, level as int)->Err_0;
        lemma_begins(m@, "zstd encode: "@, why);
    }
    if unpacked is Err {
        let m = unpacked->Err_0->Compression_0;
        let why = compression::zstd_unframe(data@)->Err_0;
        lemma_begins(m@, "zstd decode: "@, why);
    }
    if unpacked_lz4 is Err {
        let m = unpacked_lz4->Err_0->Compression_0;
        let why = compression::lz4_unframe(data@)->Err_0;
        lemma_begins(m@, "lz4 decode: "@, why);
    }
}

/// An address spells its digest in pairs of digits, with letters in lower case.
pub proof fn law_addresses_are_lower_case_hex(digest: [u8; 32], r: String, k: int)
    requires
        call_ensures(hash::address_of_digest, (&digest,), r),
        0 <= k < 32,
    ensures
        r@.len() == 64,
        '0' <= r@[2 * k] <= '9' || 'a' <= r@[2 * k] <= 'f',
        '0' <= r@[2 * k + 1] <= '9' || 'a' <= r@[2 * k + 1] <= 'f',
        16 * chunk_laws::hex_value(r@[2 * k]) + chunk_laws::hex_value(r@[2 * k + 1]) == digest@[k],
{
    let b = digest@[k] as int;
    assert(r@[2 * k] == hash::hex_digit(b / 16)) by {
        assert((2 * k) % 2 == 0 && (2 * k) / 2 == k);
    }
    assert(r@[2 * k + 1] == hash::hex_digit(b % 16)) by {
        assert((2 * k + 1) % 2 == 1 && (2 * k + 1) / 2 == k);
    }
    assert(0 <= b / 16 < 16 && 0 <= b % 16 < 16);
}

/// Whether an error of one of the classes carries this message.
pub open spec fn carries(e: ObjectStoreError, m: Seq<char>) -> bool {
    match e {
        ObjectStoreError::Auth(s) => s@ == m,
        ObjectStoreError::Authz(s) => s@ == m,
        ObjectStoreError::NotFound(s) => s@ == m,
        ObjectStoreError::RegionMismatch(s) => s@ == m,
        ObjectStoreError::Network(s) => s@ == m,
        ObjectStoreError::Timeout(s) => s@ == m,
        ObjectStoreError::Other(s) => s@ == m,
        _ => false,
    }
}

/// A failed Azure request is told with the account, the container and the whole key.
pub proof fn law_azure_failures_name_the_object(
    backend: AzureBackend,
    what: &str,
    f: AzureFailure,
    label: &str,
    key: &str,
    extra: &str,
    r: ObjectStoreError,
)
    requires
        call_ensures(AzureBackend::call_failed, (&backend, what, &f, label, key, extra), r),
    ensures
        carries(
            r,
            what@ + " failed: "@ + f.display@ + " (account: "@ + backend.account()
                + ", container: "@ + backend.container() + ", "@ + label@ + ": "@ + (
            backend.prefix() + key@) + extra@ + ")"@,
        ),
{
}

/// A failed GCS request is told with the bucket and the whole key, and a failed lookup of the
/// bucket with the bucket.
pub proof fn law_gcs_failures_name_the_object(
    backend: GcsBackend,
    what: &str,
    f: GcsFailure,
    label: &str,
    key: &str,
    called: ObjectStoreError,
    looked_up: Result<bool, ObjectStoreError>,
    bucket: ObjectStoreError,
)
    requires
        call_ensures(GcsBackend::call_failed, (&backend, what, &f, label, key), called),
        call_ensures(GcsBackend::absent_or_failed, (&backend, &f, key), looked_up),
        call_ensures(GcsBackend::bucket_failed, (&backend, &f), bucket),
    ensures
        carries(
            called,
            "GCS "@ + what@ + " failed: "@ + f.display@ + " (bucket: "@ + backend.bucket() + ", "@
                + label@ + ": "@ + (backend.prefix() + key@) + ")"@,
        ),
        looked_up matches Err(e) ==> carries(
            e,
            "GCS get_object failed: "@ + f.display@ + " (bucket: "@ + backend.bucket() + ", key: "@
                + (backend.prefix() + key@) + ")"@,
        ),
        carries(bucket, "GCS get_bucket on "@ + backend.bucket() + ": "@ + f.display@),
{
}

/// An upload reports the size of the data, the algorithm of the backend and, where one ran, the
/// size of what is stored; the object lies below the backend's prefix.
pub proof fn law_uploads_report_their_sizes(
    s: S3Backend,
    g: GcsBackend,
    a: AzureBackend,
    key: &str,
    data: &[u8],
    x: Result<(String, StoredChunk), ObjectStoreError>,
    y: Result<(String, StoredChunk), ObjectStoreError>,
    z: Result<(String, StoredChunk), ObjectStoreError>,
)
    requires
        call_ensures(S3Backend::upload_chunk, (&s, key, data), x),
        call_ensures(GcsBackend::upload_chunk, (&g, key, data), y),
        call_ensures(AzureBackend::upload_chunk, (&a, key, data), z),
    ensures
        x matches Ok((full, stored)) ==> full@ == s.prefix() + key@ && sized(
            stored,
            data@,
            s.compression().algorithm,
        ),
        y matches Ok((full, stored)) ==> full@ == g.prefix() + key@ && sized(
            stored,
            data@,
            g.compression().algorithm,
        ),
        z matches Ok((full, stored)) ==> full@ == a.prefix() + key@ && sized(
            stored,
            data@,
            a.compression().algorithm,
        ),
{
}

/// Whether what is reported of a stored chunk is the size of the data, the algorithm and, with
/// an algorithm, the size of the stored bytes.
pub open spec fn sized(
    stored: StoredChunk,
    data: Seq<u8>,
    algo: Option<CompressionAlgo>,
) -> bool {
    &&& stored.outcome.uncompressed == data.len()
    &&& stored.outcome.algo == algo
    &&& algo is None ==> stored.outcome.compressed is None && stored.bytes@ == data
    &&& algo is Some ==> (stored.outcome.compressed matches Some(n) && n == stored.bytes@.len())
}

/// Where the number of uploads at a time comes from is told: the operator, or the processors.
pub proof fn law_concurrency_has_a_source(
    uploads: UploadConfig,
    cpus: usize,
    r: (usize, String),
    number: String,
)
    requires
        call_ensures(UploadConfig::resolve_max_concurrent, (&uploads, Some(cpus)), r),
        call_ensures(text::decimal_text, (cpus as u64,), number),
    ensures
        uploads.max_concurrent != 0 ==> r.0 == uploads.max_concurrent && r.1@
            == "operator override"@,
        uploads.max_concurrent == 0 ==> r.1@ == "auto-detected from num_cpus="@ + number@,
{
}

/// Downloads that end with one missing are told with the place of the first that is missing.
pub proof fn law_missing_downloads(
    slots: DownloadSlots,
    i: usize,
    r: Result<Vec<Vec<u8>>, ObjectStoreError>,
    number: String,
)
    requires
        i < slots.arrived().len(),
        slots.arrived()[i as int] is None,
        forall|j: int| 0 <= j < i ==> #[trigger] slots.arrived()[j] is Some,
        call_ensures(DownloadSlots::finish, (slots,), r),
        call_ensures(text::decimal_text, (i as u64,), number),
    ensures
        r matches Err(ObjectStoreError::Other(m)) && m@
            == "Missing download result for chunk at index "@ + number@,
{
    assert(r is Err);
    let k = choose|k: int|
        0 <= k < slots.arrived().len() && (#[trigger] slots.arrived()[k]) is None && (forall|j: int|
            0 <= j < k ==> #[trigger] slots.arrived()[j] is Some) && (
        r->Err_0 matches ObjectStoreError::Other(m) && m@
            == "Missing download result for chunk at index "@ + text::decimal(k as nat));
    if k < i {
        assert(slots.arrived()[k] is Some);
    } else if i < k {
        assert(slots.arrived()[i as int] is Some);
    }
}

} // verus!
