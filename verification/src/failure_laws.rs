//! Laws of failure classes: which failures are of which class, and which are tried again.

use vstd::prelude::*;

use crate::error::ObjectStoreError;
use crate::failure::{self, FailureKind};

verus! {

/// A failure is worth another try exactly if waiting can heal it: refused credentials, a
/// refused permission, a missing target and a wrong region cannot be waited out.
pub proof fn law_only_healable_failures_are_retried(kind: FailureKind, retry: bool)
    requires
        call_ensures(failure::is_retryable, (kind,), retry),
    ensures
        !retry <==> kind == FailureKind::Auth || kind == FailureKind::Authz || kind
            == FailureKind::NotFound || kind == FailureKind::RegionMismatch,
{
}

/// An error that is made for a class is of that class and carries the message it was made with.
pub proof fn law_errors_keep_their_class(
    kind: FailureKind,
    msg: String,
    e: ObjectStoreError,
    class: FailureKind,
)
    requires
        call_ensures(ObjectStoreError::classified, (kind, msg), e),
        call_ensures(failure::classify, (&e,), class),
    ensures
        class == kind,
        match e {
            ObjectStoreError::Auth(m) => kind == FailureKind::Auth && m == msg,
            ObjectStoreError::Authz(m) => kind == FailureKind::Authz && m == msg,
            ObjectStoreError::NotFound(m) => kind == FailureKind::NotFound && m == msg,
            ObjectStoreError::RegionMismatch(m) => kind == FailureKind::RegionMismatch && m == msg,
            ObjectStoreError::Network(m) => kind == FailureKind::Network && m == msg,
            ObjectStoreError::Timeout(m) => kind == FailureKind::Timeout && m == msg,
            ObjectStoreError::Other(m) => kind == FailureKind::Other && m == msg,
            _ => false,
        },
{
}

/// A condition that the service found not met is a refused permission, which is not tried
/// again. A conflict, an operation that is not supported, a failed read or write of a file and
/// a failed codec are of no class of their own.
pub proof fn law_classes_of_the_other_errors(
    m: String,
    precondition: FailureKind,
    conflict: FailureKind,
    unsupported: FailureKind,
    io: FailureKind,
    codec: FailureKind,
)
    requires
        call_ensures(failure::classify, (&ObjectStoreError::PreconditionFailed(m),), precondition),
        call_ensures(failure::classify, (&ObjectStoreError::Conflict(m),), conflict),
        call_ensures(failure::classify, (&ObjectStoreError::NotSupported(m),), unsupported),
        call_ensures(failure::classify, (&ObjectStoreError::Io(m),), io),
        call_ensures(failure::classify, (&ObjectStoreError::Compression(m),), codec),
    ensures
        precondition == FailureKind::Authz,
        conflict == FailureKind::Other,
        unsupported == FailureKind::Other,
        io == FailureKind::Other,
        codec == FailureKind::Other,
{
}

/// The class of an HTTP status: each of five statuses has a class of its own or shares that of
/// a refused permission, and every other status is unclassified and tried again.
pub proof fn law_classes_of_http_statuses(status: u16, kind: FailureKind, retry: bool)
    requires
        call_ensures(failure::http_status_to_failure_kind, (status,), kind),
        call_ensures(failure::is_retryable, (kind,), retry),
    ensures
        kind == FailureKind::Auth <==> status == 401,
        kind == FailureKind::Authz <==> status == 403 || status == 412,
        kind == FailureKind::NotFound <==> status == 404,
        kind == FailureKind::Timeout <==> status == 408,
        kind != FailureKind::Network && kind != FailureKind::RegionMismatch,
        retry <==> status != 401 && status != 403 && status != 404 && status != 412,
{
}

/// The text of an error ends in the message that it carries.
pub proof fn law_error_text_ends_in_the_message(
    kind: FailureKind,
    msg: String,
    e: ObjectStoreError,
    text: String,
)
    requires
        call_ensures(ObjectStoreError::classified, (kind, msg), e),
        call_ensures(ObjectStoreError::text, (&e,), text),
    ensures
        text@.len() >= msg@.len(),
        text@.skip(text@.len() - msg@.len()) == msg@,
{
    let cut = text@.len() - msg@.len();
    assert(text@.skip(cut) =~= msg@);
}

/// The text of an error begins with what kind of error it is.
pub proof fn law_error_text_names_the_kind(e: ObjectStoreError, text: String)
    requires
        call_ensures(ObjectStoreError::text, (&e,), text),
    ensures
        e matches ObjectStoreError::Auth(m) ==> text@ == "object store auth: "@ + m@,
        e matches ObjectStoreError::Authz(m) ==> text@ == "object store permission: "@ + m@,
        e matches ObjectStoreError::NotFound(m) ==> text@ == "object store not found: "@ + m@,
        e matches ObjectStoreError::RegionMismatch(m) ==> text@
            == "object store region mismatch: "@ + m@,
        e matches ObjectStoreError::Network(m) ==> text@ == "object store network: "@ + m@,
        e matches ObjectStoreError::Timeout(m) ==> text@ == "object store timeout: "@ + m@,
        e matches ObjectStoreError::PreconditionFailed(m) ==> text@
            == "object store precondition failed: "@ + m@,
        e matches ObjectStoreError::Conflict(m) ==> text@ == "object store conflict: "@ + m@,
        e matches ObjectStoreError::NotSupported(m) ==> text@ == "object store op not supported: "@
            + m@,
        e matches ObjectStoreError::Io(m) ==> text@ == "io: "@ + m@,
        e matches ObjectStoreError::Compression(m) ==> text@ == "compression: "@ + m@,
        e matches ObjectStoreError::Other(m) ==> text@ == "object store: "@ + m@,
{
}

/// No two classes share a label.
pub proof fn law_class_labels_differ(
    a: FailureKind,
    b: FailureKind,
    label_a: &'static str,
    label_b: &'static str,
)
    requires
        call_ensures(FailureKind::label, (a,), label_a),
        call_ensures(FailureKind::label, (b,), label_b),
    ensures
        label_a@ == label_b@ <==> a == b,
{
    reveal_strlit("NETWORK");
    reveal_strlit("AUTH");
    reveal_strlit("PERMISSION");
    reveal_strlit("NOT_FOUND");
    reveal_strlit("REGION");
    reveal_strlit("TIMEOUT");
    reveal_strlit("OTHER");
    assert("NETWORK"@[0] == 'N' && "TIMEOUT"@[0] == 'T');
    assert("NETWORK"@.len() == 7 && "AUTH"@.len() == 4 && "PERMISSION"@.len() == 10);
    assert("NOT_FOUND"@.len() == 9 && "REGION"@.len() == 6 && "TIMEOUT"@.len() == 7);
    assert("OTHER"@.len() == 5);
}

} // verus!
