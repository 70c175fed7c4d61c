//! The object-store error type.
//!
//! The six retry-classification variants (`Auth`, `Authz`, `NotFound`, `RegionMismatch`,
//! `Network`, `Timeout`) are minted where the structured provider error is still in hand;
//! [`crate::failure::classify`] maps them back without looking at any message text.
//! `Other` is the catch-all for failures that cannot be classified.

use vstd::prelude::*;

use crate::failure::FailureKind;
use crate::text;

verus! {

/// The kinds of local I/O failure that are told apart.
#[derive(Debug, Clone, Copy, PartialEq, Eq, Structural)]
pub enum IoKind {
    NotFound,
    PermissionDenied,
    CrossesDevices,
    Other,
}

/// A local I/O failure: its kind and the operating system's text.
#[derive(Debug, Clone, PartialEq, Eq)]
pub struct IoFailure {
    pub kind: IoKind,
    pub message: String,
}

/// A failed object-store operation.
#[derive(Debug, Clone, PartialEq, Eq)]
pub enum ObjectStoreError {
    /// Generic failure carrying the raw provider message. Worth retrying.
    Other(String),
    /// The provider rejected the credentials. Permanent.
    Auth(String),
    /// The credentials are valid but lack the permission. Permanent.
    Authz(String),
    /// The bucket, container or object does not exist. Permanent.
    NotFound(String),
    /// The bucket is in another region than configured. Permanent.
    RegionMismatch(String),
    /// The provider could not be reached. Worth retrying.
    Network(String),
    /// The request timed out. Worth retrying.
    Timeout(String),
    /// HTTP 412: the request's preconditions were not met.
    PreconditionFailed(String),
    /// HTTP 409: a concurrent change invalidated the request.
    Conflict(String),
    /// The backend does not implement the operation.
    NotSupported(String),
    /// Local I/O failed; carries the rendered operating-system error.
    Io(String),
    /// A codec failed.
    Compression(String),
}

/// The one-line text of an error.
pub open spec fn error_text(e: ObjectStoreError) -> Seq<char> {
    match e {
        ObjectStoreError::Other(m) => "object store: "@ + m@,
        ObjectStoreError::Auth(m) => "object store auth: "@ + m@,
        ObjectStoreError::Authz(m) => "object store permission: "@ + m@,
        ObjectStoreError::NotFound(m) => "object store not found: "@ + m@,
        ObjectStoreError::RegionMismatch(m) => "object store region mismatch: "@ + m@,
        ObjectStoreError::Network(m) => "object store network: "@ + m@,
        ObjectStoreError::Timeout(m) => "object store timeout: "@ + m@,
        ObjectStoreError::PreconditionFailed(m) => "object store precondition failed: "@ + m@,
        ObjectStoreError::Conflict(m) => "object store conflict: "@ + m@,
        ObjectStoreError::NotSupported(m) => "object store op not supported: "@ + m@,
        ObjectStoreError::Io(m) => "io: "@ + m@,
        ObjectStoreError::Compression(m) => "compression: "@ + m@,
    }
}

/// The variant that carries a failure of the given kind.
pub open spec fn carrier(kind: FailureKind, msg: String) -> ObjectStoreError {
    match kind {
        FailureKind::Auth => ObjectStoreError::Auth(msg),
        FailureKind::Authz => ObjectStoreError::Authz(msg),
        FailureKind::NotFound => ObjectStoreError::NotFound(msg),
        FailureKind::RegionMismatch => ObjectStoreError::RegionMismatch(msg),
        FailureKind::Network => ObjectStoreError::Network(msg),
        FailureKind::Timeout => ObjectStoreError::Timeout(msg),
        FailureKind::Other => ObjectStoreError::Other(msg),
    }
}

/// `e` carries a failure of the given kind with the given message.
pub open spec fn reported(e: ObjectStoreError, kind: FailureKind, message: Seq<char>) -> bool {
    exists|m: String| m@ == message && e == #[trigger] carrier(kind, m)
}

impl ObjectStoreError {
    /// Builds the variant that carries a failure of the given kind.
    pub fn classified(kind: FailureKind, msg: String) -> (r: Self)
        ensures
            r == carrier(kind, msg),
    {
        match kind {
            FailureKind::Auth => ObjectStoreError::Auth(msg),
            FailureKind::Authz => ObjectStoreError::Authz(msg),
            FailureKind::NotFound => ObjectStoreError::NotFound(msg),
            FailureKind::RegionMismatch => ObjectStoreError::RegionMismatch(msg),
            FailureKind::Network => ObjectStoreError::Network(msg),
            FailureKind::Timeout => ObjectStoreError::Timeout(msg),
            FailureKind::Other => ObjectStoreError::Other(msg),
        }
    }

    /// The one-line text of this error.
    pub fn text(&self) -> (r: String)
        ensures
            r@ == error_text(*self),
    {
        match self {
            ObjectStoreError::Other(m) => text::concat2("object store: ", m),
            ObjectStoreError::Auth(m) => text::concat2("object store auth: ", m),
            ObjectStoreError::Authz(m) => text::concat2("object store permission: ", m),
            ObjectStoreError::NotFound(m) => text::concat2("object store not found: ", m),
            ObjectStoreError::RegionMismatch(m) => text::concat2("object store region mismatch: ", m),
            ObjectStoreError::Network(m) => text::concat2("object store network: ", m),
            ObjectStoreError::Timeout(m) => text::concat2("object store timeout: ", m),
            ObjectStoreError::PreconditionFailed(m) => text::concat2(
                "object store precondition failed: ",
                m,
            ),
            ObjectStoreError::Conflict(m) => text::concat2("object store conflict: ", m),
            ObjectStoreError::NotSupported(m) => text::concat2("object store op not supported: ", m),
            ObjectStoreError::Io(m) => text::concat2("io: ", m),
            ObjectStoreError::Compression(m) => text::concat2("compression: ", m),
        }
    }
}

} // verus!
