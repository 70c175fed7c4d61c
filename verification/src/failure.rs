//! Coarse failure classes, the retry decision, and operator-facing texts.

use vstd::prelude::*;

use crate::error::ObjectStoreError;

verus! {

/// Coarse classification of a failed object-store operation.
#[derive(Debug, Clone, Copy, PartialEq, Eq, Structural)]
pub enum FailureKind {
    /// The provider could not be reached (DNS, TCP, TLS, wrong endpoint).
    Network,
    /// The provider rejected the credentials.
    Auth,
    /// The credentials are valid but lack the required permission.
    Authz,
    /// The bucket or project does not exist.
    NotFound,
    /// The bucket is in another region than configured.
    RegionMismatch,
    /// The request timed out.
    Timeout,
    /// Could not be classified.
    Other,
}

pub const DIAGNOSIS_NETWORK: &'static str =
    "Cannot reach the cloud provider — DNS, network, TLS, or endpoint URL.";

pub const DIAGNOSIS_AUTH: &'static str =
    "Credentials were rejected — missing, expired, or wrong access key / secret.";

pub const DIAGNOSIS_AUTHZ: &'static str =
    "Authentication succeeded but the credentials lack the required permission.";

pub const DIAGNOSIS_NOT_FOUND: &'static str = "The bucket (or project) does not exist.";

pub const DIAGNOSIS_REGION: &'static str =
    "The bucket exists in a different region than configured.";

pub const DIAGNOSIS_TIMEOUT: &'static str =
    "Request timed out — slow link, blocked port, or provider degraded.";

pub const DIAGNOSIS_OTHER: &'static str = "Unclassified error — see the raw message below.";

pub const HINTS_NETWORK: &'static str =
    "- DNS: can the host resolve the provider hostname?\n\
     - Outbound HTTPS (TCP 443) reachable? Try: curl -v https://<bucket>.s3.<region>.amazonaws.com/\n\
     - For MinIO/Wasabi: is cloud.s3.endpoint_url correct and reachable?\n\
     - Proxy / firewall blocking the connection?";

pub const HINTS_AUTH: &'static str =
    "- Are AWS_ACCESS_KEY_ID / AWS_SECRET_ACCESS_KEY set in the environment?\n\
     - For GCS: is GOOGLE_APPLICATION_CREDENTIALS set, or have you run `gcloud auth application-default login`?\n\
     - Have the credentials been rotated or revoked?\n\
     - Is the system clock skewed (causes signature mismatch)?";

pub const HINTS_AUTHZ: &'static str =
    "Cloud permissions for Thur VTL split across two surfaces:\n\
     data plane (chunks/manifests) AND, only for WORM backends with\n\
     retention_mode != none, the management plane (lock_state query).\n\
     \n\
     S3:\n\
     - data plane:        s3:ListBucket, s3:GetObject, s3:PutObject, s3:DeleteObject\n\
     - management plane:  s3:GetBucketObjectLockConfiguration  (WORM only)\n\
     \n\
     GCS:\n\
     - data plane:        roles/storage.objectAdmin\n\
     - management plane:  storage.buckets.get  (WORM only;\n\
     roles/storage.legacyBucketReader is the minimal grant)\n\
     - single-role shortcut: roles/storage.admin covers both planes.\n\
     Broader than necessary but simpler if least-privilege isn't a hard\n\
     requirement.\n\
     \n\
     Azure (assign at the storage-account scope):\n\
     - data plane:        'Storage Blob Data Contributor'\n\
     (the 'Storage Blob Data *' family — NOT plain\n\
     'Contributor', which is mgmt-plane and doesn't\n\
     grant blob ops)\n\
     - management plane:  'Storage Account Contributor'  (WORM only)\n\
     Also check the storage account's Networking blade — if\n\
     'Selected networks' is on, your client IP / VNet must be in\n\
     the allow list.\n\
     \n\
     Verify the policy / role is attached to the actual identity\n\
     being used (IAM user, service principal, managed identity).";

pub const HINTS_NOT_FOUND: &'static str =
    "- Does the bucket exist? (`aws s3 ls` or `gsutil ls`)\n\
     - Is cloud.<backend>.bucket spelled correctly?\n\
     - For GCS: is project_id correct?";

pub const HINTS_REGION: &'static str =
    "- Set cloud.s3.region to the bucket's actual region.\n\
     - Check with: aws s3api get-bucket-location --bucket <name>";

pub const HINTS_TIMEOUT: &'static str =
    "- Try again — provider may be transiently slow.\n\
     - Check outbound connectivity and any rate-limiting proxy.";

pub const HINTS_OTHER: &'static str =
    "- See the raw error message above for provider-specific details.";

impl FailureKind {
    /// Upper-case label of the class.
    pub fn label(self) -> (r: &'static str)
        ensures
            r@ == match self {
                FailureKind::Network => "NETWORK"@,
                FailureKind::Auth => "AUTH"@,
                FailureKind::Authz => "PERMISSION"@,
                FailureKind::NotFound => "NOT_FOUND"@,
                FailureKind::RegionMismatch => "REGION"@,
                FailureKind::Timeout => "TIMEOUT"@,
                FailureKind::Other => "OTHER"@,
            },
    {
        match self {
            FailureKind::Network => "NETWORK",
            FailureKind::Auth => "AUTH",
            FailureKind::Authz => "PERMISSION",
            FailureKind::NotFound => "NOT_FOUND",
            FailureKind::RegionMismatch => "REGION",
            FailureKind::Timeout => "TIMEOUT",
            FailureKind::Other => "OTHER",
        }
    }

    /// One short sentence describing the likely root cause.
    pub fn diagnosis(self) -> (r: &'static str)
        ensures
            r@ == match self {
                FailureKind::Network => DIAGNOSIS_NETWORK@,
                FailureKind::Auth => DIAGNOSIS_AUTH@,
                FailureKind::Authz => DIAGNOSIS_AUTHZ@,
                FailureKind::NotFound => DIAGNOSIS_NOT_FOUND@,
                FailureKind::RegionMismatch => DIAGNOSIS_REGION@,
                FailureKind::Timeout => DIAGNOSIS_TIMEOUT@,
                FailureKind::Other => DIAGNOSIS_OTHER@,
            },
    {
        match self {
            FailureKind::Network => DIAGNOSIS_NETWORK,
            FailureKind::Auth => DIAGNOSIS_AUTH,
            FailureKind::Authz => DIAGNOSIS_AUTHZ,
            FailureKind::NotFound => DIAGNOSIS_NOT_FOUND,
            FailureKind::RegionMismatch => DIAGNOSIS_REGION,
            FailureKind::Timeout => DIAGNOSIS_TIMEOUT,
            FailureKind::Other => DIAGNOSIS_OTHER,
        }
    }

    /// Multi-line list of things to check.
    pub fn hints(self) -> (r: &'static str)
        ensures
            r@ == match self {
                FailureKind::Network => HINTS_NETWORK@,
                FailureKind::Auth => HINTS_AUTH@,
                FailureKind::Authz => HINTS_AUTHZ@,
                FailureKind::NotFound => HINTS_NOT_FOUND@,
                FailureKind::RegionMismatch => HINTS_REGION@,
                FailureKind::Timeout => HINTS_TIMEOUT@,
                FailureKind::Other => HINTS_OTHER@,
            },
    {
        match self {
            FailureKind::Network => HINTS_NETWORK,
            FailureKind::Auth => HINTS_AUTH,
            FailureKind::Authz => HINTS_AUTHZ,
            FailureKind::NotFound => HINTS_NOT_FOUND,
            FailureKind::RegionMismatch => HINTS_REGION,
            FailureKind::Timeout => HINTS_TIMEOUT,
            FailureKind::Other => HINTS_OTHER,
        }
    }
}

/// The failure class of an error. `PreconditionFailed` counts as a refused permission;
/// `Conflict`, `NotSupported`, `Io` and `Compression` fall to `Other`.
pub open spec fn class_of(e: ObjectStoreError) -> FailureKind {
    match e {
        ObjectStoreError::Auth(_) => FailureKind::Auth,
        ObjectStoreError::Authz(_) => FailureKind::Authz,
        ObjectStoreError::NotFound(_) => FailureKind::NotFound,
        ObjectStoreError::RegionMismatch(_) => FailureKind::RegionMismatch,
        ObjectStoreError::Network(_) => FailureKind::Network,
        ObjectStoreError::Timeout(_) => FailureKind::Timeout,
        ObjectStoreError::PreconditionFailed(_) => FailureKind::Authz,
        _ => FailureKind::Other,
    }
}

/// The classes worth retrying.
pub open spec fn transient(kind: FailureKind) -> bool {
    kind is Network || kind is Timeout || kind is Other
}

/// The failure class of an HTTP status.
pub open spec fn class_of_status(status: u16) -> FailureKind {
    if status == 401 {
        FailureKind::Auth
    } else if status == 403 || status == 412 {
        FailureKind::Authz
    } else if status == 404 {
        FailureKind::NotFound
    } else if status == 408 {
        FailureKind::Timeout
    } else {
        FailureKind::Other
    }
}

/// Maps an error to its failure class. Looks at the variant alone, never at the message.
pub fn classify(err: &ObjectStoreError) -> (r: FailureKind)
    ensures
        r == class_of(*err),
{
    match err {
        ObjectStoreError::Auth(_) => FailureKind::Auth,
        ObjectStoreError::Authz(_) => FailureKind::Authz,
        ObjectStoreError::NotFound(_) => FailureKind::NotFound,
        ObjectStoreError::RegionMismatch(_) => FailureKind::RegionMismatch,
        ObjectStoreError::Network(_) => FailureKind::Network,
        ObjectStoreError::Timeout(_) => FailureKind::Timeout,
        ObjectStoreError::PreconditionFailed(_) => FailureKind::Authz,
        ObjectStoreError::Conflict(_) => FailureKind::Other,
        ObjectStoreError::Other(_)
        | ObjectStoreError::NotSupported(_)
        | ObjectStoreError::Io(_)
        | ObjectStoreError::Compression(_) => FailureKind::Other,
    }
}

/// Whether a failure of this class is worth retrying.
pub fn is_retryable(kind: FailureKind) -> (r: bool)
    ensures
        r == transient(kind),
{
    match kind {
        FailureKind::Network | FailureKind::Timeout | FailureKind::Other => true,
        FailureKind::Auth
        | FailureKind::Authz
        | FailureKind::NotFound
        | FailureKind::RegionMismatch => false,
    }
}

/// Maps an HTTP status to its failure class.
pub fn http_status_to_failure_kind(status: u16) -> (r: FailureKind)
    ensures
        r == class_of_status(status),
{
    match status {
        401 => FailureKind::Auth,
        403 => FailureKind::Authz,
        404 => FailureKind::NotFound,
        408 => FailureKind::Timeout,
        412 => FailureKind::Authz,
        _ => FailureKind::Other,
    }
}

/// Classifying an error minted for a class gives that class back, whatever its message.
pub proof fn law_classify_inverts_classified(kind: FailureKind, msg: String)
    ensures
        class_of(crate::error::carrier(kind, msg)) == kind,
{
}

/// Two errors of the same variant have the same class: the message never decides.
pub proof fn law_class_ignores_message(kind: FailureKind, a: String, b: String)
    ensures
        class_of(crate::error::carrier(kind, a)) == class_of(crate::error::carrier(kind, b)),
        class_of(ObjectStoreError::PreconditionFailed(a)) == class_of(
            ObjectStoreError::PreconditionFailed(b),
        ),
        class_of(ObjectStoreError::Conflict(a)) == class_of(ObjectStoreError::Conflict(b)),
        class_of(ObjectStoreError::NotSupported(a)) == class_of(ObjectStoreError::NotSupported(b)),
        class_of(ObjectStoreError::Io(a)) == class_of(ObjectStoreError::Io(b)),
        class_of(ObjectStoreError::Compression(a)) == class_of(ObjectStoreError::Compression(b)),
{
}

/// Exactly the credential, permission, missing-target and wrong-region classes are
/// permanent; every other class is worth retrying.
pub proof fn law_permanent_classes(kind: FailureKind)
    ensures
        !transient(kind) <==> (kind is Auth || kind is Authz || kind is NotFound
            || kind is RegionMismatch),
{
}

} // verus!
