//! Errors of backend configuration and validation.

use vstd::prelude::*;

use crate::error::{self, ObjectStoreError};
use crate::failure::{self, FailureKind};
use crate::text;

verus! {

/// A configuration or validation failure.
#[derive(Debug, Clone)]
pub enum ObjectStoreConfigError {
    /// The named backend is not configured.
    UnknownBackend(String),
    /// The credentials name an environment variable that is not set.
    AuthEnvVarMissing(String),
    /// An Azure backend with retention lacks what addresses its immutability policy.
    AzureRetentionFieldsMissing { name: String },
    /// The backend could not be constructed.
    BackendInit { backend: &'static str, source: ObjectStoreError },
    /// The bucket's lock state is not the declared one.
    RetentionMismatch {
        name: String,
        configured: &'static str,
        actual: &'static str,
        hint: String,
    },
    /// The bucket could not be listed.
    ListFailed { bucket: String, prefix: String, source: ObjectStoreError },
    /// The test object could not be written.
    WriteFailed { bucket: String, source: ObjectStoreError },
    /// The test object could not be deleted.
    DeleteFailed { bucket: String, source: ObjectStoreError },
    /// The lock state could not be read.
    LockStateQueryFailed { name: String, source: ObjectStoreError },
}

pub const ENV_MISSING_TAIL: &'static str =
    "' is not set. The backend's `auth` block names \
     this env var, but it isn't present in the daemon's environment. \
     Define it in `/etc/thurvtl/thurvtl.env` (loaded by the systemd \
     unit) or systemd `Environment=` overrides.";

pub const AZURE_FIELDS_TAIL: &'static str =
    "' has retention_mode != none but is missing `subscription_id` and/or `resource_group`. \
     Both are required so the daemon can query the container's immutability policy on the ARM management plane \
     (the data-plane endpoint doesn't expose it).";

pub const MISMATCH_CONTRACT: &'static str =
    "'. \
     The bucket is the contract — either change retention_mode to match, or reconfigure the bucket. ";

/// The one-line text of an error.
pub open spec fn config_error_text(e: ObjectStoreConfigError) -> Seq<char> {
    match e {
        ObjectStoreConfigError::UnknownBackend(name) => "backend name '"@ + name@
            + "' not defined under `cloud.backends:` in the YAML conffile"@,
        ObjectStoreConfigError::AuthEnvVarMissing(name) => "auth env var '"@ + name@
            + ENV_MISSING_TAIL@,
        ObjectStoreConfigError::AzureRetentionFieldsMissing { name } => "Azure backend '"@ + name@
            + AZURE_FIELDS_TAIL@,
        ObjectStoreConfigError::BackendInit { backend, source } => "failed to initialize "@ + backend@
            + " backend: "@ + error::error_text(source),
        ObjectStoreConfigError::RetentionMismatch { name, configured, actual, hint } => "backend '"@
            + name@ + "': configured retention_mode is '"@ + configured@
            + "' but bucket lock state is '"@ + actual@ + MISMATCH_CONTRACT@ + hint@,
        ObjectStoreConfigError::ListFailed { bucket, prefix, source } => "list failed on bucket '"@
            + bucket@ + "' (prefix '"@ + prefix@ + "'): "@ + error::error_text(source),
        ObjectStoreConfigError::WriteFailed { bucket, source } =>
            "write of test object failed on bucket '"@ + bucket@ + "': "@ + error::error_text(source),
        ObjectStoreConfigError::DeleteFailed { bucket, source } =>
            "delete of test object failed on bucket '"@ + bucket@ + "': "@ + error::error_text(source),
        ObjectStoreConfigError::LockStateQueryFailed { name, source } =>
            "lock_state query failed for backend '"@ + name@ + "': "@ + error::error_text(source),
    }
}

/// The validation step that an error belongs to.
pub open spec fn error_step(e: ObjectStoreConfigError) -> Seq<char> {
    match e {
        ObjectStoreConfigError::UnknownBackend(_)
        | ObjectStoreConfigError::AuthEnvVarMissing(_)
        | ObjectStoreConfigError::AzureRetentionFieldsMissing { .. } => "config"@,
        ObjectStoreConfigError::BackendInit { .. } => "init"@,
        ObjectStoreConfigError::ListFailed { .. } => "list"@,
        ObjectStoreConfigError::WriteFailed { .. } => "write"@,
        ObjectStoreConfigError::DeleteFailed { .. } => "delete"@,
        ObjectStoreConfigError::LockStateQueryFailed { .. }
        | ObjectStoreConfigError::RetentionMismatch { .. } => "lock_state"@,
    }
}

/// The provider failure behind an error, if there is one.
pub open spec fn cause(e: ObjectStoreConfigError) -> Option<ObjectStoreError> {
    match e {
        ObjectStoreConfigError::UnknownBackend(_)
        | ObjectStoreConfigError::AuthEnvVarMissing(_)
        | ObjectStoreConfigError::AzureRetentionFieldsMissing { .. }
        | ObjectStoreConfigError::RetentionMismatch { .. } => None,
        ObjectStoreConfigError::BackendInit { source, .. } => Some(source),
        ObjectStoreConfigError::ListFailed { source, .. } => Some(source),
        ObjectStoreConfigError::WriteFailed { source, .. } => Some(source),
        ObjectStoreConfigError::DeleteFailed { source, .. } => Some(source),
        ObjectStoreConfigError::LockStateQueryFailed { source, .. } => Some(source),
    }
}

impl ObjectStoreConfigError {
    /// Which validation step failed.
    pub fn step(&self) -> (r: &'static str)
        ensures
            r@ == error_step(*self),
    {
        match self {
            ObjectStoreConfigError::UnknownBackend(_)
            | ObjectStoreConfigError::AuthEnvVarMissing(_)
            | ObjectStoreConfigError::AzureRetentionFieldsMissing { .. } => "config",
            ObjectStoreConfigError::BackendInit { .. } => "init",
            ObjectStoreConfigError::ListFailed { .. } => "list",
            ObjectStoreConfigError::WriteFailed { .. } => "write",
            ObjectStoreConfigError::DeleteFailed { .. } => "delete",
            ObjectStoreConfigError::LockStateQueryFailed { .. }
            | ObjectStoreConfigError::RetentionMismatch { .. } => "lock_state",
        }
    }

    /// The class of the provider failure; a failure without one is unclassified.
    pub fn kind(&self) -> (r: FailureKind)
        ensures
            r == (match cause(*self) {
                Some(source) => failure::class_of(source),
                None => FailureKind::Other,
            }),
    {
        match self {
            ObjectStoreConfigError::UnknownBackend(_)
            | ObjectStoreConfigError::AuthEnvVarMissing(_)
            | ObjectStoreConfigError::AzureRetentionFieldsMissing { .. }
            | ObjectStoreConfigError::RetentionMismatch { .. } => FailureKind::Other,
            ObjectStoreConfigError::BackendInit { source, .. } => failure::classify(source),
            ObjectStoreConfigError::ListFailed { source, .. } => failure::classify(source),
            ObjectStoreConfigError::WriteFailed { source, .. } => failure::classify(source),
            ObjectStoreConfigError::DeleteFailed { source, .. } => failure::classify(source),
            ObjectStoreConfigError::LockStateQueryFailed { source, .. } => failure::classify(source),
        }
    }

    /// The one-line text of this error.
    pub fn text(&self) -> (r: String)
        ensures
            r@ == config_error_text(*self),
    {
        match self {
            ObjectStoreConfigError::UnknownBackend(name) => {
                let mut s = text::concat2("backend name '", name);
                s.append("' not defined under `cloud.backends:` in the YAML conffile");
                s
            },
            ObjectStoreConfigError::AuthEnvVarMissing(name) => {
                let mut s = text::concat2("auth env var '", name);
                s.append(ENV_MISSING_TAIL);
                s
            },
            ObjectStoreConfigError::AzureRetentionFieldsMissing { name } => {
                let mut s = text::concat2("Azure backend '", name);
                s.append(AZURE_FIELDS_TAIL);
                s
            },
            ObjectStoreConfigError::BackendInit { backend, source } => {
                let mut s = text::concat2("failed to initialize ", backend);
                s.append(" backend: ");
                s.append(source.text().as_str());
                s
            },
            ObjectStoreConfigError::RetentionMismatch { name, configured, actual, hint } => {
                let mut s = text::concat2("backend '", name);
                s.append("': configured retention_mode is '");
                s.append(configured);
                s.append("' but bucket lock state is '");
                s.append(actual);
                s.append(MISMATCH_CONTRACT);
                s.append(hint);
                s
            },
            ObjectStoreConfigError::ListFailed { bucket, prefix, source } => {
                let mut s = text::concat2("list failed on bucket '", bucket);
                s.append("' (prefix '");
                s.append(prefix);
                s.append("'): ");
                s.append(source.text().as_str());
                s
            },
            ObjectStoreConfigError::WriteFailed { bucket, source } => {
                let mut s = text::concat2("write of test object failed on bucket '", bucket);
                s.append("': ");
                s.append(source.text().as_str());
                s
            },
            ObjectStoreConfigError::DeleteFailed { bucket, source } => {
                let mut s = text::concat2("delete of test object failed on bucket '", bucket);
                s.append("': ");
                s.append(source.text().as_str());
                s
            },
            ObjectStoreConfigError::LockStateQueryFailed { name, source } => {
                let mut s = text::concat2("lock_state query failed for backend '", name);
                s.append("': ");
                s.append(source.text().as_str());
                s
            },
        }
    }
}

} // verus!
