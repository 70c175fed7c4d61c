//! Validation of one backend: construction, retention, and a probe of the data plane.
//!
//! The provider calls are made by the caller, in the order that [`CheckStage`] gives. The
//! outcome of each is handed to the function of its stage, which says what to report and where
//! to go on.

use vstd::prelude::*;

use crate::config::{self, BackendEntry, ObjectStoreConfig, ObjectStoreConfigResult, RetentionMode};
use crate::config_error::ObjectStoreConfigError;
use crate::error::ObjectStoreError;
use crate::lock::{self, LockState};
use crate::text;

verus! {

/// Key of the object that the probe writes and deletes, below the backend's prefix.
pub const TEST_KEY: &'static str = ".thurvtl-cloud-check";

/// What the probe writes.
pub const TEST_BODY: &'static str = "{\"test\": true}";

/// A completed validation step.
#[derive(Debug, Clone)]
pub struct ObjectStoreCheckStep {
    pub name: &'static str,
    pub detail: String,
}

/// What is to be asked of the provider next.
#[derive(Debug, Clone, Copy, PartialEq, Eq, Structural)]
pub enum CheckStage {
    /// Read the bucket's lock state.
    LockState,
    /// List the objects below the backend's prefix.
    List,
    /// Write the test object.
    Write,
    /// Delete the test object.
    Delete,
    /// Nothing: the backend is valid.
    Done,
}

/// `step` reports `name` with `detail`.
pub open spec fn reports(step: ObjectStoreCheckStep, name: Seq<char>, detail: Seq<char>) -> bool {
    step.name@ == name && step.detail@ == detail
}

/// The declared retention of a backend.
pub open spec fn declared(cfg: ObjectStoreConfig, name: Seq<char>) -> RetentionMode {
    match cfg.entry(name) {
        Some(entry) => config::retention_of(entry),
        None => RetentionMode::NoRetention,
    }
}

/// What a backend stores into; empty for an unknown name.
pub open spec fn bucket_of(cfg: ObjectStoreConfig, name: Seq<char>) -> Seq<char> {
    match cfg.entry(name) {
        Some(entry) => config::target_of(entry),
        None => Seq::empty(),
    }
}

/// The key prefix of a backend; empty for an unknown name.
pub open spec fn prefix_in(cfg: ObjectStoreConfig, name: Seq<char>) -> Seq<char> {
    match cfg.entry(name) {
        Some(entry) => config::prefix_of(entry),
        None => Seq::empty(),
    }
}

/// The step that reports a constructed backend.
pub fn init_step(backend_type: &str) -> (r: ObjectStoreCheckStep)
    ensures
        reports(r, "init"@, "backend type: "@ + backend_type@),
{
    ObjectStoreCheckStep { name: "init", detail: text::concat2("backend type: ", backend_type) }
}

pub const LOCAL_HINT: &'static str =
    "Local backend has no immutability — retention_mode must be `none`.";

/// Whether validation ends after construction, as it does for a local directory. A directory
/// has no immutability, and its entry has no field to declare any.
pub fn validate_local_short_circuit(cfg: &ObjectStoreConfig, name: &str) -> (r:
    ObjectStoreConfigResult<bool>)
    requires
        cfg.wf(),
    ensures
        match cfg.entry(name@) {
            None => r matches Err(ObjectStoreConfigError::UnknownBackend(n)) && n@ == name@,
            Some(entry) => r == Ok::<bool, ObjectStoreConfigError>(entry is Local),
        },
{
    let entry = match cfg.backend_entry(name) {
        Ok(entry) => entry,
        Err(e) => return Err(e),
    };
    if !entry.is_local() {
        return Ok(false);
    }
    let configured = cfg.retention_mode_named(name);
    if !cfg.skip_retention_mode_check && configured.requires_lock() {
        return Err(
            ObjectStoreConfigError::RetentionMismatch {
                name: name.to_owned(),
                configured: configured.label(),
                actual: "off",
                hint: LOCAL_HINT.to_owned(),
            },
        );
    }
    Ok(true)
}

/// Where validation goes on after construction.
pub fn after_init(cfg: &ObjectStoreConfig, name: &str) -> (r: ObjectStoreConfigResult<CheckStage>)
    requires
        cfg.wf(),
    ensures
        match cfg.entry(name@) {
            None => r matches Err(ObjectStoreConfigError::UnknownBackend(n)) && n@ == name@,
            Some(entry) => r == Ok::<CheckStage, ObjectStoreConfigError>(
                if entry is Local {
                    CheckStage::Done
                } else {
                    CheckStage::LockState
                },
            ),
        },
{
    match validate_local_short_circuit(cfg, name) {
        Ok(done) => Ok(
            if done {
                CheckStage::Done
            } else {
                CheckStage::LockState
            },
        ),
        Err(e) => Err(e),
    }
}

/// What is known of a bucket's lock state.
#[derive(Debug, Clone)]
pub enum LockQuery {
    /// The bucket was not asked.
    NotAsked,
    Answered(LockState),
    Failed(ObjectStoreError),
}

/// The bucket is as declared.
pub open spec fn agrees(configured: RetentionMode, actual: LockState) -> bool {
    match configured {
        RetentionMode::NoRetention => actual is Off,
        RetentionMode::Governance => actual is Governance,
        RetentionMode::Compliance => actual is Compliance,
    }
}

/// What the provider calls bucket immutability.
pub open spec fn policy_term(entry: Option<BackendEntry>) -> Seq<char> {
    match entry {
        Some(BackendEntry::S3(_)) => "Object Lock"@,
        Some(BackendEntry::Azure(_)) => "immutability policy"@,
        _ => "retention policy"@,
    }
}

pub const HINT_NONE_MIDDLE: &'static str =
    " configured but the backend declares retention_mode: \
     none. Either set retention_mode to match the bucket, or point this \
     backend at a bucket without ";

pub const HINT_GOVERNANCE_OFF: &'static str =
    ". Configure a default retention period in mutable / \
     GOVERNANCE / unlocked mode, or remove retention_mode from this backend.";

pub const HINT_COMPLIANCE_OFF: &'static str =
    ". Configure a default retention period in irrevocable / \
     COMPLIANCE / locked mode, or remove retention_mode.";

pub const HINT_GOVERNANCE_LOCKED: &'static str =
    " is irrevocable / locked / COMPLIANCE. Update retention_mode \
     to 'compliance', or reconfigure the bucket.";

pub const HINT_COMPLIANCE_MUTABLE: &'static str =
    " is mutable / unlocked / GOVERNANCE. For compliance you need \
     an irrevocable lock — reconfigure the bucket, or downgrade \
     retention_mode to 'governance'.";

/// What to do about a bucket that is not as declared.
pub open spec fn mismatch_hint(
    configured: RetentionMode,
    actual: LockState,
    term: Seq<char>,
) -> Seq<char> {
    match configured {
        RetentionMode::NoRetention => "Bucket has a "@ + term + HINT_NONE_MIDDLE@ + term + "."@,
        RetentionMode::Governance => if actual is Off {
            "Bucket has no "@ + term + HINT_GOVERNANCE_OFF@
        } else {
            "Bucket "@ + term + HINT_GOVERNANCE_LOCKED@
        },
        RetentionMode::Compliance => if actual is Off {
            "Bucket has no "@ + term + HINT_COMPLIANCE_OFF@
        } else {
            "Bucket "@ + term + HINT_COMPLIANCE_MUTABLE@
        },
    }
}

/// Whether a bucket is as declared.
fn lock_agrees(configured: RetentionMode, actual: LockState) -> (r: bool)
    ensures
        r == agrees(configured, actual),
{
    match (configured, actual) {
        (RetentionMode::NoRetention, LockState::Off) => true,
        (RetentionMode::Governance, LockState::Governance { .. }) => true,
        (RetentionMode::Compliance, LockState::Compliance { .. }) => true,
        _ => false,
    }
}

/// What the provider of the named backend calls bucket immutability.
fn policy_term_named(cfg: &ObjectStoreConfig, name: &str) -> (r: &'static str)
    requires
        cfg.wf(),
    ensures
        r@ == policy_term(cfg.entry(name@)),
{
    match cfg.backend_entry(name) {
        Ok(BackendEntry::S3(_)) => "Object Lock",
        Ok(BackendEntry::Azure(_)) => "immutability policy",
        _ => "retention policy",
    }
}

/// What to do about a bucket that is not as declared.
fn hint_for(configured: RetentionMode, actual: LockState, term: &str) -> (r: String)
    ensures
        r@ == mismatch_hint(configured, actual, term@),
{
    match (configured, actual) {
        (RetentionMode::NoRetention, _) => {
            let mut s = text::concat2("Bucket has a ", term);
            s.append(HINT_NONE_MIDDLE);
            s.append(term);
            s.append(".");
            s
        },
        (RetentionMode::Governance, LockState::Off) => {
            let mut s = text::concat2("Bucket has no ", term);
            s.append(HINT_GOVERNANCE_OFF);
            s
        },
        (RetentionMode::Compliance, LockState::Off) => {
            let mut s = text::concat2("Bucket has no ", term);
            s.append(HINT_COMPLIANCE_OFF);
            s
        },
        (RetentionMode::Governance, _) => {
            let mut s = text::concat2("Bucket ", term);
            s.append(HINT_GOVERNANCE_LOCKED);
            s
        },
        (RetentionMode::Compliance, _) => {
            let mut s = text::concat2("Bucket ", term);
            s.append(HINT_COMPLIANCE_MUTABLE);
            s
        },
    }
}

pub const CHECK_DISABLED: &'static str =
    "' — bucket lock state check disabled \
     (skip_retention_mode_check: true)";

pub const QUERY_FAILED: &'static str =
    "' — bucket lock state could not be queried (insufficient \
     permissions or provider error); proceeding without verification";

/// What the retention check reports when it does not refuse.
pub open spec fn retention_detail(
    skip: bool,
    configured: RetentionMode,
    query: LockQuery,
) -> Seq<char> {
    if skip {
        "retention_mode '"@ + config::mode_label(configured) + CHECK_DISABLED@
    } else {
        match query {
            LockQuery::Answered(actual) => "retention_mode '"@ + config::mode_label(configured)
                + "' matches bucket lock state '"@ + lock::lock_label(actual) + "'"@,
            _ => "retention_mode '"@ + config::mode_label(configured) + QUERY_FAILED@,
        }
    }
}

/// Whether the bucket is to be asked for its lock state.
pub fn asks_lock_state(cfg: &ObjectStoreConfig) -> (r: bool)
    ensures
        r == !cfg.skip_retention_mode_check,
{
    !cfg.skip_retention_mode_check
}

/// Holds the declared retention against the bucket, in both directions: a bucket that is
/// locked though nothing was declared is refused too. A query that failed, for want of
/// permission or otherwise, is reported and does not refuse. With the check off, nothing
/// refuses.
pub fn check_retention_state(
    cfg: &ObjectStoreConfig,
    name: &str,
    configured: RetentionMode,
    query: &LockQuery,
) -> (r: ObjectStoreConfigResult<ObjectStoreCheckStep>)
    requires
        cfg.wf(),
        *query is NotAsked ==> cfg.skip_retention_mode_check,
    ensures
        r is Err <==> !cfg.skip_retention_mode_check && (*query matches LockQuery::Answered(actual)
            && !agrees(configured, actual)),
        r matches Ok(step) ==> reports(
            step,
            "lock_state"@,
            retention_detail(cfg.skip_retention_mode_check, configured, *query),
        ),
        r matches Err(e) ==> (e matches ObjectStoreConfigError::RetentionMismatch {
            name: n,
            configured: c,
            actual: a,
            hint,
        } && n@ == name@ && c@ == config::mode_label(configured) && a@ == lock::lock_label(
            query->Answered_0,
        ) && hint@ == mismatch_hint(
            configured,
            query->Answered_0,
            policy_term(cfg.entry(name@)),
        )),
{
    if cfg.skip_retention_mode_check {
        let mut detail = text::concat2("retention_mode '", configured.label());
        detail.append(CHECK_DISABLED);
        return Ok(ObjectStoreCheckStep { name: "lock_state", detail });
    }
    match query {
        LockQuery::Answered(actual) => {
            if !lock_agrees(configured, *actual) {
                let term = policy_term_named(cfg, name);
                return Err(
                    ObjectStoreConfigError::RetentionMismatch {
                        name: name.to_owned(),
                        configured: configured.label(),
                        actual: actual.label(),
                        hint: hint_for(configured, *actual, term),
                    },
                );
            }
            let mut detail = text::concat2("retention_mode '", configured.label());
            detail.append("' matches bucket lock state '");
            detail.append(actual.label());
            detail.append("'");
            Ok(ObjectStoreCheckStep { name: "lock_state", detail })
        },
        _ => {
            let mut detail = text::concat2("retention_mode '", configured.label());
            detail.append(QUERY_FAILED);
            Ok(ObjectStoreCheckStep { name: "lock_state", detail })
        },
    }
}

/// The report of a listed bucket.
pub open spec fn listed_detail(bucket: Seq<char>, count: nat, prefix: Seq<char>) -> Seq<char> {
    "bucket '"@ + bucket + "' reachable ("@ + text::decimal(count) + " objects under '"@ + prefix
        + "')"@
}

/// The report of a probe that is not made.
pub open spec fn skipped_detail(bucket: Seq<char>, configured: RetentionMode) -> Seq<char> {
    "bucket '"@ + bucket + "' is locked (retention_mode="@ + config::mode_label(configured)
        + "); skipping write/delete probe"@
}

/// The bucket label of the named backend; empty for an unknown name.
fn bucket_named(cfg: &ObjectStoreConfig, name: &str) -> (r: String)
    requires
        cfg.wf(),
    ensures
        r@ == bucket_of(*cfg, name@),
{
    match cfg.target_label_named(name) {
        Some(s) => s,
        None => String::new(),
    }
}

/// After listing: a failure names the bucket and the prefix. An object written to a locked
/// bucket could not be deleted again, so where retention is declared the probe ends here,
/// whether or not the lock state was checked.
pub fn probe_listed(
    cfg: &ObjectStoreConfig,
    name: &str,
    configured: RetentionMode,
    listed: Result<usize, ObjectStoreError>,
) -> (r: ObjectStoreConfigResult<(Vec<ObjectStoreCheckStep>, CheckStage)>)
    requires
        cfg.wf(),
    ensures
        match listed {
            Err(source) => r matches Err(ObjectStoreConfigError::ListFailed {
                bucket,
                prefix,
                source: s,
            }) && bucket@ == bucket_of(*cfg, name@) && prefix@ == prefix_in(*cfg, name@) && s
                == source,
            Ok(count) => {
                &&& r matches Ok((steps, stage))
                &&& steps.len() == (if configured == RetentionMode::NoRetention {
                    1int
                } else {
                    2
                })
                &&& reports(
                    steps@[0],
                    "list"@,
                    listed_detail(bucket_of(*cfg, name@), count as nat, prefix_in(*cfg, name@)),
                )
                &&& configured == RetentionMode::NoRetention ==> stage == CheckStage::Write
                &&& configured != RetentionMode::NoRetention ==> stage == CheckStage::Done
                    && reports(
                    steps@[1],
                    "skip_probe"@,
                    skipped_detail(bucket_of(*cfg, name@), configured),
                )
            },
        },
{
    let bucket = bucket_named(cfg, name);
    let prefix = cfg.prefix_named(name);
    let count: usize = match listed {
        Ok(count) => count,
        Err(source) => {
            return Err(
                ObjectStoreConfigError::ListFailed { bucket, prefix: prefix.to_owned(), source },
            );
        },
    };
    let mut steps: Vec<ObjectStoreCheckStep> = Vec::new();
    let mut detail = text::concat2("bucket '", &bucket);
    detail.append("' reachable (");
    detail.append(text::decimal_text(count as u64).as_str());
    detail.append(" objects under '");
    detail.append(prefix);
    detail.append("')");
    steps.push(ObjectStoreCheckStep { name: "list", detail });
    if configured.requires_lock() {
        let mut detail = text::concat2("bucket '", &bucket);
        detail.append("' is locked (retention_mode=");
        detail.append(configured.label());
        detail.append("); skipping write/delete probe");
        steps.push(ObjectStoreCheckStep { name: "skip_probe", detail });
        return Ok((steps, CheckStage::Done));
    }
    Ok((steps, CheckStage::Write))
}

/// After writing the test object.
pub fn probe_written(
    cfg: &ObjectStoreConfig,
    name: &str,
    written: Result<(), ObjectStoreError>,
) -> (r: ObjectStoreConfigResult<ObjectStoreCheckStep>)
    requires
        cfg.wf(),
    ensures
        match written {
            Err(source) => r matches Err(ObjectStoreConfigError::WriteFailed { bucket, source: s })
                && bucket@ == bucket_of(*cfg, name@) && s == source,
            Ok(_) => r matches Ok(step) && reports(
                step,
                "write"@,
                "uploaded test object '"@ + (prefix_in(*cfg, name@) + TEST_KEY@) + "'"@,
            ),
        },
{
    match written {
        Err(source) => Err(
            ObjectStoreConfigError::WriteFailed { bucket: bucket_named(cfg, name), source },
        ),
        Ok(_) => {
            let key = text::concat2(cfg.prefix_named(name), TEST_KEY);
            let mut detail = text::concat2("uploaded test object '", &key);
            detail.append("'");
            Ok(ObjectStoreCheckStep { name: "write", detail })
        },
    }
}

/// After deleting the test object.
pub fn probe_deleted(
    cfg: &ObjectStoreConfig,
    name: &str,
    deleted: Result<(), ObjectStoreError>,
) -> (r: ObjectStoreConfigResult<ObjectStoreCheckStep>)
    requires
        cfg.wf(),
    ensures
        match deleted {
            Err(source) => r matches Err(ObjectStoreConfigError::DeleteFailed { bucket, source: s })
                && bucket@ == bucket_of(*cfg, name@) && s == source,
            Ok(_) => r matches Ok(step) && reports(
                step,
                "delete"@,
                "deleted test object '"@ + (prefix_in(*cfg, name@) + TEST_KEY@) + "'"@,
            ),
        },
{
    match deleted {
        Err(source) => Err(
            ObjectStoreConfigError::DeleteFailed { bucket: bucket_named(cfg, name), source },
        ),
        Ok(_) => {
            let key = text::concat2(cfg.prefix_named(name), TEST_KEY);
            let mut detail = text::concat2("deleted test object '", &key);
            detail.append("'");
            Ok(ObjectStoreCheckStep { name: "delete", detail })
        },
    }
}

/// The stage after a stage that went well.
pub open spec fn next_stage(stage: CheckStage, configured: RetentionMode) -> CheckStage {
    match stage {
        CheckStage::LockState => CheckStage::List,
        CheckStage::List => if configured == RetentionMode::NoRetention {
            CheckStage::Write
        } else {
            CheckStage::Done
        },
        CheckStage::Write => CheckStage::Delete,
        CheckStage::Delete => CheckStage::Done,
        CheckStage::Done => CheckStage::Done,
    }
}

/// The stage after a stage that went well.
pub fn stage_after(stage: CheckStage, configured: RetentionMode) -> (r: CheckStage)
    ensures
        r == next_stage(stage, configured),
{
    match stage {
        CheckStage::LockState => CheckStage::List,
        CheckStage::List => if configured.requires_lock() {
            CheckStage::Done
        } else {
            CheckStage::Write
        },
        CheckStage::Write => CheckStage::Delete,
        CheckStage::Delete => CheckStage::Done,
        CheckStage::Done => CheckStage::Done,
    }
}

/// The stages that are passed through from `stage` on.
pub open spec fn stages_from(stage: CheckStage, configured: RetentionMode, fuel: nat) -> Seq<
    CheckStage,
>
    decreases fuel,
{
    if stage == CheckStage::Done || fuel == 0 {
        Seq::empty()
    } else {
        seq![stage] + stages_from(next_stage(stage, configured), configured, (fuel - 1) as nat)
    }
}

/// Validation of a remote backend without declared retention asks for the lock state, lists,
/// writes and deletes, and then ends.
pub proof fn law_unlocked_backend_is_fully_probed()
    ensures
        stages_from(CheckStage::LockState, RetentionMode::NoRetention, 5) == seq![
            CheckStage::LockState,
            CheckStage::List,
            CheckStage::Write,
            CheckStage::Delete,
        ],
{
    reveal_with_fuel(stages_from, 6);
}

/// Validation never writes to a bucket for which retention is declared.
pub proof fn law_locked_backend_is_never_written(configured: RetentionMode, fuel: nat)
    requires
        configured != RetentionMode::NoRetention,
    ensures
        !stages_from(CheckStage::LockState, configured, fuel).contains(CheckStage::Write),
        !stages_from(CheckStage::LockState, configured, fuel).contains(CheckStage::Delete),
{
    reveal_with_fuel(stages_from, 4);
    let s = stages_from(CheckStage::LockState, configured, fuel);
    if fuel >= 2 {
        assert(s =~= seq![CheckStage::LockState, CheckStage::List]);
    }
}

/// A declaration agrees with exactly one kind of lock state, and a lock state with exactly one
/// declaration.
pub proof fn law_agreement_is_one_to_one(a: RetentionMode, b: RetentionMode, state: LockState)
    ensures
        agrees(a, state) && agrees(b, state) ==> a == b,
        agrees(RetentionMode::NoRetention, state) || agrees(RetentionMode::Governance, state)
            || agrees(RetentionMode::Compliance, state),
{
}

/// No retention can be declared for a local directory, which agrees with its having no lock.
pub proof fn law_local_directory_declares_nothing(cfg: ObjectStoreConfig, name: Seq<char>)
    requires
        cfg.entry(name) matches Some(entry) && entry is Local,
    ensures
        declared(cfg, name) == RetentionMode::NoRetention,
        agrees(declared(cfg, name), LockState::Off),
{
}

} // verus!
