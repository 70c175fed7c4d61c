//! Laws of backend validation: what is held against what, and what is never written.

use vstd::prelude::*;

use crate::backend_check::{self, CheckStage, LockQuery, ObjectStoreCheckStep};
use crate::config::{BackendEntry, ObjectStoreConfig, RetentionMode};
use crate::config_error::ObjectStoreConfigError;
use crate::error::ObjectStoreError;
use crate::failure::{self, FailureKind};
use crate::lock::LockState;

verus! {

/// The retention that an entry states.
pub open spec fn states(entry: BackendEntry, mode: RetentionMode) -> bool {
    match entry {
        BackendEntry::S3(c) => c.retention_mode == mode,
        BackendEntry::Gcs(c) => c.retention_mode == mode,
        BackendEntry::Azure(c) => c.retention_mode == mode,
        BackendEntry::Local(_) => mode == RetentionMode::NoRetention,
    }
}

/// A bucket that answers about its lock state passes exactly if its lock is of the kind that
/// the entry states, for every provider; a lock that nothing was stated for is refused too.
/// With the check off, and where the bucket did not answer, nothing is refused.
pub proof fn law_bucket_must_be_locked_as_stated(
    cfg: ObjectStoreConfig,
    name: &str,
    configured: RetentionMode,
    query: LockQuery,
    r: Result<ObjectStoreCheckStep, ObjectStoreConfigError>,
    mode: RetentionMode,
)
    requires
        cfg.backends@.contains_key(name@),
        states(cfg.backends@[name@], mode),
        call_ensures(ObjectStoreConfig::retention_mode_named, (&cfg, name), configured),
        call_ensures(
            backend_check::check_retention_state,
            (&cfg, name, configured, &query),
            r,
        ),
    ensures
        cfg.skip_retention_mode_check ==> r is Ok,
        !(query is Answered) ==> r is Ok,
        !cfg.skip_retention_mode_check ==> (query matches LockQuery::Answered(actual) ==> (r is Ok
            <==> match mode {
            RetentionMode::NoRetention => actual == LockState::Off,
            RetentionMode::Governance => actual is Governance,
            RetentionMode::Compliance => actual is Compliance,
        })),
        r matches Err(e) ==> (e matches ObjectStoreConfigError::RetentionMismatch {
            name: n,
            configured: c,
            actual: a,
            ..
        } && n@ == name@ && (c@ == "none"@ <==> mode == RetentionMode::NoRetention) && (c@
            == "governance"@ <==> mode == RetentionMode::Governance) && (c@ == "compliance"@
            <==> mode == RetentionMode::Compliance) && (a@ == "off"@ <==> query->Answered_0
            is Off) && (a@ == "governance"@ <==> query->Answered_0 is Governance) && (a@
            == "compliance"@ <==> query->Answered_0 is Compliance)),
        r matches Ok(step) ==> step.name@ == "lock_state"@,
{
    reveal_strlit("none");
    reveal_strlit("governance");
    reveal_strlit("compliance");
    reveal_strlit("off");
    assert("governance"@[0] == 'g');
    assert("compliance"@[0] == 'c');
    assert("none"@.len() == 4 && "off"@.len() == 3);
}

/// The bucket is asked for its lock state exactly if the check is on.
pub proof fn law_bucket_is_asked_unless_told_otherwise(cfg: ObjectStoreConfig, asks: bool)
    requires
        call_ensures(backend_check::asks_lock_state, (&cfg,), asks),
    ensures
        asks <==> !cfg.skip_retention_mode_check,
{
}

/// After listing, the probe goes on to write exactly if the entry states no retention. So a
/// bucket that is declared locked is never written to, whether or not its lock was checked.
pub proof fn law_declared_locks_are_never_written_to(
    cfg: ObjectStoreConfig,
    name: &str,
    configured: RetentionMode,
    listed: Result<usize, ObjectStoreError>,
    r: Result<(Vec<ObjectStoreCheckStep>, CheckStage), ObjectStoreConfigError>,
    mode: RetentionMode,
)
    requires
        cfg.backends@.contains_key(name@),
        states(cfg.backends@[name@], mode),
        call_ensures(ObjectStoreConfig::retention_mode_named, (&cfg, name), configured),
        call_ensures(backend_check::probe_listed, (&cfg, name, configured, listed), r),
    ensures
        r is Ok <==> listed is Ok,
        r matches Ok((steps, stage)) ==> (stage == CheckStage::Write <==> mode
            == RetentionMode::NoRetention) && (stage == CheckStage::Done <==> mode
            != RetentionMode::NoRetention),
        r matches Ok((steps, stage)) ==> steps@[0].name@ == "list"@ && (mode
            == RetentionMode::NoRetention ==> steps@.len() == 1) && (mode
            != RetentionMode::NoRetention ==> steps@.len() == 2 && steps@[1].name@
            == "skip_probe"@),
{
}

/// The stages of a validation that goes well: the lock state, the listing, and then, only
/// where no retention is declared, a write and a delete.
pub proof fn law_stages_of_a_validation(
    mode: RetentionMode,
    second: CheckStage,
    third: CheckStage,
    fourth: CheckStage,
    fifth: CheckStage,
)
    requires
        call_ensures(backend_check::stage_after, (CheckStage::LockState, mode), second),
        call_ensures(backend_check::stage_after, (second, mode), third),
        call_ensures(backend_check::stage_after, (third, mode), fourth),
        call_ensures(backend_check::stage_after, (fourth, mode), fifth),
    ensures
        second == CheckStage::List,
        third == CheckStage::Write <==> mode == RetentionMode::NoRetention,
        mode == RetentionMode::NoRetention ==> fourth == CheckStage::Delete,
        mode != RetentionMode::NoRetention ==> third == CheckStage::Done && fourth
            == CheckStage::Done,
        fifth == CheckStage::Done,
{
}

/// A directory is valid once it is constructed; every other backend is asked for its lock state
/// next, and an unknown name is refused with the name.
pub proof fn law_directories_need_no_probe(
    cfg: ObjectStoreConfig,
    name: &str,
    local: Result<bool, ObjectStoreConfigError>,
    next: Result<CheckStage, ObjectStoreConfigError>,
)
    requires
        call_ensures(backend_check::validate_local_short_circuit, (&cfg, name), local),
        call_ensures(backend_check::after_init, (&cfg, name), next),
    ensures
        cfg.backends@.contains_key(name@) && cfg.backends@[name@] is Local ==> local == Ok::<
            bool,
            ObjectStoreConfigError,
        >(true) && next == Ok::<CheckStage, ObjectStoreConfigError>(CheckStage::Done),
        cfg.backends@.contains_key(name@) && !(cfg.backends@[name@] is Local) ==> local == Ok::<
            bool,
            ObjectStoreConfigError,
        >(false) && next == Ok::<CheckStage, ObjectStoreConfigError>(CheckStage::LockState),
        !cfg.backends@.contains_key(name@) ==> (local matches Err(
            ObjectStoreConfigError::UnknownBackend(n),
        ) && n@ == name@) && (next matches Err(ObjectStoreConfigError::UnknownBackend(n)) && n@
            == name@),
{
}

/// A failed listing, write or delete stops the validation with the failure itself and the
/// bucket, of which the configuration knows the same label; one that worked is a step.
pub proof fn law_failed_probes_name_the_bucket(
    cfg: ObjectStoreConfig,
    name: &str,
    configured: RetentionMode,
    source: ObjectStoreError,
    target: Option<String>,
    prefix: &str,
    listed: Result<(Vec<ObjectStoreCheckStep>, CheckStage), ObjectStoreConfigError>,
    written: Result<ObjectStoreCheckStep, ObjectStoreConfigError>,
    deleted: Result<ObjectStoreCheckStep, ObjectStoreConfigError>,
    wrote: Result<ObjectStoreCheckStep, ObjectStoreConfigError>,
    erased: Result<ObjectStoreCheckStep, ObjectStoreConfigError>,
)
    requires
        cfg.backends@.contains_key(name@),
        call_ensures(ObjectStoreConfig::target_label_named, (&cfg, name), target),
        call_ensures(ObjectStoreConfig::prefix_named, (&cfg, name), prefix),
        call_ensures(
            backend_check::probe_listed,
            (&cfg, name, configured, Err::<usize, ObjectStoreError>(source)),
            listed,
        ),
        call_ensures(
            backend_check::probe_written,
            (&cfg, name, Err::<(), ObjectStoreError>(source)),
            written,
        ),
        call_ensures(
            backend_check::probe_deleted,
            (&cfg, name, Err::<(), ObjectStoreError>(source)),
            deleted,
        ),
        call_ensures(
            backend_check::probe_written,
            (&cfg, name, Ok::<(), ObjectStoreError>(())),
            wrote,
        ),
        call_ensures(
            backend_check::probe_deleted,
            (&cfg, name, Ok::<(), ObjectStoreError>(())),
            erased,
        ),
    ensures
        listed matches Err(ObjectStoreConfigError::ListFailed { bucket, prefix: p, source: s }) && s
            == source && p@ == prefix@ && (target matches Some(t) && t@ == bucket@),
        written matches Err(ObjectStoreConfigError::WriteFailed { bucket, source: s }) && s == source
            && (target matches Some(t) && t@ == bucket@),
        deleted matches Err(ObjectStoreConfigError::DeleteFailed { bucket, source: s }) && s
            == source && (target matches Some(t) && t@ == bucket@),
        wrote matches Ok(step) && step.name@ == "write"@,
        erased matches Ok(step) && step.name@ == "delete"@,
{
}

/// The class of a validation error is that of the provider failure in it, and unclassified
/// where there is none; its step is the one that failed.
pub proof fn law_validation_errors_are_classified(
    source: ObjectStoreError,
    bucket: String,
    prefix: String,
    class: FailureKind,
    list: FailureKind,
    write: FailureKind,
    delete: FailureKind,
    unknown: FailureKind,
    step: &'static str,
    write_step: &'static str,
)
    requires
        call_ensures(failure::classify, (&source,), class),
        call_ensures(
            ObjectStoreConfigError::kind,
            (&ObjectStoreConfigError::ListFailed { bucket, prefix, source },),
            list,
        ),
        call_ensures(
            ObjectStoreConfigError::kind,
            (&ObjectStoreConfigError::WriteFailed { bucket, source },),
            write,
        ),
        call_ensures(
            ObjectStoreConfigError::kind,
            (&ObjectStoreConfigError::DeleteFailed { bucket, source },),
            delete,
        ),
        call_ensures(
            ObjectStoreConfigError::kind,
            (&ObjectStoreConfigError::UnknownBackend(bucket),),
            unknown,
        ),
        call_ensures(
            ObjectStoreConfigError::step,
            (&ObjectStoreConfigError::ListFailed { bucket, prefix, source },),
            step,
        ),
        call_ensures(
            ObjectStoreConfigError::step,
            (&ObjectStoreConfigError::WriteFailed { bucket, source },),
            write_step,
        ),
    ensures
        list == class,
        write == class,
        delete == class,
        unknown == FailureKind::Other,
        step@ == "list"@,
        write_step@ == "write"@,
{
}

/// An error belongs to the step of the validation that it stopped, and is of the class of the
/// failure behind it; one without such a failure has no class of its own.
pub proof fn law_errors_belong_to_a_step(
    e: ObjectStoreConfigError,
    source: ObjectStoreError,
    class: FailureKind,
    kind: FailureKind,
    step: &'static str,
)
    requires
        call_ensures(failure::classify, (&source,), class),
        call_ensures(ObjectStoreConfigError::kind, (&e,), kind),
        call_ensures(ObjectStoreConfigError::step, (&e,), step),
    ensures
        e is UnknownBackend || e is AuthEnvVarMissing || e is AzureRetentionFieldsMissing
            ==> step@ == "config"@ && kind == FailureKind::Other,
        e is RetentionMismatch ==> step@ == "lock_state"@ && kind == FailureKind::Other,
        e matches ObjectStoreConfigError::BackendInit { source: s, .. } ==> step@ == "init"@ && (s
            == source ==> kind == class),
        e matches ObjectStoreConfigError::LockStateQueryFailed { source: s, .. } ==> step@
            == "lock_state"@ && (s == source ==> kind == class),
        e matches ObjectStoreConfigError::ListFailed { source: s, .. } ==> step@ == "list"@ && (s
            == source ==> kind == class),
        e matches ObjectStoreConfigError::WriteFailed { source: s, .. } ==> step@ == "write"@ && (s
            == source ==> kind == class),
        e matches ObjectStoreConfigError::DeleteFailed { source: s, .. } ==> step@ == "delete"@ && (
        s == source ==> kind == class),
{
}

/// The test object stands below the backend's prefix, where it is written and deleted.
pub proof fn law_test_object(
    cfg: ObjectStoreConfig,
    name: &str,
    prefix: &str,
    written: Result<ObjectStoreCheckStep, ObjectStoreConfigError>,
    deleted: Result<ObjectStoreCheckStep, ObjectStoreConfigError>,
)
    requires
        call_ensures(ObjectStoreConfig::prefix_named, (&cfg, name), prefix),
        call_ensures(
            backend_check::probe_written,
            (&cfg, name, Ok::<(), ObjectStoreError>(())),
            written,
        ),
        call_ensures(
            backend_check::probe_deleted,
            (&cfg, name, Ok::<(), ObjectStoreError>(())),
            deleted,
        ),
    ensures
        written matches Ok(step) && step.name@ == "write"@ && step.detail@
            == "uploaded test object '"@ + (prefix@ + ".thurvtl-cloud-check"@) + "'"@,
        deleted matches Ok(step) && step.name@ == "delete"@ && step.detail@
            == "deleted test object '"@ + (prefix@ + ".thurvtl-cloud-check"@) + "'"@,
{
}

} // verus!
