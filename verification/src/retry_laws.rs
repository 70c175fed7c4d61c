//! Laws of the retry policy: which failures are tried again, how often, and after what time.

use vstd::prelude::*;

use crate::error::ObjectStoreError;
use crate::failure::{self, FailureKind};
use crate::helpers::{self, RetryState, RetryStep};

verus! {

/// A permanent failure stops at once, however many retries are left. A failure that can heal is
/// tried again exactly while retries are left.
pub proof fn law_healable_failures_are_tried_again(
    s: &mut RetryState,
    err: ObjectStoreError,
    step: RetryStep,
    class: FailureKind,
    retryable: bool,
    before: u64,
    after: u64,
)
    requires
        old(s).wf(),
        call_ensures(RetryState::on_failure, (s, &err), step),
        call_ensures(failure::classify, (&err,), class),
        call_ensures(failure::is_retryable, (class,), retryable),
        call_ensures(RetryState::attempts_failed, (&*old(s),), before),
        call_ensures(RetryState::attempts_failed, (&*final(s),), after),
    ensures
        step is Permanent <==> !retryable,
        step is Retry <==> retryable && before < old(s).max(),
        step is Exhausted <==> retryable && before >= old(s).max(),
        before <= old(s).max() ==> after == before + 1,
        final(s).max() == old(s).max(),
        final(s).wf(),
{
}

/// An operation that is allowed `max` retries and only ever fails in ways that can heal is tried
/// again after each of the first `max` failures and given up after the next.
pub proof fn law_all_retries_are_used(
    max: u32,
    fresh: RetryState,
    s: &mut RetryState,
    failed: u64,
    err: ObjectStoreError,
    step: RetryStep,
    class: FailureKind,
    none: u64,
)
    requires
        call_ensures(RetryState::new, (max,), fresh),
        call_ensures(RetryState::attempts_failed, (&fresh,), none),
        old(s).wf(),
        old(s).max() == fresh.max(),
        call_ensures(RetryState::attempts_failed, (&*old(s),), failed),
        call_ensures(RetryState::on_failure, (s, &err), step),
        call_ensures(failure::classify, (&err,), class),
        class == FailureKind::Network || class == FailureKind::Timeout || class
            == FailureKind::Other,
    ensures
        none == 0,
        step is Retry <==> failed < max,
        step is Exhausted <==> failed >= max,
{
}

/// The first sleep is drawn from one to three seconds.
pub proof fn law_first_sleep(
    max: u32,
    fresh: RetryState,
    s: &mut RetryState,
    err: ObjectStoreError,
    step: RetryStep,
)
    requires
        call_ensures(RetryState::new, (max,), fresh),
        *old(s) == fresh,
        call_ensures(RetryState::on_failure, (s, &err), step),
    ensures
        step matches RetryStep::Retry { sleep_ms } ==> 1000 <= sleep_ms < 3000,
{
}

/// The window of the sleep doubles from failure to failure: its end is three times a base that
/// starts at one second and doubles, and never past half a minute. No sleep is shorter than a
/// second.
pub proof fn law_sleeps_grow(
    s: &mut RetryState,
    t: &mut RetryState,
    err: ObjectStoreError,
    first: RetryStep,
    second: RetryStep,
    window: (u64, u64),
    next_window: (u64, u64),
)
    requires
        old(s).wf(),
        call_ensures(RetryState::on_failure, (s, &err), first),
        *old(t) == *final(s),
        call_ensures(RetryState::on_failure, (t, &err), second),
        first is Retry,
        second is Retry,
        call_ensures(helpers::jitter_window, (old(s).base(),), window),
        call_ensures(helpers::jitter_window, (old(t).base(),), next_window),
    ensures
        window.0 == 1000,
        next_window.0 == 1000,
        window.1 <= 30_000,
        2 * window.1 <= 30_000 ==> next_window.1 == 2 * window.1,
        2 * window.1 > 30_000 ==> next_window.1 == 30_000,
        1000 <= first->sleep_ms < window.1,
        1000 <= second->sleep_ms < next_window.1,
{
    reveal_with_fuel(helpers::backoff_base, 2);
}

/// The window that a sleep is drawn from goes from one second to three times the base, half a
/// minute at most; a base so small that this is no window leaves its end alone.
pub proof fn law_windows(base: u64, window: (u64, u64), sleep: u64)
    requires
        call_ensures(helpers::jitter_window, (base,), window),
        call_ensures(helpers::jittered_backoff_ms, (base,), sleep),
    ensures
        base <= 10_000 ==> window.1 == 3 * base,
        base >= 10_000 ==> window.1 == 30_000,
        window.1 >= 1000 ==> window.0 == 1000,
        window.1 < 1000 ==> window.0 == window.1,
        window.0 < window.1 ==> window.0 <= sleep < window.1,
        window.0 == window.1 ==> sleep == window.1,
{
}

/// The key that the provider sees is the prefix followed by the key, so that two keys below one
/// prefix are the same to the provider only if they are the same.
pub proof fn law_full_keys(
    prefix: &str,
    a: &str,
    b: &str,
    full_a: String,
    full_b: String,
)
    requires
        call_ensures(helpers::full_key, (prefix, a), full_a),
        call_ensures(helpers::full_key, (prefix, b), full_b),
    ensures
        full_a@ == prefix@ + a@,
        full_a@ == full_b@ <==> a@ == b@,
{
    if full_a@ == full_b@ {
        assert(a@ =~= full_a@.skip(prefix@.len() as int));
        assert(b@ =~= full_b@.skip(prefix@.len() as int));
    }
}

} // verus!
