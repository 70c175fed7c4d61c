//! What every remote backend shares: key composition and the retry policy.
//!
//! The retry policy is a state machine. The caller runs one attempt, reports a failure with
//! [`RetryState::on_failure`], and either stops or sleeps for the returned time and tries
//! again. Permanent failures stop at once; transient ones are retried with decorrelated
//! jitter, so that many callers hit by the same outage do not come back in lockstep.

use rand::Rng;
use vstd::prelude::*;

use crate::error::ObjectStoreError;
use crate::failure::{self, FailureKind};
use crate::text;

verus! {

/// Backoff base of the first retry.
pub const INITIAL_BACKOFF_MS: u64 = 1000;

/// Largest backoff.
pub const MAX_BACKOFF_MS: u64 = 30_000;

/// The object key as the provider sees it: the backend's prefix, then the key.
pub fn full_key(prefix: &str, key: &str) -> (r: String)
    ensures
        r@ == prefix@ + key@,
{
    if prefix.is_empty() {
        assert(prefix@ + key@ =~= key@);
        key.to_owned()
    } else {
        text::concat2(prefix, key)
    }
}

/// The key of an object listed under `prefix`, relative to it: a name outside the prefix
/// stands as it is.
pub open spec fn relative_key(prefix: Seq<char>, name: Seq<char>) -> Seq<char> {
    if prefix.is_prefix_of(name) {
        name.skip(prefix.len() as int)
    } else {
        name
    }
}

/// The end of the window a sleep is drawn from: three times the base, at most
/// [`MAX_BACKOFF_MS`].
pub open spec fn window_end(base_ms: u64) -> int {
    if 3 * base_ms < MAX_BACKOFF_MS {
        3 * base_ms
    } else {
        MAX_BACKOFF_MS as int
    }
}

/// The start of the window a sleep is drawn from: [`INITIAL_BACKOFF_MS`], or the window's end
/// where that is no later.
pub open spec fn window_start(base_ms: u64) -> int {
    if INITIAL_BACKOFF_MS < window_end(base_ms) {
        INITIAL_BACKOFF_MS as int
    } else {
        window_end(base_ms)
    }
}

/// `sleep_ms` lies in the jitter window of `base_ms`. An empty window holds its end alone.
pub open spec fn in_window(base_ms: u64, sleep_ms: u64) -> bool {
    if window_start(base_ms) == window_end(base_ms) {
        sleep_ms == window_end(base_ms)
    } else {
        window_start(base_ms) <= sleep_ms < window_end(base_ms)
    }
}

/// The window that a sleep after `base_ms` is drawn from: its start, and the first value
/// behind it.
pub fn jitter_window(base_ms: u64) -> (r: (u64, u64))
    ensures
        r.0 == window_start(base_ms),
        r.1 == window_end(base_ms),
{
    let end: u64 = if base_ms < MAX_BACKOFF_MS / 3 {
        base_ms * 3
    } else {
        MAX_BACKOFF_MS
    };
    let start: u64 = if INITIAL_BACKOFF_MS < end {
        INITIAL_BACKOFF_MS
    } else {
        end
    };
    (start, end)
}

/// A random number in `low..high`, from `rand::Rng::random_range` on the generator that
/// `rand::rng` gives the thread. The result depends on chance: only its range is claimed.
#[verifier::external_body]
fn random_between(low: u64, high: u64) -> (r: u64)
    requires
        low < high,
    ensures
        low <= r < high,
{
    rand::rng().random_range(low..high)
}

/// A sleep drawn at random from the jitter window of `base_ms`. Which value of the window it is
/// rests on chance.
pub fn jittered_backoff_ms(base_ms: u64) -> (r: u64)
    ensures
        in_window(base_ms, r),
{
    let (low, high) = jitter_window(base_ms);
    if low >= high {
        return high;
    }
    random_between(low, high)
}

/// What to do after a failed attempt.
#[derive(Debug, Clone, Copy, PartialEq, Eq, Structural)]
pub enum RetryStep {
    /// The failure is permanent: stop and report it.
    Permanent,
    /// The retries are used up: stop and report the failure.
    Exhausted,
    /// Sleep, then try again.
    Retry { sleep_ms: u64 },
}

/// The retry policy of one operation.
#[derive(Debug, Clone, Copy, PartialEq, Eq, Structural)]
pub struct RetryState {
    max_retries: u32,
    failures: u64,
    backoff_ms: u64,
}

/// The backoff base after `retries` retries: doubled each time, at most [`MAX_BACKOFF_MS`].
pub open spec fn backoff_base(retries: nat) -> nat
    decreases retries,
{
    if retries == 0 {
        INITIAL_BACKOFF_MS as nat
    } else {
        let doubled = 2 * backoff_base((retries - 1) as nat);
        if doubled < MAX_BACKOFF_MS {
            doubled
        } else {
            MAX_BACKOFF_MS as nat
        }
    }
}

impl RetryState {
    /// How many retries are allowed after the first attempt.
    pub closed spec fn max(self) -> nat {
        self.max_retries as nat
    }

    /// How many attempts have failed.
    pub closed spec fn failed(self) -> nat {
        self.failures as nat
    }

    /// The base of the next sleep.
    pub closed spec fn base(self) -> u64 {
        self.backoff_ms
    }

    /// While retries are left, the base is the one of the retries made so far.
    pub open spec fn wf(self) -> bool {
        &&& self.failed() <= self.max() + 1
        &&& self.failed() <= self.max() ==> self.base() == backoff_base(self.failed())
        &&& INITIAL_BACKOFF_MS <= self.base() <= MAX_BACKOFF_MS
    }

    /// No attempt has been made yet.
    pub fn new(max_retries: u32) -> (r: Self)
        ensures
            r.wf(),
            r.max() == max_retries,
            r.failed() == 0,
            r.base() == INITIAL_BACKOFF_MS,
    {
        RetryState { max_retries, failures: 0, backoff_ms: INITIAL_BACKOFF_MS }
    }

    /// How many attempts have failed.
    pub fn attempts_failed(&self) -> (r: u64)
        ensures
            r == self.failed(),
    {
        self.failures
    }

    /// Records that an attempt failed with `err` and says what to do next.
    pub fn on_failure(&mut self, err: &ObjectStoreError) -> (r: RetryStep)
        requires
            old(self).wf(),
        ensures
            final(self).wf(),
            final(self).max() == old(self).max(),
            final(self).failed() == counted(old(self).max(), old(self).failed()),
            verdict(old(self).max(), old(self).failed(), failure::class_of(*err)) == stop_of(r),
            r matches RetryStep::Retry { sleep_ms } ==> in_window(old(self).base(), sleep_ms),
    {
        if self.failures <= self.max_retries as u64 {
            self.failures = self.failures + 1;
        }
        if !failure::is_retryable(failure::classify(err)) {
            self.step_base();
            return RetryStep::Permanent;
        }
        if self.failures > self.max_retries as u64 {
            return RetryStep::Exhausted;
        }
        let sleep_ms: u64 = jittered_backoff_ms(self.backoff_ms);
        self.step_base();
        RetryStep::Retry { sleep_ms }
    }

    /// Doubles the backoff base, up to its cap.
    fn step_base(&mut self)
        requires
            INITIAL_BACKOFF_MS <= old(self).base() <= MAX_BACKOFF_MS,
        ensures
            final(self).max() == old(self).max(),
            final(self).failed() == old(self).failed(),
            final(self).base() == (if 2 * old(self).base() < MAX_BACKOFF_MS {
                2 * old(self).base()
            } else {
                MAX_BACKOFF_MS as int
            }),
    {
        let doubled: u64 = self.backoff_ms * 2;
        self.backoff_ms = if doubled < MAX_BACKOFF_MS {
            doubled
        } else {
            MAX_BACKOFF_MS
        };
    }
}

/// The failure count after one more failure; it stays put once the retries are used up.
pub open spec fn counted(max_retries: nat, failed: nat) -> nat {
    if failed <= max_retries {
        failed + 1
    } else {
        failed
    }
}

/// Why a retried operation stops.
#[derive(Debug, Clone, Copy, PartialEq, Eq, Structural)]
pub enum Stop {
    Permanent,
    Exhausted,
}

/// Whether, and why, an operation that has failed `failed` times stops when it now fails with
/// the given kind.
pub open spec fn verdict(max_retries: nat, failed: nat, kind: FailureKind) -> Option<Stop> {
    if !failure::transient(kind) {
        Some(Stop::Permanent)
    } else if failed >= max_retries {
        Some(Stop::Exhausted)
    } else {
        None
    }
}

/// The reason to stop that a step gives.
pub open spec fn stop_of(step: RetryStep) -> Option<Stop> {
    match step {
        RetryStep::Permanent => Some(Stop::Permanent),
        RetryStep::Exhausted => Some(Stop::Exhausted),
        RetryStep::Retry { .. } => None,
    }
}

/// How many attempts are made of an operation that has failed `failed` times, when attempt
/// number `i` succeeds (`None`) or fails with a kind (`Some`) as `script[i]` says.
pub open spec fn attempts_made(
    max_retries: nat,
    failed: nat,
    script: spec_fn(nat) -> Option<FailureKind>,
) -> nat
    decreases max_retries + 1 - failed,
{
    match script(failed) {
        None => failed + 1,
        Some(kind) => if verdict(max_retries, failed, kind) is Some {
            failed + 1
        } else {
            attempts_made(max_retries, failed + 1, script)
        },
    }
}

/// An operation is attempted at least once more, and in all at most once plus the number of
/// retries allowed.
pub proof fn law_attempts_are_bounded(
    max_retries: nat,
    failed: nat,
    script: spec_fn(nat) -> Option<FailureKind>,
)
    requires
        failed <= max_retries,
    ensures
        failed < attempts_made(max_retries, failed, script) <= max_retries + 1,
    decreases max_retries + 1 - failed,
{
    if script(failed) matches Some(kind) && verdict(max_retries, failed, kind) is None {
        law_attempts_are_bounded(max_retries, failed + 1, script);
    }
}

/// Attempts go on exactly until the first one that succeeds or fails permanently: transient
/// failures before it do not stop the operation while retries are left.
pub proof fn law_first_decisive_attempt_ends_it(
    max_retries: nat,
    failed: nat,
    at: nat,
    script: spec_fn(nat) -> Option<FailureKind>,
)
    requires
        failed <= at <= max_retries,
        forall|i: nat|
            failed <= i < at ==> (#[trigger] script(i) is Some && failure::transient(
                script(i)->Some_0,
            )),
        script(at) is None || !failure::transient(script(at)->Some_0),
    ensures
        attempts_made(max_retries, failed, script) == at + 1,
    decreases at - failed,
{
    if failed < at {
        assert(script(failed) is Some);
        law_first_decisive_attempt_ends_it(max_retries, failed + 1, at, script);
    }
}

/// An operation that only ever fails transiently is attempted once plus the number of retries
/// allowed; with no retries allowed it is still attempted once.
pub proof fn law_transient_failures_use_up_the_budget(
    max_retries: nat,
    failed: nat,
    script: spec_fn(nat) -> Option<FailureKind>,
)
    requires
        failed <= max_retries,
        forall|i: nat|
            failed <= i <= max_retries ==> (#[trigger] script(i) is Some && failure::transient(
                script(i)->Some_0,
            )),
    ensures
        attempts_made(max_retries, failed, script) == max_retries + 1,
    decreases max_retries - failed,
{
    assert(script(failed) is Some);
    if failed < max_retries {
        law_transient_failures_use_up_the_budget(max_retries, failed + 1, script);
    }
}

/// The backoff base starts at its initial value, never shrinks and never exceeds its cap.
pub proof fn law_backoff_base_grows_to_its_cap(retries: nat)
    ensures
        INITIAL_BACKOFF_MS <= backoff_base(retries) <= backoff_base(retries + 1) <= MAX_BACKOFF_MS,
    decreases retries,
{
    reveal_with_fuel(backoff_base, 2);
    if retries > 0 {
        law_backoff_base_grows_to_its_cap((retries - 1) as nat);
    }
}

/// A sleep before a retry is at least the initial backoff and stays below the cap.
pub proof fn law_sleep_is_bounded(base_ms: u64, sleep_ms: u64)
    requires
        INITIAL_BACKOFF_MS <= base_ms,
        in_window(base_ms, sleep_ms),
    ensures
        INITIAL_BACKOFF_MS <= sleep_ms < MAX_BACKOFF_MS,
{
}

/// A key is found again under the prefix that it was stored with.
pub proof fn law_relative_key_inverts_full_key(prefix: Seq<char>, key: Seq<char>)
    ensures
        relative_key(prefix, prefix + key) == key,
{
    assert(prefix =~= (prefix + key).subrange(0, prefix.len() as int));
    assert((prefix + key).skip(prefix.len() as int) =~= key);
}

} // verus!
