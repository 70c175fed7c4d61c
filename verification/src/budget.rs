//! The byte budget of one backend's chunk pool, which holds uploads back when room is short.
//!
//! A seal asks for room before it writes. Without room it waits until bytes are released, or
//! gives up at its deadline. The caller does the waiting: it asks, sleeps as told, and asks
//! again.

use vstd::prelude::*;

use crate::text;

verus! {

/// Nanoseconds in one second.
pub const NANOS_PER_SEC: u128 = 1_000_000_000;

/// No room could be found within the allowed time.
#[derive(Debug, Clone, Copy, PartialEq, Eq, Structural)]
pub struct BackpressureError {
    pub pool_used_bytes: u64,
    pub pool_cap_bytes: u64,
    pub waited_secs: u64,
}

impl BackpressureError {
    /// The one-line text of this error.
    pub fn text(&self) -> (r: String)
        ensures
            r@ == "upload backpressure timed out: pool "@ + text::decimal(
                self.pool_used_bytes as nat,
            ) + "/"@ + text::decimal(self.pool_cap_bytes as nat) + " bytes, waited "@
                + text::decimal(self.waited_secs as nat) + "s"@,
    {
        let mut s = "upload backpressure timed out: pool ".to_owned();
        s.append(text::decimal_text(self.pool_used_bytes).as_str());
        s.append("/");
        s.append(text::decimal_text(self.pool_cap_bytes).as_str());
        s.append(" bytes, waited ");
        s.append(text::decimal_text(self.waited_secs).as_str());
        s.append("s");
        s
    }
}

/// The abstract budget.
pub struct BudgetView {
    /// Hard cap in bytes; zero means no cap.
    pub cap: u64,
    /// Free space that must remain on the filesystem; zero means no floor.
    pub disk_free_min: u64,
    /// Bytes reserved.
    pub used: u64,
    /// Soft watermark in percent of the cap, 1 to 100.
    pub watermark_pct: u8,
    pub backend: Seq<char>,
    pub data_dir: Seq<char>,
}

impl BudgetView {
    /// Whether `bytes` more fit under the cap.
    pub open spec fn pool_room(self, bytes: u64) -> bool {
        self.cap == 0 || self.used + bytes <= self.cap
    }

    /// Whether the filesystem has enough free space; unknown free space counts as enough.
    pub open spec fn disk_room(self, free: Option<u64>) -> bool {
        self.disk_free_min == 0 || match free {
            Some(n) => n >= self.disk_free_min,
            None => true,
        }
    }

    /// Whether a reservation of `bytes` is admitted.
    pub open spec fn admits(self, bytes: u64, free: Option<u64>) -> bool {
        self.pool_room(bytes) && self.disk_room(free)
    }

    /// Neither gate is in force.
    pub open spec fn ungated(self) -> bool {
        self.cap == 0 && self.disk_free_min == 0
    }

    /// With another number of reserved bytes.
    pub open spec fn using(self, used: int) -> BudgetView {
        BudgetView { used: used as u64, ..self }
    }

    /// After releasing `bytes`; never below zero.
    pub open spec fn releasing(self, bytes: u64) -> BudgetView {
        self.using(
            if self.used >= bytes {
                self.used - bytes
            } else {
                0
            },
        )
    }

    /// The watermark is in range.
    pub open spec fn wf(self) -> bool {
        1 <= self.watermark_pct <= 100
    }

    /// The reserved bytes reach the watermark. Never without a cap.
    pub open spec fn pressed(self) -> bool {
        self.cap != 0 && self.used * 100 >= self.watermark_pct * self.cap
    }
}

/// Whole seconds in a number of nanoseconds.
pub open spec fn whole_secs(nanos: u128) -> u64 {
    if nanos / NANOS_PER_SEC > u64::MAX {
        u64::MAX
    } else {
        (nanos / NANOS_PER_SEC) as u64
    }
}

/// A percentage forced into 1 to 100.
pub open spec fn clamped_pct(pct: u8) -> u8 {
    if pct < 1 {
        1
    } else if pct > 100 {
        100
    } else {
        pct
    }
}

/// The answer to a request for room.
#[derive(Debug, Clone, Copy, PartialEq, Eq)]
pub enum ReserveStep {
    /// The bytes are reserved. `waited` tells whether a wait is to be reported.
    Admitted { waited: bool },
    /// No room yet: wait for a release, at most this long, and ask again.
    Wait { remaining_nanos: u128 },
    /// No room, and the time is up.
    TimedOut(BackpressureError),
}

/// What a request for `bytes` is told after `elapsed` of `deadline` nanoseconds.
pub open spec fn reserve_answer(
    b: BudgetView,
    bytes: u64,
    free: Option<u64>,
    elapsed: u128,
    deadline: u128,
) -> ReserveStep {
    if b.admits(bytes, free) {
        ReserveStep::Admitted { waited: !b.ungated() && elapsed > 0 && b.backend.len() > 0 }
    } else if elapsed >= deadline {
        ReserveStep::TimedOut(
            BackpressureError {
                pool_used_bytes: b.used,
                pool_cap_bytes: b.cap,
                waited_secs: whole_secs(elapsed),
            },
        )
    } else {
        ReserveStep::Wait { remaining_nanos: (deadline - elapsed) as u128 }
    }
}

fn secs_of(nanos: u128) -> (r: u64)
    ensures
        r == whole_secs(nanos),
{
    let secs: u128 = nanos / NANOS_PER_SEC;
    if secs > u64::MAX as u128 {
        u64::MAX
    } else {
        secs as u64
    }
}

/// The budget of one backend's pool.
#[derive(Debug, Clone)]
pub struct PoolBudget {
    backend: String,
    cap_bytes: u64,
    disk_free_min_bytes: u64,
    soft_watermark_pct: u8,
    data_dir: String,
    used: u64,
}

impl View for PoolBudget {
    type V = BudgetView;

    closed spec fn view(&self) -> BudgetView {
        BudgetView {
            cap: self.cap_bytes,
            disk_free_min: self.disk_free_min_bytes,
            used: self.used,
            watermark_pct: self.soft_watermark_pct,
            backend: self.backend@,
            data_dir: self.data_dir@,
        }
    }
}

impl PoolBudget {
    /// A budget without a backend name. A cap of zero means no cap.
    pub fn new(
        data_dir: String,
        cap_bytes: u64,
        disk_free_min_bytes: u64,
        soft_watermark_pct: u8,
    ) -> (r: Self)
        ensures
            r@ == (BudgetView {
                cap: cap_bytes,
                disk_free_min: disk_free_min_bytes,
                used: 0,
                watermark_pct: clamped_pct(soft_watermark_pct),
                backend: Seq::empty(),
                data_dir: data_dir@,
            }),
            r@.wf(),
    {
        PoolBudget::with_backend(
            String::new(),
            data_dir,
            cap_bytes,
            disk_free_min_bytes,
            soft_watermark_pct,
        )
    }

    /// A budget that reports under a backend name.
    pub fn with_backend(
        backend: String,
        data_dir: String,
        cap_bytes: u64,
        disk_free_min_bytes: u64,
        soft_watermark_pct: u8,
    ) -> (r: Self)
        ensures
            r@ == (BudgetView {
                cap: cap_bytes,
                disk_free_min: disk_free_min_bytes,
                used: 0,
                watermark_pct: clamped_pct(soft_watermark_pct),
                backend: backend@,
                data_dir: data_dir@,
            }),
            r@.wf(),
    {
        let pct: u8 = if soft_watermark_pct < 1 {
            1
        } else if soft_watermark_pct > 100 {
            100
        } else {
            soft_watermark_pct
        };
        PoolBudget {
            backend,
            cap_bytes,
            disk_free_min_bytes,
            soft_watermark_pct: pct,
            data_dir,
            used: 0,
        }
    }

    /// A budget that admits everything.
    pub fn unbounded(data_dir: String) -> (r: Self)
        ensures
            r@ == (BudgetView {
                cap: 0,
                disk_free_min: 0,
                used: 0,
                watermark_pct: 80,
                backend: Seq::empty(),
                data_dir: data_dir@,
            }),
            r@.ungated(),
            r@.wf(),
    {
        PoolBudget::new(data_dir, 0, 0, 80)
    }

    /// The hard cap.
    pub fn cap_bytes(&self) -> (r: u64)
        ensures
            r == self@.cap,
    {
        self.cap_bytes
    }

    /// Replaces the hard cap. Returns whether it changed: then waiters are to be woken, and
    /// a named budget's cap is to be reported.
    pub fn set_cap_bytes(&mut self, new_cap: u64) -> (changed: bool)
        ensures
            final(self)@ == (BudgetView { cap: new_cap, ..old(self)@ }),
            changed == (old(self)@.cap != new_cap),
    {
        let changed = self.cap_bytes != new_cap;
        self.cap_bytes = new_cap;
        changed
    }

    /// The bytes reserved.
    pub fn current_bytes(&self) -> (r: u64)
        ensures
            r == self@.used,
    {
        self.used
    }

    /// The backend name, empty if there is none.
    pub fn backend(&self) -> (r: &str)
        ensures
            r@ == self@.backend,
    {
        self.backend.as_str()
    }

    /// The directory whose filesystem is watched.
    pub fn data_dir(&self) -> (r: &str)
        ensures
            r@ == self@.data_dir,
    {
        self.data_dir.as_str()
    }

    /// Whether changes of this budget are reported: only under a backend name.
    pub fn is_reported(&self) -> (r: bool)
        ensures
            r == (self@.backend.len() > 0),
    {
        !self.backend.as_str().is_empty()
    }

    /// Whether an answer depends on the filesystem's free space.
    pub fn needs_free_space(&self) -> (r: bool)
        ensures
            r == (self@.disk_free_min != 0),
    {
        self.disk_free_min_bytes != 0
    }

    /// Whether the filesystem has room, given its free space. What could not be found out does
    /// not stand in the way.
    pub fn has_disk_room(&self, free: Option<u64>) -> (r: bool)
        ensures
            r == self@.disk_room(free),
    {
        self.disk_free_min_bytes == 0 || match free {
            Some(n) => n >= self.disk_free_min_bytes,
            None => true,
        }
    }

    /// Whether the reserved bytes have reached the soft watermark.
    pub fn over_soft_watermark(&self) -> (r: bool)
        requires
            self@.wf(),
        ensures
            r == self@.pressed(),
    {
        if self.cap_bytes == 0 {
            return false;
        }
        let used: u64 = self.used;
        let pct: u8 = self.soft_watermark_pct;
        let cap: u64 = self.cap_bytes;
        assert(pct * cap <= 100 * 0xffff_ffff_ffff_ffff) by (nonlinear_arith)
            requires
                pct <= 100,
                cap <= 0xffff_ffff_ffff_ffff,
        ;
        used as u128 * 100 >= pct as u128 * cap as u128
    }

    /// Asks for `bytes`, `elapsed_nanos` after the first request, with `deadline_nanos`
    /// allowed in all. `free` is the filesystem's free space, if it could be found out.
    pub fn try_reserve(
        &mut self,
        bytes: u64,
        free: Option<u64>,
        elapsed_nanos: u128,
        deadline_nanos: u128,
    ) -> (r: ReserveStep)
        requires
            old(self)@.cap != 0 || old(self)@.used + bytes <= u64::MAX || !old(self)@.disk_room(
                free,
            ),
        ensures
            r == reserve_answer(old(self)@, bytes, free, elapsed_nanos, deadline_nanos),
            final(self)@ == (if old(self)@.admits(bytes, free) {
                old(self)@.using(old(self)@.used + bytes)
            } else {
                old(self)@
            }),
    {
        if self.cap_bytes == 0 && self.disk_free_min_bytes == 0 {
            self.used = self.used + bytes;
            return ReserveStep::Admitted { waited: false };
        }
        let pool_room = self.cap_bytes == 0 || (self.used <= self.cap_bytes && bytes
            <= self.cap_bytes - self.used);
        if pool_room && self.has_disk_room(free) {
            self.used = self.used + bytes;
            let waited = elapsed_nanos > 0 && !self.backend.as_str().is_empty();
            return ReserveStep::Admitted { waited };
        }
        if elapsed_nanos >= deadline_nanos {
            return ReserveStep::TimedOut(
                BackpressureError {
                    pool_used_bytes: self.used,
                    pool_cap_bytes: self.cap_bytes,
                    waited_secs: secs_of(elapsed_nanos),
                },
            );
        }
        ReserveStep::Wait { remaining_nanos: deadline_nanos - elapsed_nanos }
    }

    /// The error of a wait that ran out before anything was released.
    pub fn wait_timed_out(&self, deadline_nanos: u128) -> (r: BackpressureError)
        ensures
            r == (BackpressureError {
                pool_used_bytes: self@.used,
                pool_cap_bytes: self@.cap,
                waited_secs: whole_secs(deadline_nanos),
            }),
    {
        BackpressureError {
            pool_used_bytes: self.used,
            pool_cap_bytes: self.cap_bytes,
            waited_secs: secs_of(deadline_nanos),
        }
    }

    /// Reserves `bytes` past both gates.
    pub fn force_reserve(&mut self, bytes: u64)
        requires
            old(self)@.used + bytes <= u64::MAX,
        ensures
            final(self)@ == old(self)@.using(old(self)@.used + bytes),
    {
        self.used = self.used + bytes;
    }

    /// Gives `bytes` back. Waiters are to be woken.
    pub fn release(&mut self, bytes: u64)
        ensures
            final(self)@ == old(self)@.releasing(bytes),
    {
        self.used = if self.used >= bytes {
            self.used - bytes
        } else {
            0
        };
    }

    /// Replaces the reserved bytes by a recount. Waiters are to be woken.
    pub fn set_current_bytes(&mut self, total: u64)
        ensures
            final(self)@ == old(self)@.using(total as int),
    {
        self.used = total;
    }
}

/// An admitted reservation never takes a capped budget past its cap, and a refused one
/// changes nothing.
pub proof fn law_cap_is_never_exceeded(b: BudgetView, bytes: u64, free: Option<u64>)
    requires
        b.cap != 0,
        b.admits(bytes, free),
    ensures
        b.using(b.used + bytes).used <= b.cap,
        b.using(b.used + bytes).used == b.used + bytes,
{
}

/// Releasing what was reserved restores the budget, whether it was admitted or forced.
pub proof fn law_release_undoes_reserve(b: BudgetView, bytes: u64)
    requires
        b.used + bytes <= u64::MAX,
    ensures
        b.using(b.used + bytes).releasing(bytes) == b,
{
}

/// A release never takes room away: what was admitted before is admitted after.
pub proof fn law_release_only_helps(b: BudgetView, freed: u64, bytes: u64, free: Option<u64>)
    requires
        b.admits(bytes, free),
    ensures
        b.releasing(freed).admits(bytes, free),
{
}

/// Growing a cap, or lifting it, never takes room away.
pub proof fn law_growing_the_cap_only_helps(
    b: BudgetView,
    cap: u64,
    bytes: u64,
    free: Option<u64>,
)
    requires
        b.admits(bytes, free),
        b.cap != 0,
        cap == 0 || cap >= b.cap,
    ensures
        (BudgetView { cap, ..b }).admits(bytes, free),
{
}

/// Without gates every request is admitted at once.
pub proof fn law_ungated_budget_admits_everything(
    b: BudgetView,
    bytes: u64,
    free: Option<u64>,
    elapsed: u128,
    deadline: u128,
)
    requires
        b.ungated(),
    ensures
        reserve_answer(b, bytes, free, elapsed, deadline) == (ReserveStep::Admitted {
            waited: false,
        }),
{
}

/// A request is told to wait only while there is time left, and never longer than that; once
/// the time is up it is answered.
pub proof fn law_no_wait_past_the_deadline(
    b: BudgetView,
    bytes: u64,
    free: Option<u64>,
    elapsed: u128,
    deadline: u128,
)
    ensures
        reserve_answer(b, bytes, free, elapsed, deadline) matches ReserveStep::Wait {
            remaining_nanos,
        } ==> elapsed + remaining_nanos == deadline && remaining_nanos > 0,
        elapsed >= deadline ==> !(reserve_answer(b, bytes, free, elapsed, deadline) is Wait),
        reserve_answer(b, bytes, free, elapsed, deadline) is TimedOut <==> elapsed >= deadline
            && !b.admits(bytes, free),
{
}

/// Failing to read the free space never holds a request back.
pub proof fn law_unknown_free_space_does_not_gate(b: BudgetView, bytes: u64)
    ensures
        b.admits(bytes, None) == b.pool_room(bytes),
{
}

} // verus!
