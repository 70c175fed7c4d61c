//! Laws of the byte budget, from how a budget is made to what it answers.

use vstd::prelude::*;

use crate::budget::{BackpressureError, PoolBudget, ReserveStep};

verus! {

/// Pressure is signalled exactly from the configured share of the cap on. The percentage is
/// the one that the budget was made with, forced into 1 to 100; without a cap there is no
/// pressure.
pub proof fn law_pressure_starts_at_the_configured_share(
    dir: String,
    cap: u64,
    floor: u64,
    pct: u8,
    made: PoolBudget,
    b: &mut PoolBudget,
    used: u64,
    pressed: bool,
)
    requires
        call_ensures(PoolBudget::new, (dir, cap, floor, pct), made),
        *old(b) == made,
        call_ensures(PoolBudget::set_current_bytes, (b, used), ()),
        call_ensures(PoolBudget::over_soft_watermark, (&*final(b),), pressed),
    ensures
        cap == 0 ==> !pressed,
        cap > 0 && 1 <= pct <= 100 ==> (pressed <==> 100 * used >= pct * cap),
        cap > 0 && pct == 0 ==> (pressed <==> 100 * used >= cap),
        cap > 0 && pct > 100 ==> (pressed <==> used >= cap),
{
    let share = final(b)@.watermark_pct;
    assert(share == 1 ==> share * cap == cap) by (nonlinear_arith);
    assert(share == 100 ==> share * cap == 100 * cap) by (nonlinear_arith);
}

/// Two budgets of one cap that differ in their percentages disagree about every usage between
/// the two shares: the stricter one is under pressure, the other is not.
pub proof fn law_stricter_watermarks_press_earlier(
    dir: String,
    cap: u64,
    floor: u64,
    p: u8,
    q: u8,
    made_p: PoolBudget,
    made_q: PoolBudget,
    a: &mut PoolBudget,
    b: &mut PoolBudget,
    used: u64,
    pressed_p: bool,
    pressed_q: bool,
)
    requires
        1 <= q < p <= 100,
        cap > 0,
        q * cap <= 100 * used < p * cap,
        call_ensures(PoolBudget::new, (dir, cap, floor, p), made_p),
        *old(a) == made_p,
        call_ensures(PoolBudget::set_current_bytes, (a, used), ()),
        call_ensures(PoolBudget::over_soft_watermark, (&*final(a),), pressed_p),
        call_ensures(PoolBudget::new, (dir, cap, floor, q), made_q),
        *old(b) == made_q,
        call_ensures(PoolBudget::set_current_bytes, (b, used), ()),
        call_ensures(PoolBudget::over_soft_watermark, (&*final(b),), pressed_q),
    ensures
        pressed_q,
        !pressed_p,
{
}

/// A budget starts with nothing reserved and reports what it was made with.
pub proof fn law_fresh_budget(
    name: String,
    dir: String,
    cap: u64,
    floor: u64,
    pct: u8,
    made: PoolBudget,
    cap_read: u64,
    used_read: u64,
    name_read: &str,
    dir_read: &str,
    reported: bool,
    needs_free: bool,
)
    requires
        call_ensures(PoolBudget::with_backend, (name, dir, cap, floor, pct), made),
        call_ensures(PoolBudget::cap_bytes, (&made,), cap_read),
        call_ensures(PoolBudget::current_bytes, (&made,), used_read),
        call_ensures(PoolBudget::backend, (&made,), name_read),
        call_ensures(PoolBudget::data_dir, (&made,), dir_read),
        call_ensures(PoolBudget::is_reported, (&made,), reported),
        call_ensures(PoolBudget::needs_free_space, (&made,), needs_free),
    ensures
        cap_read == cap,
        used_read == 0,
        name_read@ == name@,
        dir_read@ == dir@,
        reported <==> name@.len() > 0,
        needs_free <==> floor > 0,
{
}

/// A budget without a name is one whose name is empty, and an unbounded budget is one without
/// a cap and without a floor.
pub proof fn law_unnamed_and_unbounded_budgets(
    dir: String,
    cap: u64,
    floor: u64,
    pct: u8,
    unnamed: PoolBudget,
    unbounded: PoolBudget,
    name: &str,
    cap_read: u64,
    open_cap: u64,
    open_used: u64,
    open_needs_free: bool,
)
    requires
        call_ensures(PoolBudget::new, (dir, cap, floor, pct), unnamed),
        call_ensures(PoolBudget::unbounded, (dir,), unbounded),
        call_ensures(PoolBudget::backend, (&unnamed,), name),
        call_ensures(PoolBudget::cap_bytes, (&unnamed,), cap_read),
        call_ensures(PoolBudget::cap_bytes, (&unbounded,), open_cap),
        call_ensures(PoolBudget::current_bytes, (&unbounded,), open_used),
        call_ensures(PoolBudget::needs_free_space, (&unbounded,), open_needs_free),
    ensures
        name@.len() == 0,
        cap_read == cap,
        open_cap == 0,
        open_used == 0,
        !open_needs_free,
{
}

/// A request is admitted exactly if the bytes fit under the cap and the filesystem keeps its
/// floor: a cap or a floor of zero is none, and free space that is not known counts as enough.
/// A request that is not admitted waits for as long as its deadline leaves, and is told that
/// it timed out once nothing is left; it then learns the usage, the cap and the whole seconds
/// it waited.
pub proof fn law_requests_are_admitted_exactly_if_they_fit(
    name: String,
    dir: String,
    cap: u64,
    floor: u64,
    pct: u8,
    made: PoolBudget,
    a: &mut PoolBudget,
    used: u64,
    b: &mut PoolBudget,
    bytes: u64,
    free: Option<u64>,
    elapsed: u128,
    deadline: u128,
    r: ReserveStep,
)
    requires
        call_ensures(PoolBudget::with_backend, (name, dir, cap, floor, pct), made),
        *old(a) == made,
        call_ensures(PoolBudget::set_current_bytes, (a, used), ()),
        *old(b) == *final(a),
        call_ensures(PoolBudget::try_reserve, (b, bytes, free, elapsed, deadline), r),
    ensures
        r is Admitted <==> (cap == 0 || used + bytes <= cap) && (floor == 0 || (free matches Some(n)
            ==> n >= floor)),
        r matches ReserveStep::Admitted { waited } ==> (waited <==> elapsed > 0 && name@.len() > 0
            && (cap > 0 || floor > 0)),
        r is Wait <==> !(r is Admitted) && elapsed < deadline,
        r matches ReserveStep::Wait { remaining_nanos } ==> elapsed + remaining_nanos == deadline,
        r matches ReserveStep::TimedOut(e) ==> {
            &&& e.pool_used_bytes == used
            &&& e.pool_cap_bytes == cap
            &&& elapsed < 1_000_000_000 * 0xFFFF_FFFF_FFFF_FFFF ==> e.waited_secs * 1_000_000_000
                <= elapsed < (e.waited_secs + 1) * 1_000_000_000
        },
{
    if let ReserveStep::TimedOut(e) = r {
        assert(elapsed < 1_000_000_000 * 0xFFFF_FFFF_FFFF_FFFF ==> elapsed / 1_000_000_000
            <= u64::MAX);
    }
}

/// An admitted request adds its bytes to the usage and nothing else changes; a request that is
/// not admitted changes nothing. So a budget with a cap is never taken past it.
pub proof fn law_only_admitted_bytes_count(
    b: &mut PoolBudget,
    bytes: u64,
    free: Option<u64>,
    elapsed: u128,
    deadline: u128,
    r: ReserveStep,
    used_before: u64,
    used_after: u64,
    cap_before: u64,
    cap_after: u64,
)
    requires
        old(b)@.cap != 0 || old(b)@.used + bytes <= u64::MAX,
        call_ensures(PoolBudget::try_reserve, (b, bytes, free, elapsed, deadline), r),
        call_ensures(PoolBudget::current_bytes, (&*old(b),), used_before),
        call_ensures(PoolBudget::current_bytes, (&*final(b),), used_after),
        call_ensures(PoolBudget::cap_bytes, (&*old(b),), cap_before),
        call_ensures(PoolBudget::cap_bytes, (&*final(b),), cap_after),
    ensures
        r is Admitted ==> used_after == used_before + bytes,
        r is Admitted && cap_before > 0 ==> used_after <= cap_before,
        !(r is Admitted) ==> final(b)@ == old(b)@,
        cap_after == cap_before,
{
}

/// Bytes that are given back are taken off the usage, which never goes below nothing; bytes
/// reserved by force are added whatever the cap; a recount replaces the usage.
pub proof fn law_usage_follows_releases(
    a: &mut PoolBudget,
    b: &mut PoolBudget,
    c: &mut PoolBudget,
    bytes: u64,
    before: u64,
    released: u64,
    forced: u64,
    recounted: u64,
)
    requires
        *old(a) == *old(b),
        *old(a) == *old(c),
        call_ensures(PoolBudget::current_bytes, (&*old(a),), before),
        call_ensures(PoolBudget::release, (a, bytes), ()),
        call_ensures(PoolBudget::current_bytes, (&*final(a),), released),
        before + bytes <= u64::MAX,
        call_ensures(PoolBudget::force_reserve, (b, bytes), ()),
        call_ensures(PoolBudget::current_bytes, (&*final(b),), forced),
        call_ensures(PoolBudget::set_current_bytes, (c, bytes), ()),
        call_ensures(PoolBudget::current_bytes, (&*final(c),), recounted),
    ensures
        before >= bytes ==> released + bytes == before,
        before <= bytes ==> released == 0,
        forced == before + bytes,
        recounted == bytes,
{
}

/// What was reserved by force and is given back leaves the budget as it was.
pub proof fn law_release_undoes_a_forced_reservation(
    a: &mut PoolBudget,
    b: &mut PoolBudget,
    bytes: u64,
)
    requires
        old(a)@.used + bytes <= u64::MAX,
        call_ensures(PoolBudget::force_reserve, (a, bytes), ()),
        *old(b) == *final(a),
        call_ensures(PoolBudget::release, (b, bytes), ()),
    ensures
        final(b)@ == old(a)@,
{
}

/// A new cap takes effect at once, is reported as a change exactly if it is another, and leaves
/// the usage alone.
pub proof fn law_a_new_cap_takes_effect(
    b: &mut PoolBudget,
    new_cap: u64,
    changed: bool,
    cap_before: u64,
    cap_after: u64,
    used_before: u64,
    used_after: u64,
)
    requires
        call_ensures(PoolBudget::set_cap_bytes, (b, new_cap), changed),
        call_ensures(PoolBudget::cap_bytes, (&*old(b),), cap_before),
        call_ensures(PoolBudget::cap_bytes, (&*final(b),), cap_after),
        call_ensures(PoolBudget::current_bytes, (&*old(b),), used_before),
        call_ensures(PoolBudget::current_bytes, (&*final(b),), used_after),
    ensures
        cap_after == new_cap,
        changed <==> cap_before != new_cap,
        used_after == used_before,
{
}

/// The filesystem has room unless its free space is known and below the floor.
pub proof fn law_disk_room(
    dir: String,
    cap: u64,
    floor: u64,
    pct: u8,
    made: PoolBudget,
    free: Option<u64>,
    room: bool,
)
    requires
        call_ensures(PoolBudget::new, (dir, cap, floor, pct), made),
        call_ensures(PoolBudget::has_disk_room, (&made, free), room),
    ensures
        !room <==> (free matches Some(n) && n < floor),
{
}

/// A wait that ran out reports the usage, the cap and the whole seconds allowed.
pub proof fn law_timeout_report(
    b: PoolBudget,
    deadline: u128,
    e: BackpressureError,
    used: u64,
    cap: u64,
)
    requires
        call_ensures(PoolBudget::wait_timed_out, (&b, deadline), e),
        call_ensures(PoolBudget::current_bytes, (&b,), used),
        call_ensures(PoolBudget::cap_bytes, (&b,), cap),
        deadline < 1_000_000_000 * 0xFFFF_FFFF_FFFF_FFFF,
    ensures
        e.pool_used_bytes == used,
        e.pool_cap_bytes == cap,
        e.waited_secs * 1_000_000_000 <= deadline < (e.waited_secs + 1) * 1_000_000_000,
{
    assert(deadline / 1_000_000_000 <= u64::MAX);
}

} // verus!
