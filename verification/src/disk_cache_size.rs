//! The disk-cache size setting: a fixed number of gigabytes, or derived from free space.

use vstd::prelude::*;

use crate::text;

verus! {

/// Bytes in one gigabyte as the setting counts them.
pub const BYTES_PER_GB: u64 = 1_073_741_824;

/// The size setting.
#[derive(Debug, Clone, Copy, PartialEq, Eq, Structural)]
pub enum DiskCacheSize {
    /// Derive the cap from the filesystem's free space.
    Auto,
    /// Pin the cap to this many gigabytes.
    Explicit(u64),
}

/// The bounds of a derived cap, in gigabytes. A fixed size ignores them.
#[derive(Debug, Clone, Copy, PartialEq, Eq, Structural)]
pub struct DiskCacheBounds {
    pub min_gb: u64,
    pub max_gb: u64,
}

/// The setting as a configuration file spells it.
#[derive(Debug, Clone, PartialEq, Eq)]
pub enum SizeLiteral {
    Unsigned(u64),
    Signed(i64),
    Text(String),
}

/// Gigabytes in bytes, at most the largest representable number.
pub open spec fn gb_bytes(gb: u64) -> u64 {
    if gb * BYTES_PER_GB > u64::MAX {
        u64::MAX
    } else {
        (gb * BYTES_PER_GB) as u64
    }
}

/// The smaller bound.
pub open spec fn lower_gb(b: DiskCacheBounds) -> u64 {
    if b.min_gb <= b.max_gb {
        b.min_gb
    } else {
        b.max_gb
    }
}

/// The larger bound.
pub open spec fn upper_gb(b: DiskCacheBounds) -> u64 {
    if b.min_gb <= b.max_gb {
        b.max_gb
    } else {
        b.min_gb
    }
}

/// The equal share of half the free space; unknown free space counts as none, and no
/// sharers count as one.
pub open spec fn half_share(free: Option<u64>, sharers: u32) -> u64 {
    let free = match free {
        Some(n) => n,
        None => 0,
    };
    let n = if sharers == 0 {
        1u64
    } else {
        sharers as u64
    };
    free / 2 / n
}

/// The cap that a setting means.
pub open spec fn resolved(
    size: DiskCacheSize,
    free: Option<u64>,
    bounds: DiskCacheBounds,
    sharers: u32,
) -> u64 {
    match size {
        DiskCacheSize::Explicit(n) => gb_bytes(n),
        DiskCacheSize::Auto => {
            let share = half_share(free, sharers);
            let low = gb_bytes(lower_gb(bounds));
            let high = gb_bytes(upper_gb(bounds));
            if share < low {
                low
            } else if share > high {
                high
            } else {
                share
            }
        },
    }
}

/// What a literal means, or the message about it.
pub open spec fn literal_meaning(l: SizeLiteral) -> Result<DiskCacheSize, Seq<char>> {
    match l {
        SizeLiteral::Unsigned(n) => Ok(DiskCacheSize::Explicit(n)),
        SizeLiteral::Signed(n) => if n < 0 {
            Err("disk_cache.size_gb cannot be negative"@)
        } else {
            Ok(DiskCacheSize::Explicit(n as u64))
        },
        SizeLiteral::Text(s) => if s@ == "auto"@ {
            Ok(DiskCacheSize::Auto)
        } else {
            Err("expected unsigned integer or \"auto\", got \""@ + s@ + "\""@)
        },
    }
}

fn gb_to_bytes(gb: u64) -> (r: u64)
    ensures
        r == gb_bytes(gb),
{
    assert(gb * BYTES_PER_GB <= 0xffff_ffff_ffff_ffff * 1_073_741_824) by (nonlinear_arith)
        requires
            gb <= 0xffff_ffff_ffff_ffff,
            BYTES_PER_GB == 1_073_741_824,
    ;
    let wide: u128 = gb as u128 * BYTES_PER_GB as u128;
    if wide > u64::MAX as u128 {
        u64::MAX
    } else {
        wide as u64
    }
}

impl DiskCacheSize {
    /// The cap in bytes. `free` is what is free on the data directory's filesystem, if that
    /// could be found out; `auto_backends` is how many derived caps share it.
    pub fn resolve_bytes(
        &self,
        free: Option<u64>,
        bounds: DiskCacheBounds,
        auto_backends: u32,
    ) -> (r: u64)
        ensures
            r == resolved(*self, free, bounds, auto_backends),
    {
        let bounds = bounds.sanitize();
        match self {
            DiskCacheSize::Explicit(n) => gb_to_bytes(*n),
            DiskCacheSize::Auto => {
                let free: u64 = match free {
                    Some(n) => n,
                    None => 0,
                };
                let sharers: u64 = if auto_backends == 0 {
                    1
                } else {
                    auto_backends as u64
                };
                let share: u64 = free / 2 / sharers;
                let max_bytes: u64 = gb_to_bytes(bounds.max_gb);
                let min_bytes: u64 = gb_to_bytes(bounds.min_gb);
                assert(min_bytes <= max_bytes) by (nonlinear_arith)
                    requires
                        bounds.min_gb <= bounds.max_gb,
                        min_bytes == gb_bytes(bounds.min_gb),
                        max_bytes == gb_bytes(bounds.max_gb),
                ;
                let derived: u64 = if share < max_bytes {
                    share
                } else {
                    max_bytes
                };
                if derived > min_bytes {
                    derived
                } else {
                    min_bytes
                }
            },
        }
    }

    /// True iff the cap is derived.
    pub fn is_auto(&self) -> (r: bool)
        ensures
            r == (*self is Auto),
    {
        matches!(self, DiskCacheSize::Auto)
    }

    /// The fixed number of gigabytes, if there is one.
    pub fn explicit_gb(&self) -> (r: Option<u64>)
        ensures
            r == match *self {
                DiskCacheSize::Explicit(n) => Some(n),
                DiskCacheSize::Auto => None,
            },
    {
        match self {
            DiskCacheSize::Explicit(n) => Some(*n),
            DiskCacheSize::Auto => None,
        }
    }

    /// Reads the setting: a number that is not negative, or the word `auto`.
    pub fn parse(literal: &SizeLiteral) -> (r: Result<DiskCacheSize, String>)
        ensures
            match literal_meaning(*literal) {
                Ok(size) => r matches Ok(s) && s == size,
                Err(m) => r matches Err(t) && t@ == m,
            },
    {
        match literal {
            SizeLiteral::Unsigned(n) => Ok(DiskCacheSize::Explicit(*n)),
            SizeLiteral::Signed(n) => {
                if *n < 0 {
                    Err("disk_cache.size_gb cannot be negative".to_owned())
                } else {
                    Ok(DiskCacheSize::Explicit(*n as u64))
                }
            },
            SizeLiteral::Text(s) => {
                if text::same(s.as_str(), "auto") {
                    Ok(DiskCacheSize::Auto)
                } else {
                    let mut m = text::concat2(
                        "expected unsigned integer or \"auto\", got \"",
                        s.as_str(),
                    );
                    m.append("\"");
                    Err(m)
                }
            },
        }
    }

    /// How the setting is written: the number, or the word `auto`.
    pub fn literal(&self) -> (r: SizeLiteral)
        ensures
            *self matches DiskCacheSize::Explicit(n) ==> r == SizeLiteral::Unsigned(n),
            *self is Auto ==> (r matches SizeLiteral::Text(s) && s@ == "auto"@),
            literal_meaning(r) == Ok::<DiskCacheSize, Seq<char>>(*self),
    {
        match self {
            DiskCacheSize::Explicit(n) => SizeLiteral::Unsigned(*n),
            DiskCacheSize::Auto => SizeLiteral::Text("auto".to_owned()),
        }
    }
}

impl Default for DiskCacheSize {
    fn default() -> (r: Self)
        ensures
            r == DiskCacheSize::Auto,
    {
        DiskCacheSize::Auto
    }
}

impl DiskCacheBounds {
    /// The bounds in order.
    pub fn sanitize(self) -> (r: Self)
        ensures
            r == (DiskCacheBounds { min_gb: lower_gb(self), max_gb: upper_gb(self) }),
    {
        if self.min_gb > self.max_gb {
            DiskCacheBounds { min_gb: self.max_gb, max_gb: self.min_gb }
        } else {
            self
        }
    }
}

impl Default for DiskCacheBounds {
    /// A floor of 4 GB and a ceiling of 500 GB.
    fn default() -> (r: Self)
        ensures
            r == (DiskCacheBounds { min_gb: 4, max_gb: 500 }),
    {
        DiskCacheBounds { min_gb: 4, max_gb: 500 }
    }
}

/// A derived cap always lies within the bounds, whichever way round they are given.
pub proof fn law_derived_cap_is_bounded(free: Option<u64>, bounds: DiskCacheBounds, sharers: u32)
    ensures
        gb_bytes(lower_gb(bounds)) <= resolved(DiskCacheSize::Auto, free, bounds, sharers)
            <= gb_bytes(upper_gb(bounds)),
        resolved(DiskCacheSize::Auto, free, bounds, sharers) == resolved(
            DiskCacheSize::Auto,
            free,
            DiskCacheBounds { min_gb: bounds.max_gb, max_gb: bounds.min_gb },
            sharers,
        ),
{
    let low = lower_gb(bounds);
    let high = upper_gb(bounds);
    assert(gb_bytes(low) <= gb_bytes(high)) by (nonlinear_arith)
        requires
            low <= high,
    ;
}

/// The derived caps of all sharers together never exceed half the free space, as long as no
/// floor forces them up.
pub proof fn law_shares_fit_half_the_free_space(free: u64, bounds: DiskCacheBounds, sharers: u32)
    requires
        sharers >= 1,
        half_share(Some(free), sharers) >= gb_bytes(lower_gb(bounds)),
    ensures
        resolved(DiskCacheSize::Auto, Some(free), bounds, sharers) * sharers <= free / 2,
{
    let r = resolved(DiskCacheSize::Auto, Some(free), bounds, sharers);
    let h = half_share(Some(free), sharers);
    let half = free / 2;
    law_derived_cap_is_bounded(Some(free), bounds, sharers);
    assert(r <= h);
    assert(r * sharers <= half) by (nonlinear_arith)
        requires
            sharers >= 1,
            h == half / (sharers as u64),
            r <= h,
    ;
}

/// Nobody sharing counts as one sharer.
pub proof fn law_no_sharer_counts_as_one(free: Option<u64>, bounds: DiskCacheBounds)
    ensures
        resolved(DiskCacheSize::Auto, free, bounds, 0) == resolved(
            DiskCacheSize::Auto,
            free,
            bounds,
            1,
        ),
{
}

/// Unknown free space gives the floor.
pub proof fn law_unknown_free_space_gives_the_floor(bounds: DiskCacheBounds, sharers: u32)
    ensures
        resolved(DiskCacheSize::Auto, None, bounds, sharers) == gb_bytes(lower_gb(bounds)),
{
    law_derived_cap_is_bounded(None, bounds, sharers);
    let n: u64 = if sharers == 0 { 1 } else { sharers as u64 };
    assert(0u64 / n == 0) by (nonlinear_arith)
        requires
            n >= 1,
    ;
}

/// A fixed size ignores free space, bounds and sharers.
pub proof fn law_fixed_size_ignores_everything_else(
    n: u64,
    free: Option<u64>,
    other: Option<u64>,
    bounds: DiskCacheBounds,
    other_bounds: DiskCacheBounds,
    sharers: u32,
    other_sharers: u32,
)
    ensures
        resolved(DiskCacheSize::Explicit(n), free, bounds, sharers) == resolved(
            DiskCacheSize::Explicit(n),
            other,
            other_bounds,
            other_sharers,
        ),
{
}

/// The caps that sharers derive use up half of the free space as far as the bounds let them.
/// A cap above the floor leaves the sharers together within half the free space, and a cap
/// below the ceiling could not be a byte larger for each of them without going past it. So
/// where the bounds do not bite, `n` sharers use all of it but for a rest smaller than `n`.
pub proof fn law_sharers_use_up_half_the_free_space(
    free: u64,
    bounds: DiskCacheBounds,
    n: u32,
    cap: u64,
)
    requires
        call_ensures(DiskCacheSize::resolve_bytes, (&DiskCacheSize::Auto, Some(free), bounds, n), cap),
        n >= 1,
    ensures
        cap > bounds.min_gb * 1_073_741_824 || cap > bounds.max_gb * 1_073_741_824 ==> n * cap
            <= free / 2,
        cap < bounds.min_gb * 1_073_741_824 || cap < bounds.max_gb * 1_073_741_824 ==> free / 2 < n
            * (cap + 1),
        (cap > bounds.min_gb * 1_073_741_824 && cap < bounds.max_gb * 1_073_741_824) || (cap
            > bounds.max_gb * 1_073_741_824 && cap < bounds.min_gb * 1_073_741_824) ==> free / 2 - n
            < n * cap <= free / 2,
{
    let half: u64 = free / 2;
    let sharers: u64 = n as u64;
    let share: u64 = half / sharers;
    assert(n * share <= half < n * (share + 1)) by (nonlinear_arith)
        requires
            n >= 1,
            sharers == n,
            share == half / sharers,
    ;
    let low = bounds.min_gb * 1_073_741_824;
    let high = bounds.max_gb * 1_073_741_824;
    if cap <= share {
        assert(n * cap <= n * share) by (nonlinear_arith)
            requires
                cap <= share,
                n >= 1,
        ;
    }
    if share <= cap {
        assert(n * (share + 1) <= n * (cap + 1)) by (nonlinear_arith)
            requires
                share <= cap,
                n >= 1,
        ;
    }
    assert(n * (cap + 1) == n * cap + n) by (nonlinear_arith);
    assert(bounds.min_gb <= bounds.max_gb ==> low <= high) by (nonlinear_arith)
        requires
            low == bounds.min_gb * 1_073_741_824,
            high == bounds.max_gb * 1_073_741_824,
    ;
    assert(bounds.max_gb <= bounds.min_gb ==> high <= low) by (nonlinear_arith)
        requires
            low == bounds.min_gb * 1_073_741_824,
            high == bounds.max_gb * 1_073_741_824,
    ;
}

/// A derived cap lies between the two bounds, whichever way round they are given, as long as
/// they can be represented. It does not shrink when more space is free, nor grow when there
/// are more sharers.
pub proof fn law_derived_caps_are_ordered(
    free: u64,
    more: u64,
    bounds: DiskCacheBounds,
    n: u32,
    m: u32,
    cap: u64,
    cap_more: u64,
    cap_shared: u64,
)
    requires
        call_ensures(DiskCacheSize::resolve_bytes, (&DiskCacheSize::Auto, Some(free), bounds, n), cap),
        call_ensures(
            DiskCacheSize::resolve_bytes,
            (&DiskCacheSize::Auto, Some(more), bounds, n),
            cap_more,
        ),
        call_ensures(
            DiskCacheSize::resolve_bytes,
            (&DiskCacheSize::Auto, Some(free), bounds, m),
            cap_shared,
        ),
        free <= more,
        1 <= n <= m,
        bounds.min_gb <= 0x3_FFFF_FFFF,
        bounds.max_gb <= 0x3_FFFF_FFFF,
    ensures
        bounds.min_gb <= bounds.max_gb ==> bounds.min_gb * 1_073_741_824 <= cap <= bounds.max_gb
            * 1_073_741_824,
        bounds.max_gb <= bounds.min_gb ==> bounds.max_gb * 1_073_741_824 <= cap <= bounds.min_gb
            * 1_073_741_824,
        cap <= cap_more,
        cap_shared <= cap,
{
    let a: u64 = free / 2;
    let b: u64 = more / 2;
    let x: u64 = n as u64;
    let y: u64 = m as u64;
    assert(a / x <= b / x) by (nonlinear_arith)
        requires
            a <= b,
            x >= 1,
    ;
    assert(a / y <= a / x) by (nonlinear_arith)
        requires
            1 <= x <= y,
            a >= 0,
    ;
}

/// Where the free space is unknown the cap is the smaller bound, and nobody sharing counts as
/// one sharer. A fixed size is that many gigabytes, whatever else is given, up to the largest
/// number that can be represented.
pub proof fn law_caps_without_free_space(
    gb: u64,
    free: Option<u64>,
    bounds: DiskCacheBounds,
    n: u32,
    unknown: u64,
    alone: u64,
    none: u64,
    fixed: u64,
)
    requires
        call_ensures(DiskCacheSize::resolve_bytes, (&DiskCacheSize::Auto, None, bounds, n), unknown),
        call_ensures(DiskCacheSize::resolve_bytes, (&DiskCacheSize::Auto, free, bounds, 1), alone),
        call_ensures(DiskCacheSize::resolve_bytes, (&DiskCacheSize::Auto, free, bounds, 0), none),
        call_ensures(
            DiskCacheSize::resolve_bytes,
            (&DiskCacheSize::Explicit(gb), free, bounds, n),
            fixed,
        ),
    ensures
        bounds.min_gb <= bounds.max_gb && bounds.min_gb <= 0x3_FFFF_FFFF ==> unknown
            == bounds.min_gb * 1_073_741_824,
        bounds.max_gb <= bounds.min_gb && bounds.max_gb <= 0x3_FFFF_FFFF ==> unknown
            == bounds.max_gb * 1_073_741_824,
        none == alone,
        gb <= 0x3_FFFF_FFFF ==> fixed == gb * 1_073_741_824,
        gb > 0x3_FFFF_FFFF ==> fixed == u64::MAX,
{
    law_unknown_free_space_gives_the_floor(bounds, n);
    assert(gb > 0x3_FFFF_FFFF ==> gb * 1_073_741_824 > u64::MAX) by (nonlinear_arith);
    assert(gb <= 0x3_FFFF_FFFF ==> gb * 1_073_741_824 <= u64::MAX) by (nonlinear_arith);
}

/// A setting reads back from the way it is written. A number is a fixed size of that many
/// gigabytes unless it is negative, the word `auto` asks for a derived size, and nothing else
/// is a setting.
pub proof fn law_settings_read_back(
    size: DiskCacheSize,
    written: SizeLiteral,
    read: Result<DiskCacheSize, String>,
    literal: SizeLiteral,
    r: Result<DiskCacheSize, String>,
)
    requires
        call_ensures(DiskCacheSize::literal, (&size,), written),
        call_ensures(DiskCacheSize::parse, (&written,), read),
        call_ensures(DiskCacheSize::parse, (&literal,), r),
    ensures
        read == Ok::<DiskCacheSize, String>(size),
        literal matches SizeLiteral::Unsigned(n) ==> r == Ok::<DiskCacheSize, String>(
            DiskCacheSize::Explicit(n),
        ),
        literal matches SizeLiteral::Signed(n) ==> (r is Ok <==> n >= 0) && (r matches Ok(s)
            ==> s == DiskCacheSize::Explicit(n as u64)),
        literal matches SizeLiteral::Text(s) ==> (r is Ok <==> s@ == "auto"@) && (r matches Ok(s)
            ==> s == DiskCacheSize::Auto),
{
}

/// A setting is either derived or fixed, and the fixed number is the one given.
pub proof fn law_derived_or_fixed(size: DiskCacheSize, auto: bool, gb: Option<u64>)
    requires
        call_ensures(DiskCacheSize::is_auto, (&size,), auto),
        call_ensures(DiskCacheSize::explicit_gb, (&size,), gb),
    ensures
        auto <==> gb is None,
        auto <==> size == DiskCacheSize::Auto,
        gb matches Some(n) ==> size == DiskCacheSize::Explicit(n),
{
}

/// Bounds are put in order without changing which two they are.
pub proof fn law_bounds_are_put_in_order(bounds: DiskCacheBounds, r: DiskCacheBounds)
    requires
        call_ensures(DiskCacheBounds::sanitize, (bounds,), r),
    ensures
        r.min_gb <= r.max_gb,
        r.min_gb == bounds.min_gb && r.max_gb == bounds.max_gb || r.min_gb == bounds.max_gb
            && r.max_gb == bounds.min_gb,
{
}

} // verus!
