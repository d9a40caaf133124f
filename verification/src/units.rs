//! Fixed-point distances: whole units and the sub-units between them.

use vstd::prelude::*;

verus! {

/// Number of sub-units in one whole unit of distance.
pub const UNIT: i64 = 1_000_000;

/// Half a unit, the distance at which rounding tips over.
pub const HALF_UNIT: i64 = 500_000;

/// Number of time steps in one second: time is counted in microseconds.
pub const MICROS_PER_SECOND: i64 = 1_000_000;

/// The whole number of units nearest to `total` sub-units. A distance exactly
/// halfway between two whole numbers goes to the one farther from zero.
pub open spec fn round_units(total: int) -> int {
    if total >= 0 {
        (total + HALF_UNIT) / (UNIT as int)
    } else {
        -((-total + HALF_UNIT) / (UNIT as int))
    }
}

/// What is left of `total` sub-units once the nearest whole units are taken out.
pub open spec fn residue(total: int) -> int {
    total - round_units(total) * UNIT
}

/// -1, 0 or 1 as `v` is negative, zero or positive.
pub open spec fn signum(v: int) -> int {
    if v > 0 {
        1
    } else if v < 0 {
        -1
    } else {
        0
    }
}

/// Absolute value.
pub open spec fn magnitude(v: int) -> nat {
    if v >= 0 {
        v as nat
    } else {
        (-v) as nat
    }
}

/// Rounding takes out the nearest whole units: the residue is never more than
/// half a unit, and it is exactly half a unit only towards zero. Less than
/// half a unit rounds to nothing, and nothing else does.
pub proof fn lemma_residue_bounded(total: int)
    ensures
        -HALF_UNIT <= residue(total) <= HALF_UNIT,
        residue(total) == HALF_UNIT ==> total < 0,
        residue(total) == -HALF_UNIT ==> total > 0,
        round_units(total) == 0 <==> -HALF_UNIT < total < HALF_UNIT,
        total >= 0 ==> round_units(total) >= 0,
        total <= 0 ==> round_units(total) <= 0,
{
}

/// Splits a sum of a few machine distances into its nearest whole units and
/// the residue.
pub fn split_units(total: i128) -> (r: (i64, i64))
    requires
        -0x4_0000_0000_0000_0000 <= total <= 0x4_0000_0000_0000_0000,
    ensures
        r.0 == round_units(total as int),
        r.1 == residue(total as int),
{
    if total >= 0 {
        let units: i128 = (total + 500_000) / 1_000_000;
        (units as i64, (total - units * 1_000_000) as i64)
    } else {
        let units: i128 = (500_000 - total) / 1_000_000;
        ((-units) as i64, (total + units * 1_000_000) as i64)
    }
}

/// `v` if a 64-bit machine integer holds it, else the nearest one that does.
pub open spec fn clamp_i64(v: int) -> int {
    if v < i64::MIN {
        i64::MIN as int
    } else if v > i64::MAX {
        i64::MAX as int
    } else {
        v
    }
}

/// `p` divided by a positive `q`, with the fraction dropped: the quotient
/// nearest to zero, the same in size for `p` and `-p`.
pub open spec fn quotient(p: int, q: int) -> int {
    if p >= 0 {
        p / q
    } else {
        -((-p) / q)
    }
}

/// The distance covered in `dt` microseconds at `v` sub-units a second, as far
/// as a machine integer holds it.
pub open spec fn distance_in(v: int, dt: int) -> int {
    clamp_i64(quotient(v * dt, MICROS_PER_SECOND as int))
}

/// The grid coordinate nearest to `total` sub-units, or the end of the grid
/// where that lies beyond it.
pub open spec fn settled_cell(total: int) -> int {
    if round_units(total) < i32::MIN {
        i32::MIN as int
    } else if round_units(total) > i32::MAX {
        i32::MAX as int
    } else {
        round_units(total)
    }
}

/// What is left of `total` sub-units beside `settled_cell`: the residue, or
/// nothing at the end of the grid.
pub open spec fn settled_rest(total: int) -> int {
    if i32::MIN <= round_units(total) <= i32::MAX {
        residue(total)
    } else {
        0
    }
}

/// Whether `r` is the whole part of the square root of `n`.
pub open spec fn is_root(n: int, r: int) -> bool {
    0 <= r && r * r <= n < (r + 1) * (r + 1)
}

/// The whole part of the square root of `n`.
pub open spec fn int_sqrt(n: int) -> int {
    choose|r: int| is_root(n, r)
}

/// A number has one whole root only.
pub proof fn lemma_root_is_unique(n: int, r: int, s: int)
    requires
        is_root(n, r),
        is_root(n, s),
    ensures
        r == s,
        r == int_sqrt(n),
{
    assert(r == s) by (nonlinear_arith)
        requires
            0 <= r,
            0 <= s,
            r * r <= n < (r + 1) * (r + 1),
            s * s <= n < (s + 1) * (s + 1),
    ;
    let t = int_sqrt(n);
    assert(r == t) by (nonlinear_arith)
        requires
            0 <= r,
            0 <= t,
            r * r <= n < (r + 1) * (r + 1),
            t * t <= n < (t + 1) * (t + 1),
    ;
}

/// Narrows a wide integer to 64 bits, stopping at the ends of the range.
pub fn saturate(v: i128) -> (r: i64)
    ensures
        r == clamp_i64(v as int),
{
    if v < i64::MIN as i128 {
        i64::MIN
    } else if v > i64::MAX as i128 {
        i64::MAX
    } else {
        v as i64
    }
}

/// Divides by a positive number and drops the fraction.
pub fn divide(p: i128, q: i128) -> (r: i128)
    requires
        q > 0,
        p > i128::MIN,
    ensures
        r == quotient(p as int, q as int),
{
    if p >= 0 {
        p / q
    } else {
        -((-p) / q)
    }
}

/// The distance covered in `dt` microseconds at `v` sub-units a second.
pub fn travel_in(v: i64, dt: u32) -> (d: i64)
    ensures
        d == distance_in(v as int, dt as int),
{
    assert(-0x8000_0000_0000_0000 * 0x1_0000_0000 <= v * dt <= 0x8000_0000_0000_0000
        * 0x1_0000_0000) by (nonlinear_arith)
        requires
            -0x8000_0000_0000_0000 <= v <= 0x8000_0000_0000_0000,
            0 <= dt <= 0x1_0000_0000,
    ;
    saturate(divide(v as i128 * dt as i128, 1_000_000))
}

/// Splits a distance in sub-units into a grid coordinate and the rest.
pub fn settle(total: i128) -> (r: (i32, i64))
    requires
        -0x4_0000_0000_0000_0000 <= total <= 0x4_0000_0000_0000_0000,
    ensures
        r.0 == settled_cell(total as int),
        r.1 == settled_rest(total as int),
{
    let (units, rest) = split_units(total);
    if units < i32::MIN as i64 {
        (i32::MIN, 0)
    } else if units > i32::MAX as i64 {
        (i32::MAX, 0)
    } else {
        (units as i32, rest)
    }
}

/// The whole part of the square root of `n`.
pub fn integer_sqrt(n: u128) -> (r: u64)
    requires
        n < 0x4000_0000_0000_0000_0000_0000_0000_0000,
    ensures
        is_root(n as int, r as int),
        r == int_sqrt(n as int),
{
    let mut low: u64 = 0;
    let mut high: u64 = 0x8000_0000_0000_0000;
    while high - low > 1
        invariant
            low < high <= 0x8000_0000_0000_0000,
            low * low <= n < high * high,
        decreases high - low,
    {
        let mid: u64 = low + (high - low) / 2;
        assert(mid * mid < 0x4000_0000_0000_0000_0000_0000_0000_0000) by (nonlinear_arith)
            requires
                0 <= mid < 0x8000_0000_0000_0000,
        ;
        if (mid as u128) * (mid as u128) <= n {
            low = mid;
        } else {
            high = mid;
        }
    }
    proof {
        lemma_root_is_unique(n as int, low as int, low as int);
    }
    low
}

} // verus!
