use vstd::prelude::*;

verus! {

/// Steps per world unit: every length and coordinate is stored as a
/// whole number of thousandths of a unit.
pub const UNIT: i64 = 1000;

/// Denominator of the fractions (interpolation factors, direction
/// components) that are stored as thousandths.
pub const PER_MILLE: i64 = 1000;

/// Microseconds per second.
pub const MICROS_PER_SECOND: i64 = 1_000_000;

/// The quotient of `a` by a positive `d`, rounded toward zero.
pub open spec fn trunc_div(a: int, d: int) -> int {
    if a >= 0 {
        a / d
    } else {
        -((-a) / d)
    }
}

/// `v` confined to `[lo, hi]`; `lo` wins where the bounds cross.
pub open spec fn clamp(v: int, lo: int, hi: int) -> int {
    if v < lo {
        lo
    } else if v > hi {
        hi
    } else {
        v
    }
}

/// The point a fraction `t / 1000` of the way from `a` to `b`, the
/// offset rounded toward zero.
pub open spec fn lerp(a: int, b: int, t: int) -> int {
    a + trunc_div((b - a) * t, PER_MILLE as int)
}

/// Confines a wide intermediate result to `[lo, hi]`.
pub fn clamp_to(v: i128, lo: i64, hi: i64) -> (r: i64)
    ensures
        r == clamp(v as int, lo as int, hi as int),
{
    if v < lo as i128 {
        lo
    } else if v > hi as i128 {
        hi
    } else {
        v as i64
    }
}

/// `trunc_div` never moves a value away from zero, and keeps its sign.
pub proof fn lemma_trunc_div_bounds(a: int, d: int)
    requires
        d >= 1,
    ensures
        a >= 0 ==> 0 <= trunc_div(a, d) <= a,
        a <= 0 ==> a <= trunc_div(a, d) <= 0,
{
    if a >= 0 {
        assert(0 <= a / d <= a) by (nonlinear_arith)
            requires
                a >= 0,
                d >= 1,
        ;
    } else {
        let m = -a;
        assert(0 <= m / d <= m) by (nonlinear_arith)
            requires
                m >= 0,
                d >= 1,
        ;
    }
}

} // verus!
