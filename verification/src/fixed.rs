//! Fixed-point representation shared by the whole synthesizer.
//!
//! A real number `x` is stored as the integer `x * SCALE`, rounded toward
//! zero. Angles (phases) are radians in the same representation, so one full
//! turn is `TWO_PI` units.

use vstd::prelude::*;

verus! {

/// Number of fixed-point units in 1.0.
pub const SCALE: i64 = 4294967296;

/// `2 * pi` in fixed-point units, rounded down.
pub const TWO_PI: u64 = 26986075409;

/// `pi` in fixed-point units, rounded down. `TWO_PI == 2 * PI + 1`.
pub const PI: u64 = 13493037704;

/// `pi / 2` in fixed-point units, rounded down. `PI == 2 * HALF_PI`.
pub const HALF_PI: u64 = 6746518852;

/// Clamp a value into the unit amplitude range `[-SCALE, SCALE]`.
pub open spec fn clamp_unit(v: int) -> int {
    if v < -(SCALE as int) {
        -(SCALE as int)
    } else if v > SCALE as int {
        SCALE as int
    } else {
        v
    }
}

/// Clamp a value into the range of `i64`.
pub open spec fn clamp_i64(v: int) -> int {
    if v < i64::MIN as int {
        i64::MIN as int
    } else if v > i64::MAX as int {
        i64::MAX as int
    } else {
        v
    }
}

/// Division rounding toward zero, the rule used by every fixed-point
/// quotient in this crate.
pub open spec fn div_trunc(n: int, d: int) -> int
    recommends
        d >= 1,
{
    if n >= 0 {
        n / d
    } else {
        -((-n) / d)
    }
}

/// Clamp an amplitude into `[-SCALE, SCALE]`.
pub fn clamp_unit_i64(v: i64) -> (r: i64)
    ensures
        r == clamp_unit(v as int),
{
    if v < -SCALE {
        -SCALE
    } else if v > SCALE {
        SCALE
    } else {
        v
    }
}

/// Clamp a wide intermediate value into the range of `i64`.
pub fn clamp_wide_to_i64(v: i128) -> (r: i64)
    ensures
        r == clamp_i64(v as int),
{
    if v < i64::MIN as i128 {
        i64::MIN
    } else if v > i64::MAX as i128 {
        i64::MAX
    } else {
        v as i64
    }
}

/// Signed division rounding toward zero, computed through unsigned division.
pub fn div_trunc_i128(n: i128, d: i128) -> (q: i128)
    requires
        1 <= d,
        i128::MIN < n,
    ensures
        q == div_trunc(n as int, d as int),
{
    if n >= 0 {
        let nu: u128 = n as u128;
        let du: u128 = d as u128;
        let qu: u128 = nu / du;
        assert(qu <= nu) by (nonlinear_arith)
            requires
                qu == nu / du,
                du >= 1,
        ;
        qu as i128
    } else {
        let nu: u128 = (-n) as u128;
        let du: u128 = d as u128;
        let qu: u128 = nu / du;
        assert(qu <= nu) by (nonlinear_arith)
            requires
                qu == nu / du,
                du >= 1,
        ;
        -(qu as i128)
    }
}

/// The phase step `2 * pi * frequency / sample_rate`, in fixed-point radians.
pub open spec fn spec_step(frequency: int, sample_rate: int) -> int
    recommends
        frequency >= 0,
        sample_rate >= 1,
{
    (TWO_PI as int * frequency) / (SCALE as int * sample_rate)
}

/// One phase advance: add the step, then wrap into `[0, TWO_PI)`.
pub open spec fn spec_advance(phase: int, frequency: int, sample_rate: int) -> int
    recommends
        0 <= phase < TWO_PI as int,
        frequency >= 0,
        sample_rate >= 1,
{
    (phase + spec_step(frequency, sample_rate)) % (TWO_PI as int)
}

/// A product of nonnegative values is bounded by the product of bounds.
pub proof fn lemma_mul_le(a: int, amax: int, b: int, bmax: int)
    by (nonlinear_arith)
    requires
        0 <= a,
        a <= amax,
        0 <= b,
        b <= bmax,
    ensures
        a * b <= amax * bmax,
{
}

/// A product of values bounded in magnitude is bounded in magnitude by the
/// product of the bounds.
pub proof fn lemma_mul_abs_le(a: int, amax: int, b: int, bmax: int)
    by (nonlinear_arith)
    requires
        -amax <= a,
        a <= amax,
        -bmax <= b,
        b <= bmax,
        0 <= amax,
        0 <= bmax,
    ensures
        -(amax * bmax) <= a * b,
        a * b <= amax * bmax,
{
}

/// Dividing a smaller nonnegative value by the same positive divisor gives a
/// smaller quotient.
pub proof fn lemma_div_le(x: int, y: int, d: int)
    by (nonlinear_arith)
    requires
        0 <= x,
        x <= y,
        1 <= d,
    ensures
        0 <= x / d,
        x / d <= y / d,
{
}

} // verus!
