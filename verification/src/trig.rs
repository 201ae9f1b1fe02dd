//! Fixed-point sine and cosine.
//!
//! The first quadrant is evaluated with the 7th-order polynomial
//! `x - x^3/6 + x^5/120 - x^7/5040`; the other quadrants fold onto it by the
//! usual symmetries. Every intermediate quotient rounds toward zero, and the
//! quadrant result is clamped into `[0, SCALE]`, so the outcome of `sine` is
//! always a valid amplitude in `[-SCALE, SCALE]`.

use vstd::prelude::*;

use crate::fixed::{lemma_div_le, lemma_mul_le, HALF_PI, PI, SCALE, TWO_PI};

verus! {

/// The quarter-wave polynomial on `[0, HALF_PI]`, clamped into `[0, SCALE]`.
pub open spec fn spec_quarter_sine(x: int) -> int
    recommends
        0 <= x <= HALF_PI as int,
{
    let s = SCALE as int;
    let x2 = (x * x) / s;
    let x3 = (x2 * x) / s;
    let x5 = (x3 * x2) / s;
    let x7 = (x5 * x2) / s;
    let v = x - x3 / 6 + x5 / 120 - x7 / 5040;
    if v < 0 {
        0
    } else if v > s {
        s
    } else {
        v
    }
}

/// Sine on the half turn `[0, PI]`, folded onto the first quadrant.
pub open spec fn spec_half_sine(x: int) -> int
    recommends
        0 <= x <= PI as int,
{
    if x <= HALF_PI as int {
        spec_quarter_sine(x)
    } else {
        spec_quarter_sine(PI as int - x)
    }
}

/// Sine on a full turn `[0, TWO_PI)`.
pub open spec fn spec_sine(x: int) -> int
    recommends
        0 <= x < TWO_PI as int,
{
    if x <= PI as int {
        spec_half_sine(x)
    } else {
        -spec_half_sine(x - PI as int)
    }
}

/// Cosine on the half turn `[0, PI]`, by the shift `cos x == sin (x + pi/2)`.
pub open spec fn spec_cosine(x: int) -> int
    recommends
        0 <= x <= PI as int,
{
    spec_sine(x + HALF_PI as int)
}

/// Quarter-wave evaluation of the sine polynomial.
pub fn quarter_sine(x: u64) -> (r: i64)
    requires
        x <= HALF_PI,
    ensures
        r == spec_quarter_sine(x as int),
        0 <= r <= SCALE,
{
    let s: u128 = SCALE as u128;
    let xw: u128 = x as u128;
    proof {
        lemma_mul_le(xw as int, HALF_PI as int, xw as int, HALF_PI as int);
        lemma_div_le(
            xw as int * xw as int,
            HALF_PI as int * HALF_PI as int,
            SCALE as int,
        );
    }
    let x2: u128 = xw * xw / s;
    proof {
        lemma_mul_le(x2 as int, (HALF_PI as int * HALF_PI as int) / SCALE as int, xw as int, HALF_PI as int);
        lemma_div_le(
            x2 as int * xw as int,
            ((HALF_PI as int * HALF_PI as int) / SCALE as int) * HALF_PI as int,
            SCALE as int,
        );
    }
    let x3: u128 = x2 * xw / s;
    proof {
        lemma_mul_le(
            x3 as int,
            (((HALF_PI as int * HALF_PI as int) / SCALE as int) * HALF_PI as int) / SCALE as int,
            x2 as int,
            (HALF_PI as int * HALF_PI as int) / SCALE as int,
        );
        lemma_div_le(
            x3 as int * x2 as int,
            ((((HALF_PI as int * HALF_PI as int) / SCALE as int) * HALF_PI as int) / SCALE as int)
                * ((HALF_PI as int * HALF_PI as int) / SCALE as int),
            SCALE as int,
        );
    }
    let x5: u128 = x3 * x2 / s;
    proof {
        lemma_mul_le(
            x5 as int,
            (((((HALF_PI as int * HALF_PI as int) / SCALE as int) * HALF_PI as int) / SCALE as int)
                * ((HALF_PI as int * HALF_PI as int) / SCALE as int)) / SCALE as int,
            x2 as int,
            (HALF_PI as int * HALF_PI as int) / SCALE as int,
        );
    }
    let x7: u128 = x5 * x2 / s;
    let t1: u128 = x3 / 6;
    let t2: u128 = x5 / 120;
    let t3: u128 = x7 / 5040;
    let v: i128 = xw as i128 - t1 as i128 + t2 as i128 - t3 as i128;
    if v < 0 {
        0
    } else if v > SCALE as i128 {
        SCALE
    } else {
        v as i64
    }
}

/// Sine on `[0, PI]`.
pub fn half_sine(x: u64) -> (r: i64)
    requires
        x <= PI,
    ensures
        r == spec_half_sine(x as int),
        0 <= r <= SCALE,
{
    if x <= HALF_PI {
        quarter_sine(x)
    } else {
        quarter_sine(PI - x)
    }
}

/// Sine of a phase in `[0, TWO_PI)`.
pub fn sine(phase: u64) -> (r: i64)
    requires
        phase < TWO_PI,
    ensures
        r == spec_sine(phase as int),
        -SCALE <= r <= SCALE,
{
    if phase <= PI {
        half_sine(phase)
    } else {
        -half_sine(phase - PI)
    }
}

/// Cosine of an angle in `[0, PI]`.
pub fn cosine(x: u64) -> (r: i64)
    requires
        x <= PI,
    ensures
        r == spec_cosine(x as int),
        -SCALE <= r <= SCALE,
{
    sine(x + HALF_PI)
}

} // verus!
