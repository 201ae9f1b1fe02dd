//! Bi-quadratic filter, used for low-pass and high-pass shaping.
//!
//! The filter keeps five difference-equation coefficients, derived from its
//! sample rate, cutoff frequency, quality factor and type by the standard
//! audio-EQ-cookbook formulas, together with the two most recent inputs and
//! outputs. The defining invariant is that the stored coefficients are always
//! the ones computed from the complete current parameter set: every setter
//! recomputes them eagerly, so a render call can never observe a half-applied
//! parameter change.

use vstd::prelude::*;
use vstd::arithmetic::div_mod::{
    lemma_div_is_ordered_by_denominator, lemma_multiply_divide_lt,
};

use crate::fixed::{
    clamp_i64, clamp_wide_to_i64, div_trunc, div_trunc_i128, lemma_div_le, lemma_mul_abs_le,
    lemma_mul_le, spec_step, PI, SCALE, TWO_PI,
};
use crate::trig::{cosine, half_sine, spec_cosine, spec_half_sine};

verus! {

/// Largest value the resonance term `alpha = sin(w0) / (2 * Q)` can take in
/// fixed point: `SCALE * SCALE / 2`, reached at the smallest positive `Q`.
pub const ALPHA_MAX: i128 = 9223372036854775808;

/// The filter responses this biquad supports.
#[derive(Clone, Copy, PartialEq, Eq, Structural, Debug)]
pub enum BiquadFilterTypes {
    LowPass,
    HighPass,
}

/// The five coefficients of the difference equation (plus the normalizing
/// `a0`), in fixed point.
#[derive(Clone, Copy, PartialEq, Eq, Structural, Debug)]
pub struct BiquadFilterCoefficients {
    pub a0: i128,
    pub a1: i128,
    pub a2: i128,
    pub b0: i128,
    pub b1: i128,
    pub b2: i128,
}

/// The audio-EQ-cookbook coefficient set `(a0, a1, a2, b0, b1, b2)` for the
/// given parameters, with `w0 = 2 * pi * frequency / sample_rate` and
/// `alpha = sin(w0) / (2 * Q)`.
pub open spec fn spec_coefficients(
    sample_rate: int,
    frequency: int,
    q: int,
    filter_type: BiquadFilterTypes,
) -> (int, int, int, int, int, int)
    recommends
        sample_rate >= 1,
        frequency >= 1,
        q >= 1,
        2 * frequency <= SCALE as int * sample_rate,
{
    let s = SCALE as int;
    let w0 = spec_step(frequency, sample_rate);
    let sinw = spec_half_sine(w0);
    let cosw = spec_cosine(w0);
    let alpha = (sinw * s) / (2 * q);
    let a0 = s + alpha;
    let a1 = -2 * cosw;
    let a2 = s - alpha;
    match filter_type {
        BiquadFilterTypes::LowPass => (a0, a1, a2, (s - cosw) / 2, s - cosw, (s - cosw) / 2),
        BiquadFilterTypes::HighPass => (a0, a1, a2, (s + cosw) / 2, -(s + cosw), (s + cosw) / 2),
    }
}

/// Whether a stored coefficient struct holds exactly the given mathematical
/// coefficient set.
pub open spec fn coefficients_match(
    c: BiquadFilterCoefficients,
    v: (int, int, int, int, int, int),
) -> bool {
    c.a0 as int == v.0 && c.a1 as int == v.1 && c.a2 as int == v.2 && c.b0 as int == v.3
        && c.b1 as int == v.4 && c.b2 as int == v.5
}

/// A stateful second-order recursive filter.
pub struct BiquadFilter {
    /// Fixed at construction; plain Hz.
    pub sample_rate: u32,
    pub coefficients: BiquadFilterCoefficients,
    /// Cutoff frequency in Hz, fixed point.
    pub frequency: u64,
    /// Quality factor, fixed point, always positive.
    pub q: u64,
    /// Fixed at construction.
    pub filter_type: BiquadFilterTypes,
    /// Most recent input sample.
    pub input1: i64,
    /// Input sample before `input1`.
    pub input2: i64,
    /// Most recent output sample.
    pub output1: i64,
    /// Output sample before `output1`.
    pub output2: i64,
}

/// The next output of the difference equation
/// `y = (b0*x + b1*x1 + b2*x2 - a1*y1 - a2*y2) / a0`
/// over the filter's current history, clamped into the sample range.
pub open spec fn spec_filter_output(m: BiquadFilter, x: int) -> int {
    let c = m.coefficients;
    let num = c.b0 as int * x + c.b1 as int * m.input1 as int + c.b2 as int * m.input2 as int
        - c.a1 as int * m.output1 as int - c.a2 as int * m.output2 as int;
    clamp_i64(div_trunc(num, c.a0 as int))
}

/// `w0 = 2 * pi * frequency / sample_rate` lies in `[0, pi]` whenever the
/// cutoff is at most half the sample rate.
proof fn lemma_w0_in_range(frequency: int, sample_rate: int)
    requires
        frequency >= 0,
        sample_rate >= 1,
        2 * frequency <= SCALE as int * sample_rate,
    ensures
        0 <= spec_step(frequency, sample_rate) <= PI as int,
{
    let num = TWO_PI as int * frequency;
    let den = SCALE as int * sample_rate;
    assert(num >= 0) by (nonlinear_arith)
        requires
            frequency >= 0,
            num == TWO_PI as int * frequency,
    ;
    assert(SCALE as int * sample_rate >= SCALE as int * 1) by (nonlinear_arith)
        requires
            sample_rate >= 1,
    ;
    lemma_div_le(0, num, den);
    assert(num < den * (PI as int + 1)) by (nonlinear_arith)
        requires
            0 <= frequency,
            1 <= den,
            2 * frequency <= den,
            num == (2 * PI as int + 1) * frequency,
    ;
    lemma_multiply_divide_lt(num, den, PI as int + 1);
}

/// Bounds on every entry of the coefficient set: the feed-forward
/// coefficients stay within a couple of amplitude units, `a0` is at least
/// one unit (so dividing by it is always possible), and the resonance terms
/// are bounded by `ALPHA_MAX`.
proof fn lemma_coefficient_bounds(
    sample_rate: int,
    frequency: int,
    q: int,
    filter_type: BiquadFilterTypes,
)
    requires
        sample_rate >= 1,
        frequency >= 1,
        q >= 1,
        2 * frequency <= SCALE as int * sample_rate,
    ensures
        ({
            let c = spec_coefficients(sample_rate, frequency, q, filter_type);
            SCALE as int <= c.0 <= SCALE as int + ALPHA_MAX as int
                && -2 * SCALE as int <= c.1 <= 2 * SCALE as int
                && SCALE as int - ALPHA_MAX as int <= c.2 <= SCALE as int
                && 0 <= c.3 <= SCALE as int
                && -2 * SCALE as int <= c.4 <= 2 * SCALE as int
                && 0 <= c.5 <= SCALE as int
        }),
{
    let s = SCALE as int;
    lemma_w0_in_range(frequency, sample_rate);
    let w0 = spec_step(frequency, sample_rate);
    let sinw = spec_half_sine(w0);
    let cosw = spec_cosine(w0);
    assert(0 <= sinw <= s);
    assert(-s <= cosw <= s);
    let t = sinw * s;
    lemma_mul_le(sinw, s, s, s);
    assert(t >= 0) by (nonlinear_arith)
        requires
            sinw >= 0,
            s >= 0,
            t == sinw * s,
    ;
    let alpha = t / (2 * q);
    lemma_div_is_ordered_by_denominator(t, 2, 2 * q);
    lemma_div_le(t, s * s, 2);
    lemma_div_le(0, t, 2 * q);
    assert((s * s) / 2 == ALPHA_MAX as int);
    lemma_div_le(0, s - cosw, 2);
    lemma_div_le(s - cosw, 2 * s, 2);
    lemma_div_le(0, s + cosw, 2);
    lemma_div_le(s + cosw, 2 * s, 2);
}

/// The state a completed `set_frequency` call leaves behind: the new cutoff
/// stored, everything else untouched, and the coefficients recomputed from
/// the complete new parameter set.
pub open spec fn is_set_frequency(m: BiquadFilter, frequency: u64, r: BiquadFilter) -> bool {
    r.sample_rate == m.sample_rate && r.frequency == frequency && r.q == m.q
        && r.filter_type == m.filter_type && r.input1 == m.input1 && r.input2 == m.input2
        && r.output1 == m.output1 && r.output2 == m.output2 && coefficients_match(
        r.coefficients,
        spec_coefficients(m.sample_rate as int, frequency as int, m.q as int, m.filter_type),
    )
}

/// The state a completed `set_Q` call leaves behind, in the same way.
pub open spec fn is_set_q(m: BiquadFilter, q: u64, r: BiquadFilter) -> bool {
    r.sample_rate == m.sample_rate && r.frequency == m.frequency && r.q == q
        && r.filter_type == m.filter_type && r.input1 == m.input1 && r.input2 == m.input2
        && r.output1 == m.output1 && r.output2 == m.output2 && coefficients_match(
        r.coefficients,
        spec_coefficients(m.sample_rate as int, m.frequency as int, q as int, m.filter_type),
    )
}

impl BiquadFilter {
    /// The construction-time parameter constraints: positive sample rate,
    /// quality factor and cutoff, with the cutoff at most half the sample
    /// rate so that `w0 <= pi` and `a0 > 0`.
    pub open spec fn params_valid(&self) -> bool {
        self.sample_rate >= 1 && self.frequency >= 1 && self.q >= 1 && 2 * self.frequency as int
            <= SCALE as int * self.sample_rate as int
    }

    /// A valid filter: valid parameters, and coefficients consistent with
    /// the complete current parameter set — the component's defining
    /// invariant.
    pub open spec fn wf(&self) -> bool {
        self.params_valid() && coefficients_match(
            self.coefficients,
            spec_coefficients(
                self.sample_rate as int,
                self.frequency as int,
                self.q as int,
                self.filter_type,
            ),
        )
    }

    /// Creates a filter; the two-sample input and output histories start at
    /// zero (cold-start silence).
    #[allow(non_snake_case)]
    pub fn new(sample_rate: u32, frequency: u64, Q: u64, filter_type: BiquadFilterTypes) -> (f:
        Self)
        requires
            sample_rate >= 1,
            frequency >= 1,
            Q >= 1,
            2 * frequency as int <= SCALE as int * sample_rate as int,
        ensures
            f.wf(),
            f.sample_rate == sample_rate,
            f.frequency == frequency,
            f.q == Q,
            f.filter_type == filter_type,
            f.input1 == 0,
            f.input2 == 0,
            f.output1 == 0,
            f.output2 == 0,
    {
        Self {
            sample_rate,
            frequency,
            q: Q,
            filter_type,
            coefficients: Self::calculate_coefficients(sample_rate, frequency, Q, filter_type),
            input1: 0,
            input2: 0,
            output1: 0,
            output2: 0,
        }
    }

    /// Returns the next filtered value from the current input and the stored
    /// two-sample histories, then pushes the input and the result into the
    /// histories (dropping the oldest entries).
    pub fn get_next_value(&mut self, input: i64) -> (y: i64)
        requires
            old(self).wf(),
        ensures
            final(self).wf(),
            final(self).sample_rate == old(self).sample_rate,
            final(self).frequency == old(self).frequency,
            final(self).q == old(self).q,
            final(self).filter_type == old(self).filter_type,
            final(self).coefficients == old(self).coefficients,
            final(self).input2 == old(self).input1,
            final(self).input1 == input,
            final(self).output2 == old(self).output1,
            final(self).output1 == y,
            y == spec_filter_output(*old(self), input as int),
    {
        let c = self.coefficients;
        proof {
            lemma_coefficient_bounds(
                self.sample_rate as int,
                self.frequency as int,
                self.q as int,
                self.filter_type,
            );
            let bound: int = 9223372036854775808;
            lemma_mul_abs_le(c.b0 as int, SCALE as int, input as int, bound);
            lemma_mul_abs_le(c.b1 as int, 2 * SCALE as int, self.input1 as int, bound);
            lemma_mul_abs_le(c.b2 as int, SCALE as int, self.input2 as int, bound);
            lemma_mul_abs_le(c.a1 as int, 2 * SCALE as int, self.output1 as int, bound);
            lemma_mul_abs_le(c.a2 as int, ALPHA_MAX as int, self.output2 as int, bound);
        }
        let num: i128 = c.b0 * (input as i128) + c.b1 * (self.input1 as i128) + c.b2
            * (self.input2 as i128) - c.a1 * (self.output1 as i128) - c.a2
            * (self.output2 as i128);
        let y_wide: i128 = div_trunc_i128(num, c.a0);
        let y: i64 = clamp_wide_to_i64(y_wide);
        self.input2 = self.input1;
        self.input1 = input;
        self.output2 = self.output1;
        self.output1 = y;
        y
    }

    /// Replaces the cutoff frequency and eagerly recomputes the
    /// coefficients, so they are never stale when the next render call
    /// arrives.
    pub fn set_frequency(&mut self, frequency: u64)
        requires
            old(self).wf(),
            frequency >= 1,
            2 * frequency as int <= SCALE as int * old(self).sample_rate as int,
        ensures
            final(self).wf(),
            is_set_frequency(*old(self), frequency, *final(self)),
    {
        self.frequency = frequency;
        self.update_coefficients();
    }

    /// The current cutoff frequency.
    pub fn get_frequency(&self) -> (f: u64)
        ensures
            f == self.frequency,
    {
        self.frequency
    }

    /// Replaces the quality factor and eagerly recomputes the coefficients.
    #[allow(non_snake_case)]
    pub fn set_Q(&mut self, Q: u64)
        requires
            old(self).wf(),
            Q >= 1,
        ensures
            final(self).wf(),
            is_set_q(*old(self), Q, *final(self)),
    {
        self.q = Q;
        self.update_coefficients();
    }

    /// The current quality factor.
    #[allow(non_snake_case)]
    pub fn get_Q(&self) -> (q: u64)
        ensures
            q == self.q,
    {
        self.q
    }

    /// Recomputes the coefficients from the current parameters.
    fn update_coefficients(&mut self)
        requires
            old(self).params_valid(),
        ensures
            final(self).wf(),
            final(self).sample_rate == old(self).sample_rate,
            final(self).frequency == old(self).frequency,
            final(self).q == old(self).q,
            final(self).filter_type == old(self).filter_type,
            final(self).input1 == old(self).input1,
            final(self).input2 == old(self).input2,
            final(self).output1 == old(self).output1,
            final(self).output2 == old(self).output2,
    {
        self.coefficients = Self::calculate_coefficients(
            self.sample_rate,
            self.frequency,
            self.q,
            self.filter_type,
        );
    }

    /// Computes the audio-EQ-cookbook coefficient set for the given
    /// parameters.
    #[allow(non_snake_case)]
    fn calculate_coefficients(
        sample_rate: u32,
        frequency: u64,
        Q: u64,
        filter_type: BiquadFilterTypes,
    ) -> (c: BiquadFilterCoefficients)
        requires
            sample_rate >= 1,
            frequency >= 1,
            Q >= 1,
            2 * frequency as int <= SCALE as int * sample_rate as int,
        ensures
            coefficients_match(
                c,
                spec_coefficients(
                    sample_rate as int,
                    frequency as int,
                    Q as int,
                    filter_type,
                ),
            ),
    {
        proof {
            lemma_mul_le(TWO_PI as int, TWO_PI as int, frequency as int, u64::MAX as int);
            lemma_mul_le(SCALE as int, SCALE as int, sample_rate as int, u32::MAX as int);
            lemma_w0_in_range(frequency as int, sample_rate as int);
        }
        let num: u128 = TWO_PI as u128 * frequency as u128;
        let den: u128 = SCALE as u128 * sample_rate as u128;
        let w0: u64 = (num / den) as u64;
        let sinw: i64 = half_sine(w0);
        let cosw: i64 = cosine(w0);
        proof {
            lemma_mul_le(sinw as int, SCALE as int, SCALE as int, SCALE as int);
            lemma_div_is_ordered_by_denominator(
                sinw as int * SCALE as int,
                2,
                2 * Q as int,
            );
            lemma_div_le(sinw as int * SCALE as int, SCALE as int * SCALE as int, 2);
            lemma_div_le(0, sinw as int * SCALE as int, 2 * Q as int);
        }
        let alpha: i128 = ((sinw as u128 * SCALE as u128) / (2 * Q as u128)) as i128;
        let s: i128 = SCALE as i128;
        let cw: i128 = cosw as i128;
        let a0: i128 = s + alpha;
        let a1: i128 = -(cw + cw);
        let a2: i128 = s - alpha;
        match filter_type {
            BiquadFilterTypes::LowPass => {
                let d: i128 = s - cw;
                let half: i128 = ((d as u128) / 2) as i128;
                proof {
                    lemma_div_le(d as int, 2 * SCALE as int, 2);
                    lemma_div_le(0, d as int, 2);
                }
                BiquadFilterCoefficients { a0, a1, a2, b0: half, b1: d, b2: half }
            },
            BiquadFilterTypes::HighPass => {
                let e: i128 = s + cw;
                let half: i128 = ((e as u128) / 2) as i128;
                proof {
                    lemma_div_le(e as int, 2 * SCALE as int, 2);
                    lemma_div_le(0, e as int, 2);
                }
                BiquadFilterCoefficients { a0, a1, a2, b0: half, b1: -e, b2: half }
            },
        }
    }
}

/// Coefficient recomputation is idempotent: two coefficient structs computed
/// from the same complete parameter set are identical, so calling
/// `set_frequency` twice with the same value leaves exactly the state one
/// call leaves.
pub proof fn lemma_set_frequency_idempotent(
    m: BiquadFilter,
    once: BiquadFilter,
    twice: BiquadFilter,
    frequency: u64,
)
    requires
        is_set_frequency(m, frequency, once),
        is_set_frequency(once, frequency, twice),
    ensures
        twice == once,
{
    assert(twice.coefficients == once.coefficients);
}

/// All-or-nothing coefficient visibility: any two valid filters holding the
/// same complete parameter set hold the identical coefficient set, whatever
/// history of interleaved parameter changes and render calls produced them.
/// A render call under the shared lock therefore reads exactly one complete
/// coefficient set, never a mixture of two.
pub proof fn lemma_coefficients_not_torn(x: BiquadFilter, y: BiquadFilter)
    requires
        x.wf(),
        y.wf(),
        x.sample_rate == y.sample_rate,
        x.frequency == y.frequency,
        x.q == y.q,
        x.filter_type == y.filter_type,
    ensures
        x.coefficients == y.coefficients,
{
}

} // verus!
