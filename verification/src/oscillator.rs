//! Periodic signal generators.
//!
//! An oscillator owns a waveform shape, a frequency (Hz, fixed point) and a
//! phase (radians in `[0, TWO_PI)`, fixed point). Each `get_value` call first
//! advances the phase by `2 * pi * frequency / sample_rate` — wrapping, never
//! resetting, so the phase stays continuous across frequency changes — and
//! then maps the new phase to an amplitude in `[-SCALE, SCALE]`.

use vstd::prelude::*;
use vstd::arithmetic::div_mod::{
    lemma_add_mod_noop_right, lemma_div_multiples_vanish_quotient, lemma_fundamental_div_mod,
    lemma_mod_division_less_than_divisor, lemma_mod_self_0, lemma_small_mod,
};

use crate::fixed::{
    clamp_unit, clamp_unit_i64, lemma_div_le, lemma_mul_le, spec_advance, spec_step, PI, SCALE,
    TWO_PI,
};
use crate::trig::{sine, spec_sine};

verus! {

/// The waveform shapes an oscillator can produce.
#[derive(Clone, Copy, PartialEq, Eq, Structural, Debug)]
pub enum Types {
    Sine,
    Square,
    Sawtooth,
    Triangle,
    Random,
}

/// A stateful periodic signal generator.
pub struct Oscillator {
    pub shape: Types,
    /// Frequency in Hz, fixed point, always positive.
    pub frequency: u64,
    /// Phase in radians, fixed point, always in `[0, TWO_PI)`.
    pub phase: u64,
}

/// The amplitude a deterministic shape produces at a given phase, already
/// clamped into `[-SCALE, SCALE]` as `get_value` clamps every sample.
pub open spec fn spec_waveform(shape: Types, phase: int) -> int
    recommends
        0 <= phase < TWO_PI as int,
        shape != Types::Random,
{
    let s = SCALE as int;
    clamp_unit(
        match shape {
            Types::Sine => spec_sine(phase),
            Types::Square => if phase < PI as int { s } else { -s },
            Types::Sawtooth => s - (phase * s) / (PI as int),
            Types::Triangle => if phase < PI as int {
                -s + 2 * ((phase * s) / (PI as int))
            } else {
                3 * s - 2 * ((phase * s) / (PI as int))
            },
            Types::Random => 0,
        },
    )
}

/// One step of the exponential frequency glide: move a fraction
/// `exp / 1000` (of fixed point 1.0) of the distance toward the target.
pub open spec fn spec_exp_glide(frequency: int, target: int, exp: int) -> int
    recommends
        frequency >= 1,
        target >= 1,
        0 <= exp <= 1000 * SCALE as int,
{
    let k = exp / 1000;
    (frequency * (SCALE as int - k) + target * k) / SCALE as int
}

/// The phase reached after `k` successive advances at a fixed frequency and
/// sample rate.
pub open spec fn spec_phase_after(k: nat, phase: int, frequency: int, sample_rate: int) -> int
    decreases k,
{
    if k == 0 {
        phase
    } else {
        spec_advance(
            spec_phase_after((k - 1) as nat, phase, frequency, sample_rate),
            frequency,
            sample_rate,
        )
    }
}

/// The step `2 * pi * frequency / sample_rate` is nonnegative.
proof fn lemma_step_nonneg(frequency: int, sample_rate: int)
    requires
        frequency >= 0,
        sample_rate >= 1,
    ensures
        spec_step(frequency, sample_rate) >= 0,
{
    assert(TWO_PI as int * frequency >= 0) by (nonlinear_arith)
        requires
            frequency >= 0,
    ;
    assert(SCALE as int * sample_rate >= SCALE as int) by (nonlinear_arith)
        requires
            sample_rate >= 1,
    ;
    lemma_div_le(0, TWO_PI as int * frequency, SCALE as int * sample_rate);
}

/// Wrap invariant: starting from any phase in `[0, TWO_PI)`, any number of
/// advances at any positive frequency and sample rate leaves the phase in
/// `[0, TWO_PI)`.
pub proof fn lemma_phase_wrap_invariant(k: nat, phase: int, frequency: int, sample_rate: int)
    requires
        0 <= phase < TWO_PI as int,
        frequency >= 1,
        sample_rate >= 1,
    ensures
        0 <= spec_phase_after(k, phase, frequency, sample_rate) < TWO_PI as int,
    decreases k,
{
    if k > 0 {
        lemma_phase_wrap_invariant((k - 1) as nat, phase, frequency, sample_rate);
        let prev = spec_phase_after((k - 1) as nat, phase, frequency, sample_rate);
        lemma_step_nonneg(frequency, sample_rate);
        lemma_mod_division_less_than_divisor(
            prev + spec_step(frequency, sample_rate),
            TWO_PI as int,
        );
    }
}

/// Periodicity in closed form: after `k` advances from `p0` the phase is
/// exactly `(p0 + k * step) % TWO_PI`. With `k` calls spanning one period —
/// `k * step` close to `TWO_PI` — the phase returns near its start.
pub proof fn lemma_phase_after_calls(k: nat, phase: int, frequency: int, sample_rate: int)
    requires
        0 <= phase < TWO_PI as int,
        frequency >= 1,
        sample_rate >= 1,
    ensures
        spec_phase_after(k, phase, frequency, sample_rate) == (phase + k * spec_step(
            frequency,
            sample_rate,
        )) % (TWO_PI as int),
    decreases k,
{
    let s = spec_step(frequency, sample_rate);
    if k == 0 {
        assert(k * s == 0);
        lemma_small_mod(phase as nat, TWO_PI as nat);
    } else {
        lemma_phase_after_calls((k - 1) as nat, phase, frequency, sample_rate);
        lemma_add_mod_noop_right(phase + (k - 1) as int * s, s, TWO_PI as int);
        assert(phase + (k - 1) as int * s + s == phase + k * s) by (nonlinear_arith);
    }
}

/// Periodicity: at a frequency of `f` Hz and a sample rate that is the
/// exact multiple `n * f`, the `n` advances spanning one waveform period
/// take the phase from 0 to within `n` fixed-point units below a full turn
/// (or exactly back to 0) — it returns to its starting value within that
/// tolerance, which is below `n * 2^-32` radians.
pub proof fn lemma_periodic_return(f: int, sample_rate: int, n: int)
    requires
        f >= 1,
        n >= 1,
        sample_rate == n * f,
    ensures
        ({
            let p = spec_phase_after(n as nat, 0, f * SCALE as int, sample_rate);
            p == 0 || TWO_PI as int - n < p < TWO_PI as int
        }),
{
    let s = SCALE as int;
    let t = TWO_PI as int;
    let ffp = f * s;
    let r = sample_rate;
    assert(r >= 1) by (nonlinear_arith)
        requires
            n >= 1,
            f >= 1,
            r == n * f,
    ;
    assert(ffp >= s) by (nonlinear_arith)
        requires
            f >= 1,
            ffp == f * s,
            s >= 1,
    ;
    lemma_phase_after_calls(n as nat, 0, ffp, r);
    let step = spec_step(ffp, r);
    assert(t * f >= 0) by (nonlinear_arith)
        requires
            f >= 1,
            t >= 0,
    ;
    assert(t * ffp == s * (t * f)) by (nonlinear_arith)
        requires
            ffp == f * s,
    ;
    lemma_div_multiples_vanish_quotient(s, t * f, r);
    assert(step == (t * f) / r);
    lemma_step_nonneg(ffp, r);
    lemma_fundamental_div_mod(t * f, r);
    let rem = (t * f) % r;
    lemma_mod_division_less_than_divisor(t * f, r);
    assert(t * r == n * r * step + n * rem) by (nonlinear_arith)
        requires
            t * f == r * ((t * f) / r) + rem,
            step == (t * f) / r,
            r == n * f,
    ;
    assert(0 <= n * rem) by (nonlinear_arith)
        requires
            n >= 1,
            rem >= 0,
    ;
    assert(n * rem < n * r) by (nonlinear_arith)
        requires
            n >= 1,
            rem < r,
    ;
    assert(n * step <= t) by (nonlinear_arith)
        requires
            t * r == n * r * step + n * rem,
            n * rem >= 0,
            r >= 1,
    ;
    assert(t - n * step < n) by (nonlinear_arith)
        requires
            t * r == n * r * step + n * rem,
            n * rem < n * r,
            r >= 1,
    ;
    assert(n * step >= 0) by (nonlinear_arith)
        requires
            n >= 1,
            step >= 0,
    ;
    if n * step == t {
        lemma_mod_self_0(t);
    } else {
        lemma_small_mod((n * step) as nat, t as nat);
    }
}

/// The square wave is exactly full-scale positive for phases in `[0, PI)`
/// and exactly full-scale negative for phases in `[PI, TWO_PI)`; the clamp
/// never alters it.
pub proof fn lemma_square_wave(phase: int)
    requires
        0 <= phase < TWO_PI as int,
    ensures
        phase < PI as int ==> spec_waveform(Types::Square, phase) == SCALE as int,
        phase >= PI as int ==> spec_waveform(Types::Square, phase) == -(SCALE as int),
{
}

/// Relies on `rand::random_range`: a sample drawn uniformly from the given
/// range, here the fixed-point amplitude span for `[-1.0, 1.0]`.
#[verifier::external_body]
fn random_unit_sample() -> (r: i64)
    ensures
        -SCALE <= r <= SCALE,
{
    rand::random_range(-SCALE..=SCALE)
}

/// The linear ramp `phase / pi` scaled to fixed point, shared by the
/// sawtooth and triangle shapes.
fn phase_ramp(phase: u64) -> (q: u64)
    requires
        phase < TWO_PI,
    ensures
        q == (phase as int * SCALE as int) / (PI as int),
        q <= 2 * SCALE,
{
    proof {
        lemma_mul_le(phase as int, 2 * PI as int, SCALE as int, SCALE as int);
        lemma_div_le(
            phase as int * SCALE as int,
            (2 * PI as int) * SCALE as int,
            PI as int,
        );
        assert(((2 * PI as int) * SCALE as int) / (PI as int) == 2 * SCALE as int)
            by (nonlinear_arith);
    }
    let num: u128 = phase as u128 * SCALE as u128;
    let q: u128 = num / (PI as u128);
    q as u64
}

impl Oscillator {
    /// A valid oscillator: phase inside one turn, frequency positive.
    pub open spec fn wf(&self) -> bool {
        self.phase < TWO_PI && self.frequency >= 1
    }

    /// Creates an oscillator with the given frequency and shape; the phase
    /// starts at zero.
    pub fn new(frequency: u64, shape: Types) -> (o: Self)
        requires
            frequency >= 1,
        ensures
            o.wf(),
            o.shape == shape,
            o.frequency == frequency,
            o.phase == 0,
    {
        Self { shape, frequency, phase: 0 }
    }

    /// Advances the phase by one step and returns the new phase, in
    /// `[0, TWO_PI)`.
    fn update(&mut self, sample_rate: u32) -> (p: u64)
        requires
            old(self).wf(),
            sample_rate >= 1,
        ensures
            final(self).shape == old(self).shape,
            final(self).frequency == old(self).frequency,
            final(self).phase == spec_advance(
                old(self).phase as int,
                old(self).frequency as int,
                sample_rate as int,
            ),
            final(self).wf(),
            p == final(self).phase,
    {
        proof {
            lemma_mul_le(TWO_PI as int, TWO_PI as int, self.frequency as int, u64::MAX as int);
            lemma_mul_le(SCALE as int, SCALE as int, sample_rate as int, u32::MAX as int);
            assert(SCALE as int * sample_rate as int >= SCALE as int) by (nonlinear_arith)
                requires
                    sample_rate >= 1,
            ;
        }
        let num: u128 = TWO_PI as u128 * self.frequency as u128;
        let den: u128 = SCALE as u128 * sample_rate as u128;
        let step: u128 = num / den;
        proof {
            lemma_div_le(num as int, TWO_PI as int * u64::MAX as int, den as int);
        }
        let ph: u128 = (self.phase as u128 + step) % (TWO_PI as u128);
        self.phase = ph as u64;
        self.phase
    }

    /// Advances the phase, evaluates the waveform at the new phase, and
    /// returns the sample clamped into `[-SCALE, SCALE]`. For the `Random`
    /// shape the sample is an arbitrary value in that range; the phase still
    /// advances for state consistency.
    pub fn get_value(&mut self, sample_rate: u32) -> (v: i64)
        requires
            old(self).wf(),
            sample_rate >= 1,
        ensures
            final(self).wf(),
            final(self).shape == old(self).shape,
            final(self).frequency == old(self).frequency,
            final(self).phase == spec_advance(
                old(self).phase as int,
                old(self).frequency as int,
                sample_rate as int,
            ),
            -SCALE <= v <= SCALE,
            old(self).shape != Types::Random ==> v == spec_waveform(
                old(self).shape,
                final(self).phase as int,
            ),
    {
        self.update(sample_rate);
        let phase = self.phase;
        let value: i64 = match self.shape {
            Types::Sine => sine(phase),
            Types::Square => if phase < PI {
                SCALE
            } else {
                -SCALE
            },
            Types::Sawtooth => {
                let q = phase_ramp(phase);
                SCALE - q as i64
            },
            Types::Triangle => {
                let q = phase_ramp(phase);
                if phase < PI {
                    -SCALE + 2 * (q as i64)
                } else {
                    3 * SCALE - 2 * (q as i64)
                }
            },
            Types::Random => random_unit_sample(),
        };
        clamp_unit_i64(value)
    }

    /// The current frequency.
    pub fn get_frequency(&self) -> (f: u64)
        ensures
            f == self.frequency,
    {
        self.frequency
    }

    /// Replaces the frequency; the phase is untouched, so the signal stays
    /// continuous and only the rate of phase advance changes.
    pub fn set_frequency(&mut self, target_frequency: u64)
        requires
            target_frequency >= 1,
        ensures
            final(self).shape == old(self).shape,
            final(self).phase == old(self).phase,
            final(self).frequency == target_frequency,
            old(self).wf() ==> final(self).wf(),
    {
        self.frequency = target_frequency;
    }

    /// Replaces the waveform shape.
    pub fn set_shape(&mut self, shape: Types)
        ensures
            final(self).shape == shape,
            final(self).frequency == old(self).frequency,
            final(self).phase == old(self).phase,
            old(self).wf() ==> final(self).wf(),
    {
        self.shape = shape;
    }

    /// One step of an exponential glide: the frequency moves the fraction
    /// `exp / 1000` of the remaining distance toward the target. Repeated
    /// calls with the same target approach it asymptotically.
    pub fn set_exp_frequency(&mut self, target_frequency: u64, exp: u64)
        requires
            old(self).wf(),
            target_frequency >= 1,
            exp <= 1000 * SCALE,
        ensures
            final(self).shape == old(self).shape,
            final(self).phase == old(self).phase,
            final(self).frequency == spec_exp_glide(
                old(self).frequency as int,
                target_frequency as int,
                exp as int,
            ),
            final(self).wf(),
    {
        let k: u64 = exp / 1000;
        let f: u128 = self.frequency as u128;
        let t: u128 = target_frequency as u128;
        let kw: u128 = k as u128;
        let sw: u128 = SCALE as u128;
        proof {
            let lo: int = if f <= t { f as int } else { t as int };
            let hi: int = if f <= t { t as int } else { f as int };
            assert(f as int * (sw as int - kw as int) + t as int * kw as int <= hi * sw as int)
                by (nonlinear_arith)
                requires
                    f as int <= hi,
                    t as int <= hi,
                    0 <= kw as int <= sw as int,
                    0 <= f as int,
                    0 <= t as int,
            ;
            assert(lo * sw as int <= f as int * (sw as int - kw as int) + t as int * kw as int)
                by (nonlinear_arith)
                requires
                    lo <= f as int,
                    lo <= t as int,
                    0 <= lo,
                    0 <= kw as int <= sw as int,
            ;
            assert(hi * sw as int <= u64::MAX as int * sw as int) by (nonlinear_arith)
                requires
                    0 <= hi <= u64::MAX as int,
                    sw as int == SCALE as int,
            ;
            lemma_div_le(
                f as int * (sw as int - kw as int) + t as int * kw as int,
                u64::MAX as int * sw as int,
                sw as int,
            );
            assert((u64::MAX as int * sw as int) / sw as int == u64::MAX as int)
                by (nonlinear_arith)
                requires
                    sw as int >= 1,
            ;
            lemma_div_le(
                lo * sw as int,
                f as int * (sw as int - kw as int) + t as int * kw as int,
                sw as int,
            );
            assert((lo * sw as int) / sw as int == lo) by (nonlinear_arith)
                requires
                    sw as int >= 1,
                    lo >= 0,
            ;
        }
        let num: u128 = f * (sw - kw) + t * kw;
        let nf: u128 = num / sw;
        self.frequency = nf as u64;
    }
}

} // verus!
