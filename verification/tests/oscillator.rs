use synth_core::fixed::{HALF_PI, PI, SCALE, TWO_PI};
use synth_core::oscillator::{Oscillator, Types};

const S: i64 = SCALE;
const SU: u64 = SCALE as u64;

fn to_f(v: i64) -> f64 {
    v as f64 / S as f64
}

fn phase_f(p: u64) -> f64 {
    p as f64 / S as f64
}

#[test]
fn phase_stays_in_range() {
    let mut o = Oscillator::new(440 * SU, Types::Sine);
    for _ in 0..100_000 {
        o.get_value(48_000);
        assert!(o.phase < TWO_PI);
    }
}

#[test]
fn phase_stays_in_range_high_frequency() {
    // A frequency above the sample rate still leaves the phase wrapped.
    let mut o = Oscillator::new(100_000 * SU, Types::Sawtooth);
    for _ in 0..10_000 {
        o.get_value(44_100);
        assert!(o.phase < TWO_PI);
    }
}

#[test]
fn sine_period_returns_phase() {
    // 480 Hz at 48 kHz: one period is exactly 100 calls. The phase comes
    // back to its start within a few fixed-point units.
    let mut o = Oscillator::new(480 * SU, Types::Sine);
    for _ in 0..100 {
        o.get_value(48_000);
    }
    let step = (TWO_PI as u128 * (480u128 * SU as u128)) / (SU as u128 * 48_000);
    let expected = (100 * step % TWO_PI as u128) as u64;
    assert_eq!(o.phase, expected);
    // Distance from the starting phase 0, measured around the circle.
    let dist = o.phase.min(TWO_PI - o.phase);
    assert!(dist < 1_000, "phase {} not near 0", o.phase);
}

#[test]
fn first_call_sine_440_at_48000() {
    let mut o = Oscillator::new(440 * SU, Types::Sine);
    let v = o.get_value(48_000);
    // The phase advanced by exactly one fixed-point step of 2*pi*440/48000.
    let step = (TWO_PI as u128 * (440u128 * SU as u128)) / (SU as u128 * 48_000);
    assert_eq!(o.phase as u128, step);
    assert!((phase_f(o.phase) - 0.0576).abs() < 1e-3);
    // And the sample is the sine of that phase.
    assert!((to_f(v) - phase_f(o.phase).sin()).abs() < 5e-4);
    assert!((to_f(v) - 0.05754).abs() < 1e-3);
}

#[test]
fn sine_tracks_the_real_sine_over_a_sweep() {
    let mut o = Oscillator::new(441 * SU, Types::Sine);
    for _ in 0..2_000 {
        let v = o.get_value(44_100);
        let expected = phase_f(o.phase).sin();
        assert!(
            (to_f(v) - expected).abs() < 2e-4,
            "sine off at phase {}: {} vs {}",
            o.phase,
            to_f(v),
            expected
        );
    }
}

#[test]
fn square_is_positive_below_pi() {
    let mut o = Oscillator::new(SU, Types::Square);
    let v = o.get_value(48_000);
    assert!(o.phase < PI);
    assert_eq!(v, S);
}

#[test]
fn square_is_negative_from_pi() {
    // Arrange the advance to land exactly on PI: the boundary belongs to
    // the negative branch.
    let step = ((TWO_PI as u128 * SU as u128) / (SU as u128 * 48_000)) as u64;
    let mut o = Oscillator {
        shape: Types::Square,
        frequency: SU,
        phase: PI - step,
    };
    let v = o.get_value(48_000);
    assert_eq!(o.phase, PI);
    assert_eq!(v, -S);
}

#[test]
fn sawtooth_matches_ramp_formula() {
    let mut o = Oscillator::new(2_000 * SU, Types::Sawtooth);
    for _ in 0..7 {
        let v = o.get_value(48_000);
        let expected = S as i128 - (o.phase as i128 * S as i128) / PI as i128;
        assert_eq!(v as i128, expected);
        assert!(-S <= v && v <= S);
    }
}

#[test]
fn triangle_matches_ramp_formula() {
    let mut o = Oscillator::new(3_000 * SU, Types::Triangle);
    for _ in 0..9 {
        let v = o.get_value(48_000);
        let ramp = (o.phase as i128 * S as i128) / PI as i128;
        let expected = if o.phase < PI {
            -(S as i128) + 2 * ramp
        } else {
            3 * S as i128 - 2 * ramp
        };
        assert_eq!(v as i128, expected);
    }
}

#[test]
fn triangle_peaks_near_half_pi() {
    // At phase pi/2 the triangle is near 0... the ramp form -1 + 2*phase/pi
    // reaches 0 at pi/2 and +1 at pi.
    let mut o = Oscillator {
        shape: Types::Triangle,
        frequency: SU,
        phase: HALF_PI - 562_210,
    };
    let v = o.get_value(48_000);
    assert!(to_f(v).abs() < 1e-3);
}

#[test]
fn random_stays_within_unit_bounds() {
    let mut o = Oscillator::new(440 * SU, Types::Random);
    let mut seen_nonzero = false;
    for _ in 0..2_000 {
        let v = o.get_value(48_000);
        assert!(-S <= v && v <= S);
        if v != 0 {
            seen_nonzero = true;
        }
        assert!(o.phase < TWO_PI);
    }
    assert!(seen_nonzero);
}

#[test]
fn set_frequency_keeps_phase() {
    let mut o = Oscillator::new(440 * SU, Types::Sine);
    o.get_value(48_000);
    let phase_before = o.phase;
    o.set_frequency(880 * SU);
    assert_eq!(o.get_frequency(), 880 * SU);
    assert_eq!(o.phase, phase_before);
}

#[test]
fn set_shape_changes_waveform() {
    let mut o = Oscillator::new(SU, Types::Sine);
    o.set_shape(Types::Square);
    let v = o.get_value(48_000);
    assert_eq!(v, S);
}

#[test]
fn exp_frequency_glide_halfway() {
    // exp = 500 (of 1000) moves the frequency half the remaining distance.
    let mut o = Oscillator::new(100 * SU, Types::Sine);
    o.set_exp_frequency(200 * SU, 500 * SU);
    assert_eq!(o.get_frequency(), 150 * SU);
    // Repeating converges toward the target.
    for _ in 0..200 {
        o.set_exp_frequency(200 * SU, 500 * SU);
    }
    assert!((o.get_frequency() as f64 / SU as f64 - 200.0).abs() < 1e-6);
}

#[test]
fn exp_frequency_glide_zero_exp_is_identity() {
    let mut o = Oscillator::new(100 * SU, Types::Sine);
    o.set_exp_frequency(200 * SU, 0);
    assert_eq!(o.get_frequency(), 100 * SU);
}
