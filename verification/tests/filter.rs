use synth_core::filter::{BiquadFilter, BiquadFilterTypes};
use synth_core::fixed::SCALE;

const S: i64 = SCALE;
const SU: u64 = SCALE as u64;

fn q_fixed(q_times_ten: u64) -> u64 {
    q_times_ten * SU / 10
}

fn to_f(v: i64) -> f64 {
    v as f64 / S as f64
}

#[test]
fn lowpass_impulse_first_output_is_b0_over_a0() {
    let mut f = BiquadFilter::new(48_000, 200 * SU, q_fixed(27), BiquadFilterTypes::LowPass);
    let c = f.coefficients;
    let y = f.get_next_value(S);
    // With zeroed histories the difference equation reduces to b0 * x / a0.
    assert_eq!(y as i128, (c.b0 * S as i128) / c.a0);
    // And it agrees with the cookbook formula evaluated in floating point.
    let w0 = 2.0 * std::f64::consts::PI * 200.0 / 48_000.0;
    let alpha = w0.sin() / (2.0 * 2.7);
    let b0 = (1.0 - w0.cos()) / 2.0;
    let a0 = 1.0 + alpha;
    assert!((to_f(y) - b0 / a0).abs() < 3e-4);
}

#[test]
fn highpass_impulse_first_output_is_b0_over_a0() {
    let mut f = BiquadFilter::new(48_000, 2_000 * SU, q_fixed(7), BiquadFilterTypes::HighPass);
    let c = f.coefficients;
    let y = f.get_next_value(S);
    assert_eq!(y as i128, (c.b0 * S as i128) / c.a0);
    let w0 = 2.0 * std::f64::consts::PI * 2_000.0 / 48_000.0;
    let alpha = w0.sin() / (2.0 * 0.7);
    let b0 = (1.0 + w0.cos()) / 2.0;
    let a0 = 1.0 + alpha;
    assert!((to_f(y) - b0 / a0).abs() < 1e-3);
}

#[test]
fn lowpass_step_response_approaches_one_without_overshoot() {
    // Critically damped (Q = 0.5), cutoff far below Nyquist: the step
    // response climbs monotonically toward 1.0 and stays there.
    let mut f = BiquadFilter::new(48_000, 1_000 * SU, SU / 2, BiquadFilterTypes::LowPass);
    let mut prev: i64 = 0;
    for _ in 0..20_000 {
        let y = f.get_next_value(S);
        assert!(y >= prev - 16, "step response fell: {} after {}", y, prev);
        assert!(y <= S + S / 100, "step response overshot: {}", y);
        prev = y;
    }
    assert!((to_f(prev) - 1.0).abs() < 1e-2);
}

#[test]
fn lowpass_step_response_stays_bounded_across_q_range() {
    for q in [q_fixed(1), q_fixed(10), q_fixed(50), q_fixed(200)] {
        let mut f = BiquadFilter::new(48_000, 500 * SU, q, BiquadFilterTypes::LowPass);
        for _ in 0..5_000 {
            let y = f.get_next_value(S);
            assert!(y.abs() <= 3 * S, "diverged at q {}: {}", q, y);
        }
    }
}

#[test]
fn set_frequency_is_idempotent() {
    let mut once = BiquadFilter::new(48_000, 2_000 * SU, q_fixed(27), BiquadFilterTypes::LowPass);
    once.get_next_value(S / 2);
    let mut twice = BiquadFilter::new(48_000, 2_000 * SU, q_fixed(27), BiquadFilterTypes::LowPass);
    twice.get_next_value(S / 2);
    once.set_frequency(800 * SU);
    twice.set_frequency(800 * SU);
    twice.set_frequency(800 * SU);
    assert_eq!(once.coefficients, twice.coefficients);
    assert_eq!(once.get_frequency(), twice.get_frequency());
    // The histories are untouched by recomputation, so both filters keep
    // producing identical output.
    for _ in 0..64 {
        assert_eq!(once.get_next_value(S / 3), twice.get_next_value(S / 3));
    }
}

#[test]
fn set_q_recomputes_coefficients_eagerly() {
    let mut f = BiquadFilter::new(48_000, 2_000 * SU, q_fixed(27), BiquadFilterTypes::LowPass);
    let before = f.coefficients;
    f.set_Q(q_fixed(7));
    assert_eq!(f.get_Q(), q_fixed(7));
    assert_ne!(f.coefficients, before);
    // A fresh filter built with the complete new parameter set holds the
    // identical coefficients.
    let twin = BiquadFilter::new(48_000, 2_000 * SU, q_fixed(7), BiquadFilterTypes::LowPass);
    assert_eq!(f.coefficients, twin.coefficients);
}

#[test]
fn alternating_mutation_and_render_sees_no_torn_coefficients() {
    // Alternate parameter changes and render calls; after every mutation
    // the filter holds exactly the coefficient set of its complete current
    // parameters, never a mixture of two sets.
    let mut f = BiquadFilter::new(48_000, 2_000 * SU, q_fixed(27), BiquadFilterTypes::LowPass);
    let freqs: [u64; 4] = [500 * SU, 1_500 * SU, 3_000 * SU, 800 * SU];
    for (i, freq) in freqs.iter().enumerate() {
        f.set_frequency(*freq);
        let twin = BiquadFilter::new(48_000, *freq, q_fixed(27), BiquadFilterTypes::LowPass);
        assert_eq!(f.coefficients, twin.coefficients);
        for _ in 0..(i + 1) * 3 {
            let y = f.get_next_value(S / 2);
            assert!(y.abs() <= 4 * S);
        }
        assert_eq!(f.coefficients, twin.coefficients);
    }
}

#[test]
fn filter_histories_start_silent() {
    let mut f = BiquadFilter::new(48_000, 200 * SU, q_fixed(27), BiquadFilterTypes::LowPass);
    assert_eq!(f.input1, 0);
    assert_eq!(f.input2, 0);
    assert_eq!(f.output1, 0);
    assert_eq!(f.output2, 0);
    // Zero input on zero history produces zero output.
    assert_eq!(f.get_next_value(0), 0);
}
