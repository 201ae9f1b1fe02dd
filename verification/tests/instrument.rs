use synth_core::filter::{BiquadFilter, BiquadFilterTypes};
use synth_core::fixed::SCALE;
use synth_core::instrument::{
    ControlError, FilterParameter, Instrument, InstrumentSetParameter, Instruments,
    OscillatorParameter, ParameterPath, ParameterValue, TripleOsc,
};
use synth_core::oscillator::{Oscillator, Types};

const S: i64 = SCALE;
const SU: u64 = SCALE as u64;

fn triple_square() -> TripleOsc {
    TripleOsc::new(
        Oscillator::new(440 * SU, Types::Square),
        Oscillator::new(110 * SU, Types::Square),
        Oscillator::new(55 * SU, Types::Square),
        None,
    )
}

fn registry_with_triple_osc() -> Instruments {
    let mut instruments = Instruments::new();
    let added = instruments.add_instrument(
        String::from("triple_osc"),
        Instrument::MultiOscillator(triple_square()),
    );
    assert!(added);
    instruments
}

fn set_osc_param(index: u8, param: OscillatorParameter, value: ParameterValue) -> InstrumentSetParameter {
    InstrumentSetParameter {
        parameter: ParameterPath::Oscillator(index, param),
        value,
    }
}

#[test]
fn triple_osc_state_snapshot() {
    let id = String::from("triple_osc");
    let mut instruments = registry_with_triple_osc();
    let st = instruments.get_instrument_state(&id).unwrap();
    assert_eq!(st.oscillators.len(), 3);
    assert_eq!(st.oscillators[0].shape, Types::Square);
    assert_eq!(st.oscillators[1].shape, Types::Square);
    assert_eq!(st.oscillators[2].shape, Types::Square);
    assert_eq!(st.oscillators[0].frequency, 440 * SU);
    assert_eq!(st.oscillators[1].frequency, 110 * SU);
    assert_eq!(st.oscillators[2].frequency, 55 * SU);
    // The snapshot is independent of how many render calls have elapsed.
    for _ in 0..1_000 {
        instruments.next_sample(48_000);
    }
    let again = instruments.get_instrument_state(&id).unwrap();
    assert_eq!(st, again);
}

#[test]
fn unknown_oscillator_index_leaves_state_unchanged() {
    let id = String::from("triple_osc");
    let mut instruments = registry_with_triple_osc();
    let before = instruments.get_instrument_state(&id).unwrap();
    let r = instruments.set_instrument_parameter(
        &id,
        set_osc_param(4, OscillatorParameter::Frequency, ParameterValue::Number(880 * SU)),
    );
    assert_eq!(r, Err(ControlError::UnknownParameter));
    let after = instruments.get_instrument_state(&id).unwrap();
    assert_eq!(before, after);
}

#[test]
fn unknown_instrument_is_reported() {
    let mut instruments = registry_with_triple_osc();
    let r = instruments.set_instrument_parameter(
        &String::from("no_such_instrument"),
        set_osc_param(1, OscillatorParameter::Frequency, ParameterValue::Number(SU)),
    );
    assert_eq!(r, Err(ControlError::UnknownInstrument));
    assert!(instruments
        .get_instrument_state(&String::from("no_such_instrument"))
        .is_err());
}

#[test]
fn zero_frequency_is_an_invalid_value() {
    let id = String::from("triple_osc");
    let mut instruments = registry_with_triple_osc();
    let before = instruments.get_instrument_state(&id).unwrap();
    let r = instruments.set_instrument_parameter(
        &id,
        set_osc_param(2, OscillatorParameter::Frequency, ParameterValue::Number(0)),
    );
    assert_eq!(r, Err(ControlError::InvalidValue));
    assert_eq!(before, instruments.get_instrument_state(&id).unwrap());
}

#[test]
fn wrong_value_kind_is_an_invalid_value() {
    let id = String::from("triple_osc");
    let mut instruments = registry_with_triple_osc();
    let r = instruments.set_instrument_parameter(
        &id,
        set_osc_param(1, OscillatorParameter::Frequency, ParameterValue::Shape(Types::Sine)),
    );
    assert_eq!(r, Err(ControlError::InvalidValue));
}

#[test]
fn filter_path_without_filter_is_unknown() {
    let id = String::from("triple_osc");
    let mut instruments = registry_with_triple_osc();
    let r = instruments.set_instrument_parameter(
        &id,
        InstrumentSetParameter {
            parameter: ParameterPath::Filter(FilterParameter::Frequency),
            value: ParameterValue::Number(500 * SU),
        },
    );
    assert_eq!(r, Err(ControlError::UnknownParameter));
}

#[test]
fn set_frequency_through_registry() {
    let id = String::from("triple_osc");
    let mut instruments = registry_with_triple_osc();
    let r = instruments.set_instrument_parameter(
        &id,
        set_osc_param(2, OscillatorParameter::Frequency, ParameterValue::Number(220 * SU)),
    );
    assert_eq!(r, Ok(()));
    let st = instruments.get_instrument_state(&id).unwrap();
    assert_eq!(st.oscillators[1].frequency, 220 * SU);
    assert_eq!(st.oscillators[0].frequency, 440 * SU);
    assert_eq!(st.oscillators[2].frequency, 55 * SU);
}

#[test]
fn set_shape_through_registry() {
    let id = String::from("triple_osc");
    let mut instruments = registry_with_triple_osc();
    let r = instruments.set_instrument_parameter(
        &id,
        set_osc_param(3, OscillatorParameter::Shape, ParameterValue::Shape(Types::Triangle)),
    );
    assert_eq!(r, Ok(()));
    let st = instruments.get_instrument_state(&id).unwrap();
    assert_eq!(st.oscillators[2].shape, Types::Triangle);
    assert_eq!(st.oscillators[0].shape, Types::Square);
}

#[test]
fn duplicate_registration_is_rejected() {
    let mut instruments = registry_with_triple_osc();
    let added = instruments.add_instrument(
        String::from("triple_osc"),
        Instrument::MultiOscillator(triple_square()),
    );
    assert!(!added);
    assert_eq!(instruments.get_instruments().len(), 1);
}

#[test]
fn oscillator_access_by_position() {
    let mut t = triple_square();
    match t.get_oscillator_mut(2) {
        Some(o) => o.set_frequency(330 * SU),
        None => panic!("child 2 should exist"),
    }
    assert_eq!(t.get_state().oscillators[1].frequency, 330 * SU);
    assert!(t.get_oscillator_mut(4).is_none());
    assert!(t.get_oscillator_mut(0).is_none());
    assert!(t.get_oscillator_mut(-1).is_none());
}

#[test]
fn additive_mix_of_three_squares() {
    // Early in the cycle all three squares sit in their positive half, so
    // the additive mix is exactly 3.0.
    let mut instruments = registry_with_triple_osc();
    let v = instruments.next_sample(48_000);
    assert_eq!(v, 3 * S);
}

#[test]
fn empty_registry_renders_silence() {
    let mut instruments = Instruments::new();
    assert_eq!(instruments.next_sample(48_000), 0);
}

#[test]
fn filtered_instrument_matches_standalone_filter() {
    let filter = BiquadFilter::new(48_000, 500 * SU, 27 * SU / 10, BiquadFilterTypes::LowPass);
    let mut t = TripleOsc::new(
        Oscillator::new(440 * SU, Types::Square),
        Oscillator::new(110 * SU, Types::Square),
        Oscillator::new(55 * SU, Types::Square),
        Some(filter),
    );
    let mut twin_oscs = triple_square();
    let mut twin_filter =
        BiquadFilter::new(48_000, 500 * SU, 27 * SU / 10, BiquadFilterTypes::LowPass);
    for _ in 0..100 {
        let filtered = t.get_next_value(48_000);
        let mix = twin_oscs.get_next_value(48_000);
        let expected = twin_filter.get_next_value(mix);
        assert_eq!(filtered, expected);
    }
}

#[test]
fn filter_parameters_through_instrument_path() {
    let filter = BiquadFilter::new(48_000, 500 * SU, 27 * SU / 10, BiquadFilterTypes::LowPass);
    let mut t = TripleOsc::new(
        Oscillator::new(440 * SU, Types::Square),
        Oscillator::new(110 * SU, Types::Square),
        Oscillator::new(55 * SU, Types::Square),
        Some(filter),
    );
    let r = t.set_parameter(InstrumentSetParameter {
        parameter: ParameterPath::Filter(FilterParameter::Frequency),
        value: ParameterValue::Number(1_000 * SU),
    });
    assert_eq!(r, Ok(()));
    let r = t.set_parameter(InstrumentSetParameter {
        parameter: ParameterPath::Filter(FilterParameter::Q),
        value: ParameterValue::Number(0),
    });
    assert_eq!(r, Err(ControlError::InvalidValue));
    // A cutoff above half the sample rate is rejected, state kept.
    let r = t.set_parameter(InstrumentSetParameter {
        parameter: ParameterPath::Filter(FilterParameter::Frequency),
        value: ParameterValue::Number(30_000 * SU),
    });
    assert_eq!(r, Err(ControlError::InvalidValue));
}

#[test]
fn render_alternating_with_mutation_never_tears() {
    // Interleave control-path mutations with render pulls on the shared
    // registry; every render sees a complete parameter set and the state
    // snapshot always reflects the last accepted change.
    let id = String::from("triple_osc");
    let mut instruments = registry_with_triple_osc();
    let freqs: [u64; 3] = [660 * SU, 330 * SU, 220 * SU];
    for freq in freqs {
        let r = instruments.set_instrument_parameter(
            &id,
            set_osc_param(1, OscillatorParameter::Frequency, ParameterValue::Number(freq)),
        );
        assert_eq!(r, Ok(()));
        for _ in 0..10 {
            let v = instruments.next_sample(48_000);
            assert!(v.abs() <= 3 * S);
        }
        let st = instruments.get_instrument_state(&id).unwrap();
        assert_eq!(st.oscillators[0].frequency, freq);
    }
}
