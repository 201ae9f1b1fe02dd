//! Instruments and the shared registry.
//!
//! An instrument is a closed tagged-variant type: today the one variant is a
//! three-oscillator additive combination with an optional biquad filter on
//! its output. Each operation — next sample, parameter mutation, state
//! snapshot — is one dispatch function over the variants.
//!
//! Parameter mutation uses a structured path (oscillator index and leaf
//! name, or the instrument-level filter) validated against the instrument's
//! schema, so an unknown parameter is detected exhaustively, reported as a
//! structured error and provably leaves the state unchanged.

use vstd::prelude::*;

use crate::filter::{
    is_set_frequency, is_set_q, spec_filter_output, BiquadFilter,
};
use crate::fixed::{clamp_i64, clamp_wide_to_i64, lemma_mul_le, spec_advance, SCALE};
use crate::oscillator::{spec_waveform, Oscillator, Types};

verus! {

/// Marker for processing nodes that consume an input signal.
pub trait InputNode {

}

impl InputNode for BiquadFilter {

}

/// The mutable leaf parameters of one child oscillator.
#[derive(Clone, Copy, PartialEq, Eq, Structural, Debug)]
pub enum OscillatorParameter {
    Frequency,
    Shape,
}

/// The mutable leaf parameters of the instrument-level filter.
#[derive(Clone, Copy, PartialEq, Eq, Structural, Debug)]
pub enum FilterParameter {
    Frequency,
    Q,
}

/// A structured parameter path: a child oscillator addressed by its
/// one-based position, or the instrument-level filter.
#[derive(Clone, Copy, PartialEq, Eq, Structural, Debug)]
pub enum ParameterPath {
    Oscillator(u8, OscillatorParameter),
    Filter(FilterParameter),
}

/// The value carried by a parameter-set request: a fixed-point number or a
/// waveform shape.
#[derive(Clone, Copy, PartialEq, Eq, Structural, Debug)]
pub enum ParameterValue {
    Number(u64),
    Shape(Types),
}

/// A parameter-set request: which parameter, and the value to store.
#[derive(Clone, Copy, PartialEq, Eq, Structural, Debug)]
pub struct InstrumentSetParameter {
    pub parameter: ParameterPath,
    pub value: ParameterValue,
}

/// The structured control-path errors. They are reported to the caller and
/// never corrupt shared state: a request that fails changes nothing.
#[derive(Clone, Copy, PartialEq, Eq, Structural, Debug)]
pub enum ControlError {
    UnknownInstrument,
    UnknownParameter,
    InvalidValue,
}

/// One oscillator's entry in a state snapshot: shape and frequency. The
/// phase is deliberately excluded — it is fast-changing internal state with
/// no meaning to an observer polling far below the sample rate.
#[derive(Clone, Copy, PartialEq, Eq, Structural, Debug)]
pub struct OscillatorState {
    pub shape: Types,
    pub frequency: u64,
}

/// An immutable snapshot of an instrument's observable state.
#[derive(Clone, PartialEq, Debug)]
pub struct InstrumentState {
    pub oscillators: Vec<OscillatorState>,
}

/// A three-oscillator additive instrument, optionally routed through one
/// biquad filter.
pub struct TripleOsc {
    pub osc1: Oscillator,
    pub osc2: Oscillator,
    pub osc3: Oscillator,
    pub filter: Option<BiquadFilter>,
}

/// The oscillator state after one phase advance, shape and frequency kept.
pub open spec fn spec_osc_advanced(o: Oscillator, sample_rate: int) -> Oscillator {
    Oscillator {
        shape: o.shape,
        frequency: o.frequency,
        phase: spec_advance(o.phase as int, o.frequency as int, sample_rate) as u64,
    }
}

/// The sample an oscillator in state `o` (already advanced) may report: the
/// exact waveform value for the deterministic shapes, any amplitude in
/// `[-SCALE, SCALE]` for `Random`.
pub open spec fn osc_value_ok(o: Oscillator, v: int) -> bool {
    match o.shape {
        Types::Random => -(SCALE as int) <= v <= SCALE as int,
        _ => v == spec_waveform(o.shape, o.phase as int),
    }
}

/// The filter state after one render step with input `x` and output `y`:
/// both histories shifted by one, parameters and coefficients untouched.
pub open spec fn spec_filter_stepped(f: BiquadFilter, x: int, y: int) -> BiquadFilter {
    BiquadFilter {
        sample_rate: f.sample_rate,
        coefficients: f.coefficients,
        frequency: f.frequency,
        q: f.q,
        filter_type: f.filter_type,
        input1: x as i64,
        input2: f.input1,
        output1: y as i64,
        output2: f.output1,
    }
}

/// One render step of a `TripleOsc`, with the three oscillator samples named:
/// each child advanced exactly once, each sample admissible for its shape,
/// the samples summed, and the sum either returned directly or pushed
/// through the filter.
pub open spec fn triple_step_values(
    t: TripleOsc,
    r: TripleOsc,
    sample_rate: int,
    v1: int,
    v2: int,
    v3: int,
    out: int,
) -> bool {
    r.osc1 == spec_osc_advanced(t.osc1, sample_rate) && r.osc2 == spec_osc_advanced(
        t.osc2,
        sample_rate,
    ) && r.osc3 == spec_osc_advanced(t.osc3, sample_rate) && osc_value_ok(r.osc1, v1)
        && osc_value_ok(r.osc2, v2) && osc_value_ok(r.osc3, v3) && (match t.filter {
        Option::None => r.filter is None && out == v1 + v2 + v3,
        Option::Some(f) => {
            let y = spec_filter_output(f, v1 + v2 + v3);
            r.filter == Some(spec_filter_stepped(f, v1 + v2 + v3, y)) && out == y
        },
    })
}

/// One render step of a `TripleOsc`, the oscillator samples quantified away.
/// For instruments without a `Random` oscillator this pins the result
/// exactly; a `Random` child contributes an arbitrary value in
/// `[-SCALE, SCALE]`.
pub open spec fn triple_step_ok(t: TripleOsc, r: TripleOsc, sample_rate: int, out: int) -> bool {
    exists|v1: int, v2: int, v3: int| triple_step_values(t, r, sample_rate, v1, v2, v3, out)
}

/// The child oscillator at a one-based position.
pub open spec fn osc_at(t: TripleOsc, index: u8) -> Oscillator
    recommends
        1 <= index <= 3,
{
    if index == 1 {
        t.osc1
    } else if index == 2 {
        t.osc2
    } else {
        t.osc3
    }
}

/// The instrument with the child oscillator at a one-based position
/// replaced.
pub open spec fn with_osc(t: TripleOsc, index: u8, o: Oscillator) -> TripleOsc
    recommends
        1 <= index <= 3,
{
    if index == 1 {
        TripleOsc { osc1: o, osc2: t.osc2, osc3: t.osc3, filter: t.filter }
    } else if index == 2 {
        TripleOsc { osc1: t.osc1, osc2: o, osc3: t.osc3, filter: t.filter }
    } else {
        TripleOsc { osc1: t.osc1, osc2: t.osc2, osc3: o, filter: t.filter }
    }
}

/// Exactly when a parameter-set request succeeds on a `TripleOsc`, and the
/// error it reports otherwise: an oscillator index outside 1..=3 or a filter
/// path without a filter is an unknown parameter; a value of the wrong kind,
/// a zero frequency or quality factor, or a cutoff above half the sample
/// rate is an invalid value.
pub open spec fn spec_set_parameter_result(t: TripleOsc, p: InstrumentSetParameter) -> Result<
    (),
    ControlError,
> {
    match p.parameter {
        ParameterPath::Oscillator(index, param) => {
            if index < 1 || index > 3 {
                Err(ControlError::UnknownParameter)
            } else {
                match (param, p.value) {
                    (OscillatorParameter::Frequency, ParameterValue::Number(v)) => {
                        if v >= 1 {
                            Ok(())
                        } else {
                            Err(ControlError::InvalidValue)
                        }
                    },
                    (OscillatorParameter::Shape, ParameterValue::Shape(_)) => Ok(()),
                    _ => Err(ControlError::InvalidValue),
                }
            }
        },
        ParameterPath::Filter(param) => {
            match t.filter {
                Option::None => Err(ControlError::UnknownParameter),
                Option::Some(f) => {
                    match (param, p.value) {
                        (FilterParameter::Frequency, ParameterValue::Number(v)) => {
                            if v >= 1 && 2 * v as int <= SCALE as int * f.sample_rate as int {
                                Ok(())
                            } else {
                                Err(ControlError::InvalidValue)
                            }
                        },
                        (FilterParameter::Q, ParameterValue::Number(v)) => {
                            if v >= 1 {
                                Ok(())
                            } else {
                                Err(ControlError::InvalidValue)
                            }
                        },
                        _ => Err(ControlError::InvalidValue),
                    }
                },
            }
        },
    }
}

/// The state a successful parameter-set request leaves behind: exactly the
/// addressed leaf updated, everything else untouched.
pub open spec fn triple_is_applied(t: TripleOsc, p: InstrumentSetParameter, r: TripleOsc) -> bool {
    match p.parameter {
        ParameterPath::Oscillator(index, param) => 1 <= index <= 3 && (match (param, p.value) {
            (OscillatorParameter::Frequency, ParameterValue::Number(v)) => r == with_osc(
                t,
                index,
                Oscillator { shape: osc_at(t, index).shape, frequency: v, phase: osc_at(t, index).phase },
            ),
            (OscillatorParameter::Shape, ParameterValue::Shape(s)) => r == with_osc(
                t,
                index,
                Oscillator { shape: s, frequency: osc_at(t, index).frequency, phase: osc_at(t, index).phase },
            ),
            _ => false,
        }),
        ParameterPath::Filter(param) => {
            match (t.filter, r.filter) {
                (Option::Some(f), Option::Some(g)) => r.osc1 == t.osc1 && r.osc2 == t.osc2
                    && r.osc3 == t.osc3 && (match (param, p.value) {
                    (FilterParameter::Frequency, ParameterValue::Number(v)) => is_set_frequency(
                        f,
                        v,
                        g,
                    ),
                    (FilterParameter::Q, ParameterValue::Number(v)) => is_set_q(f, v, g),
                    _ => false,
                }),
                _ => false,
            }
        },
    }
}

/// The snapshot a `TripleOsc` reports: three entries, in child order, each
/// with that oscillator's shape and frequency.
pub open spec fn triple_state_ok(t: TripleOsc, st: InstrumentState) -> bool {
    st.oscillators@.len() == 3 && st.oscillators@[0] == (OscillatorState {
        shape: t.osc1.shape,
        frequency: t.osc1.frequency,
    }) && st.oscillators@[1] == (OscillatorState {
        shape: t.osc2.shape,
        frequency: t.osc2.frequency,
    }) && st.oscillators@[2] == (OscillatorState {
        shape: t.osc3.shape,
        frequency: t.osc3.frequency,
    })
}

impl TripleOsc {
    /// A valid instrument: all children valid, and the filter, if present,
    /// valid.
    pub open spec fn wf(&self) -> bool {
        self.osc1.wf() && self.osc2.wf() && self.osc3.wf() && (match self.filter {
            Option::Some(f) => f.wf(),
            Option::None => true,
        })
    }

    /// Creates the instrument from its three children and an optional
    /// output filter.
    pub fn new(
        osc1: Oscillator,
        osc2: Oscillator,
        osc3: Oscillator,
        filter: Option<BiquadFilter>,
    ) -> (t: Self)
        requires
            osc1.wf(),
            osc2.wf(),
            osc3.wf(),
            (match filter {
                Option::Some(f) => f.wf(),
                Option::None => true,
            }),
        ensures
            t.wf(),
            t.osc1 == osc1,
            t.osc2 == osc2,
            t.osc3 == osc3,
            t.filter == filter,
    {
        Self { osc1, osc2, osc3, filter }
    }

    /// Mutable access to a child oscillator by its one-based position;
    /// `None` for a position no child occupies.
    pub fn get_oscillator_mut(&mut self, id: i8) -> (r: Option<&mut Oscillator>)
        ensures
            (match r {
                Option::Some(o) => 1 <= id <= 3 && *o == osc_at(*old(self), id as u8)
                    && *final(self) == with_osc(*old(self), id as u8, *final(o)),
                Option::None => !(1 <= id <= 3) && *final(self) == *old(self),
            }),
    {
        match id {
            1 => Some(&mut self.osc1),
            2 => Some(&mut self.osc2),
            3 => Some(&mut self.osc3),
            _ => None,
        }
    }

    /// One render step: every child advances exactly once (phase advance is
    /// not idempotent, so this must be called once per logical sample), the
    /// samples are summed, and the sum runs through the filter if one is
    /// attached.
    pub fn get_next_value(&mut self, sample_rate: u32) -> (out: i64)
        requires
            old(self).wf(),
            sample_rate >= 1,
        ensures
            final(self).wf(),
            triple_step_ok(*old(self), *final(self), sample_rate as int, out as int),
    {
        let v1 = self.osc1.get_value(sample_rate);
        let v2 = self.osc2.get_value(sample_rate);
        let v3 = self.osc3.get_value(sample_rate);
        let mix: i64 = v1 + v2 + v3;
        let out: i64 = match &mut self.filter {
            Option::Some(f) => f.get_next_value(mix),
            Option::None => mix,
        };
        proof {
            assert(triple_step_values(
                *old(self),
                *self,
                sample_rate as int,
                v1 as int,
                v2 as int,
                v3 as int,
                out as int,
            ));
        }
        out
    }

    /// Applies a parameter-set request. On any error the state is provably
    /// unchanged (reject-before-mutate).
    pub fn set_parameter(&mut self, set_parameter: InstrumentSetParameter) -> (r: Result<
        (),
        ControlError,
    >)
        requires
            old(self).wf(),
        ensures
            final(self).wf(),
            r == spec_set_parameter_result(*old(self), set_parameter),
            r is Err ==> *final(self) == *old(self),
            r is Ok ==> triple_is_applied(*old(self), set_parameter, *final(self)),
    {
        match set_parameter.parameter {
            ParameterPath::Oscillator(index, param) => {
                if index < 1 || index > 3 {
                    return Err(ControlError::UnknownParameter);
                }
                match (param, set_parameter.value) {
                    (OscillatorParameter::Frequency, ParameterValue::Number(v)) => {
                        if v < 1 {
                            return Err(ControlError::InvalidValue);
                        }
                        if index == 1 {
                            self.osc1.set_frequency(v);
                        } else if index == 2 {
                            self.osc2.set_frequency(v);
                        } else {
                            self.osc3.set_frequency(v);
                        }
                        Ok(())
                    },
                    (OscillatorParameter::Shape, ParameterValue::Shape(s)) => {
                        if index == 1 {
                            self.osc1.set_shape(s);
                        } else if index == 2 {
                            self.osc2.set_shape(s);
                        } else {
                            self.osc3.set_shape(s);
                        }
                        Ok(())
                    },
                    _ => Err(ControlError::InvalidValue),
                }
            },
            ParameterPath::Filter(param) => {
                match &mut self.filter {
                    Option::None => Err(ControlError::UnknownParameter),
                    Option::Some(f) => {
                        match (param, set_parameter.value) {
                            (FilterParameter::Frequency, ParameterValue::Number(v)) => {
                                proof {
                                    lemma_mul_le(
                                        SCALE as int,
                                        SCALE as int,
                                        f.sample_rate as int,
                                        u32::MAX as int,
                                    );
                                }
                                let limit: u128 = SCALE as u128 * f.sample_rate as u128;
                                if v >= 1 && 2 * (v as u128) <= limit {
                                    f.set_frequency(v);
                                    Ok(())
                                } else {
                                    Err(ControlError::InvalidValue)
                                }
                            },
                            (FilterParameter::Q, ParameterValue::Number(v)) => {
                                if v >= 1 {
                                    f.set_Q(v);
                                    Ok(())
                                } else {
                                    Err(ControlError::InvalidValue)
                                }
                            },
                            _ => Err(ControlError::InvalidValue),
                        }
                    },
                }
            },
        }
    }

    /// An immutable snapshot of the three children's shapes and
    /// frequencies, independent of how many render calls have elapsed.
    pub fn get_state(&self) -> (st: InstrumentState)
        ensures
            triple_state_ok(*self, st),
    {
        let mut oscillators: Vec<OscillatorState> = Vec::new();
        oscillators.push(
            OscillatorState { shape: self.osc1.shape, frequency: self.osc1.frequency },
        );
        oscillators.push(
            OscillatorState { shape: self.osc2.shape, frequency: self.osc2.frequency },
        );
        oscillators.push(
            OscillatorState { shape: self.osc3.shape, frequency: self.osc3.frequency },
        );
        InstrumentState { oscillators }
    }
}

/// The closed set of instrument variants, with one dispatch function per
/// operation.
pub enum Instrument {
    MultiOscillator(TripleOsc),
}

/// One render step of an instrument, dispatched over the variants.
pub open spec fn inst_step_ok(old_i: Instrument, new_i: Instrument, sample_rate: int, out: int) -> bool {
    match (old_i, new_i) {
        (Instrument::MultiOscillator(t), Instrument::MultiOscillator(r)) => triple_step_ok(
            t,
            r,
            sample_rate,
            out,
        ),
    }
}

/// The success/error outcome of a parameter-set request on an instrument.
pub open spec fn inst_set_parameter_result(i: Instrument, p: InstrumentSetParameter) -> Result<
    (),
    ControlError,
> {
    match i {
        Instrument::MultiOscillator(t) => spec_set_parameter_result(t, p),
    }
}

/// The state a successful parameter-set request leaves behind.
pub open spec fn inst_is_applied(i: Instrument, p: InstrumentSetParameter, r: Instrument) -> bool {
    match (i, r) {
        (Instrument::MultiOscillator(t), Instrument::MultiOscillator(u)) => triple_is_applied(
            t,
            p,
            u,
        ),
    }
}

/// An instrument's snapshot, dispatched over the variants.
pub open spec fn inst_state_ok(i: Instrument, st: InstrumentState) -> bool {
    match i {
        Instrument::MultiOscillator(t) => triple_state_ok(t, st),
    }
}

impl Instrument {
    /// A valid instrument, whatever the variant.
    pub open spec fn wf(&self) -> bool {
        match self {
            Instrument::MultiOscillator(t) => t.wf(),
        }
    }

    /// Produces the next sample.
    pub fn get_next_value(&mut self, sample_rate: u32) -> (out: i64)
        requires
            old(self).wf(),
            sample_rate >= 1,
        ensures
            final(self).wf(),
            inst_step_ok(*old(self), *final(self), sample_rate as int, out as int),
    {
        match self {
            Instrument::MultiOscillator(t) => t.get_next_value(sample_rate),
        }
    }

    /// Applies a parameter-set request.
    pub fn set_parameter(&mut self, set_parameter: InstrumentSetParameter) -> (r: Result<
        (),
        ControlError,
    >)
        requires
            old(self).wf(),
        ensures
            final(self).wf(),
            r == inst_set_parameter_result(*old(self), set_parameter),
            r is Err ==> *final(self) == *old(self),
            r is Ok ==> inst_is_applied(*old(self), set_parameter, *final(self)),
    {
        match self {
            Instrument::MultiOscillator(t) => t.set_parameter(set_parameter),
        }
    }

    /// Reports the state snapshot.
    pub fn get_state(&self) -> (st: InstrumentState)
        ensures
            inst_state_ok(*self, st),
    {
        match self {
            Instrument::MultiOscillator(t) => t.get_state(),
        }
    }
}

/// The mix of a sequence of instrument samples: summed left to right, each
/// partial sum clamped into the `i64` range.
pub open spec fn spec_mix(vs: Seq<int>) -> int
    decreases vs.len(),
{
    if vs.len() == 0 {
        0
    } else {
        clamp_i64(spec_mix(vs.drop_last()) + vs.last())
    }
}

/// One render step of the whole registry: every instrument stepped exactly
/// once under its step relation, the keys untouched, and the result the mix
/// of the per-instrument samples.
pub open spec fn registry_step_ok(
    olds: Seq<(String, Instrument)>,
    news: Seq<(String, Instrument)>,
    sample_rate: int,
    out: int,
) -> bool {
    news.len() == olds.len() && (forall|i: int|
        0 <= i < olds.len() ==> (#[trigger] news[i]).0 == olds[i].0) && exists|vs: Seq<int>|
        vs.len() == olds.len() && (forall|i: int|
            0 <= i < olds.len() ==> inst_step_ok(
                olds[i].1,
                (#[trigger] news[i]).1,
                sample_rate,
                vs[i],
            )) && out == spec_mix(vs)
}

/// The shared synthesis state: one registry mapping a name to an
/// instrument, reachable from both the render path and the control path.
/// The callers guard a value of this type with one mutual-exclusion lock and
/// hold it for exactly one operation, so every mutation here is atomic with
/// respect to render calls.
pub struct Instruments {
    pub instruments: Vec<(String, Instrument)>,
}

impl Instruments {
    /// A valid registry: names are unique, and every instrument is valid.
    pub open spec fn wf(&self) -> bool {
        (forall|i: int, j: int|
            0 <= i < j < self.instruments@.len() ==> (#[trigger] self.instruments@[i]).0@ != (
            #[trigger] self.instruments@[j]).0@) && (forall|i: int|
            0 <= i < self.instruments@.len() ==> (#[trigger] self.instruments@[i]).1.wf())
    }

    /// Whether some instrument is registered under the given name.
    pub open spec fn spec_has_key(&self, name: Seq<char>) -> bool {
        exists|i: int|
            0 <= i < self.instruments@.len() && (#[trigger] self.instruments@[i]).0@ == name
    }

    /// The position of the instrument registered under the given name.
    pub open spec fn spec_key_index(&self, name: Seq<char>) -> int {
        choose|i: int|
            0 <= i < self.instruments@.len() && (#[trigger] self.instruments@[i]).0@ == name
    }

    /// In a valid registry the position of a name is unique.
    proof fn lemma_key_index_unique(&self, name: Seq<char>, i: int)
        requires
            self.wf(),
            0 <= i < self.instruments@.len(),
            self.instruments@[i].0@ == name,
        ensures
            self.spec_has_key(name),
            self.spec_key_index(name) == i,
    {
        assert(self.spec_has_key(name));
        let j = self.spec_key_index(name);
        if i < j {
            assert(self.instruments@[i].0@ != self.instruments@[j].0@);
        } else if j < i {
            assert(self.instruments@[j].0@ != self.instruments@[i].0@);
        }
    }

    /// Creates an empty registry.
    pub fn new() -> (r: Self)
        ensures
            r.wf(),
            r.instruments@.len() == 0,
    {
        Self { instruments: Vec::new() }
    }

    /// The position of the given name, if it is registered.
    fn find_index(&self, name: &String) -> (r: Option<usize>)
        ensures
            (match r {
                Option::Some(i) => i < self.instruments@.len() && self.instruments@[i as int].0@
                    == name@,
                Option::None => !self.spec_has_key(name@),
            }),
    {
        let mut i: usize = 0;
        while i < self.instruments.len()
            invariant
                i <= self.instruments@.len(),
                forall|j: int| 0 <= j < i ==> (#[trigger] self.instruments@[j]).0@ != name@,
            decreases self.instruments@.len() - i,
        {
            if self.instruments[i].0 == *name {
                return Some(i);
            }
            i += 1;
        }
        None
    }

    /// Registers an instrument under a name. Registration fails on a
    /// duplicate name — the registry never silently orphans an instrument a
    /// prior control message may refer to — and reports whether the
    /// instrument was added.
    pub fn add_instrument(&mut self, name: String, instrument: Instrument) -> (added: bool)
        requires
            old(self).wf(),
            instrument.wf(),
        ensures
            final(self).wf(),
            added == !old(self).spec_has_key(name@),
            added ==> final(self).instruments@ == old(self).instruments@.push(
                (name, instrument),
            ),
            !added ==> final(self).instruments@ == old(self).instruments@,
    {
        match self.find_index(&name) {
            Option::Some(i) => {
                proof {
                    self.lemma_key_index_unique(name@, i as int);
                }
                false
            },
            Option::None => {
                self.instruments.push((name, instrument));
                proof {
                    assert forall|i: int, j: int|
                        0 <= i < j < self.instruments@.len() implies (
                    #[trigger] self.instruments@[i]).0@ != (#[trigger] self.instruments@[j]).0@ by {
                        if j < self.instruments@.len() - 1 {
                        } else {
                            assert(self.instruments@[i] == old(self).instruments@[i]);
                        }
                    }
                }
                true
            },
        }
    }

    /// Read access to the registered instruments.
    pub fn get_instruments(&self) -> (r: &Vec<(String, Instrument)>)
        ensures
            r@ == self.instruments@,
    {
        &self.instruments
    }

    /// The render pull interface: steps every instrument once and returns
    /// the mix of their samples. Called once per required output sample; it
    /// never blocks and never fails.
    pub fn next_sample(&mut self, sample_rate: u32) -> (out: i64)
        requires
            old(self).wf(),
            sample_rate >= 1,
        ensures
            final(self).wf(),
            registry_step_ok(
                old(self).instruments@,
                final(self).instruments@,
                sample_rate as int,
                out as int,
            ),
    {
        let ghost olds = self.instruments@;
        let ghost mut vs: Seq<int> = Seq::empty();
        let mut out: i64 = 0;
        let mut idx: usize = 0;
        while idx < self.instruments.len()
            invariant
                old(self).wf(),
                sample_rate >= 1,
                olds == old(self).instruments@,
                idx as int <= olds.len(),
                self.instruments@.len() == olds.len(),
                vs.len() == idx as nat,
                forall|i: int| idx as int <= i < olds.len() ==> self.instruments@[i] == olds[i],
                forall|i: int|
                    0 <= i < idx as int ==> (#[trigger] self.instruments@[i]).0 == olds[i].0,
                forall|i: int| 0 <= i < idx as int ==> (#[trigger] self.instruments@[i]).1.wf(),
                forall|i: int|
                    0 <= i < idx as int ==> inst_step_ok(
                        olds[i].1,
                        (#[trigger] self.instruments@[i]).1,
                        sample_rate as int,
                        vs[i],
                    ),
                out == spec_mix(vs),
            decreases olds.len() - idx,
        {
            proof {
                assert(old(self).instruments@[idx as int].1.wf());
                assert(self.instruments@[idx as int].1.wf());
            }
            let v = self.instruments[idx].1.get_next_value(sample_rate);
            let wide: i128 = out as i128 + v as i128;
            out = clamp_wide_to_i64(wide);
            proof {
                let pushed = vs.push(v as int);
                assert(pushed.drop_last() =~= vs);
                assert(pushed.last() == v as int);
                vs = pushed;
            }
            idx += 1;
        }
        proof {
            assert(vs.len() == olds.len() && (forall|i: int|
                0 <= i < olds.len() ==> inst_step_ok(
                    olds[i].1,
                    (#[trigger] self.instruments@[i]).1,
                    sample_rate as int,
                    vs[i],
                )) && out as int == spec_mix(vs));
        }
        out
    }

    /// The control-path entry for a parameter-set request: looks the
    /// instrument up by name and applies the request to it. An unknown name
    /// is reported as `UnknownInstrument`; any error leaves the registry
    /// provably unchanged.
    pub fn set_instrument_parameter(
        &mut self,
        instrument_id: &String,
        set_parameter: InstrumentSetParameter,
    ) -> (r: Result<(), ControlError>)
        requires
            old(self).wf(),
        ensures
            final(self).wf(),
            !old(self).spec_has_key(instrument_id@) ==> r == Err::<(), ControlError>(
                ControlError::UnknownInstrument,
            ) && final(self).instruments@ == old(self).instruments@,
            old(self).spec_has_key(instrument_id@) ==> ({
                let olds = old(self).instruments@;
                let news = final(self).instruments@;
                let i = old(self).spec_key_index(instrument_id@);
                let t = olds[i].1;
                r == inst_set_parameter_result(t, set_parameter)
                && (r is Err ==> news == olds)
                && (r is Ok ==> news.len() == olds.len()
                    && (forall|j: int| 0 <= j < olds.len() && j != i ==> news[j] == olds[j])
                    && news[i].0 == olds[i].0
                    && inst_is_applied(t, set_parameter, news[i].1))
            }),
    {
        match self.find_index(instrument_id) {
            Option::None => Err(ControlError::UnknownInstrument),
            Option::Some(i) => {
                proof {
                    self.lemma_key_index_unique(instrument_id@, i as int);
                }
                let r = self.instruments[i].1.set_parameter(set_parameter);
                proof {
                    if r is Err {
                        assert(self.instruments@ =~= old(self).instruments@);
                    }
                }
                r
            },
        }
    }

    /// The control-path entry for a state-get request: looks the instrument
    /// up by name and returns its snapshot, or `UnknownInstrument`.
    pub fn get_instrument_state(&self, instrument_id: &String) -> (r: Result<
        InstrumentState,
        ControlError,
    >)
        requires
            self.wf(),
        ensures
            (match r {
                Result::Ok(st) => self.spec_has_key(instrument_id@) && inst_state_ok(
                    self.instruments@[self.spec_key_index(instrument_id@)].1,
                    st,
                ),
                Result::Err(e) => e == ControlError::UnknownInstrument && !self.spec_has_key(
                    instrument_id@,
                ),
            }),
    {
        match self.find_index(instrument_id) {
            Option::None => Err(ControlError::UnknownInstrument),
            Option::Some(i) => {
                proof {
                    self.lemma_key_index_unique(instrument_id@, i as int);
                }
                let st = self.instruments[i].1.get_state();
                Ok(st)
            },
        }
    }
}

} // verus!
