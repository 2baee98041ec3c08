//! Oscillator engine: holds one instance of each oscillator variant and
//! drives exactly the selected one, translating the two generic controls
//! (`shape`, `morph`) into variant-specific parameters. Switching variants
//! leaves the inactive variants' accumulated phase untouched.

use crate::envelope::RATE_MAX;
use crate::fixed::{clamp_i64, clamp_spec, fx_mul, fx_mul_spec, lemma_mul_bound, lemma_tdiv_bound,
    tdiv_exec, HALF, ONE};
use crate::string_synth::{sy_prepare_spec, sy_step_spec, StringSynthOscillator, SY_OUT_MAX};
use crate::super_square::{ss_prepare_spec, ss_step_spec, SuperSquareOscillator};
use crate::tuning::FREQ_MAX;
use crate::variable_saw::{vsaw_pw_spec, vsaw_step_spec, VariableSawOscillator, DELTA_MAX};
use vstd::prelude::*;

verus! {

#[derive(Clone, Copy, PartialEq, Eq, Structural, Debug)]
pub enum OscillatorType {
    SuperSquare,
    VariableSaw,
    StringSynth,
}

#[derive(Clone, Copy, PartialEq, Eq, Structural, Debug)]
pub struct OscillatorParams {
    /// Unit shape control.
    pub shape: i64,
    /// Unit morph control.
    pub morph: i64,
}

impl OscillatorParams {
    pub open spec fn wf(self) -> bool {
        &&& 0 <= self.shape <= ONE
        &&& 0 <= self.morph <= ONE
    }
}

#[derive(Clone, Copy, PartialEq, Eq, Structural, Debug)]
pub struct OscillatorEngine {
    pub super_square: SuperSquareOscillator,
    pub variable_saw: VariableSawOscillator,
    pub string_synth: StringSynthOscillator,
    pub selected: OscillatorType,
}

/// The variable saw's pulse width from the morph control: morph bends up to
/// a wide pulse at one half and back down, scaled by 1.1 and clamped.
pub open spec fn saw_pw_of_morph_spec(morph: int) -> int {
    let bent = if morph < HALF {
        morph + HALF as int
    } else {
        ONE - 2 * (morph - HALF as int)
    };
    clamp_spec(fx_mul_spec(bent, 1153434), 5243, ONE as int)
}

/// The variable saw's waveshape from the shape control: `10 - 21 * shape`
/// in units, clamped to the unit range.
pub open spec fn saw_shape_of_shape_spec(shape: int) -> int {
    clamp_spec(10 * ONE - 21 * shape, 0, ONE as int)
}

/// The registration row the morph control selects, scaled over the table.
pub open spec fn registration_of_morph_spec(morph: int) -> int {
    fx_mul_spec(morph, 10 * ONE) / ONE as int
}

/// The engine after `prepare_block`: only the selected variant is prepared.
pub open spec fn engine_prepare_spec(e: OscillatorEngine, p: OscillatorParams, freq: int, sr: int)
    -> OscillatorEngine {
    match e.selected {
        OscillatorType::SuperSquare => OscillatorEngine {
            super_square: ss_prepare_spec(e.super_square, p.shape as int, freq, sr),
            ..e
        },
        OscillatorType::VariableSaw => OscillatorEngine {
            variable_saw: (VariableSawOscillator {
                pw: vsaw_pw_spec(saw_pw_of_morph_spec(p.morph as int), freq / sr) as i64,
                waveshape: saw_shape_of_shape_spec(p.shape as int) as i64,
                ..e.variable_saw
            }),
            ..e
        },
        OscillatorType::StringSynth => OscillatorEngine {
            string_synth: sy_prepare_spec(e.string_synth, registration_of_morph_spec(
                p.morph as int), p.shape as int, freq, sr),
            ..e
        },
    }
}

/// The engine after one sample and the sample it emits: only the selected
/// variant advances.
pub open spec fn engine_step_spec(e: OscillatorEngine, freq: int, sr: int)
    -> (OscillatorEngine, i64) {
    match e.selected {
        OscillatorType::SuperSquare => {
            let (o2, v) = ss_step_spec(e.super_square);
            (OscillatorEngine { super_square: o2, ..e }, v)
        }
        OscillatorType::VariableSaw => {
            let (o2, v) = vsaw_step_spec(e.variable_saw, clamp_spec(freq / sr, 0,
                DELTA_MAX as int));
            (OscillatorEngine { variable_saw: o2, ..e }, v)
        }
        OscillatorType::StringSynth => {
            let (o2, v) = sy_step_spec(e.string_synth);
            (OscillatorEngine { string_synth: o2, ..e }, v)
        }
    }
}

impl OscillatorEngine {
    pub open spec fn wf(self) -> bool {
        &&& self.super_square.wf()
        &&& self.variable_saw.wf()
        &&& self.string_synth.wf()
    }

    /// All variants at rest, the super square selected.
    pub fn new() -> (r: Self)
        ensures
            r.wf(),
            r.selected == OscillatorType::SuperSquare,
            r.super_square.master_phase == 0 && r.super_square.slave_phase == 0
                && r.super_square.next_sample == 0,
            r.variable_saw.phase == 0 && r.variable_saw.next_sample == 0,
            r.string_synth.phase == 0 && r.string_synth.next_sample == 0,
    {
        OscillatorEngine {
            super_square: SuperSquareOscillator::default(),
            variable_saw: VariableSawOscillator::default(),
            string_synth: StringSynthOscillator::default(),
            selected: OscillatorType::SuperSquare,
        }
    }

    /// Once per block: map the generic controls into the selected variant's
    /// parameters and prepare it.
    pub fn prepare_block(&mut self, params: OscillatorParams, frequency: i64, sample_rate: i64)
        requires
            old(self).wf(),
            params.wf(),
            0 <= frequency <= FREQ_MAX,
            1 <= sample_rate <= RATE_MAX,
        ensures
            *final(self) == engine_prepare_spec(*old(self), params, frequency as int,
                sample_rate as int),
            final(self).wf(),
            final(self).selected == old(self).selected,
    {
        match self.selected {
            OscillatorType::SuperSquare => {
                self.super_square.prepare(params.shape, frequency, sample_rate);
            }
            OscillatorType::VariableSaw => {
                let bent = if params.morph < HALF {
                    params.morph + HALF
                } else {
                    ONE - 2 * (params.morph - HALF)
                };
                let scaled = fx_mul(bent, 1153434);
                proof {
                    lemma_mul_bound(bent as int, 1153434, ONE as int, 1153434);
                    lemma_tdiv_bound(bent as int * 1153434, ONE as int, 1153434);
                }
                let saw_pw = clamp_i64(scaled, 5243, ONE);
                let saw_shape = clamp_i64(10 * ONE - 21 * params.shape, 0, ONE);
                self.variable_saw.prepare_block(saw_pw, saw_shape, frequency, sample_rate);
            }
            OscillatorType::StringSynth => {
                let scaled = fx_mul(params.morph, 10 * ONE);
                proof {
                    lemma_mul_bound(params.morph as int, 10 * ONE as int, ONE as int,
                        10 * ONE as int);
                    lemma_tdiv_bound(params.morph as int * 10 * ONE as int, ONE as int,
                        10 * ONE as int);
                    vstd::arithmetic::div_mod::lemma_div_pos_is_pos(params.morph as int * (10
                        * ONE) as int, ONE as int);
                    vstd::arithmetic::div_mod::lemma_div_pos_is_pos(scaled as int, ONE as int);
                    vstd::arithmetic::div_mod::lemma_div_is_ordered(scaled as int,
                        10 * ONE as int, ONE as int);
                    vstd::arithmetic::div_mod::lemma_div_by_multiple(10, ONE as int);
                }
                let row = tdiv_exec(scaled, ONE);
                self.string_synth.prepare_block(row, params.shape, frequency, sample_rate);
            }
        }
    }

    /// One sample from the selected variant.
    pub fn process(&mut self, frequency: i64, sample_rate: i64) -> (r: i64)
        requires
            old(self).wf(),
            0 <= frequency <= FREQ_MAX,
            1 <= sample_rate <= RATE_MAX,
        ensures
            (*final(self), r) == engine_step_spec(*old(self), frequency as int, sample_rate as int),
            final(self).wf(),
            -SY_OUT_MAX <= r <= SY_OUT_MAX,
            final(self).selected == old(self).selected,
    {
        match self.selected {
            OscillatorType::SuperSquare => self.super_square.process(),
            OscillatorType::VariableSaw => self.variable_saw.process(frequency, sample_rate),
            OscillatorType::StringSynth => self.string_synth.process(),
        }
    }
}

impl Default for OscillatorEngine {
    /// See `new`.
    fn default() -> (r: Self)
        ensures
            r.wf(),
            r.selected == OscillatorType::SuperSquare,
    {
        OscillatorEngine::new()
    }
}

} // verus!
