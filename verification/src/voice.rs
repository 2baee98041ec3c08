//! One voice: an oscillator engine, a filter and an envelope bound to a
//! note identity. A voice renders one sample per call; its envelope decides
//! whether it is active, and the allocator re-triggers or steals it.

use crate::engine::{engine_prepare_spec, engine_step_spec, OscillatorEngine, OscillatorParams,
    OscillatorType};
use crate::envelope::{adsr_next_spec, EnvelopeEvent, EnvelopeStage, ADSR, RATE_MAX};
use crate::filter::{svf_coeffs_spec, svf_process_spec, Svf, RES_MIN};
use crate::fixed::{fx_mul, fx_mul_spec, lemma_mul_bound, lemma_tdiv_bound, tdiv_exec,
    FX_BIG, FX_LIMIT, ONE};
use crate::tuning::{db_to_gain, db_to_gain_spec, midi_note_to_freq, midi_note_to_freq_spec,
    FREQ_MAX};
use vstd::prelude::*;

verus! {

#[derive(Clone, Copy, PartialEq, Eq, Structural, Debug)]
pub struct Voice {
    pub oscillator: OscillatorEngine,
    pub filter: Svf,
    pub envelope: ADSR,
    /// The sounding MIDI note, meaningful while the voice is active.
    pub midi_note_id: u8,
    /// The note's frequency in Q20 Hz.
    pub midi_note_freq: i64,
    /// Unit velocity of the triggering note.
    pub midi_velocity: i64,
}

#[derive(Clone, Copy, PartialEq, Eq, Structural, Debug)]
pub struct VoiceParams {
    pub oscillator_type: OscillatorType,
    /// Unit shape control.
    pub shape: i64,
    /// Unit morph control.
    pub morph: i64,
    /// Output gain in Q20 decibels.
    pub gain: i64,
    /// Filter cutoff in Q20 Hz (the filter clamps the normalized value at
    /// its stability bound just below Nyquist).
    pub cutoff: i64,
    /// Filter resonance, Q20, at least `RES_MIN`.
    pub resonance: i64,
}

impl VoiceParams {
    pub open spec fn wf(self) -> bool {
        &&& 0 <= self.shape <= ONE
        &&& 0 <= self.morph <= ONE
        &&& -FX_LIMIT <= self.gain <= FX_LIMIT
        &&& 0 <= self.cutoff <= FX_BIG
        &&& RES_MIN <= self.resonance <= FX_LIMIT
    }
}

/// The voice after `prepare_block`: the selected variant switched in and
/// prepared for this voice's note.
#[verifier::opaque]
pub open spec fn voice_prepared_spec(v: Voice, p: VoiceParams, sr: int) -> Voice {
    Voice {
        oscillator: engine_prepare_spec(
            (OscillatorEngine { selected: p.oscillator_type, ..v.oscillator }),
            (OscillatorParams { shape: p.shape, morph: p.morph }),
            v.midi_note_freq as int,
            sr,
        ),
        ..v
    }
}

/// The voice and the sample it renders: the selected oscillator's sample,
/// scaled by the envelope gain, filtered, and scaled by the output gain.
#[verifier::opaque]
pub open spec fn voice_process_spec(v: Voice, p: VoiceParams, sr: int) -> (Voice, i64) {
    let coeffs = svf_coeffs_spec(p.cutoff as int / sr, p.resonance as int);
    let f1 = Svf { g: coeffs.0 as i64, r: coeffs.1 as i64, h: coeffs.2 as i64, ..v.filter };
    let (osc2, raw) = engine_step_spec(v.oscillator, v.midi_note_freq as int, sr);
    let (env2, gain) = adsr_next_spec(v.envelope, sr);
    let enveloped = fx_mul_spec(raw as int, gain as int);
    let (f2, filtered) = svf_process_spec(f1, enveloped);
    let out = fx_mul_spec(filtered as int, db_to_gain_spec(p.gain as int));
    (Voice { oscillator: osc2, filter: f2, envelope: env2, ..v }, out as i64)
}

impl Voice {
    pub open spec fn wf(self) -> bool {
        &&& self.oscillator.wf()
        &&& self.filter.wf()
        &&& self.envelope.wf()
        &&& self.midi_note_id < 128
        &&& 1 <= self.midi_note_freq <= FREQ_MAX
        &&& 0 <= self.midi_velocity <= ONE
    }

    /// A voice is active exactly while its envelope is.
    pub open spec fn is_active_spec(self) -> bool {
        self.envelope.is_active_spec()
    }

    /// A fresh, idle voice on note zero at unit velocity.
    pub fn new() -> (r: Self)
        ensures
            r.wf(),
            !r.is_active_spec(),
            r.midi_note_id == 0,
            r.midi_note_freq == ONE,
            r.midi_velocity == ONE,
            r.envelope == (ADSR {
                attack: 52429,
                decay: 1049,
                sustain: 838861,
                release: ONE,
                stage: EnvelopeStage::Idle,
                step_timer: 104858,
                timer: 0,
            }),
    {
        Voice {
            oscillator: OscillatorEngine::new(),
            filter: Svf::default(),
            envelope: ADSR::default(),
            midi_note_id: 0,
            midi_note_freq: ONE,
            midi_velocity: ONE,
        }
    }

    pub fn is_active(&self) -> (r: bool)
        ensures
            r == self.is_active_spec(),
    {
        self.envelope.is_active()
    }

    /// Start the note: bind the note identity and restart the envelope's
    /// attack.
    pub fn trigger(&mut self, note: u8, velocity: i64)
        requires
            old(self).wf(),
            note < 128,
            0 <= velocity <= ONE,
        ensures
            *final(self) == (Voice {
                midi_note_id: note,
                midi_note_freq: midi_note_to_freq_spec(note) as i64,
                midi_velocity: velocity,
                envelope: (ADSR {
                    stage: EnvelopeStage::Attack,
                    step_timer: 0,
                    timer: 0,
                    ..old(self).envelope
                }),
                ..*old(self)
            }),
            final(self).wf(),
    {
        self.midi_note_id = note;
        self.midi_note_freq = midi_note_to_freq(note);
        self.midi_velocity = velocity;
        self.envelope.trigger(EnvelopeEvent::Attack);
    }

    /// A note-on for the note this voice already holds: in decay or sustain
    /// only the timers restart (a legato re-articulation, no level jump);
    /// in any other stage the attack restarts in full. The note frequency is
    /// re-derived either way, settling the placeholder a never-triggered
    /// voice carries.
    pub fn retrigger(&mut self, velocity: i64)
        requires
            old(self).wf(),
            0 <= velocity <= ONE,
        ensures
            old(self).envelope.stage == EnvelopeStage::Decay
                || old(self).envelope.stage == EnvelopeStage::Sustain
                ==> *final(self) == (Voice {
                    midi_note_freq: midi_note_to_freq_spec(old(self).midi_note_id) as i64,
                    midi_velocity: velocity,
                    envelope: (ADSR { step_timer: 0, timer: 0, ..old(self).envelope }),
                    ..*old(self)
                }),
            old(self).envelope.stage != EnvelopeStage::Decay
                && old(self).envelope.stage != EnvelopeStage::Sustain
                ==> *final(self) == (Voice {
                    midi_note_freq: midi_note_to_freq_spec(old(self).midi_note_id) as i64,
                    midi_velocity: velocity,
                    envelope: (ADSR {
                        stage: EnvelopeStage::Attack,
                        step_timer: 0,
                        timer: 0,
                        ..old(self).envelope
                    }),
                    ..*old(self)
                }),
            final(self).wf(),
            final(self).midi_note_id == old(self).midi_note_id,
    {
        self.midi_note_freq = midi_note_to_freq(self.midi_note_id);
        self.midi_velocity = velocity;
        match self.envelope.stage {
            EnvelopeStage::Decay | EnvelopeStage::Sustain => {
                self.envelope.step_timer = 0;
                self.envelope.timer = 0;
            }
            _ => {
                self.envelope.trigger(EnvelopeEvent::Attack);
            }
        }
    }

    /// Let the note go: the envelope enters its release ramp.
    pub fn release(&mut self)
        requires
            old(self).wf(),
        ensures
            *final(self) == (Voice {
                envelope: (ADSR {
                    stage: EnvelopeStage::Release,
                    step_timer: 0,
                    timer: 0,
                    ..old(self).envelope
                }),
                ..*old(self)
            }),
            final(self).wf(),
    {
        self.envelope.trigger(EnvelopeEvent::Release);
    }

    /// Once per block: select the oscillator variant and prepare it for
    /// this voice's note.
    pub fn prepare_block(&mut self, params: VoiceParams, sample_rate: i64)
        requires
            old(self).wf(),
            params.wf(),
            1 <= sample_rate <= RATE_MAX,
        ensures
            *final(self) == voice_prepared_spec(*old(self), params, sample_rate as int),
            final(self).wf(),
    {
        proof {
            reveal(voice_prepared_spec);
        }
        self.oscillator.selected = params.oscillator_type;
        self.oscillator.prepare_block(
            OscillatorParams { shape: params.shape, morph: params.morph },
            self.midi_note_freq,
            sample_rate,
        );
    }

    /// Render one sample: set the filter from the block parameters, draw
    /// the oscillator, apply the envelope gain, filter, and scale by the
    /// output gain.
    pub fn process(&mut self, params: VoiceParams, sample_rate: i64) -> (r: i64)
        requires
            old(self).wf(),
            params.wf(),
            1 <= sample_rate <= RATE_MAX,
        ensures
            (*final(self), r) == voice_process_spec(*old(self), params, sample_rate as int),
            final(self).wf(),
            -FX_LIMIT <= r <= FX_LIMIT,
            final(self).midi_note_id == old(self).midi_note_id,
            final(self).envelope.stage == adsr_next_spec(old(self).envelope,
                sample_rate as int).0.stage,
    {
        proof {
            reveal(voice_process_spec);
        }
        let nf = tdiv_exec(params.cutoff, sample_rate);
        proof {
            vstd::arithmetic::div_mod::lemma_div_pos_is_pos(params.cutoff as int,
                sample_rate as int);
        }
        self.filter.set_f_q(nf, params.resonance);
        let raw = self.oscillator.process(self.midi_note_freq, sample_rate);
        let gain = self.envelope.next(sample_rate);
        let enveloped = fx_mul(raw, gain);
        proof {
            lemma_mul_bound(raw as int, gain as int, crate::string_synth::SY_OUT_MAX as int,
                ONE as int);
            lemma_tdiv_bound(raw as int * gain as int, ONE as int,
                crate::string_synth::SY_OUT_MAX as int);
        }
        let filtered = self.filter.process(enveloped);
        let out_gain = db_to_gain(params.gain);
        let out = fx_mul(filtered, out_gain);
        proof {
            lemma_mul_bound(filtered as int, out_gain as int, FX_LIMIT as int, ONE as int);
            lemma_tdiv_bound(filtered as int * out_gain as int, ONE as int, FX_LIMIT as int);
        }
        out
    }
}

} // verus!
