//! ADSR envelope: a five-stage level generator driven by trigger events.
//! All times are Q20 seconds; the per-sample output gain is Q20 in `[0, ONE]`.

use crate::fixed::{clamp_i64, clamp_spec, fx_div, fx_div_spec, fx_mul, idiv, lemma_mul_bound,
    lemma_tdiv_bound, ONE};
use vstd::prelude::*;

verus! {

/// Longest envelope segment duration accepted, in Q20 seconds (one hour).
pub const TIME_MAX: i64 = 3774873600;

/// Saturation rail for the running timers, far beyond any audible time.
pub const TIME_CAP: i64 = 1099511627776;

/// Highest sample rate accepted anywhere in the core, in plain Hz.
pub const RATE_MAX: i64 = 1000000;

pub enum EnvelopeEvent {
    Attack,
    Release,
}

#[derive(Clone, Copy, PartialEq, Eq, Structural, Debug)]
pub enum EnvelopeStage {
    Attack,
    Decay,
    Sustain,
    Release,
    /// The envelope is idle, not triggered.
    Idle,
}

#[derive(Clone, Copy, PartialEq, Eq, Structural, Debug)]
pub struct ADSR {
    /// The attack time in Q20 seconds.
    pub attack: i64,
    /// The decay time in Q20 seconds.
    pub decay: i64,
    /// The sustain level, Q20 in `[0, ONE]`.
    pub sustain: i64,
    /// The release time in Q20 seconds.
    pub release: i64,
    pub stage: EnvelopeStage,
    /// Q20 seconds since the current stage was entered.
    pub step_timer: i64,
    /// Q20 seconds since the last trigger; the voice allocator reads it.
    pub timer: i64,
}

impl ADSR {
    /// Durations positive and bounded, sustain a unit level, timers in range.
    pub open spec fn wf(self) -> bool {
        &&& 1 <= self.attack <= TIME_MAX
        &&& 1 <= self.decay <= TIME_MAX
        &&& 1 <= self.release <= TIME_MAX
        &&& 0 <= self.sustain <= ONE
        &&& 0 <= self.step_timer <= TIME_CAP
        &&& 0 <= self.timer <= TIME_CAP
    }
}

/// The Q20 duration of one sample at the given rate, rounded to nearest.
pub open spec fn env_step_spec(sample_rate: int) -> int {
    (ONE + sample_rate / 2) / sample_rate
}

/// A running timer advanced by one step, held at its saturation rail.
pub open spec fn time_sat_spec(t: int) -> int {
    if t > TIME_CAP {
        TIME_CAP as int
    } else {
        t
    }
}

/// Position within a stage of duration `d`, as a unit ramp value in `[0, ONE]`.
pub open spec fn stage_ramp_spec(t: int, d: int) -> int {
    clamp_spec(fx_div_spec(t, d), 0, ONE as int)
}

/// The gain emitted by `next` and the stage/timer updates it performs.
/// Each stage ramps linearly and hands over exactly at its boundary:
/// attack emits `ONE` once when its time has elapsed and enters decay;
/// decay emits `sustain` once and enters sustain; release emits `0` once
/// and goes idle; sustain holds `sustain`; idle holds `0`.
pub open spec fn adsr_next_spec(e: ADSR, sample_rate: int) -> (ADSR, i64) {
    let step = env_step_spec(sample_rate);
    let t2 = time_sat_spec(e.timer + step) as i64;
    match e.stage {
        EnvelopeStage::Attack => {
            if e.step_timer >= e.attack {
                (ADSR { stage: EnvelopeStage::Decay, step_timer: 0, timer: t2, ..e }, ONE)
            } else {
                let st = time_sat_spec(e.step_timer + step) as i64;
                let x = stage_ramp_spec(st as int, e.attack as int);
                (ADSR { step_timer: st, timer: t2, ..e }, x as i64)
            }
        }
        EnvelopeStage::Decay => {
            if e.step_timer >= e.decay {
                (ADSR { stage: EnvelopeStage::Sustain, step_timer: 0, timer: t2, ..e }, e.sustain)
            } else {
                let st = time_sat_spec(e.step_timer + step) as i64;
                let x = stage_ramp_spec(st as int, e.decay as int);
                let level = ONE - x + crate::fixed::fx_mul_spec(e.sustain as int, x);
                (ADSR { step_timer: st, timer: t2, ..e }, level as i64)
            }
        }
        EnvelopeStage::Sustain => (ADSR { timer: t2, ..e }, e.sustain),
        EnvelopeStage::Release => {
            if e.step_timer >= e.release {
                (ADSR { stage: EnvelopeStage::Idle, step_timer: 0, timer: t2, ..e }, 0)
            } else {
                let st = time_sat_spec(e.step_timer + step) as i64;
                let x = stage_ramp_spec(st as int, e.release as int);
                let level = crate::fixed::fx_mul_spec(e.sustain as int, ONE - x);
                (ADSR { step_timer: st, timer: t2, ..e }, level as i64)
            }
        }
        EnvelopeStage::Idle => (ADSR { timer: t2, ..e }, 0),
    }
}

impl Default for ADSR {
    /// A 50 ms attack, 1 ms decay, 0.8 sustain, 1 s release, idle.
    fn default() -> (r: Self)
        ensures
            r == (ADSR {
                attack: 52429,
                decay: 1049,
                sustain: 838861,
                release: ONE,
                stage: EnvelopeStage::Idle,
                step_timer: 104858,
                timer: 0,
            }),
            r.wf(),
    {
        ADSR {
            attack: 52429,
            decay: 1049,
            sustain: 838861,
            release: ONE,
            stage: EnvelopeStage::Idle,
            step_timer: 104858,
            timer: 0,
        }
    }
}

impl ADSR {
    /// Force the envelope back to its quiescent state.
    pub fn reset(&mut self)
        requires
            old(self).wf(),
        ensures
            *final(self) == (ADSR { stage: EnvelopeStage::Idle, step_timer: old(self).release, timer: 0, ..*old(self) }),
            final(self).wf(),
            !final(self).is_active_spec(),
    {
        self.stage = EnvelopeStage::Idle;
        self.step_timer = self.release;
        self.timer = 0;
    }

    /// Restart the envelope in attack or release, timers cleared.
    pub fn trigger(&mut self, event: EnvelopeEvent)
        requires
            old(self).wf(),
        ensures
            *final(self) == (ADSR {
                stage: match event {
                    EnvelopeEvent::Attack => EnvelopeStage::Attack,
                    EnvelopeEvent::Release => EnvelopeStage::Release,
                },
                step_timer: 0,
                timer: 0,
                ..*old(self)
            }),
            final(self).wf(),
    {
        self.step_timer = 0;
        self.timer = 0;
        match event {
            EnvelopeEvent::Attack => {
                self.stage = EnvelopeStage::Attack;
            }
            EnvelopeEvent::Release => {
                self.stage = EnvelopeStage::Release;
            }
        }
    }

    /// Advance by one sample and return the gain for it, Q20 in `[0, ONE]`.
    pub fn next(&mut self, sample_rate: i64) -> (r: i64)
        requires
            old(self).wf(),
            1 <= sample_rate <= RATE_MAX,
        ensures
            (*final(self), r) == adsr_next_spec(*old(self), sample_rate as int),
            final(self).wf(),
            0 <= r <= ONE,
            old(self).stage == EnvelopeStage::Attack && old(self).step_timer >= old(self).attack
                ==> r == ONE && final(self).stage == EnvelopeStage::Decay,
            old(self).stage == EnvelopeStage::Decay && old(self).step_timer >= old(self).decay
                ==> r == old(self).sustain && final(self).stage == EnvelopeStage::Sustain,
            old(self).stage == EnvelopeStage::Sustain
                ==> r == old(self).sustain && final(self).stage == EnvelopeStage::Sustain,
            old(self).stage == EnvelopeStage::Release && old(self).step_timer >= old(self).release
                ==> r == 0 && final(self).stage == EnvelopeStage::Idle,
            old(self).stage == EnvelopeStage::Idle ==> r == 0 && final(self).stage == EnvelopeStage::Idle,
            final(self).attack == old(self).attack && final(self).decay == old(self).decay
                && final(self).sustain == old(self).sustain && final(self).release == old(self).release,
    {
        let half_rate = idiv(sample_rate, 2);
        let step = idiv(ONE + half_rate, sample_rate);
        proof {
            lemma_tdiv_bound((ONE + half_rate) as int, sample_rate as int, 2 * ONE as int);
        }
        self.timer = add_time(self.timer, step);

        match self.stage {
            EnvelopeStage::Attack => {
                if self.step_timer >= self.attack {
                    self.stage = EnvelopeStage::Decay;
                    self.step_timer = 0;
                    return ONE;
                }
                self.step_timer = add_time(self.step_timer, step);
                stage_ramp(self.step_timer, self.attack)
            }
            EnvelopeStage::Decay => {
                if self.step_timer >= self.decay {
                    self.stage = EnvelopeStage::Sustain;
                    self.step_timer = 0;
                    return self.sustain;
                }
                self.step_timer = add_time(self.step_timer, step);
                let x = stage_ramp(self.step_timer, self.decay);
                proof {
                    lemma_mul_bound(self.sustain as int, x as int, ONE as int, x as int);
                    lemma_tdiv_bound(self.sustain as int * x as int, ONE as int, x as int);
                }
                ONE - x + fx_mul(self.sustain, x)
            }
            EnvelopeStage::Sustain => self.sustain,
            EnvelopeStage::Release => {
                if self.step_timer >= self.release {
                    self.stage = EnvelopeStage::Idle;
                    self.step_timer = 0;
                    return 0;
                }
                self.step_timer = add_time(self.step_timer, step);
                let x = stage_ramp(self.step_timer, self.release);
                proof {
                    lemma_mul_bound(self.sustain as int, (ONE - x) as int, ONE as int, (ONE - x) as int);
                    lemma_tdiv_bound(self.sustain as int * (ONE - x) as int, ONE as int, (ONE - x) as int);
                }
                fx_mul(self.sustain, ONE - x)
            }
            EnvelopeStage::Idle => 0,
        }
    }

    pub open spec fn is_active_spec(self) -> bool {
        self.stage != EnvelopeStage::Idle
    }

    /// True exactly while the envelope is in a non-idle stage.
    pub fn is_active(&self) -> (r: bool)
        ensures
            r == self.is_active_spec(),
    {
        match self.stage {
            EnvelopeStage::Idle => false,
            _ => true,
        }
    }
}

/// Advance a running timer, holding it at the saturation rail.
fn add_time(t: i64, step: i64) -> (r: i64)
    requires
        0 <= t <= TIME_CAP,
        0 <= step <= 2 * ONE,
    ensures
        r == time_sat_spec(t + step),
        0 <= r <= TIME_CAP,
{
    if t + step > TIME_CAP {
        TIME_CAP
    } else {
        t + step
    }
}

/// The unit ramp position `t / d`, clamped into `[0, ONE]`.
fn stage_ramp(t: i64, d: i64) -> (r: i64)
    requires
        0 <= t <= TIME_CAP,
        1 <= d <= TIME_MAX,
    ensures
        r == stage_ramp_spec(t as int, d as int),
        0 <= r <= ONE,
{
    let q = fx_div(t, d);
    clamp_i64(q, 0, ONE)
}

} // verus!
