//! Variable-slope saw oscillator with an adjustable notch: the waveform
//! blends a notched sawtooth into a triangle under a unit `waveshape`
//! control. Each discontinuity (the rising notch edge at the pulse width and
//! the wrap at the end of the cycle) injects a BLEP step correction and an
//! integrated BLEP slope correction, split between the current sample and a
//! carry consumed by the next call.

use crate::blep::{
    next_blep_sample, next_blep_spec, next_integrated_blep_sample, next_integrated_blep_spec,
    this_blep_sample, this_blep_spec, this_integrated_blep_sample, this_integrated_blep_spec,
};
use crate::envelope::RATE_MAX;
use crate::fixed::{clamp_i64, clamp_spec, div_clamp, div_clamp_spec, fx_div, fx_div_spec, fx_mul,
    fx_mul_spec, lemma_fx_mul_scaled_bound, lemma_mul_bound, lemma_tdiv_bound, lemma_tdiv_mul_le,
    tdiv_exec, ONE};
use vstd::prelude::*;

verus! {

/// Depth of the sawtooth notch, `0.2` in Q20.
pub const NOTCH_DEPTH: i64 = 209715;

/// Largest phase step, one quarter cycle per sample.
pub const DELTA_MAX: i64 = 262144;

/// Bound on the carried correction-plus-naive sample: the naive waveform
/// spans at most `1 + NOTCH_DEPTH` units and one sample's corrections stay
/// under three quarters of a unit.
pub const VSAW_CARRY_MAX: i64 = 2097152;

/// Proved rail on the output: the scaled waveform itself occupies about
/// `[-0.84, 1]` units, and this constant also covers the worst-case BLEP
/// corrections after a parameter jump at a block boundary.
pub const VSAW_OUT_MAX: i64 = 5767168;

#[derive(Clone, Copy, PartialEq, Eq, Structural, Debug)]
pub struct VariableSawOscillator {
    /// Pulse width: phase position of the notch edge, Q20.
    pub pw: i64,
    /// Unit blend from notched saw (zero) to triangle (`ONE`).
    pub waveshape: i64,
    pub phase: i64,
    /// Whether the phase has crossed the notch edge this cycle.
    pub high: bool,
    /// Correction and naive value owed to the next sample.
    pub next_sample: i64,
    pub previous_pw: i64,
}

/// The naive (uncorrected) waveform value at a phase: a saw that jumps to
/// the notch ceiling past the pulse width, blended with a triangle rising to
/// the pulse width and falling after it.
pub open spec fn vsaw_naive_spec(phase: int, pw: int, tri_amt: int, notch_amt: int) -> int {
    let notch_saw = if phase < pw {
        phase
    } else {
        NOTCH_DEPTH + ONE as int
    };
    let triangle = if phase < pw {
        div_clamp_spec(phase, pw, 0, ONE as int)
    } else {
        ONE - div_clamp_spec(phase - pw, ONE - pw, 0, 2 * ONE as int)
    };
    fx_mul_spec(notch_saw, notch_amt) + fx_mul_spec(triangle, tri_amt)
}

/// The state after a step and the emitted sample: `phase2` and `high2` are
/// the new phase position, `this1` the corrected current sample, `carry`
/// the correction owed forward. The naive value at the new phase joins the
/// carry, and the output is scaled from `[0, 1.2]` into units.
pub open spec fn vsaw_finish_spec(o: VariableSawOscillator, phase2: int, high2: bool, this1: int,
    carry: int) -> (VariableSawOscillator, i64) {
    let naive = vsaw_naive_spec(phase2, o.pw as int, o.waveshape as int, ONE - o.waveshape as int);
    (VariableSawOscillator {
        phase: phase2 as i64,
        high: high2,
        next_sample: (carry + naive) as i64,
        previous_pw: o.pw,
        ..o
    }, fx_div_spec(2 * this1 - ONE, ONE + NOTCH_DEPTH as int) as i64)
}

/// One sample of the variable saw at phase step `pd`: the phase advances,
/// and if it crosses the notch edge or wraps, the step and slope
/// discontinuities are BLEP-corrected at their fractional time `t`.
pub open spec fn vsaw_step_spec(o: VariableSawOscillator, pd: int) -> (VariableSawOscillator, i64) {
    let tri_amt = o.waveshape as int;
    let notch_amt = ONE - o.waveshape as int;
    let phase1 = o.phase + pd;
    let su = div_clamp_spec(pd, o.pw as int, 0, ONE as int);
    let sd = div_clamp_spec(pd, ONE - o.pw as int, 0, ONE as int);
    let tri_step = fx_mul_spec(su + sd, tri_amt);
    if !o.high && phase1 >= o.pw {
        let notch = fx_mul_spec(NOTCH_DEPTH + ONE - o.pw as int, notch_amt);
        let t = div_clamp_spec(phase1 - o.pw, o.previous_pw - o.pw + pd, 0, ONE as int);
        let this1 = o.next_sample + fx_mul_spec(notch, this_blep_spec(t))
            - fx_mul_spec(tri_step, this_integrated_blep_spec(t));
        let carry = fx_mul_spec(notch, next_blep_spec(t))
            - fx_mul_spec(tri_step, next_integrated_blep_spec(t));
        vsaw_finish_spec(o, phase1, true, this1, carry)
    } else if phase1 >= ONE {
        let phase2 = phase1 - ONE;
        let notch = fx_mul_spec(NOTCH_DEPTH + ONE as int, notch_amt);
        let t = div_clamp_spec(phase2, pd, 0, ONE as int);
        let this1 = o.next_sample + fx_mul_spec(notch, this_blep_spec(t))
            - fx_mul_spec(tri_step, this_integrated_blep_spec(t));
        let carry = fx_mul_spec(notch, next_blep_spec(t))
            - fx_mul_spec(tri_step, next_integrated_blep_spec(t));
        vsaw_finish_spec(o, phase2, false, this1, carry)
    } else {
        vsaw_finish_spec(o, phase1, o.high, o.next_sample as int, 0)
    }
}

/// The pulse width `prepare_block` settles on: one half when the step is a
/// quarter cycle or more, otherwise the requested width held at least two
/// steps away from both edges so a full sample fits between them.
pub open spec fn vsaw_pw_spec(pw_arg: int, pd: int) -> int {
    if pd >= DELTA_MAX {
        crate::fixed::HALF as int
    } else {
        clamp_spec(pw_arg, 2 * pd, ONE - 2 * pd)
    }
}

impl Default for VariableSawOscillator {
    /// A pure notched saw at half pulse width, phase zero.
    fn default() -> (r: Self)
        ensures
            r == (VariableSawOscillator {
                pw: crate::fixed::HALF,
                waveshape: 0,
                phase: 0,
                high: false,
                next_sample: 0,
                previous_pw: crate::fixed::HALF,
            }),
            r.wf(),
    {
        VariableSawOscillator {
            pw: crate::fixed::HALF,
            waveshape: 0,
            phase: 0,
            high: false,
            next_sample: 0,
            previous_pw: crate::fixed::HALF,
        }
    }
}

impl VariableSawOscillator {
    pub open spec fn wf(self) -> bool {
        &&& 0 <= self.pw <= ONE
        &&& 0 <= self.previous_pw <= ONE
        &&& 0 <= self.waveshape <= ONE
        &&& 0 <= self.phase
        &&& !self.high ==> self.phase < ONE
        &&& self.high ==> self.phase < ONE + 2 * DELTA_MAX
        &&& -VSAW_CARRY_MAX <= self.next_sample <= VSAW_CARRY_MAX
    }

    /// Once per block: settle the pulse width and waveshape for the block's
    /// frequency.
    pub fn prepare_block(&mut self, pw: i64, waveshape: i64, frequency: i64, sample_rate: i64)
        requires
            old(self).wf(),
            0 <= waveshape <= ONE,
            0 <= frequency,
            1 <= sample_rate <= RATE_MAX,
        ensures
            *final(self) == (VariableSawOscillator {
                pw: vsaw_pw_spec(pw as int, frequency as int / sample_rate as int) as i64,
                waveshape,
                ..*old(self)
            }),
            final(self).wf(),
    {
        let phase_delta = tdiv_exec(frequency, sample_rate);
        proof {
            vstd::arithmetic::div_mod::lemma_div_pos_is_pos(frequency as int, sample_rate as int);
        }
        let new_pw = if phase_delta >= DELTA_MAX {
            crate::fixed::HALF
        } else {
            clamp_i64(pw, 2 * phase_delta, ONE - 2 * phase_delta)
        };
        self.pw = new_pw;
        self.waveshape = waveshape;
    }

    /// One sample: advance the phase by the frequency (clamped to a quarter
    /// cycle per sample), apply the BLEP corrections for any edge crossed,
    /// and emit the corrected previous-sample value scaled to units.
    pub fn process(&mut self, frequency: i64, sample_rate: i64) -> (r: i64)
        requires
            old(self).wf(),
            0 <= frequency,
            1 <= sample_rate <= RATE_MAX,
        ensures
            (*final(self), r) == vsaw_step_spec(*old(self),
                clamp_spec(frequency as int / sample_rate as int, 0, DELTA_MAX as int)),
            final(self).wf(),
            -VSAW_OUT_MAX <= r <= VSAW_OUT_MAX,
    {
        let raw_delta = tdiv_exec(frequency, sample_rate);
        proof {
            vstd::arithmetic::div_mod::lemma_div_pos_is_pos(frequency as int, sample_rate as int);
        }
        let pd = clamp_i64(raw_delta, 0, DELTA_MAX);

        let mut this_sample = self.next_sample;
        let tri_amt = self.waveshape;
        let notch_amt = ONE - self.waveshape;

        let su = div_clamp(pd, self.pw, 0, ONE);
        let sd = div_clamp(pd, ONE - self.pw, 0, ONE);
        let tri_step = fx_mul(su + sd, tri_amt);
        proof {
            assert((su + sd) as int * tri_amt as int >= 0
                && (su + sd) as int * tri_amt as int <= 2 * ONE as int * tri_amt as int)
                by (nonlinear_arith)
                requires
                    0 <= (su + sd) as int <= 2 * ONE as int,
                    0 <= tri_amt as int,
            ;
            lemma_tdiv_mul_le((su + sd) as int * tri_amt as int, ONE as int);
            assert(0 <= tri_step && tri_step <= 2 * tri_amt) by (nonlinear_arith)
                requires
                    0 <= ONE as int * tri_step as int,
                    ONE as int * tri_step as int <= 2 * ONE as int * tri_amt as int,
                    ONE == 1048576i64,
            ;
        }

        let phase1 = self.phase + pd;
        self.phase = phase1;
        let mut carry: i64 = 0;

        if !self.high && phase1 >= self.pw {
            let notch = fx_mul(NOTCH_DEPTH + ONE - self.pw, notch_amt);
            proof {
                assert((NOTCH_DEPTH + ONE - self.pw) as int * notch_amt as int >= 0
                    && (NOTCH_DEPTH + ONE - self.pw) as int * notch_amt as int
                        <= (NOTCH_DEPTH + ONE) as int * notch_amt as int) by (nonlinear_arith)
                    requires
                        0 <= (NOTCH_DEPTH + ONE - self.pw) as int <= (NOTCH_DEPTH + ONE) as int,
                        0 <= notch_amt as int,
                ;
                lemma_tdiv_mul_le((NOTCH_DEPTH + ONE - self.pw) as int * notch_amt as int,
                    ONE as int);
            }
            let t = div_clamp(phase1 - self.pw, self.previous_pw - self.pw + pd, 0, ONE);
            let (cb_this, cb_next) = blep_pair(notch, tri_step, t, notch_amt, tri_amt);
            this_sample = this_sample + cb_this;
            carry = cb_next;
            self.high = true;
        } else if phase1 >= ONE {
            let phase2 = phase1 - ONE;
            self.phase = phase2;
            let notch = fx_mul(NOTCH_DEPTH + ONE, notch_amt);
            proof {
                assert((NOTCH_DEPTH + ONE) as int * notch_amt as int >= 0) by (nonlinear_arith)
                    requires
                        0 <= notch_amt as int,
                ;
                lemma_tdiv_mul_le((NOTCH_DEPTH + ONE) as int * notch_amt as int, ONE as int);
            }
            let t = div_clamp(phase2, pd, 0, ONE);
            let (cb_this, cb_next) = blep_pair(notch, tri_step, t, notch_amt, tri_amt);
            this_sample = this_sample + cb_this;
            carry = cb_next;
            self.high = false;
        }

        let naive = vsaw_naive(self.phase, self.pw, tri_amt, notch_amt);
        self.next_sample = carry + naive;
        self.previous_pw = self.pw;

        let out = fx_div(2 * this_sample - ONE, ONE + NOTCH_DEPTH);
        proof {
            lemma_mul_bound((2 * this_sample - ONE) as int, ONE as int, 6815744, ONE as int);
            lemma_tdiv_bound((2 * this_sample - ONE) as int * ONE as int,
                (ONE + NOTCH_DEPTH) as int, VSAW_OUT_MAX as int);
        }
        out
    }
}

/// The naive waveform value, executable form.
fn vsaw_naive(phase: i64, pw: i64, tri_amt: i64, notch_amt: i64) -> (r: i64)
    requires
        0 <= phase <= 2 * ONE,
        0 <= pw <= ONE,
        0 <= tri_amt <= ONE,
        0 <= notch_amt <= ONE,
        tri_amt + notch_amt == ONE,
    ensures
        r == vsaw_naive_spec(phase as int, pw as int, tri_amt as int, notch_amt as int),
        -ONE <= r <= NOTCH_DEPTH + ONE,
{
    let notch_saw = if phase < pw {
        phase
    } else {
        NOTCH_DEPTH + ONE
    };
    let triangle = if phase < pw {
        div_clamp(phase, pw, 0, ONE)
    } else {
        ONE - div_clamp(phase - pw, ONE - pw, 0, 2 * ONE)
    };
    let a = fx_mul(notch_saw, notch_amt);
    let b = fx_mul(triangle, tri_amt);
    proof {
        // The two terms are a weighted blend: their weights sum to one, so
        // the sum stays between the smallest and largest operand values.
        lemma_fx_mul_scaled_bound(notch_amt as int, notch_saw as int, 0,
            (NOTCH_DEPTH + ONE) as int);
        lemma_fx_mul_scaled_bound(tri_amt as int, triangle as int, -ONE as int, ONE as int);
        assert(-ONE <= a + b && a + b <= NOTCH_DEPTH + ONE) by (nonlinear_arith)
            requires
                0 <= ONE as int * a as int,
                ONE as int * a as int <= notch_amt as int * ((NOTCH_DEPTH + ONE) as int),
                tri_amt as int * (-ONE as int) <= ONE as int * b as int,
                ONE as int * b as int <= tri_amt as int * (ONE as int),
                0 <= notch_amt as int,
                0 <= tri_amt as int,
                notch_amt as int + tri_amt as int == ONE as int,
                ONE == 1048576i64,
                NOTCH_DEPTH == 209715i64,
        ;
    }
    a + b
}

/// The step and slope corrections for one discontinuity at fractional time
/// `t`: the pair owed to the current sample and to the next one. The step
/// size is scaled by the notch weight and the slope break by the triangle
/// weight; since the two weights sum to one, the whole correction stays
/// under three quarters of a unit.
fn blep_pair(notch: i64, tri_step: i64, t: i64, notch_amt: i64, tri_amt: i64) -> (r: (i64, i64))
    requires
        0 <= notch_amt,
        0 <= tri_amt,
        notch_amt + tri_amt == ONE,
        0 <= notch,
        ONE * notch <= (NOTCH_DEPTH + ONE) * notch_amt,
        0 <= tri_step <= 2 * tri_amt,
        0 <= t <= ONE,
    ensures
        r.0 == fx_mul_spec(notch as int, this_blep_spec(t as int))
            - fx_mul_spec(tri_step as int, this_integrated_blep_spec(t as int)),
        r.1 == fx_mul_spec(notch as int, next_blep_spec(t as int))
            - fx_mul_spec(tri_step as int, next_integrated_blep_spec(t as int)),
        -786432 <= r.0 <= 786432,
        -786432 <= r.1 <= 786432,
{
    proof {
        assert(0 <= notch <= NOTCH_DEPTH + ONE) by (nonlinear_arith)
            requires
                0 <= notch,
                0 <= notch_amt <= ONE as int,
                ONE as int * notch as int <= (NOTCH_DEPTH + ONE) as int * notch_amt as int,
                ONE == 1048576i64,
                NOTCH_DEPTH == 209715i64,
        ;
    }
    let tb = this_blep_sample(t);
    let nb = next_blep_sample(t);
    let ti = this_integrated_blep_sample(t);
    let ni = next_integrated_blep_sample(t);
    let n_this = fx_mul(notch, tb);
    let n_next = fx_mul(notch, nb);
    let t_this = fx_mul(tri_step, ti);
    let t_next = fx_mul(tri_step, ni);
    proof {
        lemma_fx_mul_scaled_bound(notch as int, tb as int, 0, crate::fixed::HALF as int);
        lemma_fx_mul_scaled_bound(notch as int, nb as int, 0, crate::fixed::HALF as int);
        lemma_fx_mul_scaled_bound(tri_step as int, ti as int, -393216, 196608);
        lemma_fx_mul_scaled_bound(tri_step as int, ni as int, -393216, 196608);
        assert(-786432 <= n_this - t_this && n_this - t_this <= 786432
            && -786432 <= n_next - t_next && n_next - t_next <= 786432)
            by (nonlinear_arith)
            requires
                0 <= ONE as int * n_this as int,
                ONE as int * n_this as int <= notch as int * (crate::fixed::HALF as int),
                0 <= ONE as int * n_next as int,
                ONE as int * n_next as int <= notch as int * (crate::fixed::HALF as int),
                tri_step as int * (-393216) <= ONE as int * t_this as int,
                ONE as int * t_this as int <= tri_step as int * 196608,
                tri_step as int * (-393216) <= ONE as int * t_next as int,
                ONE as int * t_next as int <= tri_step as int * 196608,
                ONE as int * notch as int <= (NOTCH_DEPTH + ONE) as int * notch_amt as int,
                0 <= tri_step as int,
                tri_step as int <= 2 * tri_amt as int,
                0 <= notch as int,
                0 <= notch_amt as int,
                0 <= tri_amt as int,
                notch_amt as int + tri_amt as int == ONE as int,
                ONE == 1048576i64,
                NOTCH_DEPTH == 209715i64,
                crate::fixed::HALF == 524288i64,
        ;
    }
    (n_this - t_this, n_next - t_next)
}

} // verus!
