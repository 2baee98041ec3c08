//! Hard-sync "super square" oscillator: a master phase at the fundamental
//! resets a slave square wave whenever it wraps. On a wrap, the exact
//! sub-sample reset time is computed; if a slave transition would have
//! occurred inside the reset window it is corrected first, then the slave
//! phase is forced to restart from the reset time. Within one sample the
//! slave crosses at most one rising and one falling edge, since it advances
//! by at most a quarter cycle per sample; the edge handling is written out
//! in that order.

use crate::blep::{next_blep_sample, next_blep_spec, this_blep_sample, this_blep_spec};
use crate::envelope::RATE_MAX;
use crate::fixed::{clamp_i64, clamp_spec, div_clamp, div_clamp_spec, fx_mul, fx_mul_spec,
    lemma_mul_bound, lemma_tdiv_bound, tdiv_exec, HALF, ONE};
use crate::smoother::LinearSmoother;
use crate::tuning::FREQ_MAX;
use vstd::prelude::*;

verus! {

/// Largest phase step, one quarter cycle per sample.
pub const DELTA_MAX: i64 = 262144;

/// Bound on the carried correction-plus-naive sample: the naive square
/// spans one unit and each sample carries at most two half-unit step
/// corrections forward.
pub const SS_CARRY_MAX: i64 = 2097152;

/// Proved rail on the output: the square itself swings over `[-1, 1]`
/// units, and this constant also covers the worst-case step corrections of
/// a sync reset landing beside a slave edge.
pub const SS_OUT_MAX: i64 = 7340032;

#[derive(Clone, Copy, PartialEq, Eq, Structural, Debug)]
pub struct SuperSquareOscillator {
    pub master_phase: i64,
    pub slave_phase: i64,
    /// Correction and naive value owed to the next sample.
    pub next_sample: i64,
    /// Whether the slave square is in its high half-cycle.
    pub high: bool,
    pub master_frequency: LinearSmoother,
    pub slave_frequency: LinearSmoother,
}

/// The slave square's free-running edges within one sample: starting from
/// advanced phase `sp`, an upward edge where the phase crosses one half and
/// a downward edge where it wraps, each BLEP-corrected at its fractional
/// time. Returns the new phase, the high flag, the corrected current sample
/// and the carry.
pub open spec fn ss_slave_edges_spec(sp: int, high: bool, sf: int, this0: int, carry0: int)
    -> (int, bool, int, int) {
    if !high {
        if sp >= HALF {
            let t = div_clamp_spec(sp - HALF, sf, 0, ONE as int);
            let this1 = this0 + this_blep_spec(t);
            let carry1 = carry0 + next_blep_spec(t);
            if sp >= ONE {
                let sp2 = sp - ONE;
                let t2 = div_clamp_spec(sp2, sf, 0, ONE as int);
                (sp2, false, this1 - this_blep_spec(t2), carry1 - next_blep_spec(t2))
            } else {
                (sp, true, this1, carry1)
            }
        } else {
            (sp, false, this0, carry0)
        }
    } else {
        if sp >= ONE {
            let sp2 = sp - ONE;
            let t2 = div_clamp_spec(sp2, sf, 0, ONE as int);
            (sp2, false, this0 - this_blep_spec(t2), carry0 - next_blep_spec(t2))
        } else {
            (sp, true, this0, carry0)
        }
    }
}

/// One sample of the hard-sync pair. If the master wraps, the slave's value
/// at the reset instant is cancelled with a step correction at the reset
/// time, any slave transition inside the reset window is corrected first,
/// and the slave restarts at `reset_time * slave_frequency`, low. Otherwise
/// the slave free-runs. The naive square at the final slave phase joins the
/// carry, and the output is the corrected previous value mapped to
/// `[-1, 1]` units.
pub open spec fn ss_step_spec(o: SuperSquareOscillator) -> (SuperSquareOscillator, i64) {
    let (m2, mf) = o.master_frequency.next_spec();
    let (s2, sf) = o.slave_frequency.next_spec();
    let this0 = o.next_sample as int;
    let mp1 = o.master_phase + mf;
    if mp1 >= ONE {
        let mp2 = mp1 - ONE;
        let rt = div_clamp_spec(mp2, mf as int, 0, ONE as int);
        let spr0 = o.slave_phase + fx_mul_spec(ONE as int - rt, sf as int);
        let spr = if spr0 >= ONE {
            spr0 - ONE
        } else {
            spr0
        };
        let tdr = (spr0 >= ONE) || (!o.high && spr >= HALF);
        let value: int = if spr < HALF {
            0
        } else {
            ONE as int
        };
        let this1 = this0 - fx_mul_spec(value, this_blep_spec(rt));
        let carry1 = -fx_mul_spec(value, next_blep_spec(rt));
        let edges = if tdr {
            ss_slave_edges_spec(o.slave_phase + sf, o.high, sf as int, this1, carry1)
        } else {
            (o.slave_phase + sf, o.high, this1, carry1)
        };
        let spf = fx_mul_spec(rt, sf as int);
        let naive: int = if spf < HALF {
            0
        } else {
            ONE as int
        };
        (SuperSquareOscillator {
            master_phase: mp2 as i64,
            slave_phase: spf as i64,
            high: false,
            next_sample: (edges.3 + naive) as i64,
            master_frequency: m2,
            slave_frequency: s2,
        }, (2 * edges.2 - ONE) as i64)
    } else {
        let edges = ss_slave_edges_spec(o.slave_phase + sf, o.high, sf as int, this0, 0);
        let naive: int = if edges.0 < HALF {
            0
        } else {
            ONE as int
        };
        (SuperSquareOscillator {
            master_phase: mp1 as i64,
            slave_phase: edges.0 as i64,
            high: edges.1,
            next_sample: (edges.3 + naive) as i64,
            master_frequency: m2,
            slave_frequency: s2,
        }, (2 * edges.2 - ONE) as i64)
    }
}

/// The slave-to-master frequency factor `prepare` derives from the shape
/// control: below one half the slave runs slower, from `0.51` up to the
/// master rate; above, faster, quadratically up to seventeen times the
/// rate at full shape.
pub open spec fn ss_shape_factor_spec(shape: int) -> int {
    if shape < HALF {
        534774 + fx_mul_spec(1027604, shape)
    } else {
        ONE + 64 * fx_mul_spec(shape - HALF, shape - HALF)
    }
}

/// The smoothing targets `prepare` sets: the master step is the normalized
/// frequency and the slave step is scaled by the shape factor, both clamped
/// into `[1, DELTA_MAX]`; each smoother then takes one step.
pub open spec fn ss_prepare_spec(o: SuperSquareOscillator, shape: int, freq: int, sr: int)
    -> SuperSquareOscillator {
    let raw = clamp_spec(freq / sr, 0, 4 * DELTA_MAX as int);
    let mtarget = clamp_spec(raw, 1, DELTA_MAX as int);
    let starget = clamp_spec(fx_mul_spec(raw, ss_shape_factor_spec(shape)), 1, DELTA_MAX as int);
    let m1 = LinearSmoother {
        target: mtarget as i64,
        steps_left: o.master_frequency.ramp_steps_spec(sr) as i64,
        ..o.master_frequency
    };
    let s1 = LinearSmoother {
        target: starget as i64,
        steps_left: o.slave_frequency.ramp_steps_spec(sr) as i64,
        ..o.slave_frequency
    };
    SuperSquareOscillator {
        master_frequency: m1.next_spec().0,
        slave_frequency: s1.next_spec().0,
        ..o
    }
}

impl Default for SuperSquareOscillator {
    /// Both phases at zero, two-millisecond frequency smoothing.
    fn default() -> (r: Self)
        ensures
            r == (SuperSquareOscillator {
                master_phase: 0,
                slave_phase: 0,
                next_sample: 0,
                high: false,
                master_frequency: LinearSmoother {
                    smoothing_ms: 2,
                    current: 0,
                    target: 0,
                    steps_left: 0,
                },
                slave_frequency: LinearSmoother {
                    smoothing_ms: 2,
                    current: 0,
                    target: 0,
                    steps_left: 0,
                },
            }),
            r.wf(),
    {
        SuperSquareOscillator {
            master_phase: 0,
            slave_phase: 0,
            next_sample: 0,
            high: false,
            master_frequency: LinearSmoother::new(2, 0),
            slave_frequency: LinearSmoother::new(2, 0),
        }
    }
}

impl SuperSquareOscillator {
    pub open spec fn wf(self) -> bool {
        &&& 0 <= self.master_phase < ONE
        &&& 0 <= self.slave_phase
        &&& self.high ==> self.slave_phase < ONE
        &&& !self.high ==> self.slave_phase < HALF
        &&& -SS_CARRY_MAX <= self.next_sample <= SS_CARRY_MAX
        &&& self.master_frequency.wf()
        &&& self.slave_frequency.wf()
        &&& 0 <= self.master_frequency.current <= DELTA_MAX
        &&& 0 <= self.master_frequency.target <= DELTA_MAX
        &&& 0 <= self.slave_frequency.current <= DELTA_MAX
        &&& 0 <= self.slave_frequency.target <= DELTA_MAX
    }

    /// Once per block: aim both frequency smoothers for the block's
    /// fundamental and shape control.
    pub fn prepare(&mut self, shape: i64, frequency: i64, sample_rate: i64)
        requires
            old(self).wf(),
            0 <= shape <= ONE,
            0 <= frequency <= FREQ_MAX,
            1 <= sample_rate <= RATE_MAX,
        ensures
            *final(self) == ss_prepare_spec(*old(self), shape as int, frequency as int,
                sample_rate as int),
            final(self).wf(),
    {
        let raw0 = tdiv_exec(frequency, sample_rate);
        proof {
            vstd::arithmetic::div_mod::lemma_div_pos_is_pos(frequency as int, sample_rate as int);
        }
        let raw = clamp_i64(raw0, 0, 4 * DELTA_MAX);
        let factor = if shape < HALF {
            let f = fx_mul(1027604, shape);
            proof {
                lemma_mul_bound(1027604, shape as int, 1027604, HALF as int);
                lemma_tdiv_bound(1027604 * shape as int, ONE as int, HALF as int);
                vstd::arithmetic::div_mod::lemma_div_pos_is_pos(1027604 * shape as int,
                    ONE as int);
            }
            534774 + f
        } else {
            let d = shape - HALF;
            let d2 = fx_mul(d, d);
            proof {
                lemma_mul_bound(d as int, d as int, HALF as int, HALF as int);
                lemma_tdiv_bound(d as int * d as int, ONE as int, 262144);
                assert(d as int * d as int >= 0) by (nonlinear_arith);
                vstd::arithmetic::div_mod::lemma_div_pos_is_pos(d as int * d as int, ONE as int);
            }
            ONE + 64 * d2
        };
        let mtarget = clamp_i64(raw, 1, DELTA_MAX);
        let sraw = fx_mul(raw, factor);
        proof {
            lemma_mul_bound(raw as int, factor as int, 4 * DELTA_MAX as int, 17 * ONE as int);
            lemma_tdiv_bound(raw as int * factor as int, ONE as int, 68 * DELTA_MAX as int);
        }
        let starget = clamp_i64(sraw, 1, DELTA_MAX);
        self.master_frequency.set_target(sample_rate, mtarget);
        let _ = self.master_frequency.next();
        self.slave_frequency.set_target(sample_rate, starget);
        let _ = self.slave_frequency.next();
    }

    /// One sample of the hard-sync square pair.
    pub fn process(&mut self) -> (r: i64)
        requires
            old(self).wf(),
        ensures
            (*final(self), r) == ss_step_spec(*old(self)),
            final(self).wf(),
            -SS_OUT_MAX <= r <= SS_OUT_MAX,
    {
        let mf = self.master_frequency.next();
        let sf = self.slave_frequency.next();
        let this0 = self.next_sample;

        let mp1 = self.master_phase + mf;
        if mp1 >= ONE {
            let mp2 = mp1 - ONE;
            let rt = div_clamp(mp2, mf, 0, ONE);
            let shrunk = fx_mul(ONE - rt, sf);
            proof {
                lemma_mul_bound((ONE - rt) as int, sf as int, ONE as int, DELTA_MAX as int);
                lemma_tdiv_bound((ONE - rt) as int * sf as int, ONE as int, DELTA_MAX as int);
            }
            let spr0 = self.slave_phase + shrunk;
            let spr = if spr0 >= ONE {
                spr0 - ONE
            } else {
                spr0
            };
            let tdr = (spr0 >= ONE) || (!self.high && spr >= HALF);
            let value: i64 = if spr < HALF {
                0
            } else {
                ONE
            };
            let cb_this = fx_mul(value, this_blep_sample(rt));
            let cb_next = fx_mul(value, next_blep_sample(rt));
            proof {
                lemma_mul_bound(value as int, this_blep_spec(rt as int), ONE as int, HALF as int);
                lemma_tdiv_bound(value as int * this_blep_spec(rt as int), ONE as int,
                    HALF as int);
                lemma_mul_bound(value as int, next_blep_spec(rt as int), ONE as int, HALF as int);
                lemma_tdiv_bound(value as int * next_blep_spec(rt as int), ONE as int,
                    HALF as int);
            }
            let this1 = this0 - cb_this;
            let carry1 = -cb_next;
            let (_sp, _hi, this2, carry2) = if tdr {
                slave_edges(self.slave_phase + sf, self.high, sf, this1, carry1)
            } else {
                (self.slave_phase + sf, self.high, this1, carry1)
            };
            let spf = fx_mul(rt, sf);
            proof {
                lemma_mul_bound(rt as int, sf as int, ONE as int, DELTA_MAX as int);
                lemma_tdiv_bound(rt as int * sf as int, ONE as int, DELTA_MAX as int);
                vstd::arithmetic::div_mod::lemma_div_pos_is_pos(rt as int * sf as int, ONE as int);
            }
            let naive: i64 = if spf < HALF {
                0
            } else {
                ONE
            };
            self.master_phase = mp2;
            self.slave_phase = spf;
            self.high = false;
            self.next_sample = carry2 + naive;
            2 * this2 - ONE
        } else {
            let (sp2, high2, this2, carry2) = slave_edges(self.slave_phase + sf, self.high, sf,
                this0, 0);
            let naive: i64 = if sp2 < HALF {
                0
            } else {
                ONE
            };
            self.master_phase = mp1;
            self.slave_phase = sp2;
            self.high = high2;
            self.next_sample = carry2 + naive;
            2 * this2 - ONE
        }
    }
}

/// The free-running slave edges within one sample, executable form.
fn slave_edges(sp: i64, high: bool, sf: i64, this0: i64, carry0: i64) -> (r: (i64, bool, i64, i64))
    requires
        0 <= sp <= 2 * ONE,
        !high ==> sp < ONE,
        0 <= sf <= DELTA_MAX,
        -2 * SS_CARRY_MAX <= this0 <= 2 * SS_CARRY_MAX,
        -ONE <= carry0 <= ONE,
    ensures
        (r.0 as int, r.1, r.2 as int, r.3 as int) == ss_slave_edges_spec(sp as int, high,
            sf as int, this0 as int, carry0 as int),
        0 <= r.0 <= 2 * ONE,
        this0 - HALF <= r.2 <= this0 + HALF,
        carry0 - HALF <= r.3 <= carry0 + HALF,
{
    if !high {
        if sp >= HALF {
            let t = div_clamp(sp - HALF, sf, 0, ONE);
            let this1 = this0 + this_blep_sample(t);
            let carry1 = carry0 + next_blep_sample(t);
            if sp >= ONE {
                let sp2 = sp - ONE;
                let t2 = div_clamp(sp2, sf, 0, ONE);
                (sp2, false, this1 - this_blep_sample(t2), carry1 - next_blep_sample(t2))
            } else {
                (sp, true, this1, carry1)
            }
        } else {
            (sp, false, this0, carry0)
        }
    } else {
        if sp >= ONE {
            let sp2 = sp - ONE;
            let t2 = div_clamp(sp2, sf, 0, ONE);
            (sp2, false, this0 - this_blep_sample(t2), carry0 - next_blep_sample(t2))
        } else {
            (sp, true, this0, carry0)
        }
    }
}

} // verus!
