//! Variable-shape oscillator with hard sync: the general form behind the
//! super square. A master phasor resets a slave whose waveform blends saw,
//! square and triangle; every slave edge and every sync reset is
//! BLEP-corrected at its fractional time. The output is the master phasor,
//! shaped to stay continuous across its wrap, plus the corrected slave
//! signal scaled by the phase-modulation depth.

use crate::blep::{
    next_blep_sample, next_blep_spec, next_integrated_blep_sample, next_integrated_blep_spec,
    this_blep_sample, this_blep_spec, this_integrated_blep_sample, this_integrated_blep_spec,
};
use crate::envelope::RATE_MAX;
use crate::fixed::{clamp_i64, clamp_spec, div_clamp, div_clamp_spec, fx_mul, fx_mul_spec,
    lemma_mul_bound, lemma_tdiv_bound, tdiv_exec, HALF, ONE};
use vstd::prelude::*;

verus! {

/// Largest phase step, one quarter cycle per sample.
pub const DELTA_MAX: i64 = 262144;

/// Bound on the carried correction-plus-naive sample.
pub const VSHAPE_CARRY_MAX: i64 = 13631488;

/// Bound on the oscillator output.
pub const VSHAPE_OUT_MAX: i64 = 629145600;

#[derive(Clone, Copy, PartialEq, Eq, Structural, Debug)]
pub struct VariableShapeOscillator {
    /// Pulse width: slave phase position of the rising edge, Q20.
    pub pw: i64,
    /// Unit waveshape control; above one half it raises the square blend.
    pub waveshape: i64,
    /// How much of the corrected slave signal joins the output phasor.
    pub phase_modulation: i64,
    pub master_phase: i64,
    pub slave_phase: i64,
    /// Correction and naive value owed to the next sample.
    pub next_sample: i64,
    pub previous_pw: i64,
    /// Whether the slave is past its rising edge this cycle.
    pub high: bool,
}

/// The naive blended waveform at a phase: a saw faded toward a square and a
/// triangle by the two blend amounts.
pub open spec fn vshape_naive_spec(phase: int, pw: int, tri_amt: int, sq_amt: int) -> int {
    let square: int = if phase < pw {
        0
    } else {
        ONE as int
    };
    let triangle = if phase < pw {
        div_clamp_spec(phase, pw, 0, ONE as int)
    } else {
        ONE - div_clamp_spec(phase - pw, ONE - pw, 0, 2 * ONE as int)
    };
    let s1 = phase + fx_mul_spec(square - phase, sq_amt);
    s1 + fx_mul_spec(triangle - s1, tri_amt)
}

/// The slave's free-running edges within one sample: a rising edge where
/// the phase crosses the pulse width (a square step up and a slope break),
/// a falling edge where it wraps, and at most one further rising edge after
/// the wrap — more cannot fit, since the slave advances by at most a
/// quarter cycle per sample.
pub open spec fn vshape_edges_spec(sp0: int, high0: bool, prev_pw: int, pw: int, spd: int,
    sq: int, ts: int, tri: int, this0: int, carry0: int) -> (int, bool, int, int) {
    let up1 = !high0 && sp0 >= pw;
    let t1 = div_clamp_spec(sp0 - pw, prev_pw - pw + spd, 0, ONE as int);
    let high1 = if up1 { true } else { high0 };
    let this1 = if up1 {
        this0 + fx_mul_spec(sq, this_blep_spec(t1)) - fx_mul_spec(ts, this_integrated_blep_spec(t1))
    } else {
        this0
    };
    let carry1 = if up1 {
        carry0 + fx_mul_spec(sq, next_blep_spec(t1)) - fx_mul_spec(ts, next_integrated_blep_spec(t1))
    } else {
        carry0
    };
    let down = high1 && sp0 >= ONE;
    let sp2 = if down { sp0 - ONE } else { sp0 };
    let t2 = div_clamp_spec(sp2, spd, 0, ONE as int);
    let high2 = if down { false } else { high1 };
    let this2 = if down {
        this1 - fx_mul_spec(ONE as int - tri, this_blep_spec(t2))
            + fx_mul_spec(ts, this_integrated_blep_spec(t2))
    } else {
        this1
    };
    let carry2 = if down {
        carry1 - fx_mul_spec(ONE as int - tri, next_blep_spec(t2))
            + fx_mul_spec(ts, next_integrated_blep_spec(t2))
    } else {
        carry1
    };
    let up3 = !high2 && sp2 >= pw;
    let t3 = div_clamp_spec(sp2 - pw, prev_pw - pw + spd, 0, ONE as int);
    let high3 = if up3 { true } else { high2 };
    let this3 = if up3 {
        this2 + fx_mul_spec(sq, this_blep_spec(t3)) - fx_mul_spec(ts, this_integrated_blep_spec(t3))
    } else {
        this2
    };
    let carry3 = if up3 {
        carry2 + fx_mul_spec(sq, next_blep_spec(t3)) - fx_mul_spec(ts, next_integrated_blep_spec(t3))
    } else {
        carry2
    };
    (sp2, high3, this3, carry3)
}

/// The square and triangle blend amounts the waveshape control yields:
/// square rises above one half; the triangle term of this variant is
/// always zero, kept in the written form.
pub open spec fn vshape_amounts_spec(ws: int) -> (int, int) {
    let sq = if ws - HALF > 0 {
        2 * (ws - HALF)
    } else {
        0
    };
    let tri = if ONE - ws - 2 * ONE as int > 0 {
        ONE - ws - 2 * ONE as int
    } else {
        0
    };
    (sq, tri)
}

/// One full sample of the synced pair; see `process`.
pub open spec fn vshape_step_spec(o: VariableShapeOscillator, mpd: int, spd: int)
    -> (VariableShapeOscillator, i64) {
    let amounts = vshape_amounts_spec(o.waveshape as int);
    let sq = amounts.0;
    let tri = amounts.1;
    let su = div_clamp_spec(spd, o.pw as int, 0, ONE as int);
    let sd = div_clamp_spec(spd, ONE - o.pw as int, 0, ONE as int);
    let ts = fx_mul_spec(su + sd, tri);
    let this0 = o.next_sample as int;
    let mp1 = o.master_phase + mpd;
    let reset = mp1 >= ONE;
    let mp2 = if reset {
        mp1 - ONE
    } else {
        mp1
    };
    let rt = div_clamp_spec(mp2, mpd, 0, ONE as int);
    let spr0 = o.slave_phase + fx_mul_spec(ONE as int - rt, spd);
    let spr = if spr0 >= ONE {
        spr0 - ONE
    } else {
        spr0
    };
    let tdr = (spr0 >= ONE) || (!o.high && spr >= o.pw);
    let value = vshape_naive_spec(spr, o.pw as int, tri, sq);
    let this1 = if reset {
        this0 - fx_mul_spec(value, this_blep_spec(rt))
    } else {
        this0
    };
    let carry1: int = if reset {
        -fx_mul_spec(value, next_blep_spec(rt))
    } else {
        0
    };
    let edges = if !reset || tdr {
        vshape_edges_spec(o.slave_phase + spd, o.high, o.previous_pw as int, o.pw as int, spd, sq,
            ts, tri, this1, carry1)
    } else {
        (o.slave_phase + spd, o.high, this1, carry1)
    };
    let spf = if reset {
        fx_mul_spec(rt, spd)
    } else {
        edges.0
    };
    let highf = if reset {
        false
    } else {
        edges.1
    };
    let naive = vshape_naive_spec(spf, o.pw as int, tri, sq);
    let out = vshape_output_spec(edges.2, mp2, o.pw as int, o.phase_modulation as int);
    (VariableShapeOscillator {
        master_phase: mp2 as i64,
        slave_phase: spf as i64,
        high: highf,
        next_sample: (edges.3 + naive) as i64,
        previous_pw: o.pw,
        ..o
    }, out as i64)
}

/// The emitted value: the master phasor, bent toward its fourth power by
/// the pulse-width skew and kept continuous across the wrap by the window
/// `w * (2 - w)` on the slave signal, which joins scaled by the modulation
/// depth.
pub open spec fn vshape_output_spec(this1: int, mp2: int, pw: int, pm: int) -> int {
    let w = fx_mul_spec(4 * (ONE - mp2), mp2);
    let shaped = fx_mul_spec(this1, fx_mul_spec(w, 2 * ONE as int - w));
    let p2 = fx_mul_spec(mp2, mp2);
    let p4 = fx_mul_spec(p2, p2);
    let skew: int = if pw >= HALF {
        2 * (pw - HALF)
    } else {
        2 * (HALF - pw)
    };
    let phasor = mp2 + fx_mul_spec(p4 - mp2, skew);
    phasor + fx_mul_spec(pm, shaped)
}

/// The pulse width `prepare` settles on, as for the variable saw.
pub open spec fn vshape_pw_spec(pw_arg: int, pd: int) -> int {
    if pd >= DELTA_MAX {
        HALF as int
    } else {
        clamp_spec(pw_arg, 2 * pd, ONE - 2 * pd)
    }
}

impl Default for VariableShapeOscillator {
    /// A plain saw at half pulse width, no sync modulation depth.
    fn default() -> (r: Self)
        ensures
            r == (VariableShapeOscillator {
                pw: HALF,
                waveshape: 0,
                phase_modulation: 0,
                master_phase: 0,
                slave_phase: 0,
                next_sample: 0,
                previous_pw: HALF,
                high: false,
            }),
            r.wf(),
    {
        VariableShapeOscillator {
            pw: HALF,
            waveshape: 0,
            phase_modulation: 0,
            master_phase: 0,
            slave_phase: 0,
            next_sample: 0,
            previous_pw: HALF,
            high: false,
        }
    }
}

impl VariableShapeOscillator {
    pub open spec fn wf(self) -> bool {
        &&& 0 <= self.pw <= ONE
        &&& 0 <= self.previous_pw <= ONE
        &&& 0 <= self.waveshape <= ONE
        &&& 0 <= self.phase_modulation <= ONE
        &&& 0 <= self.master_phase < ONE
        &&& 0 <= self.slave_phase
        &&& self.slave_phase < ONE + 2 * DELTA_MAX
        &&& !self.high ==> self.slave_phase < ONE
        &&& -VSHAPE_CARRY_MAX <= self.next_sample <= VSHAPE_CARRY_MAX
    }

    /// Once per block: settle the pulse width and waveshape for the block's
    /// frequency, as the variable saw does.
    pub fn prepare(&mut self, pw: i64, waveshape: i64, frequency: i64, sample_rate: i64)
        requires
            old(self).wf(),
            0 <= waveshape <= ONE,
            0 <= frequency,
            1 <= sample_rate <= RATE_MAX,
        ensures
            *final(self) == (VariableShapeOscillator {
                pw: vshape_pw_spec(pw as int, frequency as int / sample_rate as int) as i64,
                waveshape,
                ..*old(self)
            }),
            final(self).wf(),
    {
        let phase_delta = tdiv_exec(frequency, sample_rate);
        proof {
            vstd::arithmetic::div_mod::lemma_div_pos_is_pos(frequency as int, sample_rate as int);
        }
        let new_pw = if phase_delta >= DELTA_MAX {
            HALF
        } else {
            clamp_i64(pw, 2 * phase_delta, ONE - 2 * phase_delta)
        };
        self.pw = new_pw;
        self.waveshape = waveshape;
    }

    /// One sample: advance the master; on its wrap, cancel the slave's value
    /// at the exact reset time, replay any slave edge inside the reset
    /// window, and restart the slave low at `reset_time * slave_step`.
    /// Otherwise let the slave run through its own BLEP-corrected edges. The
    /// emitted value is the shaped master phasor plus the corrected slave
    /// signal scaled by the modulation depth.
    #[verifier::rlimit(100)]
    pub fn process(&mut self, master_frequency: i64, slave_frequency: i64, sample_rate: i64)
        -> (r: i64)
        requires
            old(self).wf(),
            0 <= master_frequency,
            0 <= slave_frequency,
            1 <= sample_rate <= RATE_MAX,
        ensures
            ({
                let mpd = clamp_spec(master_frequency as int / sample_rate as int, 0,
                    DELTA_MAX as int);
                let spd = clamp_spec(slave_frequency as int / sample_rate as int, 0,
                    DELTA_MAX as int);
                (*final(self), r) == vshape_step_spec(*old(self), mpd, spd)
            }),
            final(self).wf(),
            -VSHAPE_OUT_MAX <= r <= VSHAPE_OUT_MAX,
    {
        let mpd0 = tdiv_exec(master_frequency, sample_rate);
        let spd0 = tdiv_exec(slave_frequency, sample_rate);
        proof {
            vstd::arithmetic::div_mod::lemma_div_pos_is_pos(master_frequency as int,
                sample_rate as int);
            vstd::arithmetic::div_mod::lemma_div_pos_is_pos(slave_frequency as int,
                sample_rate as int);
        }
        let mpd = clamp_i64(mpd0, 0, DELTA_MAX);
        let spd = clamp_i64(spd0, 0, DELTA_MAX);

        let sq = if self.waveshape - HALF > 0 {
            2 * (self.waveshape - HALF)
        } else {
            0
        };
        let tri = if ONE - self.waveshape - 2 * ONE > 0 {
            ONE - self.waveshape - 2 * ONE
        } else {
            0
        };
        let su = div_clamp(spd, self.pw, 0, ONE);
        let sd = div_clamp(spd, ONE - self.pw, 0, ONE);
        let ts = fx_mul(su + sd, tri);
        proof {
            lemma_mul_bound((su + sd) as int, tri as int, 2 * ONE as int, ONE as int);
            lemma_tdiv_bound((su + sd) as int * tri as int, ONE as int, 2 * ONE as int);
        }
        let this0 = self.next_sample;

        let mp1 = self.master_phase + mpd;
        let reset = mp1 >= ONE;
        let mp2 = if reset {
            mp1 - ONE
        } else {
            mp1
        };
        let rt = div_clamp(mp2, mpd, 0, ONE);
        let shrunk = fx_mul(ONE - rt, spd);
        proof {
            lemma_mul_bound((ONE - rt) as int, spd as int, ONE as int, DELTA_MAX as int);
            lemma_tdiv_bound((ONE - rt) as int * spd as int, ONE as int, DELTA_MAX as int);
        }
        let spr0 = self.slave_phase + shrunk;
        let spr = if spr0 >= ONE {
            spr0 - ONE
        } else {
            spr0
        };
        let tdr = (spr0 >= ONE) || (!self.high && spr >= self.pw);
        let value = vshape_naive(spr, self.pw, tri, sq);
        let mut this1 = this0;
        let mut carry1: i64 = 0;
        if reset {
            let cb_this = fx_mul(value, this_blep_sample(rt));
            let cb_next = fx_mul(value, next_blep_sample(rt));
            proof {
                lemma_mul_bound(value as int, this_blep_spec(rt as int), 2 * ONE as int,
                    HALF as int);
                lemma_tdiv_bound(value as int * this_blep_spec(rt as int), ONE as int, ONE as int);
                lemma_mul_bound(value as int, next_blep_spec(rt as int), 2 * ONE as int,
                    HALF as int);
                lemma_tdiv_bound(value as int * next_blep_spec(rt as int), ONE as int, ONE as int);
            }
            this1 = this0 - cb_this;
            carry1 = -cb_next;
        }

        let edges = if !reset || tdr {
            slave_edge_chain(self.slave_phase + spd, self.high, self.previous_pw, self.pw, spd,
                sq, ts, tri, this1, carry1)
        } else {
            (self.slave_phase + spd, self.high, this1, carry1)
        };
        let sp = edges.0;
        let high = edges.1;
        this1 = edges.2;
        carry1 = edges.3;

        let spf = if reset {
            let v = fx_mul(rt, spd);
            proof {
                lemma_mul_bound(rt as int, spd as int, ONE as int, DELTA_MAX as int);
                lemma_tdiv_bound(rt as int * spd as int, ONE as int, DELTA_MAX as int);
                vstd::arithmetic::div_mod::lemma_div_pos_is_pos(rt as int * spd as int,
                    ONE as int);
            }
            v
        } else {
            sp
        };
        let highf = if reset {
            false
        } else {
            high
        };
        let naive = vshape_naive(spf, self.pw, tri, sq);

        let out = shaped_output(this1, mp2, self.pw, self.phase_modulation);
        self.master_phase = mp2;
        self.slave_phase = spf;
        self.high = highf;
        self.next_sample = carry1 + naive;
        self.previous_pw = self.pw;
        out
    }
}

/// The slave edge chain, executable form.
fn slave_edge_chain(sp0: i64, high0: bool, prev_pw: i64, pw: i64, spd: i64, sq: i64, ts: i64,
    tri: i64, this0: i64, carry0: i64) -> (r: (i64, bool, i64, i64))
    requires
        0 <= sp0 <= 2 * ONE,
        0 <= pw <= ONE,
        0 <= prev_pw <= ONE,
        0 <= spd <= DELTA_MAX,
        0 <= sq <= ONE,
        0 <= tri <= ONE,
        -2 * ONE <= ts <= 2 * ONE,
        -16 * ONE <= this0 <= 16 * ONE,
        -ONE <= carry0 <= ONE,
    ensures
        (r.0 as int, r.1, r.2 as int, r.3 as int) == vshape_edges_spec(sp0 as int, high0,
            prev_pw as int, pw as int, spd as int, sq as int, ts as int, tri as int, this0 as int,
            carry0 as int),
        0 <= r.0 <= 2 * ONE,
        this0 - 9 * ONE <= r.2 <= this0 + 9 * ONE,
        carry0 - 9 * ONE <= r.3 <= carry0 + 9 * ONE,
        r.1 ==> r.0 == sp0 || r.0 == sp0 - ONE,
{
    let mut sp = sp0;
    let mut high = high0;
    let mut this1 = this0;
    let mut carry1 = carry0;
    if !high && sp >= pw {
        let t = div_clamp(sp - pw, prev_pw - pw + spd, 0, ONE);
        let (c_this, c_next) = edge_pair(sq, ts, t, true);
        this1 = this1 + c_this;
        carry1 = carry1 + c_next;
        high = true;
    }
    if high && sp >= ONE {
        sp = sp - ONE;
        let t = div_clamp(sp, spd, 0, ONE);
        let (c_this, c_next) = edge_pair(ONE - tri, ts, t, false);
        this1 = this1 + c_this;
        carry1 = carry1 + c_next;
        high = false;
    }
    if !high && sp >= pw {
        let t = div_clamp(sp - pw, prev_pw - pw + spd, 0, ONE);
        let (c_this, c_next) = edge_pair(sq, ts, t, true);
        this1 = this1 + c_this;
        carry1 = carry1 + c_next;
        high = true;
    }
    (sp, high, this1, carry1)
}

/// The output shaping stage, executable form.
fn shaped_output(this1: i64, mp2: i64, pw: i64, pm: i64) -> (r: i64)
    requires
        -24 * ONE <= this1 <= 24 * ONE,
        0 <= mp2 < ONE,
        0 <= pw <= ONE,
        0 <= pm <= ONE,
    ensures
        r == vshape_output_spec(this1 as int, mp2 as int, pw as int, pm as int),
        -VSHAPE_OUT_MAX <= r <= VSHAPE_OUT_MAX,
{
    let w = fx_mul(4 * (ONE - mp2), mp2);
    proof {
        lemma_mul_bound(4 * (ONE - mp2) as int, mp2 as int, 4 * ONE as int, ONE as int);
        lemma_tdiv_bound(4 * (ONE - mp2) as int * mp2 as int, ONE as int, 4 * ONE as int);
    }
    let wrest = fx_mul(w, 2 * ONE - w);
    proof {
        lemma_mul_bound(w as int, (2 * ONE - w) as int, 4 * ONE as int, 6 * ONE as int);
        lemma_tdiv_bound(w as int * (2 * ONE - w) as int, ONE as int, 24 * ONE as int);
    }
    let shaped = fx_mul(this1, wrest);
    proof {
        lemma_mul_bound(this1 as int, wrest as int, 24 * ONE as int, 24 * ONE as int);
        assert(24 * ONE as int * (24 * ONE as int) == 576 * ONE as int * ONE as int)
            by (nonlinear_arith);
        lemma_tdiv_bound(this1 as int * wrest as int, ONE as int, 576 * ONE as int);
    }
    let p2 = fx_mul(mp2, mp2);
    proof {
        lemma_mul_bound(mp2 as int, mp2 as int, ONE as int, ONE as int);
        lemma_tdiv_bound(mp2 as int * mp2 as int, ONE as int, ONE as int);
    }
    let p4 = fx_mul(p2, p2);
    proof {
        lemma_mul_bound(p2 as int, p2 as int, ONE as int, ONE as int);
        lemma_tdiv_bound(p2 as int * p2 as int, ONE as int, ONE as int);
    }
    let skew = if pw >= HALF {
        2 * (pw - HALF)
    } else {
        2 * (HALF - pw)
    };
    let bend = fx_mul(p4 - mp2, skew);
    proof {
        lemma_mul_bound((p4 - mp2) as int, skew as int, 2 * ONE as int, ONE as int);
        lemma_tdiv_bound((p4 - mp2) as int * skew as int, ONE as int, 2 * ONE as int);
    }
    let phasor = mp2 + bend;
    let pmod = fx_mul(pm, shaped);
    proof {
        lemma_mul_bound(pm as int, shaped as int, ONE as int, 576 * ONE as int);
        lemma_tdiv_bound(pm as int * shaped as int, ONE as int, 576 * ONE as int);
    }
    phasor + pmod
}

/// The naive blended waveform, executable form.
fn vshape_naive(phase: i64, pw: i64, tri_amt: i64, sq_amt: i64) -> (r: i64)
    requires
        0 <= phase <= 2 * ONE,
        0 <= pw <= ONE,
        0 <= tri_amt <= ONE,
        0 <= sq_amt <= ONE,
    ensures
        r == vshape_naive_spec(phase as int, pw as int, tri_amt as int, sq_amt as int),
        -2 * ONE <= r <= 2 * ONE,
{
    let square: i64 = if phase < pw {
        0
    } else {
        ONE
    };
    let triangle = if phase < pw {
        div_clamp(phase, pw, 0, ONE)
    } else {
        ONE - div_clamp(phase - pw, ONE - pw, 0, 2 * ONE)
    };
    let s1 = crate::util::cross_fade(phase, square, sq_amt);
    crate::util::cross_fade(s1, triangle, tri_amt)
}

/// The step and slope corrections of one slave edge: rising edges add the
/// square step and subtract the slope break, falling edges the reverse.
fn edge_pair(step: i64, ts: i64, t: i64, rising: bool) -> (r: (i64, i64))
    requires
        0 <= step <= ONE,
        -2 * ONE <= ts <= 2 * ONE,
        0 <= t <= ONE,
    ensures
        rising ==> r.0 == fx_mul_spec(step as int, this_blep_spec(t as int))
            - fx_mul_spec(ts as int, this_integrated_blep_spec(t as int)),
        rising ==> r.1 == fx_mul_spec(step as int, next_blep_spec(t as int))
            - fx_mul_spec(ts as int, next_integrated_blep_spec(t as int)),
        !rising ==> r.0 == -fx_mul_spec(step as int, this_blep_spec(t as int))
            + fx_mul_spec(ts as int, this_integrated_blep_spec(t as int)),
        !rising ==> r.1 == -fx_mul_spec(step as int, next_blep_spec(t as int))
            + fx_mul_spec(ts as int, next_integrated_blep_spec(t as int)),
        -3 * ONE <= r.0 <= 3 * ONE,
        -3 * ONE <= r.1 <= 3 * ONE,
{
    let tb = this_blep_sample(t);
    let nb = next_blep_sample(t);
    let ti = this_integrated_blep_sample(t);
    let ni = next_integrated_blep_sample(t);
    let s_this = fx_mul(step, tb);
    let s_next = fx_mul(step, nb);
    let t_this = fx_mul(ts, ti);
    let t_next = fx_mul(ts, ni);
    proof {
        lemma_mul_bound(step as int, tb as int, ONE as int, HALF as int);
        lemma_tdiv_bound(step as int * tb as int, ONE as int, HALF as int);
        lemma_mul_bound(step as int, nb as int, ONE as int, HALF as int);
        lemma_tdiv_bound(step as int * nb as int, ONE as int, HALF as int);
        lemma_mul_bound(ts as int, ti as int, 2 * ONE as int, ONE as int);
        lemma_tdiv_bound(ts as int * ti as int, ONE as int, 2 * ONE as int);
        lemma_mul_bound(ts as int, ni as int, 2 * ONE as int, ONE as int);
        lemma_tdiv_bound(ts as int * ni as int, ONE as int, 2 * ONE as int);
    }
    if rising {
        (s_this - t_this, s_next - t_next)
    } else {
        (t_this - s_this, t_next - s_next)
    }
}

} // verus!
