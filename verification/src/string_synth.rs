//! String-synth (additive) oscillator: a weighted sum of four saw-like
//! harmonics (the 8', 4', 2' and 1' registers), with gains drawn from an
//! eleven-row registration table and smoothed per sample. The running phase
//! spans eight segments of one cycle of the lowest register; every segment
//! boundary injects a BLEP step correction sized by the net gain
//! discontinuity there. Fundamentals that would alias are octave-shifted
//! down; past a shift of eight the block's update is silently skipped.

use crate::blep::{next_blep_sample, next_blep_spec, this_blep_sample, this_blep_spec};
use crate::envelope::RATE_MAX;
use crate::fixed::{clamp_i64, clamp_spec, div_clamp, div_clamp_spec, fx_mul, fx_mul_spec,
    lemma_mul_bound, lemma_tdiv_bound, lemma_tdiv_shrinks, tdiv, tdiv_exec, HALF, ONE};
use crate::smoother::LinearSmoother;
use crate::tuning::FREQ_MAX;
use vstd::arithmetic::div_mod::{lemma_div_is_ordered, lemma_div_pos_is_pos,
    lemma_fundamental_div_mod, lemma_mod_division_less_than_divisor};
use vstd::prelude::*;

verus! {

/// Largest phase step, one quarter cycle per sample.
pub const DELTA_MAX: i64 = 262144;

/// Bound on the four smoothed register gains.
pub const GAIN_MAX: i64 = 4194304;

/// Bound on the carried correction-plus-naive sample.
pub const SY_CARRY_MAX: i64 = 167772160;

/// Bound on the oscillator output.
pub const SY_OUT_MAX: i64 = 419430400;

/// How many rows the registration table has.
pub const REGISTRATION_ROWS: i64 = 11;

/// The registration table, flattened row-major: eleven mixtures of seven
/// harmonic weights, from a plain saw through hybrids to a plain square.
pub open spec fn registration_entry_spec(i: int) -> i64 {
    if i == 0 {
        1048576i64
    } else
    if i == 1 {
        0i64
    } else
    if i == 2 {
        0i64
    } else
    if i == 3 {
        0i64
    } else
    if i == 4 {
        0i64
    } else
    if i == 5 {
        0i64
    } else
    if i == 6 {
        0i64
    } else
    if i == 7 {
        524288i64
    } else
    if i == 8 {
        0i64
    } else
    if i == 9 {
        524288i64
    } else
    if i == 10 {
        0i64
    } else
    if i == 11 {
        0i64
    } else
    if i == 12 {
        0i64
    } else
    if i == 13 {
        0i64
    } else
    if i == 14 {
        419430i64
    } else
    if i == 15 {
        0i64
    } else
    if i == 16 {
        209715i64
    } else
    if i == 17 {
        0i64
    } else
    if i == 18 {
        419430i64
    } else
    if i == 19 {
        0i64
    } else
    if i == 20 {
        0i64
    } else
    if i == 21 {
        314573i64
    } else
    if i == 22 {
        0i64
    } else
    if i == 23 {
        0i64
    } else
    if i == 24 {
        314573i64
    } else
    if i == 25 {
        0i64
    } else
    if i == 26 {
        419430i64
    } else
    if i == 27 {
        0i64
    } else
    if i == 28 {
        314573i64
    } else
    if i == 29 {
        0i64
    } else
    if i == 30 {
        0i64
    } else
    if i == 31 {
        0i64
    } else
    if i == 32 {
        0i64
    } else
    if i == 33 {
        734003i64
    } else
    if i == 34 {
        0i64
    } else
    if i == 35 {
        209715i64
    } else
    if i == 36 {
        0i64
    } else
    if i == 37 {
        0i64
    } else
    if i == 38 {
        209715i64
    } else
    if i == 39 {
        0i64
    } else
    if i == 40 {
        629146i64
    } else
    if i == 41 {
        0i64
    } else
    if i == 42 {
        0i64
    } else
    if i == 43 {
        209715i64
    } else
    if i == 44 {
        104858i64
    } else
    if i == 45 {
        0i64
    } else
    if i == 46 {
        209715i64
    } else
    if i == 47 {
        524288i64
    } else
    if i == 48 {
        0i64
    } else
    if i == 49 {
        0i64
    } else
    if i == 50 {
        314573i64
    } else
    if i == 51 {
        0i64
    } else
    if i == 52 {
        314573i64
    } else
    if i == 53 {
        0i64
    } else
    if i == 54 {
        419430i64
    } else
    if i == 55 {
        0i64
    } else
    if i == 56 {
        0i64
    } else
    if i == 57 {
        419430i64
    } else
    if i == 58 {
        0i64
    } else
    if i == 59 {
        314573i64
    } else
    if i == 60 {
        0i64
    } else
    if i == 61 {
        314573i64
    } else
    if i == 62 {
        0i64
    } else
    if i == 63 {
        0i64
    } else
    if i == 64 {
        524288i64
    } else
    if i == 65 {
        0i64
    } else
    if i == 66 {
        524288i64
    } else
    if i == 67 {
        0i64
    } else
    if i == 68 {
        0i64
    } else
    if i == 69 {
        0i64
    } else
    if i == 70 {
        0i64
    } else
    if i == 71 {
        1048576i64
    } else
    if i == 72 {
        0i64
    } else
    if i == 73 {
        0i64
    } else
    if i == 74 {
        0i64
    } else
    if i == 75 {
        0i64
    } else {
        0i64
    }
}

/// Entry `col` of registration row `row`.
pub fn registration_entry(row: i64, col: i64) -> (r: i64)
    requires
        0 <= row < REGISTRATION_ROWS,
        0 <= col < 7,
    ensures
        r == registration_entry_spec(row * 7 + col),
{
    let i = row * 7 + col;
    match i {
        0 => 1048576,
        1 => 0,
        2 => 0,
        3 => 0,
        4 => 0,
        5 => 0,
        6 => 0,
        7 => 524288,
        8 => 0,
        9 => 524288,
        10 => 0,
        11 => 0,
        12 => 0,
        13 => 0,
        14 => 419430,
        15 => 0,
        16 => 209715,
        17 => 0,
        18 => 419430,
        19 => 0,
        20 => 0,
        21 => 314573,
        22 => 0,
        23 => 0,
        24 => 314573,
        25 => 0,
        26 => 419430,
        27 => 0,
        28 => 314573,
        29 => 0,
        30 => 0,
        31 => 0,
        32 => 0,
        33 => 734003,
        34 => 0,
        35 => 209715,
        36 => 0,
        37 => 0,
        38 => 209715,
        39 => 0,
        40 => 629146,
        41 => 0,
        42 => 0,
        43 => 209715,
        44 => 104858,
        45 => 0,
        46 => 209715,
        47 => 524288,
        48 => 0,
        49 => 0,
        50 => 314573,
        51 => 0,
        52 => 314573,
        53 => 0,
        54 => 419430,
        55 => 0,
        56 => 0,
        57 => 419430,
        58 => 0,
        59 => 314573,
        60 => 0,
        61 => 314573,
        62 => 0,
        63 => 0,
        64 => 524288,
        65 => 0,
        66 => 524288,
        67 => 0,
        68 => 0,
        69 => 0,
        70 => 0,
        71 => 1048576,
        72 => 0,
        73 => 0,
        74 => 0,
        75 => 0,
        _ => 0,
    }
}

/// All registration weights are unit-bounded.
proof fn lemma_registration_bounds()
    ensures
        forall|i: int| 0 <= i < 77 ==> 0 <= #[trigger] registration_entry_spec(i) <= ONE,
{
}

/// The shifted registration: weight `col` after the harmonics move up by
/// `shift` places (the octave shift), zeros filling from below.
pub open spec fn shifted_registration_spec(row: int, shift: int, col: int) -> int {
    if col >= shift {
        registration_entry_spec(row * 7 + (col - shift)) as int
    } else {
        0
    }
}

/// How far the octave shift must go: two places per halving until the phase
/// step is at most half a cycle.
pub open spec fn octave_shift_spec(pd: int) -> int
    decreases pd,
{
    if pd <= HALF {
        0
    } else {
        2 + octave_shift_spec(pd / 2)
    }
}

/// The phase step after the octave shift's halvings.
pub open spec fn shifted_delta_spec(pd: int) -> int
    decreases pd,
{
    if pd <= HALF {
        pd
    } else {
        shifted_delta_spec(pd / 2)
    }
}

#[derive(Clone, Copy, PartialEq, Eq, Structural, Debug)]
pub struct StringSynthOscillator {
    /// Runs over eight segments, `[0, 8 * ONE)`.
    pub phase: i64,
    /// The whole part of the phase, `[0, 8)`.
    pub segment: i64,
    /// Correction and naive value owed to the next sample.
    pub next_sample: i64,
    pub frequency: LinearSmoother,
    pub saw_8_gain: LinearSmoother,
    pub saw_4_gain: LinearSmoother,
    pub saw_2_gain: LinearSmoother,
    pub saw_1_gain: LinearSmoother,
}

/// `segment & 4` for segments below eight, arithmetically.
pub open spec fn seg_and4_spec(seg: int) -> int {
    if seg >= 4 {
        4
    } else {
        0
    }
}

/// `segment & 6` for segments below eight, arithmetically.
pub open spec fn seg_and6_spec(seg: int) -> int {
    seg - seg % 2
}

/// The gain targets of one block: each register's weight minus the weight
/// it hands to the register above, the topmost doubled in.
pub open spec fn register_gain_spec(row: int, shift: int, gain: int, a: int, b: int, c: int)
    -> int {
    fx_mul_spec(gain, shifted_registration_spec(row, shift, a)
        - (if b >= 0 { shifted_registration_spec(row, shift, b) } else { 0 })
        + (if c >= 0 { 2 * shifted_registration_spec(row, shift, c) } else { 0 }))
}

/// The oscillator after `prepare_block`: nothing changes when the octave
/// shift reaches eight; otherwise the frequency smoother aims at the
/// shifted, clamped phase step and the four gain smoothers at the shifted
/// register mixture, each stepping once.
pub open spec fn sy_prepare_spec(o: StringSynthOscillator, row: int, gain: int, freq: int,
    sr: int) -> StringSynthOscillator {
    let pd = freq / sr;
    let shift = octave_shift_spec(pd);
    if shift >= 8 {
        o
    } else {
        let target = clamp_spec(shifted_delta_spec(pd), 1, DELTA_MAX as int);
        let g8 = register_gain_spec(row, shift, gain, 0, -1, 1);
        let g4 = register_gain_spec(row, shift, gain, 2, 1, 3);
        let g2 = register_gain_spec(row, shift, gain, 4, 3, 5);
        let g1 = register_gain_spec(row, shift, gain, 6, 5, -1);
        StringSynthOscillator {
            frequency: aimed(o.frequency, sr, target),
            saw_8_gain: aimed(o.saw_8_gain, sr, g8),
            saw_4_gain: aimed(o.saw_4_gain, sr, g4),
            saw_2_gain: aimed(o.saw_2_gain, sr, g2),
            saw_1_gain: aimed(o.saw_1_gain, sr, g1),
            ..o
        }
    }
}

/// A smoother re-aimed at a target and stepped once.
pub open spec fn aimed(s: LinearSmoother, sr: int, target: int) -> LinearSmoother {
    let s1 = LinearSmoother {
        target: target as i64,
        steps_left: s.ramp_steps_spec(sr) as i64,
        ..s
    };
    s1.next_spec().0
}

/// One sample of the additive sum. The phase advances; when it enters a new
/// segment, the registers whose saws wrap there lose their gain in one step,
/// and that net discontinuity is BLEP-corrected at its fractional time. The
/// four naive saw ramps at the new phase then join the carry.
pub open spec fn sy_step_spec(o: StringSynthOscillator) -> (StringSynthOscillator, i64) {
    let (fs, f) = o.frequency.next_spec();
    let (g8s, g8) = o.saw_8_gain.next_spec();
    let (g4s, g4) = o.saw_4_gain.next_spec();
    let (g2s, g2) = o.saw_2_gain.next_spec();
    let (g1s, g1) = o.saw_1_gain.next_spec();
    let this0 = o.next_sample as int;
    let phase1 = o.phase + f;
    let seg1 = phase1 / ONE as int;
    let wrapped = seg1 == 8;
    let phase2 = if wrapped { phase1 - 8 * ONE } else { phase1 };
    let seg2 = if wrapped { 0 } else { seg1 };
    let changed = seg1 != o.segment;
    let disc = sy_disc_spec(changed, wrapped, seg2, g8 as int, g4 as int, g2 as int, g1 as int);
    let t = div_clamp_spec(phase2 - seg2 * ONE, f as int, 0, ONE as int);
    let this1 = if disc != 0 { this0 + fx_mul_spec(disc, this_blep_spec(t)) } else { this0 };
    let carry = if disc != 0 { fx_mul_spec(disc, next_blep_spec(t)) } else { 0 };
    (StringSynthOscillator {
        phase: phase2 as i64,
        segment: seg2 as i64,
        next_sample: (carry + sy_naive_spec(phase2, seg2, g8 as int, g4 as int, g2 as int,
            g1 as int)) as i64,
        frequency: fs,
        saw_8_gain: g8s,
        saw_4_gain: g4s,
        saw_2_gain: g2s,
        saw_1_gain: g1s,
    }, (2 * this1) as i64)
}

/// The net gain discontinuity at a segment boundary: each register whose
/// saw wraps there drops its gain in one step.
pub open spec fn sy_disc_spec(changed: bool, wrapped: bool, seg2: int, g8: int, g4: int, g2: int,
    g1: int) -> int {
    if changed {
        (if wrapped { -g8 } else { 0 })
        + (if seg2 % 4 == 0 { -g4 } else { 0 })
        + (if seg2 % 2 == 0 { -g2 } else { 0 })
        - g1
    } else {
        0
    }
}

/// The four naive saw ramps at a phase within segment `seg2`.
pub open spec fn sy_naive_spec(phase2: int, seg2: int, g8: int, g4: int, g2: int, g1: int)
    -> int {
    let n8 = tdiv(fx_mul_spec(phase2 - 4 * ONE, g8), 8);
    let n4 = tdiv(fx_mul_spec(phase2 - seg_and4_spec(seg2) * ONE - 2 * ONE, g4), 4);
    let n2 = tdiv(fx_mul_spec(phase2 - seg_and6_spec(seg2) * ONE - ONE, g2), 2);
    let n1 = fx_mul_spec(phase2 - seg2 * ONE, g1);
    n8 + n4 + n2 + n1
}

impl Default for StringSynthOscillator {
    /// Phase and gains at zero, four-millisecond smoothing.
    fn default() -> (r: Self)
        ensures
            r == (StringSynthOscillator {
                phase: 0,
                segment: 0,
                next_sample: 0,
                frequency: (LinearSmoother { smoothing_ms: 4, current: 0, target: 0, steps_left: 0 }),
                saw_8_gain: (LinearSmoother { smoothing_ms: 4, current: 0, target: 0, steps_left: 0 }),
                saw_4_gain: (LinearSmoother { smoothing_ms: 4, current: 0, target: 0, steps_left: 0 }),
                saw_2_gain: (LinearSmoother { smoothing_ms: 4, current: 0, target: 0, steps_left: 0 }),
                saw_1_gain: (LinearSmoother { smoothing_ms: 4, current: 0, target: 0, steps_left: 0 }),
            }),
            r.wf(),
    {
        StringSynthOscillator {
            phase: 0,
            segment: 0,
            next_sample: 0,
            frequency: LinearSmoother::new(4, 0),
            saw_8_gain: LinearSmoother::new(4, 0),
            saw_4_gain: LinearSmoother::new(4, 0),
            saw_2_gain: LinearSmoother::new(4, 0),
            saw_1_gain: LinearSmoother::new(4, 0),
        }
    }
}

impl StringSynthOscillator {
    pub open spec fn wf(self) -> bool {
        &&& 0 <= self.phase < 8 * ONE
        &&& 0 <= self.segment <= 7
        &&& self.segment as int == self.phase as int / ONE as int
        &&& -SY_CARRY_MAX <= self.next_sample <= SY_CARRY_MAX
        &&& self.frequency.wf()
        &&& 0 <= self.frequency.current <= DELTA_MAX
        &&& 0 <= self.frequency.target <= DELTA_MAX
        &&& self.saw_8_gain.wf()
        &&& -GAIN_MAX <= self.saw_8_gain.current <= GAIN_MAX
        &&& -GAIN_MAX <= self.saw_8_gain.target <= GAIN_MAX
        &&& self.saw_4_gain.wf()
        &&& -GAIN_MAX <= self.saw_4_gain.current <= GAIN_MAX
        &&& -GAIN_MAX <= self.saw_4_gain.target <= GAIN_MAX
        &&& self.saw_2_gain.wf()
        &&& -GAIN_MAX <= self.saw_2_gain.current <= GAIN_MAX
        &&& -GAIN_MAX <= self.saw_2_gain.target <= GAIN_MAX
        &&& self.saw_1_gain.wf()
        &&& -GAIN_MAX <= self.saw_1_gain.current <= GAIN_MAX
        &&& -GAIN_MAX <= self.saw_1_gain.target <= GAIN_MAX
    }

    /// Once per block: derive the octave shift, the shifted register gains
    /// and the clamped phase step, and aim the five smoothers. A shift of
    /// eight or more skips the update.
    pub fn prepare_block(&mut self, registration: i64, gain: i64, frequency: i64,
        sample_rate: i64)
        requires
            old(self).wf(),
            0 <= registration < REGISTRATION_ROWS,
            0 <= gain <= ONE,
            0 <= frequency <= FREQ_MAX,
            1 <= sample_rate <= RATE_MAX,
        ensures
            *final(self) == sy_prepare_spec(*old(self), registration as int, gain as int,
                frequency as int, sample_rate as int),
            final(self).wf(),
    {
        proof {
            lemma_registration_bounds();
        }
        let pd0 = tdiv_exec(frequency, sample_rate);
        proof {
            lemma_div_pos_is_pos(frequency as int, sample_rate as int);
            lemma_tdiv_shrinks(frequency as int, sample_rate as int);
            lemma_octave_shift_nonneg(pd0 as int);
        }
        let mut pd = pd0;
        let mut shift: i64 = 0;
        while pd > HALF
            invariant
                0 <= pd,
                0 <= shift,
                shift % 2 == 0,
                shift == octave_shift_spec(pd0 as int) - octave_shift_spec(pd as int),
                shifted_delta_spec(pd as int) == shifted_delta_spec(pd0 as int),
                octave_shift_spec(pd as int) >= 0,
                0 <= pd0,
                octave_shift_spec(pd0 as int) <= 2 * pd0,
                shift <= 2 * pd0,
                pd0 <= FREQ_MAX,
            decreases pd,
        {
            proof {
                lemma_div_pos_is_pos(pd as int, 2);
                lemma_octave_shift_nonneg(pd as int);
                lemma_octave_shift_nonneg(pd as int / 2);
                lemma_octave_shift_small(pd as int);
            }
            shift = shift + 2;
            pd = tdiv_exec(pd, 2);
        }
        proof {
            lemma_octave_shift_nonneg(pd0 as int);
        }
        if shift >= 8 {
            return;
        }

        let target = clamp_i64(pd, 1, DELTA_MAX);
        let r0 = shifted_entry(registration, shift, 0);
        let r1 = shifted_entry(registration, shift, 1);
        let r2 = shifted_entry(registration, shift, 2);
        let r3 = shifted_entry(registration, shift, 3);
        let r4 = shifted_entry(registration, shift, 4);
        let r5 = shifted_entry(registration, shift, 5);
        let r6 = shifted_entry(registration, shift, 6);
        let g8 = gain_product(gain, r0 + 2 * r1);
        let g4 = gain_product(gain, r2 - r1 + 2 * r3);
        let g2 = gain_product(gain, r4 - r3 + 2 * r5);
        let g1 = gain_product(gain, r6 - r5);

        self.frequency.set_target(sample_rate, target);
        let _ = self.frequency.next();
        self.saw_8_gain.set_target(sample_rate, g8);
        let _ = self.saw_8_gain.next();
        self.saw_4_gain.set_target(sample_rate, g4);
        let _ = self.saw_4_gain.next();
        self.saw_2_gain.set_target(sample_rate, g2);
        let _ = self.saw_2_gain.next();
        self.saw_1_gain.set_target(sample_rate, g1);
        let _ = self.saw_1_gain.next();
    }

    /// One sample of the additive saw sum.
    #[verifier::rlimit(100)]
    pub fn process(&mut self) -> (r: i64)
        requires
            old(self).wf(),
        ensures
            (*final(self), r) == sy_step_spec(*old(self)),
            final(self).wf(),
            -SY_OUT_MAX <= r <= SY_OUT_MAX,
    {
        let f = self.frequency.next();
        let g8 = self.saw_8_gain.next();
        let g4 = self.saw_4_gain.next();
        let g2 = self.saw_2_gain.next();
        let g1 = self.saw_1_gain.next();
        let this0 = self.next_sample;

        let phase1 = self.phase + f;
        proof {
            lemma_fundamental_div_mod(phase1 as int, ONE as int);
            lemma_mod_division_less_than_divisor(phase1 as int, ONE as int);
            lemma_div_pos_is_pos(phase1 as int, ONE as int);
            lemma_div_is_ordered(phase1 as int, (8 * ONE + DELTA_MAX - 1) as int, ONE as int);
        }
        let seg1 = tdiv_exec(phase1, ONE);
        let wrapped = seg1 == 8;
        let phase2 = if wrapped { phase1 - 8 * ONE } else { phase1 };
        let seg2: i64 = if wrapped { 0 } else { seg1 };
        proof {
            if wrapped {
                lemma_fundamental_div_mod(phase2 as int, ONE as int);
                lemma_mod_division_less_than_divisor(phase2 as int, ONE as int);
                vstd::arithmetic::div_mod::lemma_fundamental_div_mod_converse(phase2 as int,
                    ONE as int, 0, phase2 as int);
            }
        }
        let changed = seg1 != self.segment;
        let disc = segment_disc(changed, wrapped, seg2, g8, g4, g2, g1);
        let mut this1 = this0;
        let mut carry: i64 = 0;
        if disc != 0 {
            let t = div_clamp(phase2 - seg2 * ONE, f, 0, ONE);
            let cb_this = fx_mul(disc, this_blep_sample(t));
            let cb_next = fx_mul(disc, next_blep_sample(t));
            proof {
                lemma_mul_bound(disc as int, this_blep_spec(t as int), 4 * GAIN_MAX as int,
                    HALF as int);
                lemma_tdiv_bound(disc as int * this_blep_spec(t as int), ONE as int,
                    2 * GAIN_MAX as int);
                lemma_mul_bound(disc as int, next_blep_spec(t as int), 4 * GAIN_MAX as int,
                    HALF as int);
                lemma_tdiv_bound(disc as int * next_blep_spec(t as int), ONE as int,
                    2 * GAIN_MAX as int);
            }
            this1 = this0 + cb_this;
            carry = cb_next;
        }
        self.segment = seg2;
        self.phase = phase2;
        self.next_sample = carry + naive_sum(phase2, seg2, g8, g4, g2, g1);
        2 * this1
    }
}

/// The octave shift is even, nonnegative and small against the step.
proof fn lemma_octave_shift_nonneg(pd: int)
    ensures
        octave_shift_spec(pd) >= 0,
        octave_shift_spec(pd) % 2 == 0,
        pd >= 0 ==> octave_shift_spec(pd) <= 2 * pd,
    decreases pd,
{
    if pd > HALF {
        lemma_octave_shift_nonneg(pd / 2);
        vstd::arithmetic::div_mod::lemma_fundamental_div_mod(pd, 2);
        vstd::arithmetic::div_mod::lemma_mod_division_less_than_divisor(pd, 2);
    }
}

/// One halving lowers the octave shift by exactly two.
proof fn lemma_octave_shift_small(pd: int)
    requires
        pd > HALF,
    ensures
        octave_shift_spec(pd) == 2 + octave_shift_spec(pd / 2),
        shifted_delta_spec(pd) == shifted_delta_spec(pd / 2),
{
}

/// One shifted registration weight.
fn shifted_entry(row: i64, shift: i64, col: i64) -> (r: i64)
    requires
        0 <= row < REGISTRATION_ROWS,
        0 <= shift <= 6,
        0 <= col < 7,
    ensures
        r == shifted_registration_spec(row as int, shift as int, col as int),
        0 <= r <= ONE,
{
    proof {
        lemma_registration_bounds();
    }
    if col >= shift {
        registration_entry(row, col - shift)
    } else {
        0
    }
}

/// A register gain: the unit master gain times a small mixture sum.
fn gain_product(gain: i64, mixture: i64) -> (r: i64)
    requires
        0 <= gain <= ONE,
        -4 * ONE <= mixture <= 4 * ONE,
    ensures
        r == fx_mul_spec(gain as int, mixture as int),
        -GAIN_MAX <= r <= GAIN_MAX,
{
    let r = fx_mul(gain, mixture);
    proof {
        lemma_mul_bound(gain as int, mixture as int, ONE as int, 4 * ONE as int);
        lemma_tdiv_bound(gain as int * mixture as int, ONE as int, GAIN_MAX as int);
    }
    r
}

/// The net gain discontinuity at a segment boundary, executable form.
fn segment_disc(changed: bool, wrapped: bool, seg2: i64, g8: i64, g4: i64, g2: i64, g1: i64)
    -> (r: i64)
    requires
        0 <= seg2 <= 7,
        -GAIN_MAX <= g8 <= GAIN_MAX,
        -GAIN_MAX <= g4 <= GAIN_MAX,
        -GAIN_MAX <= g2 <= GAIN_MAX,
        -GAIN_MAX <= g1 <= GAIN_MAX,
    ensures
        r == sy_disc_spec(changed, wrapped, seg2 as int, g8 as int, g4 as int, g2 as int,
            g1 as int),
        -4 * GAIN_MAX <= r <= 4 * GAIN_MAX,
{
    if !changed {
        return 0;
    }
    let m4 = seg2 - 4 * tdiv_exec(seg2, 4);
    let m2 = seg2 - 2 * tdiv_exec(seg2, 2);
    proof {
        lemma_fundamental_div_mod(seg2 as int, 4);
        lemma_fundamental_div_mod(seg2 as int, 2);
        lemma_mod_division_less_than_divisor(seg2 as int, 4);
        lemma_mod_division_less_than_divisor(seg2 as int, 2);
    }
    let mut disc: i64 = 0;
    if wrapped {
        disc = disc - g8;
    }
    if m4 == 0 {
        disc = disc - g4;
    }
    if m2 == 0 {
        disc = disc - g2;
    }
    disc - g1
}

/// The four naive saw ramps at a phase, executable form.
fn naive_sum(phase2: i64, seg2: i64, g8: i64, g4: i64, g2: i64, g1: i64) -> (r: i64)
    requires
        0 <= phase2 < 8 * ONE,
        0 <= seg2 <= 7,
        -GAIN_MAX <= g8 <= GAIN_MAX,
        -GAIN_MAX <= g4 <= GAIN_MAX,
        -GAIN_MAX <= g2 <= GAIN_MAX,
        -GAIN_MAX <= g1 <= GAIN_MAX,
    ensures
        r == sy_naive_spec(phase2 as int, seg2 as int, g8 as int, g4 as int, g2 as int,
            g1 as int),
        -128 * ONE <= r <= 128 * ONE,
{
    let and4: i64 = if seg2 >= 4 {
        4
    } else {
        0
    };
    let m2b = seg2 - 2 * tdiv_exec(seg2, 2);
    proof {
        lemma_fundamental_div_mod(seg2 as int, 2);
        lemma_mod_division_less_than_divisor(seg2 as int, 2);
    }
    let and6 = seg2 - m2b;
    let n8 = scaled_ramp(phase2 - 4 * ONE, g8, 8);
    let n4 = scaled_ramp(phase2 - and4 * ONE - 2 * ONE, g4, 4);
    let n2 = scaled_ramp(phase2 - and6 * ONE - ONE, g2, 2);
    let n1 = scaled_ramp(phase2 - seg2 * ONE, g1, 1);
    n8 + n4 + n2 + n1
}

/// One naive ramp term: a phase offset times a register gain, divided by
/// the register's span in segments.
fn scaled_ramp(offset: i64, gain: i64, span: i64) -> (r: i64)
    requires
        -8 * ONE <= offset <= 8 * ONE,
        -GAIN_MAX <= gain <= GAIN_MAX,
        1 <= span <= 8,
    ensures
        r == tdiv(fx_mul_spec(offset as int, gain as int), span as int),
        -32 * ONE <= r <= 32 * ONE,
{
    let p = fx_mul(offset, gain);
    proof {
        lemma_mul_bound(offset as int, gain as int, 8 * ONE as int, GAIN_MAX as int);
        lemma_tdiv_bound(offset as int * gain as int, ONE as int, 32 * ONE as int);
        lemma_tdiv_shrinks(p as int, span as int);
    }
    tdiv_exec(p, span)
}

} // verus!
