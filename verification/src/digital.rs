//! Simple digital oscillators: pure sine and square generators with no
//! anti-aliasing, and a blend of the two. Phases are Q20 in `[0, ONE)`.

use crate::fixed::{fx_mul, fx_mul_spec, idiv, lemma_mul_bound, lemma_tdiv_bound, lerp, lerp_spec,
    ONE};
use vstd::arithmetic::div_mod::{lemma_div_is_ordered, lemma_div_pos_is_pos,
    lemma_fundamental_div_mod, lemma_mod_division_less_than_divisor};
use vstd::prelude::*;

verus! {

#[derive(Clone, Copy, PartialEq, Eq, Structural, Debug)]
pub enum Shape {
    Saw,
    Square,
    Triangle,
    Sine,
}

/// Entry `i` of the sine table: `sin(2 * pi * i / 64)` in Q20.
pub open spec fn sine_entry_spec(i: int) -> i64 {
    if i == 0 {
        0i64
    } else
    if i == 1 {
        102778i64
    } else
    if i == 2 {
        204567i64
    } else
    if i == 3 {
        304386i64
    } else
    if i == 4 {
        401273i64
    } else
    if i == 5 {
        494295i64
    } else
    if i == 6 {
        582558i64
    } else
    if i == 7 {
        665210i64
    } else
    if i == 8 {
        741455i64
    } else
    if i == 9 {
        810560i64
    } else
    if i == 10 {
        871859i64
    } else
    if i == 11 {
        924761i64
    } else
    if i == 12 {
        968758i64
    } else
    if i == 13 {
        1003425i64
    } else
    if i == 14 {
        1028428i64
    } else
    if i == 15 {
        1043527i64
    } else
    if i == 16 {
        1048576i64
    } else
    if i == 17 {
        1043527i64
    } else
    if i == 18 {
        1028428i64
    } else
    if i == 19 {
        1003425i64
    } else
    if i == 20 {
        968758i64
    } else
    if i == 21 {
        924761i64
    } else
    if i == 22 {
        871859i64
    } else
    if i == 23 {
        810560i64
    } else
    if i == 24 {
        741455i64
    } else
    if i == 25 {
        665210i64
    } else
    if i == 26 {
        582558i64
    } else
    if i == 27 {
        494295i64
    } else
    if i == 28 {
        401273i64
    } else
    if i == 29 {
        304386i64
    } else
    if i == 30 {
        204567i64
    } else
    if i == 31 {
        102778i64
    } else
    if i == 32 {
        0i64
    } else
    if i == 33 {
        -102778i64
    } else
    if i == 34 {
        -204567i64
    } else
    if i == 35 {
        -304386i64
    } else
    if i == 36 {
        -401273i64
    } else
    if i == 37 {
        -494295i64
    } else
    if i == 38 {
        -582558i64
    } else
    if i == 39 {
        -665210i64
    } else
    if i == 40 {
        -741455i64
    } else
    if i == 41 {
        -810560i64
    } else
    if i == 42 {
        -871859i64
    } else
    if i == 43 {
        -924761i64
    } else
    if i == 44 {
        -968758i64
    } else
    if i == 45 {
        -1003425i64
    } else
    if i == 46 {
        -1028428i64
    } else
    if i == 47 {
        -1043527i64
    } else
    if i == 48 {
        -1048576i64
    } else
    if i == 49 {
        -1043527i64
    } else
    if i == 50 {
        -1028428i64
    } else
    if i == 51 {
        -1003425i64
    } else
    if i == 52 {
        -968758i64
    } else
    if i == 53 {
        -924761i64
    } else
    if i == 54 {
        -871859i64
    } else
    if i == 55 {
        -810560i64
    } else
    if i == 56 {
        -741455i64
    } else
    if i == 57 {
        -665210i64
    } else
    if i == 58 {
        -582558i64
    } else
    if i == 59 {
        -494295i64
    } else
    if i == 60 {
        -401273i64
    } else
    if i == 61 {
        -304386i64
    } else
    if i == 62 {
        -204567i64
    } else
    if i == 63 {
        -102778i64
    } else {
        0i64
    }
}

fn sine_entry(i: i64) -> (r: i64)
    requires
        0 <= i <= 64,
    ensures
        r == sine_entry_spec(i as int),
{
    match i {
        0 => 0,
        1 => 102778,
        2 => 204567,
        3 => 304386,
        4 => 401273,
        5 => 494295,
        6 => 582558,
        7 => 665210,
        8 => 741455,
        9 => 810560,
        10 => 871859,
        11 => 924761,
        12 => 968758,
        13 => 1003425,
        14 => 1028428,
        15 => 1043527,
        16 => 1048576,
        17 => 1043527,
        18 => 1028428,
        19 => 1003425,
        20 => 968758,
        21 => 924761,
        22 => 871859,
        23 => 810560,
        24 => 741455,
        25 => 665210,
        26 => 582558,
        27 => 494295,
        28 => 401273,
        29 => 304386,
        30 => 204567,
        31 => 102778,
        32 => 0,
        33 => -102778,
        34 => -204567,
        35 => -304386,
        36 => -401273,
        37 => -494295,
        38 => -582558,
        39 => -665210,
        40 => -741455,
        41 => -810560,
        42 => -871859,
        43 => -924761,
        44 => -968758,
        45 => -1003425,
        46 => -1028428,
        47 => -1043527,
        48 => -1048576,
        49 => -1043527,
        50 => -1028428,
        51 => -1003425,
        52 => -968758,
        53 => -924761,
        54 => -871859,
        55 => -810560,
        56 => -741455,
        57 => -665210,
        58 => -582558,
        59 => -494295,
        60 => -401273,
        61 => -304386,
        62 => -204567,
        63 => -102778,
        _ => 0,
    }
}

/// All sine table entries are unit-bounded.
proof fn lemma_sine_entry_bounds()
    ensures
        forall|i: int| 0 <= i <= 64 ==> -ONE <= #[trigger] sine_entry_spec(i) <= ONE,
{
}

/// One period of a sine over the Q20 phase `[0, ONE)`, interpolated from the
/// table.
pub open spec fn sine_fx_spec(phase: int) -> int {
    let i = phase / 16384;
    let frac = phase - i * 16384;
    lerp_spec(sine_entry_spec(i) as int, sine_entry_spec(i + 1) as int, frac, 16384)
}

pub fn sine_fx(phase: i64) -> (r: i64)
    requires
        0 <= phase < ONE,
    ensures
        r == sine_fx_spec(phase as int),
        -ONE <= r <= ONE,
{
    proof {
        lemma_sine_entry_bounds();
    }
    let i = idiv(phase, 16384);
    proof {
        lemma_fundamental_div_mod(phase as int, 16384);
        lemma_mod_division_less_than_divisor(phase as int, 16384);
        lemma_div_pos_is_pos(phase as int, 16384);
        lemma_div_is_ordered(phase as int, 1048575, 16384);
    }
    let frac = phase - i * 16384;
    lerp(sine_entry(i), sine_entry(i + 1), frac, 16384)
}

/// A phase advanced by one step and wrapped at one cycle.
pub open spec fn wrap_phase_spec(phase: int, delta: int) -> int {
    if phase + delta >= ONE {
        phase + delta - ONE
    } else {
        phase + delta
    }
}

#[derive(Clone, Copy, PartialEq, Eq, Structural, Debug)]
pub struct DigitalOscillator {
    pub phase: i64,
    pub shape: Shape,
}

/// The sample a digital oscillator emits for its current phase, and the
/// wrapped phase after one step.
pub open spec fn digital_step_spec(o: DigitalOscillator, delta: int) -> (DigitalOscillator, i64) {
    let out: int = match o.shape {
        Shape::Sine => sine_fx_spec(o.phase as int),
        _ => if o.phase >= crate::fixed::HALF {
            0
        } else {
            ONE as int
        },
    };
    (DigitalOscillator { phase: wrap_phase_spec(o.phase as int, delta) as i64, ..o }, out as i64)
}

impl Default for DigitalOscillator {
    /// A sine oscillator at phase zero.
    fn default() -> (r: Self)
        ensures
            r == (DigitalOscillator { phase: 0, shape: Shape::Sine }),
    {
        DigitalOscillator { phase: 0, shape: Shape::Sine }
    }
}

impl DigitalOscillator {
    pub open spec fn wf(self) -> bool {
        0 <= self.phase < ONE
    }

    pub fn new(shape: Shape) -> (r: Self)
        ensures
            r == (DigitalOscillator { phase: 0, shape }),
            r.wf(),
    {
        DigitalOscillator { phase: 0, shape }
    }

    fn process_sine(&mut self, frequency: i64, sample_rate: i64) -> (r: i64)
        requires
            old(self).wf(),
            old(self).shape == Shape::Sine,
            0 <= frequency,
            1 <= sample_rate,
            frequency < sample_rate * ONE,
        ensures
            (*final(self), r) == digital_step_spec(*old(self), frequency as int / sample_rate as int),
            final(self).wf(),
            -ONE <= r <= ONE,
    {
        let phase_delta = idiv(frequency, sample_rate);
        proof {
            lemma_div_pos_is_pos(frequency as int, sample_rate as int);
            lemma_div_is_ordered(frequency as int, sample_rate as int * ONE - 1,
                sample_rate as int);
            lemma_div_mul_strict(frequency as int, sample_rate as int);
        }
        let sine = sine_fx(self.phase);
        self.phase = self.phase + phase_delta;
        if self.phase >= ONE {
            self.phase = self.phase - ONE;
        }
        sine
    }

    fn process_square(&mut self, frequency: i64, sample_rate: i64) -> (r: i64)
        requires
            old(self).wf(),
            old(self).shape != Shape::Sine,
            0 <= frequency,
            1 <= sample_rate,
            frequency < sample_rate * ONE,
        ensures
            (*final(self), r) == digital_step_spec(*old(self), frequency as int / sample_rate as int),
            final(self).wf(),
            0 <= r <= ONE,
    {
        let phase_delta = idiv(frequency, sample_rate);
        proof {
            lemma_div_pos_is_pos(frequency as int, sample_rate as int);
            lemma_div_mul_strict(frequency as int, sample_rate as int);
        }
        let square = if self.phase >= crate::fixed::HALF {
            0
        } else {
            ONE
        };
        self.phase = self.phase + phase_delta;
        if self.phase >= ONE {
            self.phase = self.phase - ONE;
        }
        square
    }

    /// One naive sample; only the sine and square shapes are generated.
    pub fn process(&mut self, frequency: i64, sample_rate: i64) -> (r: i64)
        requires
            old(self).wf(),
            old(self).shape == Shape::Sine || old(self).shape == Shape::Square,
            0 <= frequency,
            1 <= sample_rate,
            frequency < sample_rate * ONE,
        ensures
            (*final(self), r) == digital_step_spec(*old(self), frequency as int / sample_rate as int),
            final(self).wf(),
            -ONE <= r <= ONE,
    {
        match self.shape {
            Shape::Sine => self.process_sine(frequency, sample_rate),
            _ => self.process_square(frequency, sample_rate),
        }
    }
}

/// A quotient of a value below `d * ONE` stays below `ONE`.
proof fn lemma_div_mul_strict(x: int, d: int)
    requires
        0 <= x,
        1 <= d,
        x < d * ONE,
    ensures
        x / d < ONE,
{
    lemma_fundamental_div_mod(x, d);
    lemma_mod_division_less_than_divisor(x, d);
    lemma_div_pos_is_pos(x, d);
    assert(x / d < ONE) by (nonlinear_arith)
        requires
            d * (x / d) + x % d == x,
            x < d * ONE,
            x % d >= 0,
            1 <= d,
            0 <= x / d,
            ONE == 1048576i64,
    ;
}

#[derive(Clone, Copy, PartialEq, Eq, Structural, Debug)]
pub struct BlendOscillator {
    /// Blend position: zero is all sine, `ONE` all square.
    pub shape: i64,
    pub a: DigitalOscillator,
    pub b: DigitalOscillator,
}

/// The blended sample and the advanced pair of oscillators.
pub open spec fn blend_step_spec(o: BlendOscillator, delta: int) -> (BlendOscillator, i64) {
    let (a2, va) = digital_step_spec(o.a, delta);
    let (b2, vb) = digital_step_spec(o.b, delta);
    let out = fx_mul_spec(va as int, ONE as int - o.shape as int)
        + fx_mul_spec(vb as int, o.shape as int);
    (BlendOscillator { a: a2, b: b2, ..o }, out as i64)
}

impl Default for BlendOscillator {
    /// An even sine/square blend.
    fn default() -> (r: Self)
        ensures
            r == (BlendOscillator {
                shape: crate::fixed::HALF,
                a: DigitalOscillator { phase: 0, shape: Shape::Sine },
                b: DigitalOscillator { phase: 0, shape: Shape::Square },
            }),
            r.wf(),
    {
        BlendOscillator {
            shape: crate::fixed::HALF,
            a: DigitalOscillator { phase: 0, shape: Shape::Sine },
            b: DigitalOscillator { phase: 0, shape: Shape::Square },
        }
    }
}

impl BlendOscillator {
    pub open spec fn wf(self) -> bool {
        &&& 0 <= self.shape <= ONE
        &&& self.a.wf()
        &&& self.b.wf()
        &&& self.a.shape == Shape::Sine
        &&& self.b.shape == Shape::Square
    }

    /// One sample of the sine/square crossfade.
    pub fn process(&mut self, frequency: i64, sample_rate: i64) -> (r: i64)
        requires
            old(self).wf(),
            0 <= frequency,
            1 <= sample_rate,
            frequency < sample_rate * ONE,
        ensures
            (*final(self), r) == blend_step_spec(*old(self), frequency as int / sample_rate as int),
            final(self).wf(),
            -2 * ONE <= r <= 2 * ONE,
    {
        let va = self.a.process(frequency, sample_rate);
        let vb = self.b.process(frequency, sample_rate);
        let fa = fx_mul(va, ONE - self.shape);
        let fb = fx_mul(vb, self.shape);
        proof {
            lemma_mul_bound(va as int, (ONE - self.shape) as int, ONE as int, ONE as int);
            lemma_tdiv_bound(va as int * (ONE - self.shape) as int, ONE as int, ONE as int);
            lemma_mul_bound(vb as int, self.shape as int, ONE as int, ONE as int);
            lemma_tdiv_bound(vb as int * self.shape as int, ONE as int, ONE as int);
        }
        fa + fb
    }
}

} // verus!
