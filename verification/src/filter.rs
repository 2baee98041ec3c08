//! Multimode state-variable filter in a trapezoidal (zero-delay-feedback)
//! topology. Coefficients `g`, `r`, `h` are recomputed from cutoff and
//! resonance, typically once per sample; two integrator states persist
//! between samples. All values are Q20; every intermediate is held inside
//! `[-FX_LIMIT, FX_LIMIT]` (about 2048 units), far beyond any audio signal.

use crate::fixed::{clamp_i64, clamp_spec, fx_div, fx_div_spec, fx_mul, fx_mul_spec, idiv,
    imul, lemma_mul_bound, lemma_tdiv_bound, tdiv, FX_LIMIT, HALF, ONE};
use vstd::arithmetic::div_mod::{lemma_div_is_ordered, lemma_div_is_ordered_by_denominator,
    lemma_div_pos_is_pos};
use vstd::prelude::*;

verus! {

/// Highest normalized cutoff accepted, `0.497` in Q20: the stability bound
/// just below Nyquist.
pub const NF_MAX: i64 = 521142;

/// The tangent table covers `[0, 0.4375)`; beyond that a reciprocal
/// expansion around the pole takes over.
pub const TAN_TABLE_END: i64 = 458752;

/// `pi` in Q20.
pub const PI_FX: i64 = 3294199;

/// Upper bound on the cutoff coefficient `g` (about `tan(0.497 * pi)`).
pub const G_CAP: i64 = 120000000;

/// Upper bound on the damping coefficient `r` (resonance at least `0.01`).
pub const R_CAP: i64 = 104857600;

/// Lowest resonance accepted, `0.01` in Q20.
pub const RES_MIN: i64 = 10486;

/// Saturation rail for the two integrator states (1024 units in Q20).
pub const STATE_MAX: i64 = 1073741824;

#[derive(Clone, Copy, PartialEq, Eq, Structural, Debug)]
pub enum FilterMode {
    LowPass,
    BandPass,
    HighPass,
}

#[derive(Clone, Copy, PartialEq, Eq, Structural, Debug)]
pub struct Svf {
    pub mode: FilterMode,
    /// Cutoff gain coefficient, the tangent of the normalized frequency.
    pub g: i64,
    /// Damping, the reciprocal of the resonance.
    pub r: i64,
    /// Normalization, `1 / (1 + r*g + g^2)`.
    pub h: i64,
    pub state_1: i64,
    pub state_2: i64,
}

/// Entry `i` of the tangent table: `tan(pi * i / 128)` in Q20.
pub open spec fn tan_entry_spec(i: int) -> i64 {
    if i == 0 {
        0
    } else
    if i == 1 {
        25741
    } else
    if i == 2 {
        51513
    } else
    if i == 3 {
        77348
    } else
    if i == 4 {
        103276
    } else
    if i == 5 {
        129330
    } else
    if i == 6 {
        155542
    } else
    if i == 7 {
        181945
    } else
    if i == 8 {
        208575
    } else
    if i == 9 {
        235466
    } else
    if i == 10 {
        262655
    } else
    if i == 11 {
        290180
    } else
    if i == 12 {
        318082
    } else
    if i == 13 {
        346403
    } else
    if i == 14 {
        375186
    } else
    if i == 15 {
        404480
    } else
    if i == 16 {
        434334
    } else
    if i == 17 {
        464802
    } else
    if i == 18 {
        495940
    } else
    if i == 19 {
        527809
    } else
    if i == 20 {
        560476
    } else
    if i == 21 {
        594011
    } else
    if i == 22 {
        628492
    } else
    if i == 23 {
        664003
    } else
    if i == 24 {
        700636
    } else
    if i == 25 {
        738491
    } else
    if i == 26 {
        777677
    } else
    if i == 27 {
        818317
    } else
    if i == 28 {
        860544
    } else
    if i == 29 {
        904508
    } else
    if i == 30 {
        950374
    } else
    if i == 31 {
        998327
    } else
    if i == 32 {
        1048576
    } else
    if i == 33 {
        1101354
    } else
    if i == 34 {
        1156925
    } else
    if i == 35 {
        1215591
    } else
    if i == 36 {
        1277694
    } else
    if i == 37 {
        1343626
    } else
    if i == 38 {
        1413841
    } else
    if i == 39 {
        1488864
    } else
    if i == 40 {
        1569305
    } else
    if i == 41 {
        1655882
    } else
    if i == 42 {
        1749443
    } else
    if i == 43 {
        1850996
    } else
    if i == 44 {
        1961748
    } else
    if i == 45 {
        2083163
    } else
    if i == 46 {
        2217028
    } else
    if i == 47 {
        2365550
    } else
    if i == 48 {
        2531486
    } else
    if i == 49 {
        2718331
    } else
    if i == 50 {
        2930574
    } else
    if i == 51 {
        3174085
    } else
    if i == 52 {
        3456692
    } else
    if i == 53 {
        3789067
    } else
    if i == 54 {
        4186150
    } else
    if i == 55 {
        4669521
    } else {
        5271548
    }
}

fn tan_entry(i: i64) -> (r: i64)
    requires
        0 <= i <= 56,
    ensures
        r == tan_entry_spec(i as int),
{
    match i {
        0 => 0,
        1 => 25741,
        2 => 51513,
        3 => 77348,
        4 => 103276,
        5 => 129330,
        6 => 155542,
        7 => 181945,
        8 => 208575,
        9 => 235466,
        10 => 262655,
        11 => 290180,
        12 => 318082,
        13 => 346403,
        14 => 375186,
        15 => 404480,
        16 => 434334,
        17 => 464802,
        18 => 495940,
        19 => 527809,
        20 => 560476,
        21 => 594011,
        22 => 628492,
        23 => 664003,
        24 => 700636,
        25 => 738491,
        26 => 777677,
        27 => 818317,
        28 => 860544,
        29 => 904508,
        30 => 950374,
        31 => 998327,
        32 => 1048576,
        33 => 1101354,
        34 => 1156925,
        35 => 1215591,
        36 => 1277694,
        37 => 1343626,
        38 => 1413841,
        39 => 1488864,
        40 => 1569305,
        41 => 1655882,
        42 => 1749443,
        43 => 1850996,
        44 => 1961748,
        45 => 2083163,
        46 => 2217028,
        47 => 2365550,
        48 => 2531486,
        49 => 2718331,
        50 => 2930574,
        51 => 3174085,
        52 => 3456692,
        53 => 3789067,
        54 => 4186150,
        55 => 4669521,
        _ => 5271548,
    }
}

/// The tangent table entries grow with the index and stay in range.
proof fn lemma_tan_entry_bounds()
    ensures
        forall|i: int| 0 <= i <= 55 ==> #[trigger] tan_entry_spec(i) <= tan_entry_spec(i + 1),
        forall|i: int| 0 <= i <= 56 ==> 0 <= #[trigger] tan_entry_spec(i) <= 5271548,
{
}

/// Linear interpolation of the tangent table at `x` (Q20, below the table
/// end).
pub open spec fn tan_interp_spec(x: int) -> int {
    let i = x / 8192;
    let frac = x - i * 8192;
    let a = tan_entry_spec(i) as int;
    let b = tan_entry_spec(i + 1) as int;
    a + ((b - a) * frac) / 8192
}

/// `tan(pi * x / ONE)` in Q20: table interpolation over most of the range,
/// and the expansion `1/(pi*d) - (pi*d)/3` around the pole at one half,
/// where `d` is the Q20 distance from `x` to one half.
pub open spec fn tan_fx_spec(x: int) -> int {
    if x < TAN_TABLE_END {
        tan_interp_spec(x)
    } else {
        let pd = fx_mul_spec(PI_FX as int, HALF as int - x);
        fx_div_spec(ONE as int, pd) - tdiv(pd, 3)
    }
}

/// The tangent of a normalized frequency, Q20, clamped to `[0, NF_MAX]`.
pub fn tan_fx(x: i64) -> (r: i64)
    requires
        0 <= x <= NF_MAX,
    ensures
        r == tan_fx_spec(x as int),
        0 <= r <= G_CAP,
{
    proof {
        lemma_tan_entry_bounds();
    }
    if x < TAN_TABLE_END {
        let i = idiv(x, 8192);
        proof {
            lemma_div_is_ordered(x as int, 458751, 8192);
        }
        let frac = x - i * 8192;
        proof {
            vstd::arithmetic::div_mod::lemma_fundamental_div_mod(x as int, 8192);
            vstd::arithmetic::div_mod::lemma_mod_division_less_than_divisor(x as int, 8192);
        }
        let a = tan_entry(i);
        let b = tan_entry(i + 1);
        let p = imul(b - a, frac);
        proof {
            lemma_mul_bound((b - a) as int, frac as int, (b - a) as int, 8192);
            lemma_tdiv_bound(p as int, 8192, (b - a) as int);
        }
        a + idiv(p, 8192)
    } else {
        let d = HALF - x;
        let pd = fx_mul(PI_FX, d);
        proof {
            lemma_mul_bound(PI_FX as int, d as int, PI_FX as int, 65536);
            assert(PI_FX as int * 3146 <= PI_FX as int * d as int) by (nonlinear_arith)
                requires
                    3146 <= d as int,
            ;
            lemma_div_is_ordered(PI_FX as int * 3146, PI_FX as int * d as int, ONE as int);
            lemma_div_is_ordered(PI_FX as int * d as int, PI_FX as int * 65536, ONE as int);
            lemma_div_pos_is_pos(PI_FX as int * d as int, ONE as int);
        }
        let rec = fx_div(ONE, pd);
        proof {
            lemma_div_is_ordered_by_denominator(ONE as int * ONE as int, 9883, pd as int);
            lemma_div_is_ordered_by_denominator(ONE as int * ONE as int, pd as int, 205887);
            lemma_div_pos_is_pos(ONE as int * ONE as int, pd as int);
        }
        let corr = idiv(pd, 3);
        rec - corr
    }
}

/// The damping, cutoff and normalization coefficients that `set_f_q`
/// computes from a normalized frequency and a resonance.
pub open spec fn svf_coeffs_spec(f: int, resonance: int) -> (int, int, int) {
    let g = tan_fx_spec(clamp_spec(f, 0, NF_MAX as int));
    let r = fx_div_spec(ONE as int, resonance);
    let h = fx_div_spec(ONE as int, ONE + fx_mul_spec(r, g) + fx_mul_spec(g, g));
    (g, r, h)
}

/// One algebraic step of the coupled integrator update. Within the
/// saturation rails it is exactly
/// `hp = (in - r*s1 - g*s1 - s2) * h; bp = g*hp + s1; lp = g*bp + s2`,
/// with the new states `g*hp + bp` and `g*bp + lp`.
pub open spec fn svf_process_spec(s: Svf, input: int) -> (Svf, i64) {
    let xs = clamp_spec(input - fx_mul_spec(s.r as int, s.state_1 as int)
        - fx_mul_spec(s.g as int, s.state_1 as int) - s.state_2 as int,
        -FX_LIMIT as int, FX_LIMIT as int);
    let hp = fx_mul_spec(xs, s.h as int);
    let ghp = fx_mul_spec(s.g as int, hp);
    let bp = clamp_spec(ghp + s.state_1 as int, -FX_LIMIT as int, FX_LIMIT as int);
    let gbp = fx_mul_spec(s.g as int, bp);
    let lp = clamp_spec(gbp + s.state_2 as int, -FX_LIMIT as int, FX_LIMIT as int);
    let s1 = clamp_spec(ghp + bp, -STATE_MAX as int, STATE_MAX as int) as i64;
    let s2 = clamp_spec(gbp + lp, -STATE_MAX as int, STATE_MAX as int) as i64;
    let out = match s.mode {
        FilterMode::LowPass => lp,
        FilterMode::BandPass => bp,
        FilterMode::HighPass => hp,
    };
    (Svf { state_1: s1, state_2: s2, ..s }, out as i64)
}

impl Svf {
    /// Coefficients inside their documented ranges, states inside the rails.
    pub open spec fn wf(self) -> bool {
        &&& 0 <= self.g <= G_CAP
        &&& 0 <= self.r <= R_CAP
        &&& 0 <= self.h <= ONE
        &&& -STATE_MAX <= self.state_1 <= STATE_MAX
        &&& -STATE_MAX <= self.state_2 <= STATE_MAX
    }

    /// Set the coefficients from a normalized cutoff frequency (Q20 cycles
    /// per sample, clamped to `[0, NF_MAX]`) and a resonance (Q20, at least
    /// `RES_MIN`).
    pub fn set_f_q(&mut self, f: i64, resonance: i64)
        requires
            old(self).wf(),
            RES_MIN <= resonance,
        ensures
            (final(self).g as int, final(self).r as int, final(self).h as int)
                == svf_coeffs_spec(f as int, resonance as int),
            final(self).wf(),
            final(self).state_1 == old(self).state_1,
            final(self).state_2 == old(self).state_2,
            final(self).mode == old(self).mode,
    {
        let nf = clamp_i64(f, 0, NF_MAX);
        let g = tan_fx(nf);
        proof {
            lemma_div_pos_is_pos(ONE as int * ONE as int, resonance as int);
            lemma_div_is_ordered_by_denominator(ONE as int * ONE as int, RES_MIN as int,
                resonance as int);
        }
        let r = fx_div(ONE, resonance);
        let rg = fx_mul(r, g);
        let gg = fx_mul(g, g);
        proof {
            lemma_mul_bound(r as int, g as int, R_CAP as int, G_CAP as int);
            lemma_tdiv_bound(r as int * g as int, ONE as int, 12000000000000);
            lemma_mul_bound(g as int, g as int, G_CAP as int, G_CAP as int);
            lemma_tdiv_bound(g as int * g as int, ONE as int, 13732910156250);
        }
        let denom = ONE + rg + gg;
        proof {
            lemma_div_pos_is_pos(ONE as int * ONE as int, denom as int);
            lemma_div_is_ordered_by_denominator(ONE as int * ONE as int, ONE as int, denom as int);
        }
        let h = fx_div(ONE, denom);
        self.g = g;
        self.r = r;
        self.h = h;
    }

    /// Advance the filter by one sample: the coupled high/band/low-pass
    /// update over the current coefficients, returning the output selected
    /// by `mode`. Always bounded by the saturation rails.
    pub fn process(&mut self, input: i64) -> (out: i64)
        requires
            old(self).wf(),
            -STATE_MAX <= input <= STATE_MAX,
        ensures
            (*final(self), out) == svf_process_spec(*old(self), input as int),
            final(self).wf(),
            -FX_LIMIT <= out <= FX_LIMIT,
            final(self).g == old(self).g && final(self).r == old(self).r
                && final(self).h == old(self).h && final(self).mode == old(self).mode,
    {
        let tr = fx_mul(self.r, self.state_1);
        let tg = fx_mul(self.g, self.state_1);
        proof {
            lemma_mul_bound(self.r as int, self.state_1 as int, R_CAP as int, STATE_MAX as int);
            lemma_tdiv_bound(self.r as int * self.state_1 as int, ONE as int, 107374182400000);
            lemma_mul_bound(self.g as int, self.state_1 as int, G_CAP as int, STATE_MAX as int);
            lemma_tdiv_bound(self.g as int * self.state_1 as int, ONE as int, 122880000000000);
        }
        let xs = clamp_i64(input - tr - tg - self.state_2, -FX_LIMIT, FX_LIMIT);
        let hp = fx_mul(xs, self.h);
        proof {
            lemma_mul_bound(xs as int, self.h as int, FX_LIMIT as int, ONE as int);
            lemma_tdiv_bound(xs as int * self.h as int, ONE as int, FX_LIMIT as int);
        }
        let ghp = fx_mul(self.g, hp);
        proof {
            lemma_mul_bound(self.g as int, hp as int, G_CAP as int, FX_LIMIT as int);
            lemma_tdiv_bound(self.g as int * hp as int, ONE as int, 245760000000);
        }
        let bp = clamp_i64(ghp + self.state_1, -FX_LIMIT, FX_LIMIT);
        let gbp = fx_mul(self.g, bp);
        proof {
            lemma_mul_bound(self.g as int, bp as int, G_CAP as int, FX_LIMIT as int);
            lemma_tdiv_bound(self.g as int * bp as int, ONE as int, 245760000000);
        }
        let lp = clamp_i64(gbp + self.state_2, -FX_LIMIT, FX_LIMIT);
        self.state_1 = clamp_i64(ghp + bp, -STATE_MAX, STATE_MAX);
        self.state_2 = clamp_i64(gbp + lp, -STATE_MAX, STATE_MAX);
        match self.mode {
            FilterMode::LowPass => lp,
            FilterMode::BandPass => bp,
            FilterMode::HighPass => hp,
        }
    }
}

impl Default for Svf {
    /// A low-pass filter, fully open (cutoff clamped to the stability
    /// bound), unit resonance, cleared states.
    fn default() -> (r: Self)
        ensures
            r.wf(),
            r.mode == FilterMode::LowPass,
            r.state_1 == 0,
            r.state_2 == 0,
            (r.g as int, r.r as int, r.h as int) == svf_coeffs_spec(FX_LIMIT as int, ONE as int),
    {
        let mut this = Svf { mode: FilterMode::LowPass, g: 0, r: 0, h: 0, state_1: 0, state_2: 0 };
        this.set_f_q(FX_LIMIT, ONE);
        this
    }
}

} // verus!
