//! Stateless cross-modulation library: pure functions combining a modulator
//! and a carrier signal under a unit parameter. All Q20; inputs are audio
//! signals within two units.

use crate::fixed::{clamp_i64, clamp_spec, fx_div, fx_div_spec, fx_mul, fx_mul_spec, idiv, imul,
    lemma_mul_bound, lemma_tdiv_bound, lemma_tdiv_shrinks, tdiv, tdiv_exec, FX_LIMIT, ONE};
use crate::util::{clip16, soft_limit, soft_limit_spec};
use vstd::arithmetic::div_mod::{lemma_div_pos_is_pos, lemma_fundamental_div_mod,
    lemma_mod_division_less_than_divisor};
use vstd::prelude::*;

verus! {

/// Largest modulator or carrier amplitude accepted (two units).
pub const MOD_IN_MAX: i64 = 2097152;

#[derive(Clone, Copy, PartialEq, Eq, Structural, Debug)]
pub enum ModulationAlgorithm {
    XFade,
    Fold,
    AnalogRingModulation,
    DigitalRingModulation,
    Xor,
    Nop,
}

/// Entry `k` of the wavefolding table: one and a half sine periods over the
/// table, `sin(1.5 * pi * (k/32 - 1))` in Q20. The fold design only asks for
/// a fixed, unit-bounded folding curve read by linear interpolation; this
/// table folds the drive once per excursion.
pub open spec fn fold_entry_spec(i: int) -> i64 {
    if i == 0 {
        1048576i64
    } else
    if i == 1 {
        1037227i64
    } else
    if i == 2 {
        1003425i64
    } else
    if i == 3 {
        947901i64
    } else
    if i == 4 {
        871859i64
    } else
    if i == 5 {
        776944i64
    } else
    if i == 6 {
        665210i64
    } else
    if i == 7 {
        539076i64
    } else
    if i == 8 {
        401273i64
    } else
    if i == 9 {
        254783i64
    } else
    if i == 10 {
        102778i64
    } else
    if i == 11 {
        -51451i64
    } else
    if i == 12 {
        -204567i64
    } else
    if i == 13 {
        -353255i64
    } else
    if i == 14 {
        -494295i64
    } else
    if i == 15 {
        -624636i64
    } else
    if i == 16 {
        -741455i64
    } else
    if i == 17 {
        -842224i64
    } else
    if i == 18 {
        -924761i64
    } else
    if i == 19 {
        -987281i64
    } else
    if i == 20 {
        -1028428i64
    } else
    if i == 21 {
        -1047313i64
    } else
    if i == 22 {
        -1043527i64
    } else
    if i == 23 {
        -1017151i64
    } else
    if i == 24 {
        -968758i64
    } else
    if i == 25 {
        -899394i64
    } else
    if i == 26 {
        -810560i64
    } else
    if i == 27 {
        -704181i64
    } else
    if i == 28 {
        -582558i64
    } else
    if i == 29 {
        -448324i64
    } else
    if i == 30 {
        -304386i64
    } else
    if i == 31 {
        -153858i64
    } else
    if i == 32 {
        0i64
    } else
    if i == 33 {
        153858i64
    } else
    if i == 34 {
        304386i64
    } else
    if i == 35 {
        448324i64
    } else
    if i == 36 {
        582558i64
    } else
    if i == 37 {
        704181i64
    } else
    if i == 38 {
        810560i64
    } else
    if i == 39 {
        899394i64
    } else
    if i == 40 {
        968758i64
    } else
    if i == 41 {
        1017151i64
    } else
    if i == 42 {
        1043527i64
    } else
    if i == 43 {
        1047313i64
    } else
    if i == 44 {
        1028428i64
    } else
    if i == 45 {
        987281i64
    } else
    if i == 46 {
        924761i64
    } else
    if i == 47 {
        842224i64
    } else
    if i == 48 {
        741455i64
    } else
    if i == 49 {
        624636i64
    } else
    if i == 50 {
        494295i64
    } else
    if i == 51 {
        353255i64
    } else
    if i == 52 {
        204567i64
    } else
    if i == 53 {
        51451i64
    } else
    if i == 54 {
        -102778i64
    } else
    if i == 55 {
        -254783i64
    } else
    if i == 56 {
        -401273i64
    } else
    if i == 57 {
        -539076i64
    } else
    if i == 58 {
        -665210i64
    } else
    if i == 59 {
        -776944i64
    } else
    if i == 60 {
        -871859i64
    } else
    if i == 61 {
        -947901i64
    } else
    if i == 62 {
        -1003425i64
    } else
    if i == 63 {
        -1037227i64
    } else {
        -1048576i64
    }
}

fn fold_entry(i: i64) -> (r: i64)
    requires
        0 <= i <= 64,
    ensures
        r == fold_entry_spec(i as int),
{
    match i {
        0 => 1048576,
        1 => 1037227,
        2 => 1003425,
        3 => 947901,
        4 => 871859,
        5 => 776944,
        6 => 665210,
        7 => 539076,
        8 => 401273,
        9 => 254783,
        10 => 102778,
        11 => -51451,
        12 => -204567,
        13 => -353255,
        14 => -494295,
        15 => -624636,
        16 => -741455,
        17 => -842224,
        18 => -924761,
        19 => -987281,
        20 => -1028428,
        21 => -1047313,
        22 => -1043527,
        23 => -1017151,
        24 => -968758,
        25 => -899394,
        26 => -810560,
        27 => -704181,
        28 => -582558,
        29 => -448324,
        30 => -304386,
        31 => -153858,
        32 => 0,
        33 => 153858,
        34 => 304386,
        35 => 448324,
        36 => 582558,
        37 => 704181,
        38 => 810560,
        39 => 899394,
        40 => 968758,
        41 => 1017151,
        42 => 1043527,
        43 => 1047313,
        44 => 1028428,
        45 => 987281,
        46 => 924761,
        47 => 842224,
        48 => 741455,
        49 => 624636,
        50 => 494295,
        51 => 353255,
        52 => 204567,
        53 => 51451,
        54 => -102778,
        55 => -254783,
        56 => -401273,
        57 => -539076,
        58 => -665210,
        59 => -776944,
        60 => -871859,
        61 => -947901,
        62 => -1003425,
        63 => -1037227,
        _ => -1048576,
    }
}

/// All wavefolding table entries are unit-bounded.
proof fn lemma_fold_entry_bounds()
    ensures
        forall|i: int| 0 <= i <= 64 ==> -ONE <= #[trigger] fold_entry_spec(i) <= ONE,
{
}

/// Linear blend of the two inputs.
pub open spec fn mod_x_fade_spec(x1: int, x2: int, p: int) -> int {
    fx_mul_spec(x1, ONE as int - p) + fx_mul_spec(x2, p)
}

/// The wavefolding table interpolated at the Q20 position `u` in
/// `[-ONE, ONE)`.
pub open spec fn fold_lookup_spec(u: int) -> int {
    let d = u + ONE;
    let i = d / 32768;
    let frac = d - i * 32768;
    let a = fold_entry_spec(i) as int;
    let b = fold_entry_spec(i + 1) as int;
    a + tdiv((b - a) * frac, 32768)
}

/// Fold: the inputs and a quarter of their product are summed, scaled by
/// `0.02 * p`, and sent through the wavefolding table.
pub open spec fn mod_fold_spec(x1: int, x2: int, p: int) -> int {
    let sum = x1 + x2 + tdiv(fx_mul_spec(x1, x2), 4);
    let driven = fx_mul_spec(sum, fx_mul_spec(20972, p));
    fold_lookup_spec(clamp_spec(driven, -ONE as int, ONE as int - 1))
}

/// The diode nonlinearity: a squared dead zone beyond `0.667`, scaled and
/// signed.
pub open spec fn diode_spec(x: int) -> int {
    let ax = if x >= 0 { x } else { -x };
    let dz0 = ax - 699400;
    let dz1 = if dz0 <= 0 { 0 } else { 2 * dz0 };
    let sq = fx_mul_spec(dz1, dz1);
    if x > 0 {
        fx_mul_spec(45348, sq)
    } else {
        -fx_mul_spec(45348, sq)
    }
}

/// Analog ring modulation: diodes on sum and difference of the inputs
/// (carrier doubled), scaled by `4 + 24 * p`, then soft-limited.
pub open spec fn mod_analog_ring_spec(m: int, c: int, p: int) -> int {
    let c2 = 2 * c;
    let ring = diode_spec(m + c2) + diode_spec(m - c2);
    soft_limit_spec(fx_mul_spec(ring, 4 * ONE + 24 * p))
}

/// Digital ring modulation: `4 * m * c * (1 + 8 * p)` through the
/// saturator `x / (1 + |x|)`.
pub open spec fn mod_digital_ring_spec(m: int, c: int, p: int) -> int {
    let ring = fx_mul_spec(4 * fx_mul_spec(m, c), ONE + 8 * p);
    let aring = if ring >= 0 { ring } else { -ring };
    fx_div_spec(ring, ONE + aring)
}

/// Xor: both inputs quantized to 16 bits and combined bitwise, crossfaded
/// against `0.7` times their plain sum.
pub open spec fn mod_xor_spec(x1: int, x2: int, p: int) -> int {
    let a = clamp_spec(tdiv(x1, 32), -32768, 32767) as i16;
    let b = clamp_spec(tdiv(x2, 32), -32768, 32767) as i16;
    let mq = (a ^ b) as int * 32;
    let sum = fx_mul_spec(x1 + x2, 734003);
    sum + fx_mul_spec(mq - sum, p)
}

/// What `process` returns for each algorithm.
pub open spec fn mod_process_spec(alg: ModulationAlgorithm, m: int, c: int, p: int) -> int {
    match alg {
        ModulationAlgorithm::XFade => mod_x_fade_spec(m, c, p),
        ModulationAlgorithm::Fold => mod_fold_spec(m, c, p),
        ModulationAlgorithm::AnalogRingModulation => mod_analog_ring_spec(m, c, p),
        ModulationAlgorithm::DigitalRingModulation => mod_digital_ring_spec(m, c, p),
        ModulationAlgorithm::Xor => mod_xor_spec(m, c, p),
        ModulationAlgorithm::Nop => m,
    }
}

impl ModulationAlgorithm {
    /// Combine modulator and carrier under the unit parameter `p`.
    pub fn process(&self, modulator: i64, carrier: i64, parameter: i64) -> (r: i64)
        requires
            -MOD_IN_MAX <= modulator <= MOD_IN_MAX,
            -MOD_IN_MAX <= carrier <= MOD_IN_MAX,
            0 <= parameter <= ONE,
        ensures
            r == mod_process_spec(*self, modulator as int, carrier as int, parameter as int),
            -FX_LIMIT <= r <= FX_LIMIT,
    {
        match self {
            ModulationAlgorithm::XFade => process_x_fade(modulator, carrier, parameter),
            ModulationAlgorithm::Fold => process_fold(modulator, carrier, parameter),
            ModulationAlgorithm::AnalogRingModulation => {
                process_analog_ring_modulation(modulator, carrier, parameter)
            }
            ModulationAlgorithm::DigitalRingModulation => {
                process_digital_ring_modulation(modulator, carrier, parameter)
            }
            ModulationAlgorithm::Xor => process_xor(modulator, carrier, parameter),
            ModulationAlgorithm::Nop => process_nop(modulator, carrier, parameter),
        }
    }
}

fn process_x_fade(x1: i64, x2: i64, parameter: i64) -> (r: i64)
    requires
        -MOD_IN_MAX <= x1 <= MOD_IN_MAX,
        -MOD_IN_MAX <= x2 <= MOD_IN_MAX,
        0 <= parameter <= ONE,
    ensures
        r == mod_x_fade_spec(x1 as int, x2 as int, parameter as int),
        -2 * MOD_IN_MAX <= r <= 2 * MOD_IN_MAX,
{
    let fi = fx_mul(x1, ONE - parameter);
    let fo = fx_mul(x2, parameter);
    proof {
        lemma_mul_bound(x1 as int, (ONE - parameter) as int, MOD_IN_MAX as int, ONE as int);
        lemma_tdiv_bound(x1 as int * (ONE - parameter) as int, ONE as int, MOD_IN_MAX as int);
        lemma_mul_bound(x2 as int, parameter as int, MOD_IN_MAX as int, ONE as int);
        lemma_tdiv_bound(x2 as int * parameter as int, ONE as int, MOD_IN_MAX as int);
    }
    fi + fo
}

fn process_fold(x1: i64, x2: i64, parameter: i64) -> (r: i64)
    requires
        -MOD_IN_MAX <= x1 <= MOD_IN_MAX,
        -MOD_IN_MAX <= x2 <= MOD_IN_MAX,
        0 <= parameter <= ONE,
    ensures
        r == mod_fold_spec(x1 as int, x2 as int, parameter as int),
        -ONE <= r <= ONE,
{
    proof {
        lemma_fold_entry_bounds();
    }
    let cross = fx_mul(x1, x2);
    proof {
        lemma_mul_bound(x1 as int, x2 as int, MOD_IN_MAX as int, MOD_IN_MAX as int);
        lemma_tdiv_bound(x1 as int * x2 as int, ONE as int, 4 * ONE as int);
        lemma_tdiv_shrinks(cross as int, 4);
    }
    let sum = x1 + x2 + tdiv_exec(cross, 4);
    let drive = fx_mul(20972, parameter);
    proof {
        lemma_mul_bound(20972, parameter as int, 20972, ONE as int);
        lemma_tdiv_bound(20972 * parameter as int, ONE as int, 20972);
    }
    let driven = fx_mul(sum, drive);
    proof {
        lemma_mul_bound(sum as int, drive as int, 9 * ONE as int, 20972);
        lemma_tdiv_bound(sum as int * drive as int, ONE as int, 188748);
    }
    let u = clamp_i64(driven, -ONE, ONE - 1);
    let d = u + ONE;
    let i = idiv(d, 32768);
    proof {
        lemma_fundamental_div_mod(d as int, 32768);
        lemma_mod_division_less_than_divisor(d as int, 32768);
        lemma_div_pos_is_pos(d as int, 32768);
        vstd::arithmetic::div_mod::lemma_div_is_ordered(d as int, 2097151, 32768);
    }
    let frac = d - i * 32768;
    let a = fold_entry(i);
    let b = fold_entry(i + 1);
    let num = imul(b - a, frac);
    proof {
        if b >= a {
            lemma_mul_bound((b - a) as int, frac as int, (b - a) as int, 32768);
            lemma_tdiv_bound((b - a) as int * frac as int, 32768, (b - a) as int);
            lemma_div_pos_is_pos((b - a) as int * frac as int, 32768);
        } else {
            lemma_mul_bound((b - a) as int, frac as int, (a - b) as int, 32768);
            lemma_tdiv_bound((b - a) as int * frac as int, 32768, (a - b) as int);
            lemma_div_pos_is_pos(-((b - a) as int * frac as int), 32768);
            assert((b - a) as int * frac as int <= 0) by (nonlinear_arith)
                requires
                    (b - a) as int <= 0,
                    frac as int >= 0,
            ;
        }
        if b >= a {
            assert((b - a) as int * frac as int >= 0) by (nonlinear_arith)
                requires
                    (b - a) as int >= 0,
                    frac as int >= 0,
            ;
        }
    }
    a + tdiv_exec(num, 32768)
}

/// The diode nonlinearity used by the analog ring modulator.
fn diode(x: i64) -> (r: i64)
    requires
        -6 * ONE <= x <= 6 * ONE,
    ensures
        r == diode_spec(x as int),
        -5242880 <= r <= 5242880,
{
    let ax = if x >= 0 { x } else { -x };
    let dz0 = ax - 699400;
    let dz1 = if dz0 <= 0 { 0 } else { 2 * dz0 };
    let sq = fx_mul(dz1, dz1);
    proof {
        lemma_mul_bound(dz1 as int, dz1 as int, 11184112, 11184112);
        lemma_tdiv_bound(dz1 as int * dz1 as int, ONE as int, 119290000);
        assert(dz1 as int * dz1 as int >= 0) by (nonlinear_arith);
        lemma_div_pos_is_pos(dz1 as int * dz1 as int, ONE as int);
    }
    let scaled = fx_mul(45348, sq);
    proof {
        lemma_mul_bound(45348, sq as int, 45348, 119290000);
        lemma_tdiv_bound(45348 * sq as int, ONE as int, 5160000);
        lemma_div_pos_is_pos(45348 * sq as int, ONE as int);
        assert(45348 * sq as int >= 0) by (nonlinear_arith)
            requires
                sq as int >= 0,
        ;
    }
    if x > 0 {
        scaled
    } else {
        -scaled
    }
}

fn process_analog_ring_modulation(modulator: i64, carrier: i64, parameter: i64) -> (r: i64)
    requires
        -MOD_IN_MAX <= modulator <= MOD_IN_MAX,
        -MOD_IN_MAX <= carrier <= MOD_IN_MAX,
        0 <= parameter <= ONE,
    ensures
        r == mod_analog_ring_spec(modulator as int, carrier as int, parameter as int),
        -FX_LIMIT <= r <= FX_LIMIT,
{
    let c2 = 2 * carrier;
    let ring = diode(modulator + c2) + diode(modulator - c2);
    let amt = 4 * ONE + 24 * parameter;
    let scaled = fx_mul(ring, amt);
    proof {
        lemma_mul_bound(ring as int, amt as int, 10485760, 29360128);
        lemma_tdiv_bound(ring as int * amt as int, ONE as int, 293601280);
    }
    soft_limit(scaled)
}

fn process_digital_ring_modulation(modulator: i64, carrier: i64, parameter: i64) -> (r: i64)
    requires
        -MOD_IN_MAX <= modulator <= MOD_IN_MAX,
        -MOD_IN_MAX <= carrier <= MOD_IN_MAX,
        0 <= parameter <= ONE,
    ensures
        r == mod_digital_ring_spec(modulator as int, carrier as int, parameter as int),
        -ONE <= r <= ONE,
{
    let t = fx_mul(modulator, carrier);
    proof {
        lemma_mul_bound(modulator as int, carrier as int, MOD_IN_MAX as int, MOD_IN_MAX as int);
        lemma_tdiv_bound(modulator as int * carrier as int, ONE as int, 4 * ONE as int);
    }
    let ring = fx_mul(4 * t, ONE + 8 * parameter);
    proof {
        lemma_mul_bound(4 * t as int, (ONE + 8 * parameter) as int, 16 * ONE as int,
            9 * ONE as int);
        lemma_tdiv_bound(4 * t as int * (ONE + 8 * parameter) as int, ONE as int,
            144 * ONE as int);
    }
    let aring = if ring >= 0 { ring } else { -ring };
    let out = fx_div(ring, ONE + aring);
    proof {
        lemma_mul_bound(ring as int, ONE as int, (ONE + aring) as int, ONE as int);
        lemma_tdiv_bound(ring as int * ONE as int, (ONE + aring) as int, ONE as int);
    }
    out
}

fn process_xor(x1: i64, x2: i64, parameter: i64) -> (r: i64)
    requires
        -MOD_IN_MAX <= x1 <= MOD_IN_MAX,
        -MOD_IN_MAX <= x2 <= MOD_IN_MAX,
        0 <= parameter <= ONE,
    ensures
        r == mod_xor_spec(x1 as int, x2 as int, parameter as int),
        -8 * ONE <= r <= 8 * ONE,
{
    proof {
        lemma_tdiv_shrinks(x1 as int, 32);
        lemma_tdiv_shrinks(x2 as int, 32);
    }
    let x1q = tdiv_exec(x1, 32);
    let x2q = tdiv_exec(x2, 32);
    let x1s = clip16(x1q as i32);
    let x2s = clip16(x2q as i32);
    let mixed = x1s ^ x2s;
    let mq = (mixed as i64) * 32;
    let sum = fx_mul(x1 + x2, 734003);
    proof {
        lemma_mul_bound((x1 + x2) as int, 734003, (2 * MOD_IN_MAX) as int, 734003);
        lemma_tdiv_bound((x1 + x2) as int * 734003, ONE as int, 3 * ONE as int);
    }
    let d = fx_mul(mq - sum, parameter);
    proof {
        lemma_mul_bound((mq - sum) as int, parameter as int, 4 * ONE as int, ONE as int);
        lemma_tdiv_bound((mq - sum) as int * parameter as int, ONE as int, 4 * ONE as int);
    }
    sum + d
}

fn process_nop(modulator: i64, _carrier: i64, _parameter: i64) -> (r: i64)
    ensures
        r == modulator,
{
    modulator
}

} // verus!
