//! Small pure signal helpers shared by the modulators and oscillators.
//! All Q20 unless noted.

use crate::fixed::{clamp_spec, fx_div, fx_div_spec, fx_mul, fx_mul_spec, lemma_mul_bound,
    lemma_tdiv_bound, lemma_tdiv_shrinks, tdiv, tdiv_exec, FX_LIMIT, ONE};
use vstd::arithmetic::div_mod::lemma_div_pos_is_pos;
use vstd::prelude::*;

verus! {

/// Domain bound for the soft limiter.
pub const SOFT_IN_MAX: i64 = 2000000000;

/// The cubic rational soft limiter `x * (27 + x^2) / (27 + 9 * x^2)`,
/// computed through the exact partial-fraction form
/// `x / 9 + (8/3) * x / (x^2 + 3)`, which never overflows Q20 in `i64`.
pub open spec fn soft_limit_spec(x: int) -> int {
    let den = fx_mul_spec(x, x) + 3 * ONE;
    tdiv(x, 9) + tdiv(8 * fx_div_spec(x, den), 3)
}

pub fn soft_limit(x: i64) -> (r: i64)
    requires
        -SOFT_IN_MAX <= x <= SOFT_IN_MAX,
    ensures
        r == soft_limit_spec(x as int),
        -FX_LIMIT <= r <= FX_LIMIT,
{
    let x2 = fx_mul(x, x);
    proof {
        lemma_mul_bound(x as int, x as int, SOFT_IN_MAX as int, SOFT_IN_MAX as int);
        assert(x as int * x as int >= 0) by (nonlinear_arith);
        lemma_div_pos_is_pos(x as int * x as int, ONE as int);
        lemma_tdiv_bound(x as int * x as int, ONE as int, 4000000000000000);
    }
    let den = x2 + 3 * ONE;
    let t = fx_div(x, den);
    let head = tdiv_exec(x, 9);
    proof {
        // |t| <= |x| / 3 + 1, because den is at least 3 * ONE.
        let q3 = if x >= 0 { x as int / 3 } else { (-x as int) / 3 };
        vstd::arithmetic::div_mod::lemma_fundamental_div_mod(if x >= 0 { x as int } else { -x as int }, 3);
        vstd::arithmetic::div_mod::lemma_mod_division_less_than_divisor(if x >= 0 { x as int } else { -x as int }, 3);
        assert((q3 + 1) * den as int >= (if x >= 0 { x as int } else { -x as int }) * ONE as int)
            by (nonlinear_arith)
            requires
                den as int >= 3 * ONE,
                3 * q3 + 2 >= (if x >= 0 { x as int } else { -x as int }),
                q3 >= 0,
                ONE == 1048576i64,
        ;
        lemma_tdiv_bound(x as int * ONE as int, den as int, q3 + 1);
        lemma_tdiv_shrinks(x as int, 9);
        lemma_tdiv_shrinks(8 * t as int, 3);
    }
    let tail = tdiv_exec(8 * t, 3);
    head + tail
}

/// The soft limiter with hard rails: inputs beyond three units clip to one.
pub open spec fn soft_clip_spec(x: int) -> int {
    if x < -3 * ONE {
        -ONE as int
    } else if x > 3 * ONE {
        ONE as int
    } else {
        soft_limit_spec(x)
    }
}

pub fn soft_clip(x: i64) -> (r: i64)
    ensures
        r == soft_clip_spec(x as int),
        -FX_LIMIT <= r <= FX_LIMIT,
{
    if x < -3 * ONE {
        -ONE
    } else if x > 3 * ONE {
        ONE
    } else {
        soft_limit(x)
    }
}

/// Linear blend from `a` (at fade 0) to `b` (at fade `ONE`).
pub open spec fn cross_fade_spec(a: int, b: int, fade: int) -> int {
    a + fx_mul_spec(b - a, fade)
}

pub fn cross_fade(a: i64, b: i64, fade: i64) -> (r: i64)
    requires
        -FX_LIMIT / 2 <= a <= FX_LIMIT / 2,
        -FX_LIMIT / 2 <= b <= FX_LIMIT / 2,
        0 <= fade <= ONE,
    ensures
        r == cross_fade_spec(a as int, b as int, fade as int),
        a <= b ==> a <= r <= b,
        b <= a ==> b <= r <= a,
{
    let d = fx_mul(b - a, fade);
    proof {
        lemma_blend_bounds(a as int, b as int, fade as int);
    }
    a + d
}

/// A fade-scaled difference keeps the sign and magnitude of the difference.
proof fn lemma_blend_bounds(a: int, b: int, fade: int)
    requires
        -FX_LIMIT <= a <= FX_LIMIT,
        -FX_LIMIT <= b <= FX_LIMIT,
        0 <= fade <= ONE,
    ensures
        a <= b ==> 0 <= fx_mul_spec(b - a, fade) <= b - a,
        b <= a ==> a - b >= -fx_mul_spec(b - a, fade) >= 0,
{
    if a <= b {
        lemma_mul_bound(b - a, fade, b - a, ONE as int);
        lemma_tdiv_bound((b - a) * fade, ONE as int, b - a);
        assert((b - a) * fade >= 0) by (nonlinear_arith)
            requires
                b - a >= 0,
                fade >= 0,
        ;
        lemma_div_pos_is_pos((b - a) * fade, ONE as int);
    } else {
        lemma_mul_bound(b - a, fade, a - b, ONE as int);
        lemma_tdiv_bound((b - a) * fade, ONE as int, a - b);
        assert((b - a) * fade <= 0) by (nonlinear_arith)
            requires
                b - a <= 0,
                fade >= 0,
        ;
        lemma_div_pos_is_pos(-((b - a) * fade), ONE as int);
    }
}

/// Linear interpolation into a lookup table: `index` is a unit position,
/// `size` the Q20 number of intervals. The scaled position must land
/// strictly inside the table; the result lies between the two adjacent
/// entries.
pub open spec fn interpolate_table_spec(table: Seq<i64>, index: int, size: int) -> int {
    let scaled = fx_mul_spec(index, size);
    let i = scaled / ONE as int;
    let frac = scaled - i * ONE;
    table[i] + fx_mul_spec(table[i + 1] - table[i], frac)
}

pub fn interpolate_table(table: &[i64], index: i64, size: i64) -> (r: i64)
    requires
        0 <= index <= FX_LIMIT,
        0 <= size <= FX_LIMIT,
        fx_mul_spec(index as int, size as int) / ONE as int + 1 < table@.len(),
        forall|k: int| 0 <= k < table@.len()
            ==> -FX_LIMIT / 2 <= #[trigger] table@[k] <= FX_LIMIT / 2,
    ensures
        r == interpolate_table_spec(table@, index as int, size as int),
        ({
            let i = fx_mul_spec(index as int, size as int) / ONE as int;
            let a = table@[i];
            let b = table@[i + 1];
            &&& a <= b ==> a <= r <= b
            &&& b <= a ==> b <= r <= a
        }),
{
    let scaled = fx_mul(index, size);
    proof {
        lemma_mul_bound(index as int, size as int, FX_LIMIT as int, FX_LIMIT as int);
        lemma_tdiv_bound(index as int * size as int, ONE as int, 4398046511104);
        lemma_div_pos_is_pos(index as int * size as int, ONE as int);
        lemma_div_pos_is_pos(scaled as int, ONE as int);
        vstd::arithmetic::div_mod::lemma_fundamental_div_mod(scaled as int, ONE as int);
        vstd::arithmetic::div_mod::lemma_mod_division_less_than_divisor(scaled as int, ONE as int);
    }
    let i = tdiv_exec(scaled, ONE);
    let frac = scaled - i * ONE;
    let a = table[i as usize];
    let b = table[(i + 1) as usize];
    let d = fx_mul(b - a, frac);
    proof {
        lemma_blend_bounds(a as int, b as int, frac as int);
    }
    a + d
}

/// Clip a plain integer into the 16-bit sample range.
pub fn clip16(x: i32) -> (r: i16)
    ensures
        r as int == clamp_spec(x as int, -32768, 32767),
{
    if x < -32768 {
        return -32768;
    }
    if x > 32767 {
        return 32767;
    }
    return x as i16;
}

} // verus!
