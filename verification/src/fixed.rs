//! Q20 fixed-point arithmetic: every signal, phase, coefficient and time in
//! the synthesizer core is an `i64` holding `value * 2^20`, so one unit is
//! `ONE`. Multiplication and division round toward zero, as the helpers here
//! define and their contracts state exactly.

use vstd::arithmetic::div_mod::{
    lemma_div_by_multiple, lemma_div_is_ordered, lemma_div_of0, lemma_div_pos_is_pos,
};
use vstd::prelude::*;

verus! {

/// One unit (1.0) in Q20 fixed point.
pub const ONE: i64 = 1048576;

/// One half (0.5) in Q20 fixed point.
pub const HALF: i64 = 524288;

/// Largest operand magnitude the multiplication helpers accept; products of
/// two such operands still fit in an `i64`.
pub const FX_LIMIT: i64 = 2147483648;

/// Largest dividend magnitude the Q20 division helper accepts; such a value
/// still fits in an `i64` after the `ONE` pre-scaling.
pub const FX_BIG: i64 = 4398046511104;

/// Truncating (round-toward-zero) division; meaningful for positive divisors.
pub open spec fn tdiv(x: int, d: int) -> int {
    if x >= 0 {
        x / d
    } else {
        -((-x) / d)
    }
}

/// Product of two Q20 values, rounded toward zero.
pub open spec fn fx_mul_spec(a: int, b: int) -> int {
    tdiv(a * b, ONE as int)
}

/// Quotient of two Q20 values (positive divisor), rounded toward zero.
pub open spec fn fx_div_spec(a: int, b: int) -> int {
    tdiv(a * (ONE as int), b)
}

/// `x` forced into `[lo, hi]`.
pub open spec fn clamp_spec(x: int, lo: int, hi: int) -> int {
    if x < lo {
        lo
    } else if x > hi {
        hi
    } else {
        x
    }
}

/// A product is bounded by the product of the operand bounds.
pub proof fn lemma_mul_bound(a: int, b: int, m: int, n: int)
    by (nonlinear_arith)
    requires
        -m <= a <= m,
        -n <= b <= n,
        0 <= m,
        0 <= n,
    ensures
        -(m * n) <= a * b <= m * n,
{
}

/// Truncating division keeps a bound that holds as a multiple of the divisor.
pub proof fn lemma_tdiv_bound(x: int, d: int, b: int)
    requires
        1 <= d,
        0 <= b,
        -(b * d) <= x <= b * d,
    ensures
        -b <= tdiv(x, d) <= b,
{
    if x >= 0 {
        lemma_div_pos_is_pos(x, d);
        lemma_div_is_ordered(x, b * d, d);
        lemma_div_by_multiple(b, d);
    } else {
        lemma_div_pos_is_pos(-x, d);
        lemma_div_is_ordered(-x, b * d, d);
        lemma_div_by_multiple(b, d);
    }
}

/// The quotient scaled back by the divisor stays within the dividend: the
/// product form of truncation, for bounds that combine linearly.
pub proof fn lemma_tdiv_mul_le(x: int, d: int)
    requires
        1 <= d,
    ensures
        x >= 0 ==> 0 <= d * tdiv(x, d) <= x,
        x < 0 ==> x <= d * tdiv(x, d) <= 0,
{
    if x >= 0 {
        lemma_div_pos_is_pos(x, d);
        vstd::arithmetic::div_mod::lemma_fundamental_div_mod(x, d);
        vstd::arithmetic::div_mod::lemma_mod_division_less_than_divisor(x, d);
        assert(d * (x / d) >= 0) by (nonlinear_arith)
            requires
                d >= 1,
                x / d >= 0,
        ;
    } else {
        lemma_div_pos_is_pos(-x, d);
        vstd::arithmetic::div_mod::lemma_fundamental_div_mod(-x, d);
        vstd::arithmetic::div_mod::lemma_mod_division_less_than_divisor(-x, d);
        assert(d * ((-x) / d) >= 0) by (nonlinear_arith)
            requires
                d >= 1,
                (-x) / d >= 0,
        ;
        assert(d * tdiv(x, d) == -(d * ((-x) / d))) by (nonlinear_arith)
            requires
                tdiv(x, d) == -((-x) / d),
        ;
    }
}

/// A Q20 product of a nonnegative factor and a bounded factor, in product
/// form: `ONE` times the product lies between the factor scaled by the two
/// bounds, ready to combine linearly with other weighted terms.
pub proof fn lemma_fx_mul_scaled_bound(a: int, b: int, lo: int, hi: int)
    requires
        0 <= a,
        lo <= b,
        b <= hi,
        lo <= 0,
        0 <= hi,
    ensures
        a * lo <= ONE * fx_mul_spec(a, b),
        ONE * fx_mul_spec(a, b) <= a * hi,
{
    let x = a * b;
    assert(a * lo <= x && x <= a * hi && a * lo <= 0 && 0 <= a * hi) by (nonlinear_arith)
        requires
            x == a * b,
            0 <= a,
            lo <= b,
            b <= hi,
            lo <= 0,
            0 <= hi,
    ;
    lemma_tdiv_mul_le(x, ONE as int);
}

/// Truncating division never grows the magnitude of its dividend.
pub proof fn lemma_tdiv_shrinks(x: int, d: int)
    requires
        1 <= d,
    ensures
        -x <= tdiv(x, d) <= x || x <= tdiv(x, d) <= -x,
        x >= 0 ==> 0 <= tdiv(x, d) <= x,
        x < 0 ==> x <= tdiv(x, d) <= 0,
{
    if x >= 0 {
        assert(x <= x * d) by (nonlinear_arith)
            requires
                x >= 0,
                d >= 1,
        ;
        lemma_tdiv_bound(x, d, x);
    } else {
        assert(-x <= -x * d) by (nonlinear_arith)
            requires
                x < 0,
                d >= 1,
        ;
        lemma_tdiv_bound(x, d, -x);
    }
}

/// Exact truncating division of an `i64` by a positive `i64`.
pub fn tdiv_exec(x: i64, d: i64) -> (r: i64)
    requires
        1 <= d,
    ensures
        r == tdiv(x as int, d as int),
{
    proof {
        lemma_tdiv_shrinks(x as int, d as int);
        if x as int == 0 {
            lemma_div_of0(d as int);
        }
    }
    let q = x.checked_div(d);
    q.unwrap()
}

/// Plain product of two bounded `i64` values.
pub fn imul(a: i64, b: i64) -> (r: i64)
    requires
        -FX_LIMIT <= a <= FX_LIMIT,
        -FX_LIMIT <= b <= FX_LIMIT,
    ensures
        r == a as int * b as int,
{
    proof {
        lemma_mul_bound(a as int, b as int, FX_LIMIT as int, FX_LIMIT as int);
    }
    a * b
}

/// Q20 multiplication: `a * b / ONE`, rounded toward zero.
pub fn fx_mul(a: i64, b: i64) -> (r: i64)
    requires
        -FX_LIMIT <= a <= FX_LIMIT,
        -FX_LIMIT <= b <= FX_LIMIT,
    ensures
        r == fx_mul_spec(a as int, b as int),
{
    let p = imul(a, b);
    tdiv_exec(p, ONE)
}

/// Q20 division: `a * ONE / b`, rounded toward zero; `b` must be positive.
pub fn fx_div(a: i64, b: i64) -> (r: i64)
    requires
        -FX_BIG <= a <= FX_BIG,
        1 <= b,
    ensures
        r == fx_div_spec(a as int, b as int),
{
    proof {
        lemma_mul_bound(a as int, ONE as int, FX_BIG as int, ONE as int);
    }
    let p = a * ONE;
    tdiv_exec(p, b)
}

/// Plain truncating division for nonnegative dividends.
pub fn idiv(a: i64, b: i64) -> (r: i64)
    requires
        0 <= a,
        1 <= b,
    ensures
        r == a as int / b as int,
{
    tdiv_exec(a, b)
}

/// A Q20 quotient with its domain forced: the divisor is raised to at least
/// one and the result clamped into `[lo, hi]`. Degenerate ratios (a zero or
/// negative denominator, a ratio outside its intended range after a
/// parameter jump at a block boundary) are clamped, never rejected.
pub open spec fn div_clamp_spec(a: int, b: int, lo: int, hi: int) -> int {
    let d = if b < 1 {
        1
    } else {
        b
    };
    clamp_spec(fx_div_spec(a, d), lo, hi)
}

/// See `div_clamp_spec`.
pub fn div_clamp(a: i64, b: i64, lo: i64, hi: i64) -> (r: i64)
    requires
        -FX_BIG <= a <= FX_BIG,
        lo <= hi,
    ensures
        r == div_clamp_spec(a as int, b as int, lo as int, hi as int),
        lo <= r <= hi,
{
    let d = if b < 1 {
        1
    } else {
        b
    };
    let q = fx_div(a, d);
    clamp_i64(q, lo, hi)
}

/// Linear interpolation step between two values: `a + (b - a) * frac / den`,
/// landing between the two endpoints.
pub open spec fn lerp_spec(a: int, b: int, frac: int, den: int) -> int {
    a + tdiv((b - a) * frac, den)
}

/// See `lerp_spec`.
pub fn lerp(a: i64, b: i64, frac: i64, den: i64) -> (r: i64)
    requires
        -FX_LIMIT / 2 <= a <= FX_LIMIT / 2,
        -FX_LIMIT / 2 <= b <= FX_LIMIT / 2,
        0 <= frac <= den,
        1 <= den <= ONE,
    ensures
        r == lerp_spec(a as int, b as int, frac as int, den as int),
        a <= b ==> a <= r <= b,
        b <= a ==> b <= r <= a,
{
    let p = imul(b - a, frac);
    proof {
        if b >= a {
            lemma_mul_bound((b - a) as int, frac as int, (b - a) as int, den as int);
            lemma_tdiv_bound((b - a) as int * frac as int, den as int, (b - a) as int);
            assert((b - a) as int * frac as int >= 0) by (nonlinear_arith)
                requires
                    (b - a) as int >= 0,
                    frac as int >= 0,
            ;
            lemma_div_pos_is_pos((b - a) as int * frac as int, den as int);
        } else {
            lemma_mul_bound((b - a) as int, frac as int, (a - b) as int, den as int);
            lemma_tdiv_bound((b - a) as int * frac as int, den as int, (a - b) as int);
            assert((b - a) as int * frac as int <= 0) by (nonlinear_arith)
                requires
                    (b - a) as int <= 0,
                    frac as int >= 0,
            ;
            lemma_div_pos_is_pos(-((b - a) as int * frac as int), den as int);
        }
    }
    a + tdiv_exec(p, den)
}

/// `x` forced into `[lo, hi]`.
pub fn clamp_i64(x: i64, lo: i64, hi: i64) -> (r: i64)
    requires
        lo <= hi,
    ensures
        r == clamp_spec(x as int, lo as int, hi as int),
{
    if x < lo {
        lo
    } else if x > hi {
        hi
    } else {
        x
    }
}

} // verus!
