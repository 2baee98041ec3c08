//! Band-limited step (BLEP) correction primitives: polynomial kernels applied
//! around a discontinuity of a naively generated waveform, one part to the
//! sample in which the discontinuity falls and one part to the sample after
//! it. `t` is the fractional position of the discontinuity within the sample
//! period, in Q20, so `t` ranges over `[0, ONE]`.

use crate::fixed::{idiv, imul, lemma_mul_bound, lemma_tdiv_bound, HALF, ONE};
use vstd::arithmetic::div_mod::{
    lemma_div_by_multiple, lemma_div_denominator, lemma_div_is_ordered, lemma_fundamental_div_mod,
    lemma_mod_division_less_than_divisor,
};
use vstd::arithmetic::mul::{
    lemma_mul_is_distributive_sub, lemma_mul_is_distributive_sub_other_way,
};
use vstd::prelude::*;

verus! {

/// Quadratic step correction owed to the sample containing the transition.
pub open spec fn this_blep_spec(t: int) -> int {
    (t * t) / (2 * ONE as int)
}

/// Quadratic step correction owed to the sample after the transition.
pub open spec fn next_blep_spec(t: int) -> int {
    this_blep_spec(ONE as int - t)
}

/// Quartic ramp correction owed to the sample after a slope discontinuity.
pub open spec fn next_integrated_blep_spec(t: int) -> int {
    let t1 = t / 2;
    let t2 = (t1 * t1) / (ONE as int);
    let t4 = (t2 * t2) / (ONE as int);
    196608 - t1 + t2 + t2 / 2 - t4
}

/// Quartic ramp correction owed to the sample containing the discontinuity.
pub open spec fn this_integrated_blep_spec(t: int) -> int {
    next_integrated_blep_spec(ONE as int - t)
}

pub fn this_blep_sample(t: i64) -> (r: i64)
    requires
        0 <= t <= ONE,
    ensures
        r == this_blep_spec(t as int),
        0 <= r <= HALF,
{
    let p = imul(t, t);
    proof {
        lemma_mul_bound(t as int, t as int, ONE as int, ONE as int);
        lemma_tdiv_bound(p as int, 2 * ONE as int, HALF as int);
    }
    idiv(p, 2097152)
}

pub fn next_blep_sample(t: i64) -> (r: i64)
    requires
        0 <= t <= ONE,
    ensures
        r == next_blep_spec(t as int),
        0 <= r <= HALF,
{
    this_blep_sample(ONE - t)
}

pub fn next_integrated_blep_sample(t: i64) -> (r: i64)
    requires
        0 <= t <= ONE,
    ensures
        r == next_integrated_blep_spec(t as int),
        -393216 <= r <= 196608,
{
    let t1 = idiv(t, 2);
    let p2 = imul(t1, t1);
    proof {
        lemma_mul_bound(t1 as int, t1 as int, HALF as int, HALF as int);
        lemma_tdiv_bound(p2 as int, ONE as int, 262144);
        // The square of the half-time stays under half of it:
        // t1 * t1 <= t1 * HALF, and (t1 * HALF) / ONE is exactly t1 / 2.
        assert(t1 as int * t1 as int <= t1 as int * HALF) by (nonlinear_arith)
            requires
                0 <= t1 as int <= HALF,
        ;
        lemma_div_is_ordered(t1 as int * t1 as int, t1 as int * HALF, ONE as int);
        lemma_div_denominator(t1 as int * HALF, HALF as int, 2);
        lemma_div_by_multiple(t1 as int, HALF as int);
    }
    let t2 = idiv(p2, ONE);
    let p4 = imul(t2, t2);
    proof {
        lemma_mul_bound(t2 as int, t2 as int, 262144, 262144);
        lemma_tdiv_bound(p4 as int, ONE as int, 65536);
        // Likewise t4 is at most a quarter of t2.
        assert(t2 as int * t2 as int <= t2 as int * 262144) by (nonlinear_arith)
            requires
                0 <= t2 as int <= 262144,
        ;
        lemma_div_is_ordered(t2 as int * t2 as int, t2 as int * 262144, ONE as int);
        lemma_div_denominator(t2 as int * 262144, 262144, 4);
        lemma_div_by_multiple(t2 as int, 262144);
    }
    let t4 = idiv(p4, ONE);
    let t2h = idiv(t2, 2);
    proof {
        lemma_fundamental_div_mod(t1 as int, 2);
        lemma_fundamental_div_mod(t1 as int, 4);
        lemma_mod_division_less_than_divisor(t1 as int, 2);
        lemma_mod_division_less_than_divisor(t1 as int, 4);
        lemma_div_is_ordered(t2 as int, t1 as int / 2, 2);
        lemma_div_denominator(t1 as int, 2, 2);
    }
    196608 - t1 + t2 + t2h - t4
}

pub fn this_integrated_blep_sample(t: i64) -> (r: i64)
    requires
        0 <= t <= ONE,
    ensures
        r == this_integrated_blep_spec(t as int),
        -393216 <= r <= 196608,
{
    next_integrated_blep_sample(ONE - t)
}

/// Dividing two values that differ by a multiple of the divisor yields
/// quotients that differ by exactly that multiple.
proof fn lemma_div_diff_multiple(a: int, b: int, d: int, k: int)
    requires
        0 <= a,
        0 <= b,
        1 <= d,
        a - b == k * d,
    ensures
        a / d - b / d == k,
{
    lemma_fundamental_div_mod(a, d);
    lemma_fundamental_div_mod(b, d);
    lemma_mod_division_less_than_divisor(a, d);
    lemma_mod_division_less_than_divisor(b, d);
    lemma_mul_is_distributive_sub(d, a / d, b / d);
    let m = k - (a / d - b / d);
    lemma_mul_is_distributive_sub_other_way(d, k, a / d - b / d);
    assert(a % d - b % d == m * d);
    assert(m == 0) by (nonlinear_arith)
        requires
            -d < m * d < d,
            1 <= d,
    ;
}

/// Law: the two halves of a unit-step correction cancel the step exactly.
/// Summing the correction owed to the current sample against the one owed to
/// the next sample leaves precisely `t - 1/2`, the exact first moment by
/// which a band-limited unit step at fractional time `t` differs from the
/// naive step over the two affected samples; no residue is left behind.
pub proof fn lemma_blep_step_cancellation(t: int)
    requires
        0 <= t <= ONE,
    ensures
        this_blep_spec(t) - next_blep_spec(t) == t - HALF,
{
    let u = ONE as int - t;
    assert(t * t >= 0 && u * u >= 0 && t * t - u * u == (t - HALF as int) * (2 * ONE as int))
        by (nonlinear_arith)
        requires
            0 <= t <= ONE as int,
            u == ONE as int - t,
    ;
    lemma_div_diff_multiple(t * t, u * u, 2 * ONE as int, t - HALF as int);
}

/// Law: the step kernels are mirror images of each other, and so are the
/// integrated (ramp) kernels: the correction owed to the next sample for a
/// transition at time `t` equals the one owed to the current sample for a
/// transition at time `ONE - t`.
pub proof fn lemma_blep_symmetry(t: int)
    requires
        0 <= t <= ONE,
    ensures
        next_blep_spec(t) == this_blep_spec(ONE as int - t),
        next_integrated_blep_spec(t) == this_integrated_blep_spec(ONE as int - t),
{
}

} // verus!
