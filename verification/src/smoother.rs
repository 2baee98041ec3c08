//! Per-parameter linear smoother: the abstract capability the core asks of
//! its host — set a target, then draw one interpolated value per sample.
//! Each call to `next` covers an equal share of the remaining distance, so
//! the ramp is linear and lands exactly on the target on its last step.

use crate::fixed::{imul, lemma_tdiv_shrinks, tdiv, tdiv_exec, FX_LIMIT};
use vstd::arithmetic::div_mod::lemma_div_pos_is_pos;
use vstd::prelude::*;

verus! {

/// Upper bound on smoothing ramp lengths, in samples.
pub const STEPS_MAX: i64 = 1000000000;

#[derive(Clone, Copy, PartialEq, Eq, Structural, Debug)]
pub struct LinearSmoother {
    /// Ramp duration in whole milliseconds.
    pub smoothing_ms: i64,
    pub current: i64,
    pub target: i64,
    pub steps_left: i64,
}

impl LinearSmoother {
    pub open spec fn wf(self) -> bool {
        &&& 1 <= self.smoothing_ms <= 1000
        &&& -FX_LIMIT <= self.current <= FX_LIMIT
        &&& -FX_LIMIT <= self.target <= FX_LIMIT
        &&& 0 <= self.steps_left <= STEPS_MAX
    }

    /// A smoother at rest on `value`, ramping over `ms` milliseconds.
    pub fn new(ms: i64, value: i64) -> (r: Self)
        requires
            1 <= ms <= 1000,
            -FX_LIMIT <= value <= FX_LIMIT,
        ensures
            r == (LinearSmoother { smoothing_ms: ms, current: value, target: value, steps_left: 0 }),
            r.wf(),
    {
        LinearSmoother { smoothing_ms: ms, current: value, target: value, steps_left: 0 }
    }

    /// The ramp length in samples that `set_target` computes.
    pub open spec fn ramp_steps_spec(self, sample_rate: int) -> int {
        let steps = (self.smoothing_ms * sample_rate) / 1000;
        if steps < 1 {
            1
        } else {
            steps
        }
    }

    /// Aim the smoother at `target`, restarting the ramp from the current
    /// value over the configured duration at the given sample rate.
    pub fn set_target(&mut self, sample_rate: i64, target: i64)
        requires
            old(self).wf(),
            1 <= sample_rate <= crate::envelope::RATE_MAX,
            -FX_LIMIT <= target <= FX_LIMIT,
        ensures
            *final(self) == (LinearSmoother {
                target,
                steps_left: old(self).ramp_steps_spec(sample_rate as int) as i64,
                ..*old(self)
            }),
            final(self).wf(),
            final(self).current == old(self).current,
    {
        let raw = imul(self.smoothing_ms, sample_rate);
        let steps = tdiv_exec(raw, 1000);
        proof {
            crate::fixed::lemma_mul_bound(self.smoothing_ms as int, sample_rate as int, 1000,
                crate::envelope::RATE_MAX as int);
            lemma_div_pos_is_pos(raw as int, 1000);
            lemma_tdiv_shrinks(raw as int, 1000);
        }
        self.target = target;
        self.steps_left = if steps < 1 {
            1
        } else {
            steps
        };
    }

    /// The state and value after one smoothing step: with `n` steps left the
    /// current value moves by one `n`-th of the remaining distance, so the
    /// final step lands exactly on the target.
    pub open spec fn next_spec(self) -> (LinearSmoother, i64) {
        if self.steps_left <= 0 {
            (self, self.current)
        } else {
            let inc = tdiv(self.target - self.current, self.steps_left as int);
            let c = (self.current + inc) as i64;
            (LinearSmoother { current: c, steps_left: (self.steps_left - 1) as i64, ..self }, c)
        }
    }

    /// Draw the next interpolated value.
    pub fn next(&mut self) -> (r: i64)
        requires
            old(self).wf(),
        ensures
            (*final(self), r) == old(self).next_spec(),
            final(self).wf(),
            final(self).target == old(self).target,
            final(self).smoothing_ms == old(self).smoothing_ms,
            old(self).current <= old(self).target
                ==> old(self).current <= r <= old(self).target,
            old(self).target <= old(self).current
                ==> old(self).target <= r <= old(self).current,
            old(self).steps_left == 1 ==> r == old(self).target,
            old(self).steps_left == 0 ==> r == old(self).current,
    {
        if self.steps_left <= 0 {
            return self.current;
        }
        let inc = tdiv_exec(self.target - self.current, self.steps_left);
        proof {
            lemma_tdiv_shrinks((self.target - self.current) as int, self.steps_left as int);
            if self.steps_left == 1 {
                vstd::arithmetic::div_mod::lemma_div_basics_1(
                    (self.target - self.current) as int);
                vstd::arithmetic::div_mod::lemma_div_basics_1(
                    (self.current - self.target) as int);
            }
        }
        self.current = self.current + inc;
        self.steps_left = self.steps_left - 1;
        self.current
    }
}

} // verus!
