//! Single-pole exponential smoother.
//!
//! The smoother keeps one running value and blends every incoming sample
//! into it: `value := alpha * sample + (1 - alpha) * value`.  All numbers
//! are IEEE single-precision values carried as `u32` bit patterns; see
//! [`crate::ieee`].

use crate::ieee::add_single;
use crate::ieee::mul_single;
use crate::ieee::sub_single;
use crate::ieee::ieee_add;
use crate::ieee::ieee_mul;
use crate::ieee::ieee_sub;
use crate::ieee::ONE_BITS;
use vstd::prelude::*;

verus! {

/// One smoothing step: `alpha * sample + (1 - alpha) * value`, carried out
/// in IEEE single-precision arithmetic on bit patterns.
pub open spec fn smooth_step(alpha: u32, value: u32, sample: u32) -> u32 {
    ieee_add(ieee_mul(alpha, sample), ieee_mul(ieee_sub(ONE_BITS, alpha), value))
}

/// The value reached from `value` by feeding `samples` in order.
pub open spec fn smooth_run(alpha: u32, value: u32, samples: Seq<u32>) -> u32
    decreases samples.len(),
{
    if samples.len() == 0 {
        value
    } else {
        smooth_step(alpha, smooth_run(alpha, value, samples.drop_last()), samples.last())
    }
}

/// The successive outputs observed while feeding `samples` in order.
pub open spec fn smooth_outputs(alpha: u32, value: u32, samples: Seq<u32>) -> Seq<u32> {
    Seq::new(samples.len(), |i: int| smooth_run(alpha, value, samples.take(i + 1)))
}

/// A single-pole smoother: a blend coefficient fixed at construction and
/// the current smoothed value, both as IEEE single-precision bit patterns.
///
/// The coefficient is not validated; a caller that supplies one outside
/// `[0, 1]`, or one that is not a number, gets the arithmetic's verbatim
/// outcome.
pub struct SMA {
    alpha: u32,
    value: u32,
}

impl SMA {
    /// The blend coefficient, as a bit pattern.
    pub closed spec fn alpha_bits(&self) -> u32 {
        self.alpha
    }

    /// The current smoothed value, as a bit pattern.
    pub closed spec fn value_bits(&self) -> u32 {
        self.value
    }

    /// Builds a smoother with the given coefficient; the smoothed value
    /// starts at zero, whose bit pattern is zero.
    pub fn new(alpha: u32) -> (r: SMA)
        ensures
            r.alpha_bits() == alpha,
            r.value_bits() == 0u32,
    {
        SMA { alpha, value: 0 }
    }

    /// Blends one sample into the current value:
    /// `value := alpha * sample + (1 - alpha) * value`.
    pub fn feed(&mut self, value: u32)
        ensures
            final(self).alpha_bits() == old(self).alpha_bits(),
            final(self).value_bits() == smooth_step(
                old(self).alpha_bits(),
                old(self).value_bits(),
                value,
            ),
    {
        self.value = add_single(
            mul_single(self.alpha, value),
            mul_single(sub_single(ONE_BITS, self.alpha), self.value),
        );
    }

    /// The current smoothed value, as a bit pattern.
    pub fn value(&self) -> (r: u32)
        ensures
            r == self.value_bits(),
    {
        self.value
    }

    /// Sets the smoothed value back to zero; the coefficient is kept.
    pub fn reset(&mut self)
        ensures
            final(self).alpha_bits() == old(self).alpha_bits(),
            final(self).value_bits() == 0u32,
    {
        self.value = 0;
    }
}

/// Feeding one more sample steps the run once: the value after a sequence
/// of feeds obeys the recurrence `v_n = alpha * x_n + (1 - alpha) * v_(n-1)`
/// step by step.
pub proof fn lemma_smooth_run_push(alpha: u32, value: u32, samples: Seq<u32>, sample: u32)
    ensures
        smooth_run(alpha, value, samples.push(sample)) == smooth_step(
            alpha,
            smooth_run(alpha, value, samples),
            sample,
        ),
{
    assert(samples.push(sample).drop_last() =~= samples);
}

/// A reset smoother replays like a fresh one: resetting brings the state to
/// that of a freshly built smoother with the same coefficient, so feeding
/// the same samples again yields the same sequence of outputs.
pub proof fn lemma_reset_replays(after_reset: &SMA, fresh: &SMA, samples: Seq<u32>)
    requires
        after_reset.alpha_bits() == fresh.alpha_bits(),
        after_reset.value_bits() == 0u32,
        fresh.value_bits() == 0u32,
    ensures
        smooth_outputs(after_reset.alpha_bits(), after_reset.value_bits(), samples)
            == smooth_outputs(fresh.alpha_bits(), fresh.value_bits(), samples),
{
}

} // verus!
