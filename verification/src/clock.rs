//! Checkpoint alignment and maturity-fraction computation.

use vstd::prelude::*;

use crate::errors::HyperdriveError;
use crate::fixed_point::{scale, FixedPoint};
use crate::fixed_ops::{fp_res_matches, sdiv_down};
use crate::state::State;
use crate::wide::U512;

verus! {

/// Spec of the normalized time remaining: `(maturity - current) / duration`
/// as an 18-decimal fraction, clamped to `[0, 1]`.
pub open spec fn s_time_remaining(current: nat, maturity: nat, duration: nat) -> Result<
    nat,
    HyperdriveError,
> {
    if maturity <= current {
        Ok(0)
    } else {
        match sdiv_down((maturity - current) as nat, duration) {
            Err(e) => Err(e),
            Ok(f) => Ok(if f <= scale() {
                f
            } else {
                scale()
            }),
        }
    }
}

impl State {
    /// Rounds a timestamp down to the checkpoint that contains it:
    /// `time - time % checkpointDuration`.
    pub fn to_checkpoint(&self, time: &FixedPoint) -> (r: FixedPoint)
        requires
            self@.wf(),
        ensures
            r@ == time@ - time@ % self@.config.checkpoint_duration,
    {
        let wide = U512::from_fixed(time);
        proof {
            time.lemma_bound();
            crate::fixed_ops::lemma_div_ge_iff(
                time@,
                self@.config.checkpoint_duration,
                crate::fixed_point::p256(),
            );
            vstd::arithmetic::mul::lemma_mul_inequality(
                1,
                self@.config.checkpoint_duration as int,
                crate::fixed_point::p256() as int,
            );
            vstd::arithmetic::mul::lemma_mul_is_commutative(
                crate::fixed_point::p256() as int,
                self@.config.checkpoint_duration as int,
            );
        }
        let (_, rem) = crate::wide::div_rem_wide(&wide, &self.config.checkpoint_duration);
        time.overflowing_sub(&rem).0
    }

    /// The fraction of a position's duration left until maturity, as an
    /// 18-decimal fraction in `[0, 1]`: zero once matured, one for a
    /// position spanning the full duration or more.
    pub fn time_remaining_scaled(&self, current_time: &FixedPoint, maturity_time: &FixedPoint)
        -> (r: Result<FixedPoint, HyperdriveError>)
        requires
            self@.wf(),
        ensures
            fp_res_matches(
                r,
                s_time_remaining(current_time@, maturity_time@, self@.config.position_duration),
            ),
    {
        if maturity_time.le(current_time) {
            return Ok(FixedPoint::zero());
        }
        let left = maturity_time.overflowing_sub(current_time).0;
        let frac = match left.div_down(&self.config.position_duration) {
            Ok(v) => v,
            Err(e) => {
                return Err(e);
            },
        };
        Ok(frac.min(&FixedPoint::one()))
    }
}

} // verus!
