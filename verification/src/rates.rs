//! Spot rate and pool calibration helpers.

use vstd::prelude::*;

use crate::errors::HyperdriveError;
use crate::fixed_point::{scale, FixedPoint};
use crate::fixed_ops::{fp_res_matches, sdiv_down, smul_down, spow};
use crate::state::{State, StateV};
use crate::yield_space::{s_state_spot_price, sadd, ssub};

verus! {

/// Seconds in a year, for annualizing a position duration.
pub const SECONDS_PER_YEAR: u64 = 31_536_000;

/// Calibration numerator `4.665`, 18-decimal.
pub const TIME_STRETCH_NUMERATOR: u64 = 4_665_000_000_000_000_000;

/// Calibration denominator `5.24592`, 18-decimal.
pub const TIME_STRETCH_DENOMINATOR: u64 = 5_245_920_000_000_000_000;

/// Spec mirror of `calculate_spot_rate`: the fixed rate implied by the
/// spot price, `(1 - p) / (p * annualizedDuration)`.
pub open spec fn s_spot_rate(s: StateV) -> Result<nat, HyperdriveError> {
    match s_state_spot_price(s) {
        Err(e) => Err(e),
        Ok(p) => match sdiv_down(s.config.position_duration, SECONDS_PER_YEAR as nat) {
            Err(e) => Err(e),
            Ok(ann) => match ssub(scale(), p) {
                Err(e) => Err(e),
                Ok(num) => match smul_down(p, ann) {
                    Err(e) => Err(e),
                    Ok(den) => sdiv_down(num, den),
                },
            },
        },
    }
}

/// Spec mirror of `calculate_time_stretch`.
pub open spec fn s_time_stretch(rate: nat, position_duration: nat) -> Result<
    nat,
    HyperdriveError,
> {
    match sdiv_down(position_duration, SECONDS_PER_YEAR as nat) {
        Err(e) => Err(e),
        Ok(ann) => match smul_down(rate, ann) {
            Err(e) => Err(e),
            Ok(radj) => match smul_down(TIME_STRETCH_NUMERATOR as nat, radj) {
                Err(e) => Err(e),
                Ok(num) => sdiv_down(num, TIME_STRETCH_DENOMINATOR as nat),
            },
        },
    }
}

/// Spec mirror of `calculate_initial_bond_reserves`.
pub open spec fn s_initial_bond_reserves(
    effective_share_reserves: nat,
    initial_vault_share_price: nat,
    apr: nat,
    position_duration: nat,
    time_stretch: nat,
) -> Result<nat, HyperdriveError> {
    match sdiv_down(position_duration, SECONDS_PER_YEAR as nat) {
        Err(e) => Err(e),
        Ok(ann) => match smul_down(apr, ann) {
            Err(e) => Err(e),
            Ok(radj) => match sadd(scale(), radj) {
                Err(e) => Err(e),
                Ok(growth) => match sdiv_down(scale(), time_stretch) {
                    Err(e) => Err(e),
                    Ok(recip) => match spow(growth, recip) {
                        Err(e) => Err(e),
                        Ok(factor) => match smul_down(
                            initial_vault_share_price,
                            effective_share_reserves,
                        ) {
                            Err(e) => Err(e),
                            Ok(mze) => smul_down(mze, factor),
                        },
                    },
                },
            },
        },
    }
}

/// The time-stretch exponent calibrated for a pool's target rate and
/// duration: the target rate is annualized over the position duration and
/// run through the standard calibration `4.665 * rate / 5.24592`.
pub fn calculate_time_stretch(rate: &FixedPoint, position_duration: &FixedPoint) -> (r: Result<
    FixedPoint,
    HyperdriveError,
>)
    ensures
        fp_res_matches(r, s_time_stretch(rate@, position_duration@)),
{
    let ann = match position_duration.div_down(&FixedPoint::from_u64(SECONDS_PER_YEAR)) {
        Ok(v) => v,
        Err(e) => {
            return Err(e);
        },
    };
    let radj = match rate.mul_down(&ann) {
        Ok(v) => v,
        Err(e) => {
            return Err(e);
        },
    };
    let num = match FixedPoint::from_u64(TIME_STRETCH_NUMERATOR).mul_down(&radj) {
        Ok(v) => v,
        Err(e) => {
            return Err(e);
        },
    };
    num.div_down(&FixedPoint::from_u64(TIME_STRETCH_DENOMINATOR))
}

/// The bond reserves that quote the target rate at initialization:
/// `mu * ze * (1 + apr * annualizedDuration)^(1 / timeStretch)`.
pub fn calculate_initial_bond_reserves(
    effective_share_reserves: &FixedPoint,
    initial_vault_share_price: &FixedPoint,
    apr: &FixedPoint,
    position_duration: &FixedPoint,
    time_stretch: &FixedPoint,
) -> (r: Result<FixedPoint, HyperdriveError>)
    ensures
        fp_res_matches(
            r,
            s_initial_bond_reserves(
                effective_share_reserves@,
                initial_vault_share_price@,
                apr@,
                position_duration@,
                time_stretch@,
            ),
        ),
{
    let ann = match position_duration.div_down(&FixedPoint::from_u64(SECONDS_PER_YEAR)) {
        Ok(v) => v,
        Err(e) => {
            return Err(e);
        },
    };
    let radj = match apr.mul_down(&ann) {
        Ok(v) => v,
        Err(e) => {
            return Err(e);
        },
    };
    let growth = match FixedPoint::one().checked_add(&radj) {
        Ok(v) => v,
        Err(e) => {
            return Err(e);
        },
    };
    let recip = match FixedPoint::one().div_down(time_stretch) {
        Ok(v) => v,
        Err(e) => {
            return Err(e);
        },
    };
    let factor = match growth.pow(&recip) {
        Ok(v) => v,
        Err(e) => {
            return Err(e);
        },
    };
    let mze = match initial_vault_share_price.mul_down(effective_share_reserves) {
        Ok(v) => v,
        Err(e) => {
            return Err(e);
        },
    };
    mze.mul_down(&factor)
}

impl State {
    /// The pool's fixed rate: `(1 - p) / (p * annualizedDuration)` for
    /// spot price `p`.
    pub fn calculate_spot_rate(&self) -> (r: Result<FixedPoint, HyperdriveError>)
        requires
            self@.wf(),
        ensures
            fp_res_matches(r, s_spot_rate(self@)),
    {
        let p = match self.calculate_spot_price() {
            Ok(v) => v,
            Err(e) => {
                return Err(e);
            },
        };
        let ann = match self.config.position_duration.div_down(
            &FixedPoint::from_u64(SECONDS_PER_YEAR),
        ) {
            Ok(v) => v,
            Err(e) => {
                return Err(e);
            },
        };
        let num = match FixedPoint::one().checked_sub(&p) {
            Ok(v) => v,
            Err(e) => {
                return Err(e);
            },
        };
        let den = match p.mul_down(&ann) {
            Ok(v) => v,
            Err(e) => {
                return Err(e);
            },
        };
        num.div_down(&den)
    }
}

} // verus!
