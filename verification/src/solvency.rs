//! Solvency, idle reserves, and present value aggregation.

use vstd::prelude::*;

use crate::clock::s_time_remaining;
use crate::errors::HyperdriveError;
use crate::fixed_point::{scale, FixedPoint};
use crate::fixed_ops::{fp_res_matches, sdiv_down, sdiv_up, smul_down, smul_up};
use crate::state::{State, StateV};
use crate::yield_space::{s_state_shares_in_given_bonds_out, s_state_shares_out_given_bonds_in_down,
    sadd, ssub};

verus! {

/// Spec mirror of `calculate_solvency`: the pool's base reserves less its
/// long exposure and the minimum reserves it must hold,
/// `z*c - longExposure - minimumShareReserves*c`. A negative margin is the
/// typed `Solvency` failure.
pub open spec fn s_solvency(s: StateV) -> Result<nat, HyperdriveError> {
    match smul_down(s.info.share_reserves, s.info.vault_share_price) {
        Err(e) => Err(e),
        Ok(base_reserves) => match smul_up(
            s.config.minimum_share_reserves,
            s.info.vault_share_price,
        ) {
            Err(e) => Err(e),
            Ok(min_base) => match sadd(s.info.long_exposure, min_base) {
                Err(e) => Err(e),
                Ok(owed) => if owed <= base_reserves {
                    Ok((base_reserves - owed) as nat)
                } else {
                    Err(HyperdriveError::Solvency)
                },
            },
        },
    }
}

/// Spec mirror of `calculate_idle_share_reserves_in_base`: the base value
/// of the share reserves not backing exposure or the minimum, clamped at
/// zero.
pub open spec fn s_idle_share_reserves_in_base(s: StateV) -> Result<nat, HyperdriveError> {
    match sdiv_up(s.info.long_exposure, s.info.vault_share_price) {
        Err(e) => Err(e),
        Ok(exposure_shares) => match sadd(exposure_shares, s.config.minimum_share_reserves) {
            Err(e) => Err(e),
            Ok(held) => if held >= s.info.share_reserves {
                Ok(0)
            } else {
                smul_down((s.info.share_reserves - held) as nat, s.info.vault_share_price)
            },
        },
    }
}

/// Spec mirror of `calculate_present_value`: the share reserves, adjusted
/// by the cost of closing the net outstanding curve and flat positions at
/// their average maturities, less the proceeds set aside for withdrawal
/// shares and the minimum share reserves. A negative value is the typed
/// `Solvency` failure.
/// The curve leg of the present value: the share reserves once the net
/// curve position is closed.
pub open spec fn s_pv_curve_adjusted(s: StateV, lt: nat, st: nat) -> Result<
    nat,
    HyperdriveError,
> {
    if lt >= st {
        if lt - st == 0 {
            Ok(s.info.share_reserves)
        } else {
            match s_state_shares_out_given_bonds_in_down(s, (lt - st) as nat) {
                Err(e) => Err(e),
                Ok(dz) => ssub(s.info.share_reserves, dz),
            }
        }
    } else {
        match s_state_shares_in_given_bonds_out(s, (st - lt) as nat, false) {
            Err(e) => Err(e),
            Ok(dz) => sadd(s.info.share_reserves, dz),
        }
    }
}

/// The flat leg of the present value: adjust `z1` by the net matured
/// redemption owed, then take out withdrawal-share proceeds and the
/// minimum reserves.
pub open spec fn s_pv_flat_adjusted(s: StateV, z1: nat, lf: nat, sf: nat) -> Result<
    nat,
    HyperdriveError,
> {
    match (if lf >= sf {
        match sdiv_up((lf - sf) as nat, s.info.vault_share_price) {
            Err(e) => Err(e),
            Ok(df) => ssub(z1, df),
        }
    } else {
        match sdiv_down((sf - lf) as nat, s.info.vault_share_price) {
            Err(e) => Err(e),
            Ok(df) => sadd(z1, df),
        }
    }) {
        Err(e) => Err(e),
        Ok(z2) => match ssub(z2, s.info.withdrawal_shares_proceeds) {
            Err(e) => Err(e),
            Ok(z3) => if s.config.minimum_share_reserves <= z3 {
                Ok((z3 - s.config.minimum_share_reserves) as nat)
            } else {
                Err(HyperdriveError::Solvency)
            },
        },
    }
}

/// Spec mirror of `calculate_present_value`: the share reserves, adjusted
/// by the cost of closing the net outstanding curve and flat positions at
/// their average maturities, less the proceeds set aside for withdrawal
/// shares and the minimum share reserves. A negative value is the typed
/// `Solvency` failure.
pub open spec fn s_present_value(s: StateV, now: nat) -> Result<nat, HyperdriveError> {
    match s_time_remaining(now, s.info.long_average_maturity_time, s.config.position_duration) {
        Err(e) => Err(e),
        Ok(tl) => match s_time_remaining(
            now,
            s.info.short_average_maturity_time,
            s.config.position_duration,
        ) {
            Err(e) => Err(e),
            Ok(tsh) => match smul_down(s.info.longs_outstanding, tl) {
                Err(e) => Err(e),
                Ok(lt) => match smul_down(s.info.shorts_outstanding, tsh) {
                    Err(e) => Err(e),
                    Ok(st) => match s_pv_curve_adjusted(s, lt, st) {
                        Err(e) => Err(e),
                        Ok(z1) => match smul_down(s.info.longs_outstanding, (scale() - tl) as nat) {
                            Err(e) => Err(e),
                            Ok(lf) => match smul_down(
                                s.info.shorts_outstanding,
                                (scale() - tsh) as nat,
                            ) {
                                Err(e) => Err(e),
                                Ok(sf) => s_pv_flat_adjusted(s, z1, lf, sf),
                            },
                        },
                    },
                },
            },
        },
    }
}

impl State {
    /// The pool's solvency margin in base: `z*c - longExposure -
    /// minimumShareReserves*c`. `Err(Solvency)` signals an insolvent pool.
    pub fn calculate_solvency(&self) -> (r: Result<FixedPoint, HyperdriveError>)
        requires
            self@.wf(),
        ensures
            fp_res_matches(r, s_solvency(self@)),
    {
        let base_reserves = match self.info.share_reserves.mul_down(&self.info.vault_share_price) {
            Ok(v) => v,
            Err(e) => {
                return Err(e);
            },
        };
        let min_base = match self.config.minimum_share_reserves.mul_up(
            &self.info.vault_share_price,
        ) {
            Ok(v) => v,
            Err(e) => {
                return Err(e);
            },
        };
        let owed = match self.info.long_exposure.checked_add(&min_base) {
            Ok(v) => v,
            Err(e) => {
                return Err(e);
            },
        };
        if owed.le(&base_reserves) {
            Ok(base_reserves.overflowing_sub(&owed).0)
        } else {
            Err(HyperdriveError::Solvency)
        }
    }

    /// The base value of the share reserves not backing long exposure or
    /// the minimum reserves, clamped at zero.
    pub fn calculate_idle_share_reserves_in_base(&self) -> (r: Result<
        FixedPoint,
        HyperdriveError,
    >)
        requires
            self@.wf(),
        ensures
            fp_res_matches(r, s_idle_share_reserves_in_base(self@)),
    {
        let exposure_shares = match self.info.long_exposure.div_up(&self.info.vault_share_price) {
            Ok(v) => v,
            Err(e) => {
                return Err(e);
            },
        };
        let held = match exposure_shares.checked_add(&self.config.minimum_share_reserves) {
            Ok(v) => v,
            Err(e) => {
                return Err(e);
            },
        };
        if held.ge(&self.info.share_reserves) {
            Ok(FixedPoint::zero())
        } else {
            self.info.share_reserves.overflowing_sub(&held).0.mul_down(
                &self.info.vault_share_price,
            )
        }
    }

    /// The pool's present value in shares at `current_block_timestamp`:
    /// reserves net of closing all outstanding positions at their average
    /// maturities, withdrawal-share proceeds, and the minimum reserves.
    pub fn calculate_present_value(&self, current_block_timestamp: &FixedPoint) -> (r: Result<
        FixedPoint,
        HyperdriveError,
    >)
        requires
            self@.wf(),
        ensures
            fp_res_matches(r, s_present_value(self@, current_block_timestamp@)),
    {
        let tl = match self.time_remaining_scaled(
            current_block_timestamp,
            &self.info.long_average_maturity_time,
        ) {
            Ok(v) => v,
            Err(e) => {
                return Err(e);
            },
        };
        let tsh = match self.time_remaining_scaled(
            current_block_timestamp,
            &self.info.short_average_maturity_time,
        ) {
            Ok(v) => v,
            Err(e) => {
                return Err(e);
            },
        };
        let lt = match self.info.longs_outstanding.mul_down(&tl) {
            Ok(v) => v,
            Err(e) => {
                return Err(e);
            },
        };
        let st = match self.info.shorts_outstanding.mul_down(&tsh) {
            Ok(v) => v,
            Err(e) => {
                return Err(e);
            },
        };
        let z1 = match self.pv_curve_adjusted(&lt, &st) {
            Ok(v) => v,
            Err(e) => {
                return Err(e);
            },
        };
        let omtl = FixedPoint::one().overflowing_sub(&tl).0;
        let omts = FixedPoint::one().overflowing_sub(&tsh).0;
        let lf = match self.info.longs_outstanding.mul_down(&omtl) {
            Ok(v) => v,
            Err(e) => {
                return Err(e);
            },
        };
        let sf = match self.info.shorts_outstanding.mul_down(&omts) {
            Ok(v) => v,
            Err(e) => {
                return Err(e);
            },
        };
        self.pv_flat_adjusted(&z1, &lf, &sf)
    }

    /// The curve leg of the present value.
    fn pv_curve_adjusted(&self, lt: &FixedPoint, st: &FixedPoint) -> (r: Result<
        FixedPoint,
        HyperdriveError,
    >)
        requires
            self@.wf(),
        ensures
            fp_res_matches(r, s_pv_curve_adjusted(self@, lt@, st@)),
    {
        if st.le(lt) {
            let net = lt.overflowing_sub(st).0;
            if net.is_zero() {
                Ok(self.info.share_reserves)
            } else {
                match self.calculate_shares_out_given_bonds_in_down(&net) {
                    Ok(dz) => self.info.share_reserves.checked_sub(&dz),
                    Err(e) => Err(e),
                }
            }
        } else {
            let net = st.overflowing_sub(lt).0;
            match self.calculate_shares_in_given_bonds_out_down(&net) {
                Ok(dz) => self.info.share_reserves.checked_add(&dz),
                Err(e) => Err(e),
            }
        }
    }

    /// The flat leg of the present value.
    fn pv_flat_adjusted(&self, z1: &FixedPoint, lf: &FixedPoint, sf: &FixedPoint) -> (r: Result<
        FixedPoint,
        HyperdriveError,
    >)
        requires
            self@.wf(),
        ensures
            fp_res_matches(r, s_pv_flat_adjusted(self@, z1@, lf@, sf@)),
    {
        let z2 = match (if sf.le(lf) {
            match lf.overflowing_sub(sf).0.div_up(&self.info.vault_share_price) {
                Ok(df) => z1.checked_sub(&df),
                Err(e) => Err(e),
            }
        } else {
            match sf.overflowing_sub(lf).0.div_down(&self.info.vault_share_price) {
                Ok(df) => z1.checked_add(&df),
                Err(e) => Err(e),
            }
        }) {
            Ok(v) => v,
            Err(e) => {
                return Err(e);
            },
        };
        let z3 = match z2.checked_sub(&self.info.withdrawal_shares_proceeds) {
            Ok(v) => v,
            Err(e) => {
                return Err(e);
            },
        };
        if self.config.minimum_share_reserves.le(&z3) {
            Ok(z3.overflowing_sub(&self.config.minimum_share_reserves).0)
        } else {
            Err(HyperdriveError::Solvency)
        }
    }
}

} // verus!
