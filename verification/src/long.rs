//! Opening and closing long positions.

use vstd::prelude::*;

use crate::errors::HyperdriveError;
use crate::fees::{s_close_long_curve_fee, s_close_long_flat_fee, s_open_long_curve_fee,
    s_open_long_governance_fee};
use crate::fixed_point::{scale, FixedPoint};
use crate::fixed_ops::{fp_res_matches, sdiv_down, smul_down};
use crate::state::{State, StateV};
use crate::yield_space::{s_state_bonds_out_given_shares_in_down,
    s_state_shares_out_given_bonds_in_down, s_state_ze, sadd, ssub};

verus! {

/// Spec mirror of `calculate_open_long`: convert base to shares, run the
/// curve, subtract the curve and governance fees from the bonds received,
/// and fail with `Solvency` if the post-trade effective share reserves
/// would sit below the minimum.
pub open spec fn s_open_long(s: StateV, base_amount: nat) -> Result<nat, HyperdriveError> {
    if base_amount < s.config.minimum_transaction_amount {
        Err(HyperdriveError::Validation)
    } else {
        match sdiv_down(base_amount, s.info.vault_share_price) {
            Err(e) => Err(e),
            Ok(shares) => match s_state_bonds_out_given_shares_in_down(s, shares) {
                Err(e) => Err(e),
                Ok(bonds_out) => match s_open_long_curve_fee(s, base_amount) {
                    Err(e) => Err(e),
                    Ok(fee) => match s_open_long_governance_fee(s, base_amount) {
                        Err(e) => Err(e),
                        Ok(gov) => match ssub(bonds_out, fee) {
                            Err(e) => Err(e),
                            Ok(a1) => match ssub(a1, gov) {
                                Err(e) => Err(e),
                                Ok(long_amount) => match s_state_ze(s) {
                                    Err(e) => Err(e),
                                    Ok(ze) => match sadd(ze, shares) {
                                        Err(e) => Err(e),
                                        Ok(ze2) => if ze2
                                            < s.config.minimum_share_reserves {
                                            Err(HyperdriveError::Solvency)
                                        } else {
                                            Ok(long_amount)
                                        },
                                    },
                                },
                            },
                        },
                    },
                },
            },
        }
    }
}

/// Spec of a pure flat redemption: the bonds less the flat fee, converted
/// to shares at the vault share price. This is what closing a matured
/// long pays.
pub open spec fn s_flat_redemption(s: StateV, bond_amount: nat) -> Result<nat, HyperdriveError> {
    match smul_down(bond_amount, scale()) {
        Err(e) => Err(e),
        Ok(flat_bonds) => match crate::fixed_ops::smul_up(s.config.fees.flat, flat_bonds) {
            Err(e) => Err(e),
            Ok(flat_fee) => match ssub(flat_bonds, flat_fee) {
                Err(e) => Err(e),
                Ok(net) => sdiv_down(net, s.info.vault_share_price),
            },
        },
    }
}

/// Spec mirror of `calculate_close_long`: split the bonds into a
/// flat-redeemed fraction `1 - ntr` and a curve-redeemed fraction `ntr`,
/// subtract the flat and curve fees from the respective fraction, redeem
/// the flat fraction one-to-one in shares and run the curve fraction
/// through the curve. A zero curve fraction never touches the curve.
pub open spec fn s_close_long(s: StateV, bond_amount: nat, ntr: nat) -> Result<
    nat,
    HyperdriveError,
> {
    if ntr > scale() {
        Err(HyperdriveError::Validation)
    } else {
        match smul_down(bond_amount, (scale() - ntr) as nat) {
            Err(e) => Err(e),
            Ok(flat_bonds) => match s_close_long_flat_fee(s, bond_amount, ntr) {
                Err(e) => Err(e),
                Ok(flat_fee) => match ssub(flat_bonds, flat_fee) {
                    Err(e) => Err(e),
                    Ok(net_flat) => match sdiv_down(net_flat, s.info.vault_share_price) {
                        Err(e) => Err(e),
                        Ok(flat_shares) => match smul_down(bond_amount, ntr) {
                            Err(e) => Err(e),
                            Ok(curve_bonds) => if curve_bonds == 0 {
                                Ok(flat_shares)
                            } else {
                                match s_close_long_curve_fee(s, bond_amount, ntr) {
                                    Err(e) => Err(e),
                                    Ok(curve_fee) => match ssub(curve_bonds, curve_fee) {
                                        Err(e) => Err(e),
                                        Ok(net_curve) => match s_state_shares_out_given_bonds_in_down(
                                            s,
                                            net_curve,
                                        ) {
                                            Err(e) => Err(e),
                                            Ok(curve_shares) => sadd(flat_shares, curve_shares),
                                        },
                                    },
                                }
                            },
                        },
                    },
                },
            },
        }
    }
}

/// Spec mirror of `calculate_spot_price_after_long`: the spot price once
/// the fee-free trade deltas are applied to the reserves.
pub open spec fn s_spot_price_after_long(s: StateV, base_amount: nat) -> Result<
    nat,
    HyperdriveError,
> {
    match sdiv_down(base_amount, s.info.vault_share_price) {
        Err(e) => Err(e),
        Ok(shares) => match s_state_bonds_out_given_shares_in_down(s, shares) {
            Err(e) => Err(e),
            Ok(bonds_out) => match s_state_ze(s) {
                Err(e) => Err(e),
                Ok(ze) => match sadd(ze, shares) {
                    Err(e) => Err(e),
                    Ok(ze2) => match ssub(s.info.bond_reserves, bonds_out) {
                        Err(e) => Err(e),
                        Ok(y2) => crate::yield_space::s_spot_price(
                            ze2,
                            y2,
                            s.config.initial_vault_share_price,
                            s.config.time_stretch,
                        ),
                    },
                },
            },
        },
    }
}

impl State {
    /// The bonds a trader receives for opening a long with `base_amount`
    /// base, after curve and governance fees. Fails with `Validation`
    /// below the minimum transaction amount and with `Solvency` when the
    /// pool could not hold the trade.
    pub fn calculate_open_long(&self, base_amount: &FixedPoint) -> (r: Result<
        FixedPoint,
        HyperdriveError,
    >)
        requires
            self@.wf(),
        ensures
            fp_res_matches(r, s_open_long(self@, base_amount@)),
    {
        if base_amount.lt(&self.config.minimum_transaction_amount) {
            return Err(HyperdriveError::Validation);
        }
        let shares = match base_amount.div_down(&self.info.vault_share_price) {
            Ok(v) => v,
            Err(e) => {
                return Err(e);
            },
        };
        let bonds_out = match self.calculate_bonds_out_given_shares_in_down(&shares) {
            Ok(v) => v,
            Err(e) => {
                return Err(e);
            },
        };
        let fee = match self.open_long_curve_fee(base_amount) {
            Ok(v) => v,
            Err(e) => {
                return Err(e);
            },
        };
        let gov = match self.open_long_governance_fee(base_amount) {
            Ok(v) => v,
            Err(e) => {
                return Err(e);
            },
        };
        let a1 = match bonds_out.checked_sub(&fee) {
            Ok(v) => v,
            Err(e) => {
                return Err(e);
            },
        };
        let long_amount = match a1.checked_sub(&gov) {
            Ok(v) => v,
            Err(e) => {
                return Err(e);
            },
        };
        let ze = match self.effective_share_reserves() {
            Ok(v) => v,
            Err(e) => {
                return Err(e);
            },
        };
        let ze2 = match ze.checked_add(&shares) {
            Ok(v) => v,
            Err(e) => {
                return Err(e);
            },
        };
        if ze2.lt(&self.config.minimum_share_reserves) {
            return Err(HyperdriveError::Solvency);
        }
        Ok(long_amount)
    }

    /// The shares a trader receives for closing a long of `bond_amount`
    /// bonds with normalized time remaining `ntr`, after flat and curve
    /// fees. At `ntr == 0` this is a pure flat redemption; at `ntr == 1`
    /// a pure curve trade.
    pub fn calculate_close_long(&self, bond_amount: &FixedPoint, ntr: &FixedPoint) -> (r: Result<
        FixedPoint,
        HyperdriveError,
    >)
        requires
            self@.wf(),
        ensures
            fp_res_matches(r, s_close_long(self@, bond_amount@, ntr@)),
    {
        if ntr.gt(&FixedPoint::one()) {
            return Err(HyperdriveError::Validation);
        }
        let omt = FixedPoint::one().overflowing_sub(ntr).0;
        let flat_bonds = match bond_amount.mul_down(&omt) {
            Ok(v) => v,
            Err(e) => {
                return Err(e);
            },
        };
        let flat_fee = match self.close_long_flat_fee(bond_amount, ntr) {
            Ok(v) => v,
            Err(e) => {
                return Err(e);
            },
        };
        let net_flat = match flat_bonds.checked_sub(&flat_fee) {
            Ok(v) => v,
            Err(e) => {
                return Err(e);
            },
        };
        let flat_shares = match net_flat.div_down(&self.info.vault_share_price) {
            Ok(v) => v,
            Err(e) => {
                return Err(e);
            },
        };
        let curve_bonds = match bond_amount.mul_down(ntr) {
            Ok(v) => v,
            Err(e) => {
                return Err(e);
            },
        };
        if curve_bonds.is_zero() {
            return Ok(flat_shares);
        }
        let curve_fee = match self.close_long_curve_fee(bond_amount, ntr) {
            Ok(v) => v,
            Err(e) => {
                return Err(e);
            },
        };
        let net_curve = match curve_bonds.checked_sub(&curve_fee) {
            Ok(v) => v,
            Err(e) => {
                return Err(e);
            },
        };
        let curve_shares = match self.calculate_shares_out_given_bonds_in_down(&net_curve) {
            Ok(v) => v,
            Err(e) => {
                return Err(e);
            },
        };
        flat_shares.checked_add(&curve_shares)
    }

    /// The spot price the pool would quote right after a fee-free long of
    /// `base_amount` base.
    pub fn calculate_spot_price_after_long(&self, base_amount: &FixedPoint) -> (r: Result<
        FixedPoint,
        HyperdriveError,
    >)
        requires
            self@.wf(),
        ensures
            fp_res_matches(r, s_spot_price_after_long(self@, base_amount@)),
    {
        let shares = match base_amount.div_down(&self.info.vault_share_price) {
            Ok(v) => v,
            Err(e) => {
                return Err(e);
            },
        };
        let bonds_out = match self.calculate_bonds_out_given_shares_in_down(&shares) {
            Ok(v) => v,
            Err(e) => {
                return Err(e);
            },
        };
        let ze = match self.effective_share_reserves() {
            Ok(v) => v,
            Err(e) => {
                return Err(e);
            },
        };
        let ze2 = match ze.checked_add(&shares) {
            Ok(v) => v,
            Err(e) => {
                return Err(e);
            },
        };
        let y2 = match self.info.bond_reserves.checked_sub(&bonds_out) {
            Ok(v) => v,
            Err(e) => {
                return Err(e);
            },
        };
        crate::yield_space::spot_price_core(
            &ze2,
            &y2,
            &self.config.initial_vault_share_price,
            &self.config.time_stretch,
        )
    }
}

} // verus!
