//! Opening and closing short positions.

use vstd::prelude::*;

use crate::errors::HyperdriveError;
use crate::fees::{s_close_short_curve_fee, s_close_short_flat_fee, s_curve_fee};
use crate::fixed_point::{scale, FixedPoint};
use crate::fixed_ops::{fp_res_matches, sdiv_down, sdiv_up, smul_down, smul_div_up, smul_up};
use crate::state::{State, StateV};
use crate::yield_space::{s_state_shares_in_given_bonds_out, s_state_shares_out_given_bonds_in_down,
    s_state_ze, sadd, ssub};

verus! {

/// Spec mirror of `calculate_open_short`: the base deposit required to
/// short `short_amount` bonds. The pool sells the shorted bonds on the
/// curve; the short must cover the bonds' interest-adjusted face value,
/// less those sale proceeds, plus the curve fee and the full flat fee
/// (a short spans the whole remaining duration). Fails with `Solvency`
/// when paying the sale proceeds out would push the effective share
/// reserves below the minimum.
pub open spec fn s_open_short(s: StateV, short_amount: nat, p: nat, open_vault_share_price: nat)
    -> Result<nat, HyperdriveError> {
    if short_amount < s.config.minimum_transaction_amount {
        Err(HyperdriveError::Validation)
    } else if open_vault_share_price == 0 {
        Err(HyperdriveError::Validation)
    } else {
        match s_state_shares_out_given_bonds_in_down(s, short_amount) {
            Err(e) => Err(e),
            Ok(shares_out) => match s_state_ze(s) {
                Err(e) => Err(e),
                Ok(ze) => if shares_out + s.config.minimum_share_reserves > ze {
                    Err(HyperdriveError::Solvency)
                } else {
                    match smul_down(shares_out, s.info.vault_share_price) {
                        Err(e) => Err(e),
                        Ok(base_proceeds) => match (if s.info.vault_share_price
                            > open_vault_share_price {
                            smul_div_up(
                                short_amount,
                                s.info.vault_share_price,
                                open_vault_share_price,
                            )
                        } else {
                            Ok(short_amount)
                        }) {
                            Err(e) => Err(e),
                            Ok(owed) => match s_curve_fee(p, s.config.fees.curve, short_amount) {
                                Err(e) => Err(e),
                                Ok(curve_fee) => match smul_up(s.config.fees.flat, short_amount) {
                                    Err(e) => Err(e),
                                    Ok(flat_fee) => match ssub(owed, base_proceeds) {
                                        Err(e) => Err(e),
                                        Ok(t1) => match sadd(t1, curve_fee) {
                                            Err(e) => Err(e),
                                            Ok(t2) => sadd(t2, flat_fee),
                                        },
                                    },
                                },
                            },
                        },
                    }
                },
            },
        }
    }
}

/// Spec mirror of `calculate_close_short`: the shares a short receives on
/// closing. The short's collateral is worth `bond_amount / c_open` vault
/// shares (face value plus vault interest since open); closing costs the
/// flat payment on the matured fraction, the curve buy-back on the rest,
/// and the flat and curve fees.
pub open spec fn s_close_short(
    s: StateV,
    bond_amount: nat,
    open_vault_share_price: nat,
    close_vault_share_price: nat,
    ntr: nat,
) -> Result<nat, HyperdriveError> {
    if ntr > scale() {
        Err(HyperdriveError::Validation)
    } else if open_vault_share_price == 0 || close_vault_share_price == 0 {
        Err(HyperdriveError::Validation)
    } else {
        match sdiv_down(bond_amount, open_vault_share_price) {
            Err(e) => Err(e),
            Ok(collateral_shares) => match smul_down(bond_amount, (scale() - ntr) as nat) {
                Err(e) => Err(e),
                Ok(flat_bonds) => match sdiv_up(flat_bonds, close_vault_share_price) {
                    Err(e) => Err(e),
                    Ok(flat_payment) => match smul_down(bond_amount, ntr) {
                        Err(e) => Err(e),
                        Ok(curve_bonds) => match (if curve_bonds == 0 {
                            Ok(0nat)
                        } else {
                            s_state_shares_in_given_bonds_out(s, curve_bonds, true)
                        }) {
                            Err(e) => Err(e),
                            Ok(curve_payment) => match s_close_short_curve_fee(
                                s,
                                bond_amount,
                                ntr,
                            ) {
                                Err(e) => Err(e),
                                Ok(curve_fee) => match s_close_short_flat_fee(s, bond_amount, ntr) {
                                    Err(e) => Err(e),
                                    Ok(flat_fee) => match sadd(curve_fee, flat_fee) {
                                        Err(e) => Err(e),
                                        Ok(fee_bonds) => match sdiv_up(
                                            fee_bonds,
                                            close_vault_share_price,
                                        ) {
                                            Err(e) => Err(e),
                                            Ok(fee_shares) => match ssub(
                                                collateral_shares,
                                                flat_payment,
                                            ) {
                                                Err(e) => Err(e),
                                                Ok(t1) => match ssub(t1, curve_payment) {
                                                    Err(e) => Err(e),
                                                    Ok(t2) => ssub(t2, fee_shares),
                                                },
                                            },
                                        },
                                    },
                                },
                            },
                        },
                    },
                },
            },
        }
    }
}

/// Spec mirror of `calculate_spot_price_after_short`: the spot price once
/// the fee-free short deltas are applied to the reserves.
pub open spec fn s_spot_price_after_short(s: StateV, bond_amount: nat) -> Result<
    nat,
    HyperdriveError,
> {
    match s_state_shares_out_given_bonds_in_down(s, bond_amount) {
        Err(e) => Err(e),
        Ok(shares_out) => match s_state_ze(s) {
            Err(e) => Err(e),
            Ok(ze) => match ssub(ze, shares_out) {
                Err(e) => Err(e),
                Ok(ze2) => match sadd(s.info.bond_reserves, bond_amount) {
                    Err(e) => Err(e),
                    Ok(y2) => crate::yield_space::s_spot_price(
                        ze2,
                        y2,
                        s.config.initial_vault_share_price,
                        s.config.time_stretch,
                    ),
                },
            },
        },
    }
}

impl State {
    /// The base deposit required to short `short_amount` bonds, given the
    /// pool's spot price and the vault share price at the open checkpoint.
    pub fn calculate_open_short(
        &self,
        short_amount: &FixedPoint,
        spot_price: &FixedPoint,
        open_vault_share_price: &FixedPoint,
    ) -> (r: Result<FixedPoint, HyperdriveError>)
        requires
            self@.wf(),
        ensures
            fp_res_matches(
                r,
                s_open_short(self@, short_amount@, spot_price@, open_vault_share_price@),
            ),
    {
        if short_amount.lt(&self.config.minimum_transaction_amount) {
            return Err(HyperdriveError::Validation);
        }
        if open_vault_share_price.is_zero() {
            return Err(HyperdriveError::Validation);
        }
        let shares_out = match self.calculate_shares_out_given_bonds_in_down(short_amount) {
            Ok(v) => v,
            Err(e) => {
                return Err(e);
            },
        };
        let ze = match self.effective_share_reserves() {
            Ok(v) => v,
            Err(e) => {
                return Err(e);
            },
        };
        let (needed, carry) = shares_out.overflowing_add(&self.config.minimum_share_reserves);
        if carry || needed.gt(&ze) {
            return Err(HyperdriveError::Solvency);
        }
        let base_proceeds = match shares_out.mul_down(&self.info.vault_share_price) {
            Ok(v) => v,
            Err(e) => {
                return Err(e);
            },
        };
        let owed = match (if self.info.vault_share_price.gt(open_vault_share_price) {
            short_amount.mul_div_up(&self.info.vault_share_price, open_vault_share_price)
        } else {
            Ok(*short_amount)
        }) {
            Ok(v) => v,
            Err(e) => {
                return Err(e);
            },
        };
        let curve_fee = match self.open_short_curve_fee(short_amount, spot_price) {
            Ok(v) => v,
            Err(e) => {
                return Err(e);
            },
        };
        let flat_fee = match self.config.fees.flat.mul_up(short_amount) {
            Ok(v) => v,
            Err(e) => {
                return Err(e);
            },
        };
        let t1 = match owed.checked_sub(&base_proceeds) {
            Ok(v) => v,
            Err(e) => {
                return Err(e);
            },
        };
        let t2 = match t1.checked_add(&curve_fee) {
            Ok(v) => v,
            Err(e) => {
                return Err(e);
            },
        };
        t2.checked_add(&flat_fee)
    }

    /// The shares a trader receives for closing a short of `bond_amount`
    /// bonds, net of the interest accrued between the open and close
    /// vault share prices.
    pub fn calculate_close_short(
        &self,
        bond_amount: &FixedPoint,
        open_vault_share_price: &FixedPoint,
        close_vault_share_price: &FixedPoint,
        ntr: &FixedPoint,
    ) -> (r: Result<FixedPoint, HyperdriveError>)
        requires
            self@.wf(),
        ensures
            fp_res_matches(
                r,
                s_close_short(
                    self@,
                    bond_amount@,
                    open_vault_share_price@,
                    close_vault_share_price@,
                    ntr@,
                ),
            ),
    {
        if ntr.gt(&FixedPoint::one()) {
            return Err(HyperdriveError::Validation);
        }
        if open_vault_share_price.is_zero() || close_vault_share_price.is_zero() {
            return Err(HyperdriveError::Validation);
        }
        let collateral_shares = match bond_amount.div_down(open_vault_share_price) {
            Ok(v) => v,
            Err(e) => {
                return Err(e);
            },
        };
        let omt = FixedPoint::one().overflowing_sub(ntr).0;
        let flat_bonds = match bond_amount.mul_down(&omt) {
            Ok(v) => v,
            Err(e) => {
                return Err(e);
            },
        };
        let flat_payment = match flat_bonds.div_up(close_vault_share_price) {
            Ok(v) => v,
            Err(e) => {
                return Err(e);
            },
        };
        let curve_bonds = match bond_amount.mul_down(ntr) {
            Ok(v) => v,
            Err(e) => {
                return Err(e);
            },
        };
        let curve_payment = match (if curve_bonds.is_zero() {
            Ok(FixedPoint::zero())
        } else {
            self.calculate_shares_in_given_bonds_out_up(&curve_bonds)
        }) {
            Ok(v) => v,
            Err(e) => {
                return Err(e);
            },
        };
        let curve_fee = match self.close_short_curve_fee(bond_amount, ntr) {
            Ok(v) => v,
            Err(e) => {
                return Err(e);
            },
        };
        let flat_fee = match self.close_short_flat_fee(bond_amount, ntr) {
            Ok(v) => v,
            Err(e) => {
                return Err(e);
            },
        };
        let fee_bonds = match curve_fee.checked_add(&flat_fee) {
            Ok(v) => v,
            Err(e) => {
                return Err(e);
            },
        };
        let fee_shares = match fee_bonds.div_up(close_vault_share_price) {
            Ok(v) => v,
            Err(e) => {
                return Err(e);
            },
        };
        let t1 = match collateral_shares.checked_sub(&flat_payment) {
            Ok(v) => v,
            Err(e) => {
                return Err(e);
            },
        };
        let t2 = match t1.checked_sub(&curve_payment) {
            Ok(v) => v,
            Err(e) => {
                return Err(e);
            },
        };
        t2.checked_sub(&fee_shares)
    }

    /// The spot price the pool would quote right after a fee-free short of
    /// `bond_amount` bonds.
    pub fn calculate_spot_price_after_short(&self, bond_amount: &FixedPoint) -> (r: Result<
        FixedPoint,
        HyperdriveError,
    >)
        requires
            self@.wf(),
        ensures
            fp_res_matches(r, s_spot_price_after_short(self@, bond_amount@)),
    {
        let shares_out = match self.calculate_shares_out_given_bonds_in_down(bond_amount) {
            Ok(v) => v,
            Err(e) => {
                return Err(e);
            },
        };
        let ze = match self.effective_share_reserves() {
            Ok(v) => v,
            Err(e) => {
                return Err(e);
            },
        };
        let ze2 = match ze.checked_sub(&shares_out) {
            Ok(v) => v,
            Err(e) => {
                return Err(e);
            },
        };
        let y2 = match self.info.bond_reserves.checked_add(bond_amount) {
            Ok(v) => v,
            Err(e) => {
                return Err(e);
            },
        };
        crate::yield_space::spot_price_core(
            &ze2,
            &y2,
            &self.config.initial_vault_share_price,
            &self.config.time_stretch,
        )
    }
}

} // verus!
