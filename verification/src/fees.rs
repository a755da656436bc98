//! The fee model layered on curve outputs.
//!
//! A curve fee is `phi_curve * (1/p - 1) * amount`, where `p` is the spot
//! price and the amount is in the side-appropriate unit (shares for opens,
//! bonds for closes). A flat fee is `phi_flat * amount * (1 - t)` for
//! normalized time remaining `t`. A governance fee is `phi_governance_lp`
//! of the curve fee. Fees round against the trader, so they always favor
//! the pool, and they are never negative.

use vstd::prelude::*;

use crate::errors::HyperdriveError;
use crate::fixed_point::{scale, FixedPoint};
use crate::fixed_ops::{fp_res_matches, sdiv_down, sdiv_up, smul_down, smul_up};
use crate::state::{State, StateV};
use crate::yield_space::{s_state_spot_price, ssub};

verus! {

/// Spec mirror of the curve-fee core `phi * (1/p - 1) * amount`, rounded
/// against the trader. Fails when the spot price exceeds one (the premium
/// would be negative).
pub open spec fn s_curve_fee(p: nat, phi: nat, amount: nat) -> Result<nat, HyperdriveError> {
    match sdiv_up(scale(), p) {
        Err(e) => Err(e),
        Ok(invp) => match ssub(invp, scale()) {
            Err(e) => Err(e),
            Ok(premium) => match smul_up(premium, amount) {
                Err(e) => Err(e),
                Ok(t) => smul_up(phi, t),
            },
        },
    }
}

/// The curve-fee core `phi * (1/p - 1) * amount`, rounded up.
fn curve_fee_core(p: &FixedPoint, phi: &FixedPoint, amount: &FixedPoint) -> (r: Result<
    FixedPoint,
    HyperdriveError,
>)
    ensures
        fp_res_matches(r, s_curve_fee(p@, phi@, amount@)),
{
    let invp = match FixedPoint::one().div_up(p) {
        Ok(v) => v,
        Err(e) => {
            return Err(e);
        },
    };
    let premium = match invp.checked_sub(&FixedPoint::one()) {
        Ok(v) => v,
        Err(e) => {
            return Err(e);
        },
    };
    let t = match premium.mul_up(amount) {
        Ok(v) => v,
        Err(e) => {
            return Err(e);
        },
    };
    phi.mul_up(&t)
}

/// Spec mirror of `open_long_curve_fee`: the curve fee on the shares spent
/// to open a long, in bonds.
pub open spec fn s_open_long_curve_fee(s: StateV, base_amount: nat) -> Result<
    nat,
    HyperdriveError,
> {
    match s_state_spot_price(s) {
        Err(e) => Err(e),
        Ok(p) => match sdiv_down(base_amount, s.info.vault_share_price) {
            Err(e) => Err(e),
            Ok(shares) => s_curve_fee(p, s.config.fees.curve, shares),
        },
    }
}

/// Spec mirror of `open_long_governance_fee`.
pub open spec fn s_open_long_governance_fee(s: StateV, base_amount: nat) -> Result<
    nat,
    HyperdriveError,
> {
    match s_open_long_curve_fee(s, base_amount) {
        Err(e) => Err(e),
        Ok(fee) => smul_down(s.config.fees.governance_lp, fee),
    }
}

/// Spec mirror of `close_long_curve_fee`: the curve fee on the
/// curve-redeemed fraction of a closing long, in bonds.
pub open spec fn s_close_long_curve_fee(s: StateV, bond_amount: nat, ntr: nat) -> Result<
    nat,
    HyperdriveError,
> {
    if ntr > scale() {
        Err(HyperdriveError::Validation)
    } else {
        match s_state_spot_price(s) {
            Err(e) => Err(e),
            Ok(p) => match smul_down(bond_amount, ntr) {
                Err(e) => Err(e),
                Ok(curve_bonds) => s_curve_fee(p, s.config.fees.curve, curve_bonds),
            },
        }
    }
}

/// Spec mirror of `close_long_flat_fee`: the flat fee on the flat-redeemed
/// fraction of a closing long, in bonds.
pub open spec fn s_close_long_flat_fee(s: StateV, bond_amount: nat, ntr: nat) -> Result<
    nat,
    HyperdriveError,
> {
    if ntr > scale() {
        Err(HyperdriveError::Validation)
    } else {
        match smul_down(bond_amount, (scale() - ntr) as nat) {
            Err(e) => Err(e),
            Ok(flat_bonds) => smul_up(s.config.fees.flat, flat_bonds),
        }
    }
}

/// Spec mirror of `open_short_curve_fee` at a given spot price.
pub open spec fn s_open_short_curve_fee(s: StateV, short_amount: nat, p: nat) -> Result<
    nat,
    HyperdriveError,
> {
    s_curve_fee(p, s.config.fees.curve, short_amount)
}

/// Spec mirror of `open_short_governance_fee` at a given spot price.
pub open spec fn s_open_short_governance_fee(s: StateV, short_amount: nat, p: nat) -> Result<
    nat,
    HyperdriveError,
> {
    match s_open_short_curve_fee(s, short_amount, p) {
        Err(e) => Err(e),
        Ok(fee) => smul_down(s.config.fees.governance_lp, fee),
    }
}

/// Spec mirror of `close_short_curve_fee`.
pub open spec fn s_close_short_curve_fee(s: StateV, bond_amount: nat, ntr: nat) -> Result<
    nat,
    HyperdriveError,
> {
    s_close_long_curve_fee(s, bond_amount, ntr)
}

/// Spec mirror of `close_short_flat_fee`.
pub open spec fn s_close_short_flat_fee(s: StateV, bond_amount: nat, ntr: nat) -> Result<
    nat,
    HyperdriveError,
> {
    s_close_long_flat_fee(s, bond_amount, ntr)
}

impl State {
    /// The curve fee paid by a trader opening a long for `base_amount`
    /// base: `phi_curve * (1/p - 1)` on the shares spent, in bonds.
    pub fn open_long_curve_fee(&self, base_amount: &FixedPoint) -> (r: Result<
        FixedPoint,
        HyperdriveError,
    >)
        requires
            self@.wf(),
        ensures
            fp_res_matches(r, s_open_long_curve_fee(self@, base_amount@)),
    {
        let p = match self.calculate_spot_price() {
            Ok(v) => v,
            Err(e) => {
                return Err(e);
            },
        };
        let shares = match base_amount.div_down(&self.info.vault_share_price) {
            Ok(v) => v,
            Err(e) => {
                return Err(e);
            },
        };
        curve_fee_core(&p, &self.config.fees.curve, &shares)
    }

    /// The governance share of the open-long curve fee, in bonds.
    pub fn open_long_governance_fee(&self, base_amount: &FixedPoint) -> (r: Result<
        FixedPoint,
        HyperdriveError,
    >)
        requires
            self@.wf(),
        ensures
            fp_res_matches(r, s_open_long_governance_fee(self@, base_amount@)),
    {
        let fee = match self.open_long_curve_fee(base_amount) {
            Ok(v) => v,
            Err(e) => {
                return Err(e);
            },
        };
        self.config.fees.governance_lp.mul_down(&fee)
    }

    /// The curve fee paid by a trader closing a long of `bond_amount`
    /// bonds with normalized time remaining `ntr`, in bonds.
    pub fn close_long_curve_fee(&self, bond_amount: &FixedPoint, ntr: &FixedPoint) -> (r: Result<
        FixedPoint,
        HyperdriveError,
    >)
        requires
            self@.wf(),
        ensures
            fp_res_matches(r, s_close_long_curve_fee(self@, bond_amount@, ntr@)),
    {
        if ntr.gt(&FixedPoint::one()) {
            return Err(HyperdriveError::Validation);
        }
        let p = match self.calculate_spot_price() {
            Ok(v) => v,
            Err(e) => {
                return Err(e);
            },
        };
        let curve_bonds = match bond_amount.mul_down(ntr) {
            Ok(v) => v,
            Err(e) => {
                return Err(e);
            },
        };
        curve_fee_core(&p, &self.config.fees.curve, &curve_bonds)
    }

    /// The flat fee paid by a trader closing a long of `bond_amount` bonds
    /// with normalized time remaining `ntr`, in bonds.
    pub fn close_long_flat_fee(&self, bond_amount: &FixedPoint, ntr: &FixedPoint) -> (r: Result<
        FixedPoint,
        HyperdriveError,
    >)
        requires
            self@.wf(),
        ensures
            fp_res_matches(r, s_close_long_flat_fee(self@, bond_amount@, ntr@)),
    {
        if ntr.gt(&FixedPoint::one()) {
            return Err(HyperdriveError::Validation);
        }
        let omt = FixedPoint::one().overflowing_sub(ntr).0;
        let flat_bonds = match bond_amount.mul_down(&omt) {
            Ok(v) => v,
            Err(e) => {
                return Err(e);
            },
        };
        self.config.fees.flat.mul_up(&flat_bonds)
    }

    /// The curve fee paid by a trader shorting `short_amount` bonds at
    /// spot price `spot_price`, in bonds.
    pub fn open_short_curve_fee(&self, short_amount: &FixedPoint, spot_price: &FixedPoint) -> (r:
        Result<FixedPoint, HyperdriveError>)
        requires
            self@.wf(),
        ensures
            fp_res_matches(r, s_open_short_curve_fee(self@, short_amount@, spot_price@)),
    {
        curve_fee_core(spot_price, &self.config.fees.curve, short_amount)
    }

    /// The governance share of the open-short curve fee, in bonds.
    pub fn open_short_governance_fee(&self, short_amount: &FixedPoint, spot_price: &FixedPoint)
        -> (r: Result<FixedPoint, HyperdriveError>)
        requires
            self@.wf(),
        ensures
            fp_res_matches(r, s_open_short_governance_fee(self@, short_amount@, spot_price@)),
    {
        let fee = match self.open_short_curve_fee(short_amount, spot_price) {
            Ok(v) => v,
            Err(e) => {
                return Err(e);
            },
        };
        self.config.fees.governance_lp.mul_down(&fee)
    }

    /// The curve fee paid by a trader closing a short, in bonds.
    pub fn close_short_curve_fee(&self, bond_amount: &FixedPoint, ntr: &FixedPoint) -> (r: Result<
        FixedPoint,
        HyperdriveError,
    >)
        requires
            self@.wf(),
        ensures
            fp_res_matches(r, s_close_short_curve_fee(self@, bond_amount@, ntr@)),
    {
        self.close_long_curve_fee(bond_amount, ntr)
    }

    /// The flat fee paid by a trader closing a short, in bonds.
    pub fn close_short_flat_fee(&self, bond_amount: &FixedPoint, ntr: &FixedPoint) -> (r: Result<
        FixedPoint,
        HyperdriveError,
    >)
        requires
            self@.wf(),
        ensures
            fp_res_matches(r, s_close_short_flat_fee(self@, bond_amount@, ntr@)),
    {
        self.close_long_flat_fee(bond_amount, ntr)
    }
}

} // verus!
