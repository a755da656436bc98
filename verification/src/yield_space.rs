//! The bonding-curve invariant and its inversion.
//!
//! The curve holds `k = (c/mu) * (mu * ze)^(1-t) + y^(1-t)` over the
//! effective share reserves `ze`, bond reserves `y`, vault share price `c`,
//! initial vault share price `mu` and time stretch `t`. Solving the
//! invariant for one reserve given a change in the other yields the four
//! conversion functions below; each divisible step rounds in the pool's
//! favor in the direction its name states, and the power primitive itself
//! rounds down. Every function's contract pins its result to a spec-level
//! mirror of the same composition, so results are exact functions of the
//! snapshot.

use vstd::prelude::*;

use crate::errors::HyperdriveError;
use crate::fixed_point::{p256, scale, FixedPoint};
use crate::fixed_ops::{
    fp_res_matches, sdiv_down, sdiv_up, smul_down, smul_up, spow,
};
use crate::state::{Signed, State, StateV};

verus! {

/// Spec mirror of checked addition.
pub open spec fn sadd(a: nat, b: nat) -> Result<nat, HyperdriveError> {
    if a + b < p256() {
        Ok(a + b)
    } else {
        Err(HyperdriveError::Arithmetic)
    }
}

/// Spec mirror of checked subtraction.
pub open spec fn ssub(a: nat, b: nat) -> Result<nat, HyperdriveError> {
    if b <= a {
        Ok((a - b) as nat)
    } else {
        Err(HyperdriveError::Arithmetic)
    }
}

/// The effective share reserves `ze = z - adjustment`. A result that would
/// be zero or negative is a solvency failure; a negative adjustment that
/// overflows 256 bits is an arithmetic failure.
pub open spec fn s_effective_share_reserves(z: nat, adj: int) -> Result<nat, HyperdriveError> {
    if adj >= 0 {
        if z > adj {
            Ok((z - adj) as nat)
        } else {
            Err(HyperdriveError::Solvency)
        }
    } else {
        if z + (-adj) < p256() {
            Ok((z + (-adj)) as nat)
        } else {
            Err(HyperdriveError::Arithmetic)
        }
    }
}

/// Subtracts the share adjustment from the share reserves, failing with
/// `Solvency` when the effective share reserves would not be positive.
pub fn calculate_effective_share_reserves(
    share_reserves: &FixedPoint,
    share_adjustment: &Signed,
) -> (r: Result<FixedPoint, HyperdriveError>)
    ensures
        fp_res_matches(r, s_effective_share_reserves(share_reserves@, share_adjustment@)),
{
    if share_adjustment.is_negative() {
        share_reserves.checked_add(&share_adjustment.magnitude)
    } else {
        if share_reserves.gt(&share_adjustment.magnitude) {
            Ok(share_reserves.overflowing_sub(&share_adjustment.magnitude).0)
        } else {
            Err(HyperdriveError::Solvency)
        }
    }
}

/// Spec mirror of the curve invariant `k`, with every divisible step
/// rounded up or down as `up` says.
pub open spec fn s_k(ze: nat, y: nat, c: nat, mu: nat, ts: nat, up: bool) -> Result<
    nat,
    HyperdriveError,
> {
    let om = (scale() - ts) as nat;
    match (if up {
        sdiv_up(c, mu)
    } else {
        sdiv_down(c, mu)
    }) {
        Err(e) => Err(e),
        Ok(cdm) => match (if up {
            smul_up(mu, ze)
        } else {
            smul_down(mu, ze)
        }) {
            Err(e) => Err(e),
            Ok(mze) => match spow(mze, om) {
                Err(e) => Err(e),
                Ok(pe) => match (if up {
                    smul_up(cdm, pe)
                } else {
                    smul_down(cdm, pe)
                }) {
                    Err(e) => Err(e),
                    Ok(t1) => match spow(y, om) {
                        Err(e) => Err(e),
                        Ok(py) => sadd(t1, py),
                    },
                },
            },
        },
    }
}

/// The curve invariant `k = (c/mu) * (mu * ze)^(1-t) + y^(1-t)`.
fn k_core(
    ze: &FixedPoint,
    y: &FixedPoint,
    c: &FixedPoint,
    mu: &FixedPoint,
    ts: &FixedPoint,
    up: bool,
) -> (r: Result<FixedPoint, HyperdriveError>)
    requires
        ts@ < scale(),
    ensures
        fp_res_matches(r, s_k(ze@, y@, c@, mu@, ts@, up)),
{
    let om = FixedPoint::one().overflowing_sub(ts).0;
    let cdm = match (if up {
        c.div_up(mu)
    } else {
        c.div_down(mu)
    }) {
        Ok(v) => v,
        Err(e) => {
            return Err(e);
        },
    };
    let mze = match (if up {
        mu.mul_up(ze)
    } else {
        mu.mul_down(ze)
    }) {
        Ok(v) => v,
        Err(e) => {
            return Err(e);
        },
    };
    let pe = match mze.pow(&om) {
        Ok(v) => v,
        Err(e) => {
            return Err(e);
        },
    };
    let t1 = match (if up {
        cdm.mul_up(&pe)
    } else {
        cdm.mul_down(&pe)
    }) {
        Ok(v) => v,
        Err(e) => {
            return Err(e);
        },
    };
    let py = match y.pow(&om) {
        Ok(v) => v,
        Err(e) => {
            return Err(e);
        },
    };
    t1.checked_add(&py)
}

/// Spec mirror of the spot price `(mu * ze / y)^t`.
pub open spec fn s_spot_price(ze: nat, y: nat, mu: nat, ts: nat) -> Result<nat, HyperdriveError> {
    match smul_down(mu, ze) {
        Err(e) => Err(e),
        Ok(mze) => match sdiv_down(mze, y) {
            Err(e) => Err(e),
            Ok(rat) => spow(rat, ts),
        },
    }
}

/// The marginal price of one bond in shares, `(mu * ze / y)^t`.
pub(crate) fn spot_price_core(ze: &FixedPoint, y: &FixedPoint, mu: &FixedPoint, ts: &FixedPoint) -> (r:
    Result<FixedPoint, HyperdriveError>)
    ensures
        fp_res_matches(r, s_spot_price(ze@, y@, mu@, ts@)),
{
    let mze = match mu.mul_down(ze) {
        Ok(v) => v,
        Err(e) => {
            return Err(e);
        },
    };
    let rat = match mze.div_down(y) {
        Ok(v) => v,
        Err(e) => {
            return Err(e);
        },
    };
    rat.pow(ts)
}

/// Spec mirror of `calculate_bonds_out_given_shares_in_down`.
pub open spec fn s_bonds_out_given_shares_in_down(
    ze: nat,
    y: nat,
    c: nat,
    mu: nat,
    ts: nat,
    dz: nat,
) -> Result<nat, HyperdriveError> {
    let om = (scale() - ts) as nat;
    match s_k(ze, y, c, mu, ts, true) {
        Err(e) => Err(e),
        Ok(k) => match sadd(ze, dz) {
            Err(e) => Err(e),
            Ok(ze2) => match smul_down(mu, ze2) {
                Err(e) => Err(e),
                Ok(mze2) => match spow(mze2, om) {
                    Err(e) => Err(e),
                    Ok(pe) => match sdiv_down(c, mu) {
                        Err(e) => Err(e),
                        Ok(cdm) => match smul_down(cdm, pe) {
                            Err(e) => Err(e),
                            Ok(t1) => match ssub(k, t1) {
                                Err(e) => Err(e),
                                Ok(inner) => match sdiv_down(scale(), om) {
                                    Err(e) => Err(e),
                                    Ok(recip) => match spow(inner, recip) {
                                        Err(e) => Err(e),
                                        Ok(ynew) => ssub(y, ynew),
                                    },
                                },
                            },
                        },
                    },
                },
            },
        },
    }
}

/// How many bonds leave the pool when `dz` shares come in, rounded down.
fn bonds_out_given_shares_in_down_core(
    ze: &FixedPoint,
    y: &FixedPoint,
    c: &FixedPoint,
    mu: &FixedPoint,
    ts: &FixedPoint,
    dz: &FixedPoint,
) -> (r: Result<FixedPoint, HyperdriveError>)
    requires
        ts@ < scale(),
    ensures
        fp_res_matches(r, s_bonds_out_given_shares_in_down(ze@, y@, c@, mu@, ts@, dz@)),
{
    let om = FixedPoint::one().overflowing_sub(ts).0;
    let k = match k_core(ze, y, c, mu, ts, true) {
        Ok(v) => v,
        Err(e) => {
            return Err(e);
        },
    };
    let ze2 = match ze.checked_add(dz) {
        Ok(v) => v,
        Err(e) => {
            return Err(e);
        },
    };
    let mze2 = match mu.mul_down(&ze2) {
        Ok(v) => v,
        Err(e) => {
            return Err(e);
        },
    };
    let pe = match mze2.pow(&om) {
        Ok(v) => v,
        Err(e) => {
            return Err(e);
        },
    };
    let cdm = match c.div_down(mu) {
        Ok(v) => v,
        Err(e) => {
            return Err(e);
        },
    };
    let t1 = match cdm.mul_down(&pe) {
        Ok(v) => v,
        Err(e) => {
            return Err(e);
        },
    };
    let inner = match k.checked_sub(&t1) {
        Ok(v) => v,
        Err(e) => {
            return Err(e);
        },
    };
    let recip = match FixedPoint::one().div_down(&om) {
        Ok(v) => v,
        Err(e) => {
            return Err(e);
        },
    };
    let ynew = match inner.pow(&recip) {
        Ok(v) => v,
        Err(e) => {
            return Err(e);
        },
    };
    y.checked_sub(&ynew)
}

/// Spec mirror of `calculate_shares_out_given_bonds_in_down`.
pub open spec fn s_shares_out_given_bonds_in_down(
    ze: nat,
    y: nat,
    c: nat,
    mu: nat,
    ts: nat,
    dy: nat,
) -> Result<nat, HyperdriveError> {
    let om = (scale() - ts) as nat;
    match s_k(ze, y, c, mu, ts, true) {
        Err(e) => Err(e),
        Ok(k) => match sadd(y, dy) {
            Err(e) => Err(e),
            Ok(y2) => match spow(y2, om) {
                Err(e) => Err(e),
                Ok(py) => match ssub(k, py) {
                    Err(e) => Err(e),
                    Ok(inner) => match sdiv_up(c, mu) {
                        Err(e) => Err(e),
                        Ok(cdm) => match sdiv_down(inner, cdm) {
                            Err(e) => Err(e),
                            Ok(scaled) => match sdiv_down(scale(), om) {
                                Err(e) => Err(e),
                                Ok(recip) => match spow(scaled, recip) {
                                    Err(e) => Err(e),
                                    Ok(zem) => match sdiv_up(zem, mu) {
                                        Err(e) => Err(e),
                                        Ok(zenew) => ssub(ze, zenew),
                                    },
                                },
                            },
                        },
                    },
                },
            },
        },
    }
}

/// How many shares leave the pool when `dy` bonds come in, rounded down.
fn shares_out_given_bonds_in_down_core(
    ze: &FixedPoint,
    y: &FixedPoint,
    c: &FixedPoint,
    mu: &FixedPoint,
    ts: &FixedPoint,
    dy: &FixedPoint,
) -> (r: Result<FixedPoint, HyperdriveError>)
    requires
        ts@ < scale(),
    ensures
        fp_res_matches(r, s_shares_out_given_bonds_in_down(ze@, y@, c@, mu@, ts@, dy@)),
{
    let om = FixedPoint::one().overflowing_sub(ts).0;
    let k = match k_core(ze, y, c, mu, ts, true) {
        Ok(v) => v,
        Err(e) => {
            return Err(e);
        },
    };
    let y2 = match y.checked_add(dy) {
        Ok(v) => v,
        Err(e) => {
            return Err(e);
        },
    };
    let py = match y2.pow(&om) {
        Ok(v) => v,
        Err(e) => {
            return Err(e);
        },
    };
    let inner = match k.checked_sub(&py) {
        Ok(v) => v,
        Err(e) => {
            return Err(e);
        },
    };
    let cdm = match c.div_up(mu) {
        Ok(v) => v,
        Err(e) => {
            return Err(e);
        },
    };
    let scaled = match inner.div_down(&cdm) {
        Ok(v) => v,
        Err(e) => {
            return Err(e);
        },
    };
    let recip = match FixedPoint::one().div_down(&om) {
        Ok(v) => v,
        Err(e) => {
            return Err(e);
        },
    };
    let zem = match scaled.pow(&recip) {
        Ok(v) => v,
        Err(e) => {
            return Err(e);
        },
    };
    let zenew = match zem.div_up(mu) {
        Ok(v) => v,
        Err(e) => {
            return Err(e);
        },
    };
    ze.checked_sub(&zenew)
}

/// Spec mirror of the shares-in-given-bonds-out solve, with `up` choosing
/// the rounding direction of every divisible step.
pub open spec fn s_shares_in_given_bonds_out(
    ze: nat,
    y: nat,
    c: nat,
    mu: nat,
    ts: nat,
    dy: nat,
    up: bool,
) -> Result<nat, HyperdriveError> {
    let om = (scale() - ts) as nat;
    match s_k(ze, y, c, mu, ts, up) {
        Err(e) => Err(e),
        Ok(k) => match ssub(y, dy) {
            Err(e) => Err(e),
            Ok(y2) => match spow(y2, om) {
                Err(e) => Err(e),
                Ok(py) => match ssub(k, py) {
                    Err(e) => Err(e),
                    Ok(inner) => match (if up {
                        sdiv_down(c, mu)
                    } else {
                        sdiv_up(c, mu)
                    }) {
                        Err(e) => Err(e),
                        Ok(cdm) => match (if up {
                            sdiv_up(inner, cdm)
                        } else {
                            sdiv_down(inner, cdm)
                        }) {
                            Err(e) => Err(e),
                            Ok(scaled) => match (if up {
                                sdiv_up(scale(), om)
                            } else {
                                sdiv_down(scale(), om)
                            }) {
                                Err(e) => Err(e),
                                Ok(recip) => match spow(scaled, recip) {
                                    Err(e) => Err(e),
                                    Ok(zem) => match (if up {
                                        sdiv_up(zem, mu)
                                    } else {
                                        sdiv_down(zem, mu)
                                    }) {
                                        Err(e) => Err(e),
                                        Ok(zenew) => ssub(zenew, ze),
                                    },
                                },
                            },
                        },
                    },
                },
            },
        },
    }
}

/// How many shares must come in for `dy` bonds to leave, rounded as `up`
/// says.
fn shares_in_given_bonds_out_core(
    ze: &FixedPoint,
    y: &FixedPoint,
    c: &FixedPoint,
    mu: &FixedPoint,
    ts: &FixedPoint,
    dy: &FixedPoint,
    up: bool,
) -> (r: Result<FixedPoint, HyperdriveError>)
    requires
        ts@ < scale(),
    ensures
        fp_res_matches(r, s_shares_in_given_bonds_out(ze@, y@, c@, mu@, ts@, dy@, up)),
{
    let om = FixedPoint::one().overflowing_sub(ts).0;
    let k = match k_core(ze, y, c, mu, ts, up) {
        Ok(v) => v,
        Err(e) => {
            return Err(e);
        },
    };
    let y2 = match y.checked_sub(dy) {
        Ok(v) => v,
        Err(e) => {
            return Err(e);
        },
    };
    let py = match y2.pow(&om) {
        Ok(v) => v,
        Err(e) => {
            return Err(e);
        },
    };
    let inner = match k.checked_sub(&py) {
        Ok(v) => v,
        Err(e) => {
            return Err(e);
        },
    };
    let cdm = match (if up {
        c.div_down(mu)
    } else {
        c.div_up(mu)
    }) {
        Ok(v) => v,
        Err(e) => {
            return Err(e);
        },
    };
    let scaled = match (if up {
        inner.div_up(&cdm)
    } else {
        inner.div_down(&cdm)
    }) {
        Ok(v) => v,
        Err(e) => {
            return Err(e);
        },
    };
    let recip = match (if up {
        FixedPoint::one().div_up(&om)
    } else {
        FixedPoint::one().div_down(&om)
    }) {
        Ok(v) => v,
        Err(e) => {
            return Err(e);
        },
    };
    let zem = match scaled.pow(&recip) {
        Ok(v) => v,
        Err(e) => {
            return Err(e);
        },
    };
    let zenew = match (if up {
        zem.div_up(mu)
    } else {
        zem.div_down(mu)
    }) {
        Ok(v) => v,
        Err(e) => {
            return Err(e);
        },
    };
    zenew.checked_sub(ze)
}

/// State-level spec of the effective share reserves.
pub open spec fn s_state_ze(s: StateV) -> Result<nat, HyperdriveError> {
    s_effective_share_reserves(s.info.share_reserves, s.info.share_adjustment)
}

/// State-level spec of the spot price.
pub open spec fn s_state_spot_price(s: StateV) -> Result<nat, HyperdriveError> {
    match s_state_ze(s) {
        Err(e) => Err(e),
        Ok(ze) => s_spot_price(
            ze,
            s.info.bond_reserves,
            s.config.initial_vault_share_price,
            s.config.time_stretch,
        ),
    }
}

/// State-level spec of `k`.
pub open spec fn s_state_k(s: StateV, up: bool) -> Result<nat, HyperdriveError> {
    match s_state_ze(s) {
        Err(e) => Err(e),
        Ok(ze) => s_k(
            ze,
            s.info.bond_reserves,
            s.info.vault_share_price,
            s.config.initial_vault_share_price,
            s.config.time_stretch,
            up,
        ),
    }
}

/// State-level spec of `calculate_bonds_out_given_shares_in_down`.
pub open spec fn s_state_bonds_out_given_shares_in_down(s: StateV, dz: nat) -> Result<
    nat,
    HyperdriveError,
> {
    match s_state_ze(s) {
        Err(e) => Err(e),
        Ok(ze) => s_bonds_out_given_shares_in_down(
            ze,
            s.info.bond_reserves,
            s.info.vault_share_price,
            s.config.initial_vault_share_price,
            s.config.time_stretch,
            dz,
        ),
    }
}

/// State-level spec of `calculate_shares_out_given_bonds_in_down`.
pub open spec fn s_state_shares_out_given_bonds_in_down(s: StateV, dy: nat) -> Result<
    nat,
    HyperdriveError,
> {
    match s_state_ze(s) {
        Err(e) => Err(e),
        Ok(ze) => s_shares_out_given_bonds_in_down(
            ze,
            s.info.bond_reserves,
            s.info.vault_share_price,
            s.config.initial_vault_share_price,
            s.config.time_stretch,
            dy,
        ),
    }
}

/// State-level spec of the shares-in-given-bonds-out solve.
pub open spec fn s_state_shares_in_given_bonds_out(s: StateV, dy: nat, up: bool) -> Result<
    nat,
    HyperdriveError,
> {
    match s_state_ze(s) {
        Err(e) => Err(e),
        Ok(ze) => s_shares_in_given_bonds_out(
            ze,
            s.info.bond_reserves,
            s.info.vault_share_price,
            s.config.initial_vault_share_price,
            s.config.time_stretch,
            dy,
            up,
        ),
    }
}

impl State {
    /// The effective share reserves of this snapshot.
    pub fn effective_share_reserves(&self) -> (r: Result<FixedPoint, HyperdriveError>)
        ensures
            fp_res_matches(r, s_state_ze(self@)),
    {
        calculate_effective_share_reserves(&self.info.share_reserves, &self.info.share_adjustment)
    }

    /// The pool's spot price `(mu * ze / y)^t`: the marginal price of one
    /// bond in shares.
    pub fn calculate_spot_price(&self) -> (r: Result<FixedPoint, HyperdriveError>)
        ensures
            fp_res_matches(r, s_state_spot_price(self@)),
    {
        let ze = match self.effective_share_reserves() {
            Ok(v) => v,
            Err(e) => {
                return Err(e);
            },
        };
        spot_price_core(
            &ze,
            &self.info.bond_reserves,
            &self.config.initial_vault_share_price,
            &self.config.time_stretch,
        )
    }

    /// The curve invariant `k`, with every divisible step rounded down.
    pub fn k_down(&self) -> (r: Result<FixedPoint, HyperdriveError>)
        requires
            self@.wf(),
        ensures
            fp_res_matches(r, s_state_k(self@, false)),
    {
        let ze = match self.effective_share_reserves() {
            Ok(v) => v,
            Err(e) => {
                return Err(e);
            },
        };
        k_core(
            &ze,
            &self.info.bond_reserves,
            &self.info.vault_share_price,
            &self.config.initial_vault_share_price,
            &self.config.time_stretch,
            false,
        )
    }

    /// The curve invariant `k`, with every divisible step rounded up.
    pub fn k_up(&self) -> (r: Result<FixedPoint, HyperdriveError>)
        requires
            self@.wf(),
        ensures
            fp_res_matches(r, s_state_k(self@, true)),
    {
        let ze = match self.effective_share_reserves() {
            Ok(v) => v,
            Err(e) => {
                return Err(e);
            },
        };
        k_core(
            &ze,
            &self.info.bond_reserves,
            &self.info.vault_share_price,
            &self.config.initial_vault_share_price,
            &self.config.time_stretch,
            true,
        )
    }

    /// How many bonds a trader receives for `dz` shares paid in, rounded
    /// down.
    pub fn calculate_bonds_out_given_shares_in_down(&self, amount_in: &FixedPoint) -> (r: Result<
        FixedPoint,
        HyperdriveError,
    >)
        requires
            self@.wf(),
        ensures
            fp_res_matches(r, s_state_bonds_out_given_shares_in_down(self@, amount_in@)),
    {
        let ze = match self.effective_share_reserves() {
            Ok(v) => v,
            Err(e) => {
                return Err(e);
            },
        };
        bonds_out_given_shares_in_down_core(
            &ze,
            &self.info.bond_reserves,
            &self.info.vault_share_price,
            &self.config.initial_vault_share_price,
            &self.config.time_stretch,
            amount_in,
        )
    }

    /// How many shares a trader receives for `dy` bonds paid in, rounded
    /// down.
    pub fn calculate_shares_out_given_bonds_in_down(&self, amount_in: &FixedPoint) -> (r: Result<
        FixedPoint,
        HyperdriveError,
    >)
        requires
            self@.wf(),
        ensures
            fp_res_matches(r, s_state_shares_out_given_bonds_in_down(self@, amount_in@)),
    {
        let ze = match self.effective_share_reserves() {
            Ok(v) => v,
            Err(e) => {
                return Err(e);
            },
        };
        shares_out_given_bonds_in_down_core(
            &ze,
            &self.info.bond_reserves,
            &self.info.vault_share_price,
            &self.config.initial_vault_share_price,
            &self.config.time_stretch,
            amount_in,
        )
    }

    /// How many shares a trader must pay for `dy` bonds out, rounded up.
    pub fn calculate_shares_in_given_bonds_out_up(&self, amount_out: &FixedPoint) -> (r: Result<
        FixedPoint,
        HyperdriveError,
    >)
        requires
            self@.wf(),
        ensures
            fp_res_matches(r, s_state_shares_in_given_bonds_out(self@, amount_out@, true)),
    {
        let ze = match self.effective_share_reserves() {
            Ok(v) => v,
            Err(e) => {
                return Err(e);
            },
        };
        shares_in_given_bonds_out_core(
            &ze,
            &self.info.bond_reserves,
            &self.info.vault_share_price,
            &self.config.initial_vault_share_price,
            &self.config.time_stretch,
            amount_out,
            true,
        )
    }

    /// How many shares `dy` bonds out cost, rounded down.
    pub fn calculate_shares_in_given_bonds_out_down(&self, amount_out: &FixedPoint) -> (r: Result<
        FixedPoint,
        HyperdriveError,
    >)
        requires
            self@.wf(),
        ensures
            fp_res_matches(r, s_state_shares_in_given_bonds_out(self@, amount_out@, false)),
    {
        let ze = match self.effective_share_reserves() {
            Ok(v) => v,
            Err(e) => {
                return Err(e);
            },
        };
        shares_in_given_bonds_out_core(
            &ze,
            &self.info.bond_reserves,
            &self.info.vault_share_price,
            &self.config.initial_vault_share_price,
            &self.config.time_stretch,
            amount_out,
            false,
        )
    }
}

} // verus!
