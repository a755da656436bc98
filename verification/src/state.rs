//! The immutable pool snapshot that every pricing operation reads.
//!
//! A [`State`] pairs the pool's fixed configuration with a fresh reserve
//! snapshot. It is a plain value: constructed by the caller for one query,
//! never mutated, and safe to share. Its view is a ghost record of the
//! mathematical integers behind every field, which the contracts speak of.

use vstd::prelude::*;

use crate::fixed_point::{scale, FixedPoint};

verus! {

/// A signed 256-bit quantity in sign-magnitude form, viewed as a
/// mathematical integer.
#[derive(Clone, Copy, Debug, PartialEq, Eq, Structural)]
pub struct Signed {
    /// True for values below zero.
    pub negative: bool,
    /// The absolute value.
    pub magnitude: FixedPoint,
}

impl View for Signed {
    type V = int;

    open spec fn view(&self) -> int {
        if self.negative {
            -(self.magnitude@ as int)
        } else {
            self.magnitude@ as int
        }
    }
}

impl Signed {
    /// A non-negative value.
    pub fn positive(magnitude: FixedPoint) -> (r: Signed)
        ensures
            r@ == magnitude@,
    {
        Signed { negative: false, magnitude }
    }

    /// A non-positive value.
    pub fn negative(magnitude: FixedPoint) -> (r: Signed)
        ensures
            r@ == -(magnitude@ as int),
    {
        Signed { negative: true, magnitude }
    }

    /// True exactly when the value is strictly below zero.
    pub fn is_negative(&self) -> (r: bool)
        ensures
            r <==> self@ < 0,
    {
        self.negative && !self.magnitude.is_zero()
    }
}

/// The pool's fee fractions, each an 18-decimal fraction of one.
#[derive(Clone, Copy, Debug, PartialEq, Eq, Structural)]
pub struct Fees {
    /// Fraction charged on the curve-traded portion of a trade.
    pub curve: FixedPoint,
    /// Fraction charged on the flat-redeemed portion of a trade.
    pub flat: FixedPoint,
    /// Fraction of the curve fee routed to governance.
    pub governance_lp: FixedPoint,
    /// Fraction applied to proceeds recovered from matured, unredeemed
    /// positions.
    pub governance_zombie: FixedPoint,
}

/// Ghost mirror of [`Fees`].
pub ghost struct FeesV {
    pub curve: nat,
    pub flat: nat,
    pub governance_lp: nat,
    pub governance_zombie: nat,
}

impl View for Fees {
    type V = FeesV;

    open spec fn view(&self) -> FeesV {
        FeesV {
            curve: self.curve@,
            flat: self.flat@,
            governance_lp: self.governance_lp@,
            governance_zombie: self.governance_zombie@,
        }
    }
}

/// The pool's immutable configuration.
pub struct PoolConfig {
    /// Identity of the base asset.
    pub base_token: String,
    /// Identity of the vault-shares asset.
    pub vault_shares_token: String,
    /// Identity of the token linker factory.
    pub linker_factory: String,
    /// Code hash of the token linker, as a hex string.
    pub linker_code_hash: String,
    /// The vault share price at pool initialization (`mu`).
    pub initial_vault_share_price: FixedPoint,
    /// The smallest share reserves the pool may reach.
    pub minimum_share_reserves: FixedPoint,
    /// The smallest trade the pool accepts, in base.
    pub minimum_transaction_amount: FixedPoint,
    /// A position's duration in seconds.
    pub position_duration: FixedPoint,
    /// A checkpoint's duration in seconds.
    pub checkpoint_duration: FixedPoint,
    /// The time-stretch exponent, an 18-decimal fraction in (0, 1).
    pub time_stretch: FixedPoint,
    /// Identity of governance.
    pub governance: String,
    /// Identity of the fee collector.
    pub fee_collector: String,
    /// Identity of the sweep collector.
    pub sweep_collector: String,
    /// The pool's fee fractions.
    pub fees: Fees,
    /// The smallest 18-decimal delta the max-trade solvers treat as
    /// non-zero when testing convergence.
    pub precision_threshold: FixedPoint,
}

/// Ghost mirror of the numeric fields of [`PoolConfig`].
pub ghost struct PoolConfigV {
    pub initial_vault_share_price: nat,
    pub minimum_share_reserves: nat,
    pub minimum_transaction_amount: nat,
    pub position_duration: nat,
    pub checkpoint_duration: nat,
    pub time_stretch: nat,
    pub fees: FeesV,
    pub precision_threshold: nat,
}

impl View for PoolConfig {
    type V = PoolConfigV;

    open spec fn view(&self) -> PoolConfigV {
        PoolConfigV {
            initial_vault_share_price: self.initial_vault_share_price@,
            minimum_share_reserves: self.minimum_share_reserves@,
            minimum_transaction_amount: self.minimum_transaction_amount@,
            position_duration: self.position_duration@,
            checkpoint_duration: self.checkpoint_duration@,
            time_stretch: self.time_stretch@,
            fees: self.fees@,
            precision_threshold: self.precision_threshold@,
        }
    }
}

/// The pool's mutable snapshot, supplied fresh for each query.
pub struct PoolInfo {
    /// The share reserves (`z`).
    pub share_reserves: FixedPoint,
    /// The signed share adjustment subtracted from `z` to obtain the
    /// effective share reserves.
    pub share_adjustment: Signed,
    /// Base proceeds still owed to matured, unredeemed positions.
    pub zombie_base_proceeds: FixedPoint,
    /// Share reserves still backing matured, unredeemed positions.
    pub zombie_share_reserves: FixedPoint,
    /// The bond reserves (`y`).
    pub bond_reserves: FixedPoint,
    /// Total LP shares outstanding.
    pub lp_total_supply: FixedPoint,
    /// The current vault share price (`c`).
    pub vault_share_price: FixedPoint,
    /// Face value of longs outstanding, in base.
    pub longs_outstanding: FixedPoint,
    /// Average maturity time of longs, in seconds.
    pub long_average_maturity_time: FixedPoint,
    /// Face value of shorts outstanding, in base.
    pub shorts_outstanding: FixedPoint,
    /// Average maturity time of shorts, in seconds.
    pub short_average_maturity_time: FixedPoint,
    /// Withdrawal shares that may be redeemed now.
    pub withdrawal_shares_ready_to_withdraw: FixedPoint,
    /// Share proceeds set aside for withdrawal shares.
    pub withdrawal_shares_proceeds: FixedPoint,
    /// The LP share price.
    pub lp_share_price: FixedPoint,
    /// The pool's long exposure, in base.
    pub long_exposure: FixedPoint,
}

/// Ghost mirror of [`PoolInfo`].
pub ghost struct PoolInfoV {
    pub share_reserves: nat,
    pub share_adjustment: int,
    pub zombie_base_proceeds: nat,
    pub zombie_share_reserves: nat,
    pub bond_reserves: nat,
    pub lp_total_supply: nat,
    pub vault_share_price: nat,
    pub longs_outstanding: nat,
    pub long_average_maturity_time: nat,
    pub shorts_outstanding: nat,
    pub short_average_maturity_time: nat,
    pub withdrawal_shares_ready_to_withdraw: nat,
    pub withdrawal_shares_proceeds: nat,
    pub lp_share_price: nat,
    pub long_exposure: nat,
}

impl View for PoolInfo {
    type V = PoolInfoV;

    open spec fn view(&self) -> PoolInfoV {
        PoolInfoV {
            share_reserves: self.share_reserves@,
            share_adjustment: self.share_adjustment@,
            zombie_base_proceeds: self.zombie_base_proceeds@,
            zombie_share_reserves: self.zombie_share_reserves@,
            bond_reserves: self.bond_reserves@,
            lp_total_supply: self.lp_total_supply@,
            vault_share_price: self.vault_share_price@,
            longs_outstanding: self.longs_outstanding@,
            long_average_maturity_time: self.long_average_maturity_time@,
            shorts_outstanding: self.shorts_outstanding@,
            short_average_maturity_time: self.short_average_maturity_time@,
            withdrawal_shares_ready_to_withdraw: self.withdrawal_shares_ready_to_withdraw@,
            withdrawal_shares_proceeds: self.withdrawal_shares_proceeds@,
            lp_share_price: self.lp_share_price@,
            long_exposure: self.long_exposure@,
        }
    }
}

/// An immutable pool snapshot: configuration plus reserve state.
pub struct State {
    /// The pool's configuration.
    pub config: PoolConfig,
    /// The pool's reserve snapshot.
    pub info: PoolInfo,
}

/// Ghost mirror of [`State`].
pub ghost struct StateV {
    pub config: PoolConfigV,
    pub info: PoolInfoV,
}

impl View for State {
    type V = StateV;

    open spec fn view(&self) -> StateV {
        StateV { config: self.config@, info: self.info@ }
    }
}

impl StateV {
    /// The configuration invariants of a well-formed pool: the time stretch
    /// is a fraction in (0, 1), every fee fraction is at most one, the
    /// minimum share reserves are positive, and prices and durations are
    /// positive.
    pub open spec fn wf(self) -> bool {
        &&& 0 < self.config.time_stretch < scale()
        &&& self.config.fees.curve <= scale()
        &&& self.config.fees.flat <= scale()
        &&& self.config.fees.governance_lp <= scale()
        &&& self.config.fees.governance_zombie <= scale()
        &&& self.config.minimum_share_reserves > 0
        &&& self.config.position_duration > 0
        &&& self.config.checkpoint_duration > 0
        &&& self.config.initial_vault_share_price > 0
        &&& self.info.vault_share_price > 0
    }
}

impl StateV {
    /// Every numeric field of a snapshot fits in 256 bits. This holds of
    /// the view of every executable [`State`] by construction.
    pub open spec fn bounded(self) -> bool {
        &&& self.config.initial_vault_share_price < crate::fixed_point::p256()
        &&& self.config.minimum_share_reserves < crate::fixed_point::p256()
        &&& self.config.minimum_transaction_amount < crate::fixed_point::p256()
        &&& self.config.position_duration < crate::fixed_point::p256()
        &&& self.config.checkpoint_duration < crate::fixed_point::p256()
        &&& self.config.time_stretch < crate::fixed_point::p256()
        &&& self.config.precision_threshold < crate::fixed_point::p256()
        &&& self.info.share_reserves < crate::fixed_point::p256()
        &&& -(crate::fixed_point::p256() as int) < self.info.share_adjustment
            < crate::fixed_point::p256() as int
        &&& self.info.bond_reserves < crate::fixed_point::p256()
        &&& self.info.vault_share_price < crate::fixed_point::p256()
        &&& self.info.longs_outstanding < crate::fixed_point::p256()
        &&& self.info.shorts_outstanding < crate::fixed_point::p256()
        &&& self.info.long_exposure < crate::fixed_point::p256()
        &&& self.info.withdrawal_shares_proceeds < crate::fixed_point::p256()
    }
}

impl State {
    /// The view of a real snapshot is bounded.
    pub proof fn lemma_bounded(&self)
        ensures
            self@.bounded(),
    {
    }

    /// Builds a snapshot from a configuration and a fresh info record.
    pub fn new(config: PoolConfig, info: PoolInfo) -> (r: State)
        ensures
            r@ == (StateV { config: config@, info: info@ }),
    {
        State { config, info }
    }
}

} // verus!
