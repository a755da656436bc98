use hyperdrive_core::errors::HyperdriveError;
use hyperdrive_core::fixed_point::FixedPoint;
use hyperdrive_core::state::{Fees, PoolConfig, PoolInfo, Signed, State};

const ONE: u128 = 1_000_000_000_000_000_000;

fn fpv(x: u128) -> FixedPoint {
    FixedPoint::from_u128(x)
}

fn mk_pool(
    z: u128,
    y: u128,
    time_stretch: u128,
    curve_fee: u128,
    flat_fee: u128,
    gov_fee: u128,
    exposure: u128,
) -> State {
    State {
        config: PoolConfig {
            base_token: String::from("0x00"),
            vault_shares_token: String::from("0x01"),
            linker_factory: String::from("0x02"),
            linker_code_hash: String::from("0x03"),
            initial_vault_share_price: fpv(ONE),
            minimum_share_reserves: fpv(10 * ONE),
            minimum_transaction_amount: fpv(ONE / 1000),
            position_duration: fpv(31_536_000),
            checkpoint_duration: fpv(86_400),
            time_stretch: fpv(time_stretch),
            governance: String::from("0x04"),
            fee_collector: String::from("0x05"),
            sweep_collector: String::from("0x06"),
            fees: Fees {
                curve: fpv(curve_fee),
                flat: fpv(flat_fee),
                governance_lp: fpv(gov_fee),
                governance_zombie: fpv(3 * ONE / 10),
            },
            precision_threshold: fpv(10_000_000_000_000),
        },
        info: PoolInfo {
            share_reserves: fpv(z),
            share_adjustment: Signed::positive(FixedPoint::zero()),
            zombie_base_proceeds: FixedPoint::zero(),
            zombie_share_reserves: FixedPoint::zero(),
            bond_reserves: fpv(y),
            lp_total_supply: fpv(z),
            vault_share_price: fpv(ONE),
            longs_outstanding: FixedPoint::zero(),
            long_average_maturity_time: FixedPoint::zero(),
            shorts_outstanding: FixedPoint::zero(),
            short_average_maturity_time: FixedPoint::zero(),
            withdrawal_shares_ready_to_withdraw: FixedPoint::zero(),
            withdrawal_shares_proceeds: FixedPoint::zero(),
            lp_share_price: fpv(ONE),
            long_exposure: fpv(exposure),
        },
    }
}

fn abs_diff(a: &FixedPoint, b: &FixedPoint) -> FixedPoint {
    if a.ge(b) {
        a.checked_sub(b).unwrap()
    } else {
        b.checked_sub(a).unwrap()
    }
}

#[test]
fn determinism_identical_inputs_identical_results() {
    let s1 = mk_pool(100_000 * ONE, 200_000 * ONE, ONE / 10, ONE / 10, ONE / 2000, ONE / 10, 0);
    let s2 = mk_pool(100_000 * ONE, 200_000 * ONE, ONE / 10, ONE / 10, ONE / 2000, ONE / 10, 0);
    assert_eq!(s1.calculate_spot_price(), s2.calculate_spot_price());
    assert_eq!(
        s1.calculate_open_long(&fpv(1_000 * ONE)),
        s2.calculate_open_long(&fpv(1_000 * ONE))
    );
    assert_eq!(
        s1.calculate_close_long(&fpv(1_000 * ONE), &fpv(ONE / 3)),
        s2.calculate_close_long(&fpv(1_000 * ONE), &fpv(ONE / 3))
    );
    let zero = Signed::positive(FixedPoint::zero());
    assert_eq!(
        s1.calculate_max_long(&fpv(10_000 * ONE), &zero, None),
        s2.calculate_max_long(&fpv(10_000 * ONE), &zero, None)
    );
    assert_eq!(
        s1.calculate_max_short(&fpv(10_000 * ONE), &fpv(ONE), &zero, None, None),
        s2.calculate_max_short(&fpv(10_000 * ONE), &fpv(ONE), &zero, None, None)
    );
}

#[test]
fn invariant_preserved_across_a_curve_trade() {
    // a fee-free curve trade moves both reserves; recomputing k on the
    // post-trade snapshot stays within the precision threshold
    let s = mk_pool(100_000 * ONE, 200_000 * ONE, ONE / 10, 0, 0, 0, 0);
    let k0 = s.k_down().unwrap();
    let dz = fpv(500 * ONE);
    let dy = s.calculate_bonds_out_given_shares_in_down(&dz).unwrap();
    let mut s2 = mk_pool(100_000 * ONE, 200_000 * ONE, ONE / 10, 0, 0, 0, 0);
    s2.info.share_reserves = s.info.share_reserves.checked_add(&dz).unwrap();
    s2.info.bond_reserves = s.info.bond_reserves.checked_sub(&dy).unwrap();
    let k1 = s2.k_down().unwrap();
    assert!(abs_diff(&k0, &k1).lt(&s.config.precision_threshold));
}

#[test]
fn invariant_preserved_across_a_bond_sale() {
    let s = mk_pool(100_000 * ONE, 200_000 * ONE, ONE / 10, 0, 0, 0, 0);
    let k0 = s.k_down().unwrap();
    let dy = fpv(700 * ONE);
    let dz = s.calculate_shares_out_given_bonds_in_down(&dy).unwrap();
    let mut s2 = mk_pool(100_000 * ONE, 200_000 * ONE, ONE / 10, 0, 0, 0, 0);
    s2.info.share_reserves = s.info.share_reserves.checked_sub(&dz).unwrap();
    s2.info.bond_reserves = s.info.bond_reserves.checked_add(&dy).unwrap();
    let k1 = s2.k_down().unwrap();
    assert!(abs_diff(&k0, &k1).lt(&s.config.precision_threshold));
}

#[test]
fn open_long_is_monotone_in_the_base_amount() {
    let s = mk_pool(
        100_000 * ONE,
        200_000 * ONE,
        ONE / 10,
        ONE / 10,
        ONE / 2000,
        15 * ONE / 100,
        10_000 * ONE,
    );
    let mut prev = FixedPoint::zero();
    for base in [10u128, 100, 1_000, 2_500, 5_000] {
        let out = s.calculate_open_long(&fpv(base * ONE)).unwrap();
        assert!(prev.le(&out));
        prev = out;
    }
}

#[test]
fn open_short_deposit_is_monotone_in_the_bond_amount() {
    let s = mk_pool(
        100_000 * ONE,
        200_000 * ONE,
        ONE / 10,
        ONE / 10,
        ONE / 2000,
        15 * ONE / 100,
        10_000 * ONE,
    );
    let p = s.calculate_spot_price().unwrap();
    let mut prev = FixedPoint::zero();
    for bonds in [10u128, 100, 1_000, 2_500, 5_000] {
        let dep = s.calculate_open_short(&fpv(bonds * ONE), &p, &fpv(ONE)).unwrap();
        assert!(prev.le(&dep));
        prev = dep;
    }
}

#[test]
fn matured_close_equals_the_flat_redemption_formula() {
    let s = mk_pool(
        100_000 * ONE,
        200_000 * ONE,
        ONE / 10,
        ONE / 10,
        ONE / 2000,
        15 * ONE / 100,
        0,
    );
    let bond = fpv(12_345 * ONE / 10);
    // flat formula: (bond - flatFee * bond) / c, no curve fee at all
    let flat_fee = s.config.fees.flat.mul_up(&bond).unwrap();
    let expected = bond.checked_sub(&flat_fee).unwrap().div_down(&s.info.vault_share_price)
        .unwrap();
    assert_eq!(s.calculate_close_long(&bond, &FixedPoint::zero()).unwrap(), expected);
}

#[test]
fn fresh_close_equals_the_pure_curve_trade() {
    let s = mk_pool(
        100_000 * ONE,
        200_000 * ONE,
        ONE / 10,
        ONE / 10,
        ONE / 2000,
        15 * ONE / 100,
        0,
    );
    let bond = fpv(12_345 * ONE / 10);
    let fee = s.close_long_curve_fee(&bond, &fpv(ONE)).unwrap();
    let net = bond.checked_sub(&fee).unwrap();
    let expected = s.calculate_shares_out_given_bonds_in_down(&net).unwrap();
    assert_eq!(s.calculate_close_long(&bond, &fpv(ONE)).unwrap(), expected);
}

#[test]
fn max_long_never_breaks_solvency() {
    let s = mk_pool(
        100_000 * ONE,
        200_000 * ONE,
        ONE / 10,
        ONE / 10,
        ONE / 2000,
        15 * ONE / 100,
        99_500 * ONE,
    );
    let zero = Signed::positive(FixedPoint::zero());
    let budget = fpv(10_000 * ONE);
    // the full budget would leave the pool insolvent here
    assert_eq!(
        s.solvency_after_long(&budget, &zero),
        Err(HyperdriveError::Solvency)
    );
    let (best, _) = s.calculate_max_long(&budget, &zero, Some(20));
    assert_eq!(best, fpv(8_670_349_121_093_750_000_000));
    assert!(best.le(&budget));
    assert!(s.solvency_after_long(&best, &zero).is_ok());
    // the default iteration count still returns a solvent estimate
    let (best7, converged7) = s.calculate_max_long(&budget, &zero, None);
    assert_eq!(best7, fpv(8_593_750_000_000_000_000_000));
    assert!(!converged7);
    assert!(s.solvency_after_long(&best7, &zero).is_ok());
}

#[test]
fn negative_checkpoint_exposure_frees_capacity() {
    let s = mk_pool(
        100_000 * ONE,
        200_000 * ONE,
        ONE / 10,
        ONE / 10,
        ONE / 2000,
        15 * ONE / 100,
        99_500 * ONE,
    );
    let zero = Signed::positive(FixedPoint::zero());
    let neg = Signed::negative(fpv(1_000 * ONE));
    let budget = fpv(10_000 * ONE);
    let (base_max, _) = s.calculate_max_long(&budget, &zero, Some(7));
    let (freed_max, _) = s.calculate_max_long(&budget, &neg, Some(7));
    assert!(base_max.le(&freed_max));
    assert_eq!(freed_max, fpv(9_921_875_000_000_000_000_000));
}

#[test]
fn max_short_is_feasible_within_budget() {
    let s = mk_pool(
        100_000 * ONE,
        200_000 * ONE,
        ONE / 10,
        ONE / 10,
        ONE / 2000,
        15 * ONE / 100,
        10_000 * ONE,
    );
    let zero = Signed::positive(FixedPoint::zero());
    let budget = fpv(1_000 * ONE);
    let p = s.calculate_spot_price().unwrap();
    let (best, _) = s.calculate_max_short(&budget, &fpv(ONE), &zero, None, Some(20));
    assert!(!best.is_zero());
    let deposit = s.calculate_open_short(&best, &p, &fpv(ONE)).unwrap();
    assert!(deposit.le(&budget));
    // a caller-supplied conservative price also yields a feasible short
    let (best2, _) = s.calculate_max_short(
        &budget,
        &fpv(ONE),
        &zero,
        Some(fpv(ONE / 20)),
        Some(20),
    );
    if !best2.is_zero() {
        let deposit2 = s.calculate_open_short(&best2, &p, &fpv(ONE)).unwrap();
        assert!(deposit2.le(&budget));
    }
}

#[test]
fn round_trip_long_loses_only_dust_without_fees() {
    let s = mk_pool(100_000 * ONE, 200_000 * ONE, ONE / 10, 0, 0, 0, 0);
    let base = fpv(1_000 * ONE);
    let bonds = s.calculate_open_long(&base).unwrap();
    let dz = base.div_down(&s.info.vault_share_price).unwrap();
    let mut s2 = mk_pool(100_000 * ONE, 200_000 * ONE, ONE / 10, 0, 0, 0, 0);
    s2.info.share_reserves = s.info.share_reserves.checked_add(&dz).unwrap();
    s2.info.bond_reserves = s.info.bond_reserves.checked_sub(&bonds).unwrap();
    let shares_back = s2.calculate_close_long(&bonds, &fpv(ONE)).unwrap();
    let base_back = shares_back.mul_down(&s2.info.vault_share_price).unwrap();
    assert!(abs_diff(&base, &base_back).lt(&s.config.precision_threshold));
}

#[test]
fn round_trip_long_pays_the_fees_with_fees_on() {
    let s = mk_pool(
        100_000 * ONE,
        200_000 * ONE,
        ONE / 10,
        ONE / 10,
        ONE / 2000,
        15 * ONE / 100,
        0,
    );
    let base = fpv(1_000 * ONE);
    let bonds = s.calculate_open_long(&base).unwrap();
    let dz = base.div_down(&s.info.vault_share_price).unwrap();
    let mut s2 = mk_pool(
        100_000 * ONE,
        200_000 * ONE,
        ONE / 10,
        ONE / 10,
        ONE / 2000,
        15 * ONE / 100,
        0,
    );
    s2.info.share_reserves = s.info.share_reserves.checked_add(&dz).unwrap();
    s2.info.bond_reserves = s.info.bond_reserves.checked_sub(&bonds).unwrap();
    let shares_back = s2.calculate_close_long(&bonds, &fpv(ONE)).unwrap();
    let base_back = shares_back.mul_down(&s2.info.vault_share_price).unwrap();
    assert!(base_back.lt(&base));
}

#[test]
fn degenerate_full_curve_spot_price_is_exact() {
    // mu = 1, ze = 2, y = 1, t = 1: spotPrice = (mu*ze/y)^t = 2 exactly
    let mut s = mk_pool(2 * ONE, ONE, ONE, 0, 0, 0, 0);
    s.config.time_stretch = fpv(ONE);
    assert_eq!(s.calculate_spot_price().unwrap(), fpv(2 * ONE));
}

#[test]
fn balanced_reserves_spot_price_is_one_for_any_stretch() {
    for ts in [1u128, ONE / 10, ONE / 3, ONE / 2, 999_999_999_999_999_999] {
        let mut s = mk_pool(ONE, ONE, ONE / 10, 0, 0, 0, 0);
        s.config.time_stretch = fpv(ts);
        assert_eq!(s.calculate_spot_price().unwrap(), fpv(ONE));
    }
}

#[test]
fn spot_price_fails_on_exhausted_effective_reserves() {
    let mut s = mk_pool(100 * ONE, 200 * ONE, ONE / 10, 0, 0, 0, 0);
    s.info.share_adjustment = Signed::positive(fpv(100 * ONE));
    assert_eq!(s.calculate_spot_price(), Err(HyperdriveError::Solvency));
}

#[test]
fn open_short_fails_when_reserves_cannot_cover() {
    let mut s = mk_pool(50 * ONE, 10_000 * ONE, ONE / 10, 0, 0, 0, 0);
    s.config.minimum_share_reserves = fpv(40 * ONE);
    let p = s.calculate_spot_price().unwrap();
    // a small short still fits above the minimum reserves
    assert!(s.calculate_open_short(&fpv(10 * ONE), &p, &fpv(ONE)).is_ok());
    // a larger one would drain the reserves below the minimum
    let r = s.calculate_open_short(&fpv(20 * ONE), &p, &fpv(ONE));
    assert_eq!(r, Err(HyperdriveError::Solvency));
}
