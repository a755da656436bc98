use hyperdrive_core::errors::HyperdriveError;
use hyperdrive_core::fixed_point::FixedPoint;
use hyperdrive_core::rates::{calculate_initial_bond_reserves, calculate_time_stretch};
use hyperdrive_core::state::{Fees, PoolConfig, PoolInfo, Signed, State};
use hyperdrive_core::yield_space::calculate_effective_share_reserves;

const ONE: u128 = 1_000_000_000_000_000_000;

fn fp(x: u128) -> FixedPoint {
    FixedPoint::from_u128(x)
}

/// A mid-sized pool: 100k share reserves, 200k bond reserves, 10% curve
/// fee, 0.05% flat fee, 15% governance cut, one-year duration.
fn pool_a() -> State {
    State {
        config: PoolConfig {
            base_token: String::from("0x00"),
            vault_shares_token: String::from("0x01"),
            linker_factory: String::from("0x02"),
            linker_code_hash: String::from("0x03"),
            initial_vault_share_price: fp(ONE),
            minimum_share_reserves: fp(10 * ONE),
            minimum_transaction_amount: fp(ONE / 1000),
            position_duration: fp(31_536_000),
            checkpoint_duration: fp(86_400),
            time_stretch: fp(ONE / 10),
            governance: String::from("0x04"),
            fee_collector: String::from("0x05"),
            sweep_collector: String::from("0x06"),
            fees: Fees {
                curve: fp(ONE / 10),
                flat: fp(5 * ONE / 10_000),
                governance_lp: fp(15 * ONE / 100),
                governance_zombie: fp(3 * ONE / 10),
            },
            precision_threshold: fp(10_000_000_000_000),
        },
        info: PoolInfo {
            share_reserves: fp(100_000 * ONE),
            share_adjustment: Signed::positive(FixedPoint::zero()),
            zombie_base_proceeds: FixedPoint::zero(),
            zombie_share_reserves: FixedPoint::zero(),
            bond_reserves: fp(200_000 * ONE),
            lp_total_supply: fp(100_000 * ONE),
            vault_share_price: fp(ONE),
            longs_outstanding: fp(5_000 * ONE),
            long_average_maturity_time: fp(1_715_768_000),
            shorts_outstanding: fp(2_000 * ONE),
            short_average_maturity_time: fp(1_707_884_000),
            withdrawal_shares_ready_to_withdraw: FixedPoint::zero(),
            withdrawal_shares_proceeds: fp(100 * ONE),
            lp_share_price: fp(ONE),
            long_exposure: fp(10_000 * ONE),
        },
    }
}

#[test]
fn spot_price_matches_the_curve_formula() {
    let s = pool_a();
    assert_eq!(s.calculate_spot_price().unwrap(), fp(933_032_991_536_807_368));
}

#[test]
fn spot_rate_matches_the_rate_formula() {
    let s = pool_a();
    assert_eq!(s.calculate_spot_rate().unwrap(), fp(71_773_462_536_293_219));
}

#[test]
fn k_is_the_curve_invariant() {
    let s = pool_a();
    assert_eq!(s.k_down().unwrap(), fp(90_632_964_308_422_162_505_909));
    assert_eq!(s.k_up().unwrap(), fp(90_632_964_308_422_162_505_909));
}

#[test]
fn effective_share_reserves_subtract_the_adjustment() {
    let z = fp(100_000 * ONE);
    let r = calculate_effective_share_reserves(&z, &Signed::positive(fp(30_000 * ONE)));
    assert_eq!(r.unwrap(), fp(70_000 * ONE));
    let r2 = calculate_effective_share_reserves(&z, &Signed::negative(fp(5_000 * ONE)));
    assert_eq!(r2.unwrap(), fp(105_000 * ONE));
    let r3 = calculate_effective_share_reserves(&z, &Signed::positive(fp(100_000 * ONE)));
    assert_eq!(r3, Err(HyperdriveError::Solvency));
}

#[test]
fn a_negative_adjustment_raises_the_spot_price_inputs() {
    let mut s = pool_a();
    s.info.share_adjustment = Signed::negative(fp(5_000 * ONE));
    assert_eq!(s.calculate_spot_price().unwrap(), fp(937_596_398_235_586_497));
}

#[test]
fn curve_conversions_match_expected_values() {
    let s = pool_a();
    let dz = fp(500 * ONE);
    assert_eq!(
        s.calculate_bonds_out_given_shares_in_down(&dz).unwrap(),
        fp(535_681_195_419_149_249_836)
    );
    assert_eq!(
        s.calculate_shares_out_given_bonds_in_down(&dz).unwrap(),
        fp(466_349_307_355_483_573_240)
    );
    assert_eq!(
        s.calculate_shares_in_given_bonds_out_up(&dz).unwrap(),
        fp(466_683_574_749_118_161_776)
    );
    assert_eq!(
        s.calculate_shares_in_given_bonds_out_down(&dz).unwrap(),
        fp(466_683_574_749_116_152_442)
    );
}

#[test]
fn open_long_returns_bonds_net_of_fees() {
    let s = pool_a();
    assert_eq!(
        s.calculate_open_long(&fp(1_000 * ONE)).unwrap(),
        fp(1_062_698_283_042_329_846_769)
    );
}

#[test]
fn open_long_rejects_dust() {
    let s = pool_a();
    assert_eq!(
        s.calculate_open_long(&fp(ONE / 10_000)),
        Err(HyperdriveError::Validation)
    );
}

#[test]
fn open_long_fee_getters_match() {
    let s = pool_a();
    assert_eq!(
        s.open_long_curve_fee(&fp(1_000 * ONE)).unwrap(),
        fp(7_177_346_253_629_322_000)
    );
    assert_eq!(
        s.open_long_governance_fee(&fp(1_000 * ONE)).unwrap(),
        fp(1_076_601_938_044_398_300)
    );
}

#[test]
fn close_long_fee_getters_match() {
    let s = pool_a();
    let bond = fp(1_000 * ONE);
    assert_eq!(
        s.close_long_curve_fee(&bond, &fp(ONE)).unwrap(),
        fp(7_177_346_253_629_322_000)
    );
    assert_eq!(
        s.close_long_curve_fee(&bond, &fp(ONE / 2)).unwrap(),
        fp(3_588_673_126_814_661_000)
    );
    assert_eq!(s.close_long_flat_fee(&bond, &FixedPoint::zero()).unwrap(), fp(ONE / 2));
    assert_eq!(
        s.close_long_flat_fee(&bond, &fp(ONE / 2)).unwrap(),
        fp(ONE / 4)
    );
    // a time fraction above one is invalid input
    assert_eq!(
        s.close_long_flat_fee(&bond, &fp(ONE + 1)),
        Err(HyperdriveError::Validation)
    );
}

#[test]
fn close_long_splits_flat_and_curve() {
    let s = pool_a();
    let bond = fp(1_000 * ONE);
    assert_eq!(
        s.calculate_close_long(&bond, &FixedPoint::zero()).unwrap(),
        fp(999_500_000_000_000_000_000)
    );
    assert_eq!(
        s.calculate_close_long(&bond, &fp(ONE)).unwrap(),
        fp(925_676_886_045_998_041_592)
    );
    assert_eq!(
        s.calculate_close_long(&bond, &fp(ONE / 2)).unwrap(),
        fp(962_753_348_649_526_266_648)
    );
}

#[test]
fn open_short_charges_the_margin_plus_fees() {
    let s = pool_a();
    let p = s.calculate_spot_price().unwrap();
    assert_eq!(
        s.calculate_open_short(&fp(1_000 * ONE), &p, &fp(ONE)).unwrap(),
        fp(75_313_331_016_534_064_494)
    );
}

#[test]
fn open_short_fee_getters_match() {
    let s = pool_a();
    let p = s.calculate_spot_price().unwrap();
    assert_eq!(
        s.open_short_curve_fee(&fp(1_000 * ONE), &p).unwrap(),
        fp(7_177_346_253_629_322_000)
    );
    assert_eq!(
        s.open_short_governance_fee(&fp(1_000 * ONE), &p).unwrap(),
        fp(1_076_601_938_044_398_300)
    );
}

#[test]
fn close_short_nets_interest_and_fees() {
    let s = pool_a();
    let bond = fp(1_000 * ONE);
    let c0 = fp(ONE);
    let c1 = fp(105 * ONE / 100);
    assert_eq!(
        s.calculate_close_short(&bond, &c0, &c1, &fp(ONE / 2)).unwrap(),
        fp(53_470_069_892_010_732_508)
    );
    assert_eq!(
        s.calculate_close_short(&bond, &c0, &c1, &FixedPoint::zero()).unwrap(),
        fp(47_142_857_142_857_142_856)
    );
    assert_eq!(
        s.calculate_close_short(&bond, &c0, &c1, &fp(ONE)).unwrap(),
        fp(59_463_339_780_959_445_901)
    );
    assert_eq!(
        s.calculate_close_short(&bond, &FixedPoint::zero(), &c1, &fp(ONE)),
        Err(HyperdriveError::Validation)
    );
}

#[test]
fn spot_price_moves_with_fee_free_trades() {
    let s = pool_a();
    assert_eq!(
        s.calculate_spot_price_after_long(&fp(1_000 * ONE)).unwrap(),
        fp(934_463_444_984_577_121)
    );
    assert_eq!(
        s.calculate_spot_price_after_short(&fp(1_000 * ONE)).unwrap(),
        fp(931_694_591_108_599_419)
    );
}

#[test]
fn solvency_and_idle_reserves_are_exact() {
    let s = pool_a();
    assert_eq!(s.calculate_solvency().unwrap(), fp(89_990_000_000_000_000_000_000));
    assert_eq!(
        s.calculate_idle_share_reserves_in_base().unwrap(),
        fp(89_990_000_000_000_000_000_000)
    );
}

#[test]
fn insolvent_pool_reports_the_typed_failure() {
    let mut s = pool_a();
    s.info.long_exposure = fp(200_000 * ONE);
    assert_eq!(s.calculate_solvency(), Err(HyperdriveError::Solvency));
}

#[test]
fn present_value_aggregates_outstanding_positions() {
    let s = pool_a();
    assert_eq!(
        s.calculate_present_value(&fp(1_700_000_000)).unwrap(),
        fp(97_026_611_733_786_981_097_659)
    );
}

#[test]
fn present_value_handles_a_net_short_book() {
    let mut s = pool_a();
    s.info.longs_outstanding = fp(1_000 * ONE);
    s.info.shorts_outstanding = fp(8_000 * ONE);
    assert_eq!(
        s.calculate_present_value(&fp(1_700_000_000)).unwrap(),
        fp(106_791_052_235_790_846_828_807)
    );
}

#[test]
fn close_short_survives_a_vault_loss() {
    let s = pool_a();
    let bond = fp(1_000 * ONE);
    assert_eq!(
        s.calculate_close_short(&bond, &fp(ONE), &fp(95 * ONE / 100), &fp(ONE / 2)).unwrap(),
        fp(2_959_927_222_655_879_275)
    );
    // a short whose margin is exhausted cannot pay out
    assert_eq!(
        s.calculate_close_short(&bond, &fp(11 * ONE / 10), &fp(ONE), &fp(ONE / 2)),
        Err(HyperdriveError::Arithmetic)
    );
}

#[test]
fn error_descriptions_name_the_failure() {
    assert_eq!(
        HyperdriveError::Arithmetic.describe(),
        "arithmetic overflow or underflow"
    );
    assert_eq!(
        HyperdriveError::Validation.describe(),
        "input violates a precondition"
    );
    assert!(HyperdriveError::Solvency.describe().contains("trade"));
    assert!(HyperdriveError::Domain.describe().contains("domain"));
}

#[test]
fn state_new_keeps_the_snapshot() {
    let s = pool_a();
    let rebuilt = hyperdrive_core::state::State::new(pool_a().config, pool_a().info);
    assert_eq!(
        rebuilt.calculate_spot_price().unwrap(),
        s.calculate_spot_price().unwrap()
    );
}

#[test]
fn to_checkpoint_rounds_down_to_the_bucket() {
    let s = pool_a();
    assert_eq!(s.to_checkpoint(&fp(1_700_003_605)), fp(1_699_920_000));
    assert_eq!(s.to_checkpoint(&fp(1_699_920_000)), fp(1_699_920_000));
    assert_eq!(s.to_checkpoint(&fp(5)), FixedPoint::zero());
}

#[test]
fn time_remaining_is_clamped_to_the_unit_interval() {
    let s = pool_a();
    let now = fp(1_700_000_000);
    // half the duration left
    assert_eq!(
        s.time_remaining_scaled(&now, &fp(1_715_768_000)).unwrap(),
        fp(ONE / 2)
    );
    // matured
    assert_eq!(
        s.time_remaining_scaled(&now, &fp(1_600_000_000)).unwrap(),
        FixedPoint::zero()
    );
    // beyond a full duration clamps to one
    assert_eq!(
        s.time_remaining_scaled(&now, &fp(1_900_000_000)).unwrap(),
        fp(ONE)
    );
}

#[test]
fn time_stretch_calibration_matches() {
    let r = calculate_time_stretch(&fp(5 * ONE / 100), &fp(31_536_000)).unwrap();
    assert_eq!(r, fp(44_463_125_629_060_298));
}

#[test]
fn initial_bond_reserves_quote_the_target_rate() {
    let r = calculate_initial_bond_reserves(
        &fp(100_000 * ONE),
        &fp(ONE),
        &fp(5 * ONE / 100),
        &fp(31_536_000),
        &fp(ONE / 10),
    )
    .unwrap();
    assert_eq!(r, fp(162_889_462_677_744_140_600_000));
}
