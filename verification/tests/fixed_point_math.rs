use hyperdrive_core::decimal::{from_dec_bytes, to_dec_bytes};
use hyperdrive_core::errors::HyperdriveError;
use hyperdrive_core::fixed_point::FixedPoint;

const ONE: u128 = 1_000_000_000_000_000_000;

fn fp(x: u128) -> FixedPoint {
    FixedPoint::from_u128(x)
}

#[test]
fn add_and_sub_are_exact() {
    let a = fp(3 * ONE);
    let b = fp(2 * ONE);
    assert_eq!(a.checked_add(&b).unwrap(), fp(5 * ONE));
    assert_eq!(a.checked_sub(&b).unwrap(), fp(ONE));
    assert_eq!(b.checked_sub(&a), Err(HyperdriveError::Arithmetic));
}

#[test]
fn add_overflow_is_detected() {
    let max = FixedPoint::max_value();
    assert_eq!(max.checked_add(&fp(1)), Err(HyperdriveError::Arithmetic));
    assert_eq!(max.checked_add(&FixedPoint::zero()).unwrap(), max);
}

#[test]
fn comparisons_follow_values() {
    let a = fp(7);
    let b = fp(9);
    assert!(a.lt(&b));
    assert!(a.le(&b));
    assert!(b.gt(&a));
    assert!(b.ge(&b));
    assert!(!b.lt(&a));
    assert_eq!(a.min(&b), a);
    assert_eq!(a.max(&b), b);
}

#[test]
fn mul_down_and_up_round_as_stated() {
    // 1.5 * 2.5 = 3.75 exactly, no rounding needed
    assert_eq!(
        fp(ONE + ONE / 2).mul_down(&fp(2 * ONE + ONE / 2)).unwrap(),
        fp(3 * ONE + 3 * ONE / 4)
    );
    // 1 wei * 1 wei / 1e18 rounds down to 0 and up to 1
    assert_eq!(fp(1).mul_down(&fp(1)).unwrap(), fp(0));
    assert_eq!(fp(1).mul_up(&fp(1)).unwrap(), fp(1));
    // overflow
    let max = FixedPoint::max_value();
    assert_eq!(max.mul_down(&max), Err(HyperdriveError::Arithmetic));
}

#[test]
fn div_down_and_up_round_as_stated() {
    assert_eq!(fp(ONE).div_down(&fp(3 * ONE)).unwrap(), fp(333_333_333_333_333_333));
    assert_eq!(fp(ONE).div_up(&fp(3 * ONE)).unwrap(), fp(333_333_333_333_333_334));
    assert_eq!(fp(6 * ONE).div_down(&fp(2 * ONE)).unwrap(), fp(3 * ONE));
    assert_eq!(fp(6 * ONE).div_up(&fp(2 * ONE)).unwrap(), fp(3 * ONE));
    assert_eq!(fp(ONE).div_down(&FixedPoint::zero()), Err(HyperdriveError::Arithmetic));
}

#[test]
fn mul_div_is_exact() {
    // 10 * 3 / 4 = 7.5
    assert_eq!(
        fp(10 * ONE).mul_div_down(&fp(3 * ONE), &fp(4 * ONE)).unwrap(),
        fp(7 * ONE + ONE / 2)
    );
    assert_eq!(fp(10).mul_div_down(&fp(10), &fp(3)).unwrap(), fp(33));
    assert_eq!(fp(10).mul_div_up(&fp(10), &fp(3)).unwrap(), fp(34));
    assert_eq!(
        fp(10).mul_div_down(&fp(10), &FixedPoint::zero()),
        Err(HyperdriveError::Arithmetic)
    );
}

#[test]
fn sqrt_is_the_floor_square_root() {
    assert_eq!(fp(4 * ONE).sqrt(), fp(2 * ONE));
    assert_eq!(fp(ONE).sqrt(), fp(ONE));
    assert_eq!(fp(2 * ONE).sqrt(), fp(1_414_213_562_373_095_048));
    assert_eq!(FixedPoint::zero().sqrt(), FixedPoint::zero());
}

#[test]
fn pow_handles_unit_and_zero_exponents_exactly() {
    let x = fp(123_456_789_012_345_678_901);
    assert_eq!(x.pow(&FixedPoint::zero()).unwrap(), fp(ONE));
    assert_eq!(x.pow(&fp(ONE)).unwrap(), x);
    assert_eq!(FixedPoint::zero().pow(&FixedPoint::zero()).unwrap(), fp(ONE));
}

#[test]
fn pow_integer_and_fractional_cases() {
    assert_eq!(fp(2 * ONE).pow(&fp(2 * ONE)).unwrap(), fp(4 * ONE));
    assert_eq!(fp(4 * ONE).pow(&fp(ONE / 2)).unwrap(), fp(2 * ONE));
    assert_eq!(fp(ONE / 2).pow(&fp(ONE / 2)).unwrap(), fp(707_106_781_186_547_524));
    assert_eq!(fp(2 * ONE).pow(&fp(3 * ONE / 2)).unwrap(), fp(2_828_427_124_746_190_096));
    // a base of one is a fixed point of the recurrence
    assert_eq!(fp(ONE).pow(&fp(777_777_777_777_777_777)).unwrap(), fp(ONE));
}

#[test]
fn pow_domain_and_overflow_errors() {
    assert_eq!(
        FixedPoint::zero().pow(&fp(ONE / 2)),
        Err(HyperdriveError::Domain)
    );
    assert_eq!(
        FixedPoint::max_value().pow(&fp(2 * ONE)),
        Err(HyperdriveError::Arithmetic)
    );
    // zero base with a whole exponent is fine
    assert_eq!(FixedPoint::zero().pow(&fp(3 * ONE)).unwrap(), FixedPoint::zero());
}

#[test]
fn decimal_parse_accepts_exactly_the_digit_strings_that_fit() {
    assert_eq!(from_dec_bytes(b"0").unwrap(), FixedPoint::zero());
    assert_eq!(from_dec_bytes(b"1000000000000000000").unwrap(), fp(ONE));
    assert_eq!(from_dec_bytes(b"007").unwrap(), fp(7));
    let max = b"115792089237316195423570985008687907853269984665640564039457584007913129639935";
    assert_eq!(from_dec_bytes(max).unwrap(), FixedPoint::max_value());
    let too_big =
        b"115792089237316195423570985008687907853269984665640564039457584007913129639936";
    assert!(from_dec_bytes(too_big).is_none());
    assert!(from_dec_bytes(b"").is_none());
    assert!(from_dec_bytes(b"12a").is_none());
    assert!(from_dec_bytes(b"-5").is_none());
}

#[test]
fn decimal_format_is_canonical_and_round_trips() {
    assert_eq!(to_dec_bytes(&FixedPoint::zero()), b"0".to_vec());
    assert_eq!(to_dec_bytes(&fp(ONE)), b"1000000000000000000".to_vec());
    assert_eq!(to_dec_bytes(&fp(42)), b"42".to_vec());
    let v = fp(987_654_321_012_345_678_909_876_543_210u128);
    assert_eq!(from_dec_bytes(&to_dec_bytes(&v)).unwrap(), v);
    let max = FixedPoint::max_value();
    assert_eq!(
        to_dec_bytes(&max),
        b"115792089237316195423570985008687907853269984665640564039457584007913129639935"
            .to_vec()
    );
}
