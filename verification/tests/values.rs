use mixnet_rewarding::{
    BandwidthCredentialIssuanceDataVariant, BandwidthVoucherIssuanceData, Coin, CredentialType,
    Dec, FreePassIssuanceData, Layer, MixnetContractError, PendingMixNodeChanges, Percent,
    RewardedSetNodeStatus, truncate_reward, into_base_decimal, DEC_FRACTIONAL, MAX_DEC_ATOMICS,
};

#[test]
fn decimal_constants_relate() {
    assert_eq!(Dec::zero().atomics(), 0);
    assert_eq!(Dec::one().atomics(), DEC_FRACTIONAL);
    assert!(Dec::zero().is_zero());
    assert!(!Dec::one().is_zero());
}

#[test]
fn integer_conversion_scales_by_the_fractional_base() {
    assert_eq!(into_base_decimal(7).unwrap().atomics(), 7_000_000_000_000_000_000);
    // the largest convertible amount
    assert_eq!(
        into_base_decimal(10_000_000_000_000_000_000).unwrap().atomics(),
        MAX_DEC_ATOMICS
    );
    assert_eq!(
        into_base_decimal(10_000_000_000_000_000_001),
        Err(MixnetContractError::DecimalRangeExceeded { amount: 10_000_000_000_000_000_001 })
    );
}

#[test]
fn from_ratio_truncates_toward_zero() {
    assert_eq!(Dec::from_ratio(1, 2).atomics(), 500_000_000_000_000_000);
    assert_eq!(Dec::from_ratio(1, 3).atomics(), 333_333_333_333_333_333);
    assert_eq!(Dec::from_ratio(2, 3).atomics(), 666_666_666_666_666_666);
    assert_eq!(Dec::from_ratio(40, 10).atomics(), 4_000_000_000_000_000_000);
}

#[test]
fn multiplication_truncates_toward_zero() {
    let half = Dec::from_ratio(1, 2);
    let third = Dec::from_ratio(1, 3);
    // 0.5 * 0.333...3 == 0.166...65, exactly representable
    assert_eq!(half.times(third).atomics(), 166_666_666_666_666_666);
    // ten times ten is exactly one hundred
    let ten = into_base_decimal(10).unwrap();
    assert_eq!(ten.times(ten), into_base_decimal(100).unwrap());
    // multiplying by one is exact even at the cap
    let max = Dec::from_atomics(MAX_DEC_ATOMICS).unwrap();
    assert_eq!(max.times(Dec::one()), max);
}

#[test]
fn division_truncates_toward_zero() {
    let one = Dec::one();
    let three = into_base_decimal(3).unwrap();
    assert_eq!(one.div_by(three).atomics(), 333_333_333_333_333_333);
    // a value divided by itself is exactly one
    let x = Dec::from_atomics(123_456_789_012_345_678_901).unwrap();
    assert_eq!(x.div_by(x), Dec::one());
    // large over small
    let max = Dec::from_atomics(MAX_DEC_ATOMICS).unwrap();
    assert_eq!(max.div_by(max), Dec::one());
}

#[test]
fn addition_and_subtraction_are_exact() {
    let a = Dec::from_atomics(123).unwrap();
    let b = Dec::from_atomics(877).unwrap();
    assert_eq!(a.plus(b).atomics(), 1000);
    assert_eq!(b.minus(a).atomics(), 754);
    assert!(a.lt(b));
    assert!(a.le(b));
    assert!(!b.lt(a));
}

#[test]
fn truncation_to_coins_never_rounds_up() {
    let value = Dec::from_atomics(2_999_999_999_999_999_999).unwrap();
    let coin = truncate_reward(value, "unym");
    assert_eq!(coin.amount, 2);
    assert_eq!(coin.denom, "unym".to_string());
    assert_eq!(truncate_reward(Dec::zero(), "unym").amount, 0);
    assert_eq!(value.floor_units(), 2);
}

#[test]
fn percent_is_capped_at_one() {
    assert_eq!(Percent::zero().value(), Dec::zero());
    assert_eq!(Percent::hundred().value(), Dec::one());
    assert_eq!(
        Percent::from_percentage_value(30).unwrap().value().atomics(),
        300_000_000_000_000_000
    );
    assert!(Percent::from_percentage_value(101).is_err());
    let over = into_base_decimal(2).unwrap();
    assert_eq!(
        Percent::new(over),
        Err(MixnetContractError::InvalidPercentValue { value: over })
    );
    assert_eq!(Percent::new(Dec::one()).unwrap().value(), Dec::one());
}

#[test]
fn coin_carries_denomination_and_amount() {
    let c = Coin::new(42, "unym".to_string());
    assert_eq!(c.amount, 42);
    assert_eq!(c.denom, "unym".to_string());
}

#[test]
fn layer_numbers_round_trip() {
    assert_eq!(Layer::try_from(1), Ok(Layer::One));
    assert_eq!(Layer::try_from(2), Ok(Layer::Two));
    assert_eq!(Layer::try_from(3), Ok(Layer::Three));
    assert_eq!(Layer::try_from(4), Err(MixnetContractError::InvalidLayer(4)));
    assert_eq!(Layer::try_from(0), Err(MixnetContractError::InvalidLayer(0)));
    assert_eq!(u8::from(Layer::One), 1);
    assert_eq!(u8::from(Layer::Two), 2);
    assert_eq!(u8::from(Layer::Three), 3);
}

#[test]
fn rewarded_set_status_activity() {
    assert!(RewardedSetNodeStatus::Active.is_active());
    assert!(!RewardedSetNodeStatus::Standby.is_active());
}

#[test]
fn empty_pending_changes_hold_nothing() {
    let changes = PendingMixNodeChanges::new_empty();
    assert_eq!(changes.pledge_change, None);
}

#[test]
fn credential_variant_reports_its_kind() {
    let voucher = BandwidthCredentialIssuanceDataVariant::Voucher(BandwidthVoucherIssuanceData {
        value_plain: "1000000".to_string(),
    });
    let pass = BandwidthCredentialIssuanceDataVariant::FreePass(FreePassIssuanceData {
        expiry_date_plain: "2024-12-31".to_string(),
    });
    assert_eq!(voucher.info(), CredentialType::Voucher);
    assert_eq!(pass.info(), CredentialType::FreePass);
    assert_eq!(voucher.public_value_plain(), "1000000".to_string());
    assert_eq!(pass.public_value_plain(), "2024-12-31".to_string());
    assert_eq!(
        voucher.voucher_data(),
        Some(&BandwidthVoucherIssuanceData { value_plain: "1000000".to_string() })
    );
    assert_eq!(pass.voucher_data(), None);

    let from_voucher = BandwidthCredentialIssuanceDataVariant::from(
        BandwidthVoucherIssuanceData { value_plain: "1000000".to_string() },
    );
    assert_eq!(from_voucher, voucher);
    let from_pass = BandwidthCredentialIssuanceDataVariant::from(FreePassIssuanceData {
        expiry_date_plain: "2024-12-31".to_string(),
    });
    assert_eq!(from_pass, pass);
}
