use campaign_escrow::fee_distribution::{Error, FeeDistribution, BPS_DENOMINATOR};

#[test]
fn splits_with_floor_rounding_favoring_net() {
    // 2.5% of 1_000_000 = 25_000 exactly.
    let (fee, net) = FeeDistribution::compute_split(1_000_000, 250).unwrap();
    assert_eq!(fee, 25_000);
    assert_eq!(net, 975_000);
    assert_eq!(fee + net, 1_000_000);

    // Non-exact division: fee floors, remainder goes to net, nothing is lost.
    let (fee, net) = FeeDistribution::compute_split(999, 333).unwrap();
    assert_eq!(fee, 33); // floor(999 * 333 / 10_000) = floor(33.2667) = 33
    assert_eq!(net, 966);
    assert_eq!(fee + net, 999);
}

#[test]
fn zero_fee_returns_full_amount_as_net() {
    let (fee, net) = FeeDistribution::compute_split(500, 0).unwrap();
    assert_eq!(fee, 0);
    assert_eq!(net, 500);
}

#[test]
fn full_fee_returns_full_amount_as_fee() {
    let (fee, net) = FeeDistribution::compute_split(500, 10_000).unwrap();
    assert_eq!(fee, 500);
    assert_eq!(net, 0);
}

#[test]
fn rejects_fee_bps_over_100_percent() {
    let result = FeeDistribution::compute_split(500, 10_001);
    assert!(result.is_err());
}

#[test]
fn rejects_negative_amount() {
    let result = FeeDistribution::compute_split(-1, 100);
    assert!(result.is_err());
}

#[test]
fn rejects_amount_whose_scaled_product_overflows_i128() {
    // amount * fee_bps overflows i128 before the division by
    // BPS_DENOMINATOR gets a chance to bring it back into range.
    let result = FeeDistribution::compute_split(i128::MAX, 10_000);
    assert!(result.is_err());
}

#[test]
fn each_split_refusal_names_its_reason() {
    assert_eq!(FeeDistribution::compute_split(-1, 100), Err(Error::InvalidAmount));
    assert_eq!(FeeDistribution::compute_split(500, 10_001), Err(Error::InvalidFeeBps));
    assert_eq!(FeeDistribution::compute_split(i128::MAX, 10_000), Err(Error::InvalidAmount));
    // A negative amount is reported before an excessive rate.
    assert_eq!(FeeDistribution::compute_split(-1, 10_001), Err(Error::InvalidAmount));
}

#[test]
fn split_error_codes_match_the_contract_interface() {
    assert_eq!(Error::InvalidFeeBps.code(), 1);
    assert_eq!(Error::InvalidAmount.code(), 2);
}

#[test]
fn largest_amount_that_fits_still_splits() {
    let amount = i128::MAX / 10_000;
    let (fee, net) = FeeDistribution::compute_split(amount, 10_000).unwrap();
    assert_eq!(fee, amount);
    assert_eq!(net, 0);
    assert!(FeeDistribution::compute_split(amount + 1, 10_000).is_err());
    // With a rate of zero even the largest amount fits.
    assert_eq!(FeeDistribution::compute_split(i128::MAX, 0), Ok((0, i128::MAX)));
}

#[test]
fn split_conserves_and_rounds_down_over_a_range() {
    for amount in [0i128, 1, 7, 999, 10_000, 123_456_789] {
        for bps in [0u32, 1, 250, 333, 2_000, 9_999, 10_000] {
            let (fee, net) = FeeDistribution::compute_split(amount, bps).unwrap();
            assert_eq!(fee + net, amount);
            assert!(fee >= 0 && net >= 0);
            assert!(fee * BPS_DENOMINATOR <= amount * bps as i128);
            assert!(amount * (bps as i128) < (fee + 1) * BPS_DENOMINATOR);
        }
    }
}

#[test]
fn higher_rate_never_lowers_the_fee() {
    let mut last = 0;
    for bps in 0u32..=10_000 {
        let (fee, _) = FeeDistribution::compute_split(999_999, bps).unwrap();
        assert!(fee >= last);
        last = fee;
    }
}
