use rwa_vault::errors::RwaError;
use rwa_vault::math::calculate_net_amount;
use rwa_vault::math::calculate_payment_distribution;
use rwa_vault::math::calculate_purchase_cost;
use rwa_vault::math::calculate_royalty_amount;
use rwa_vault::math::validate_royalty_fee;

#[test]
fn royalty_amount_floors() {
    // 5% of 1000 is exactly 50
    assert_eq!(calculate_royalty_amount(1000, 500, 10000).unwrap(), 50);
    // 999 * 333 / 10000 = 33.2667, floored to 33
    assert_eq!(calculate_royalty_amount(999, 333, 10000).unwrap(), 33);
    // zero amount yields zero royalty
    assert_eq!(calculate_royalty_amount(0, 9999, 10000).unwrap(), 0);
}

#[test]
fn royalty_amount_overflow_and_zero_denominator() {
    assert_eq!(
        calculate_royalty_amount(u64::MAX, 2, 10000).unwrap_err(),
        RwaError::MathOverflow
    );
    assert_eq!(calculate_royalty_amount(10, 5, 0).unwrap_err(), RwaError::MathOverflow);
}

#[test]
fn net_amount_is_amount_minus_royalty() {
    assert_eq!(calculate_net_amount(1000, 500, 10000).unwrap(), 950);
    assert_eq!(calculate_net_amount(999, 333, 10000).unwrap(), 966);
    assert_eq!(calculate_net_amount(0, 500, 10000).unwrap(), 0);
    // a fee above 100% of its denominator underflows the net amount
    assert_eq!(calculate_net_amount(10, 3, 1).unwrap_err(), RwaError::MathOverflow);
}

#[test]
fn purchase_cost_is_exact_product() {
    assert_eq!(calculate_purchase_cost(100, 10).unwrap(), 1000);
    assert_eq!(calculate_purchase_cost(0, 10).unwrap(), 0);
    assert_eq!(
        calculate_purchase_cost(u64::MAX, 2).unwrap_err(),
        RwaError::MathOverflow
    );
}

#[test]
fn payment_distribution_sums_exactly() {
    let (creator, platform) = calculate_payment_distribution(1000, 9500, 500).unwrap();
    assert_eq!(creator, 950);
    assert_eq!(platform, 50);
    assert_eq!(creator + platform, 1000);
}

#[test]
fn payment_distribution_never_leaks_under_rounding() {
    // 999 * 3333 / 10000 floors to 332; the platform keeps the rounding rest
    let (creator, platform) = calculate_payment_distribution(999, 3333, 6667).unwrap();
    assert_eq!(creator, 332);
    assert_eq!(platform, 667);
    assert_eq!(creator + platform, 999);
}

#[test]
fn payment_distribution_overflow() {
    assert_eq!(
        calculate_payment_distribution(u64::MAX, 9500, 500).unwrap_err(),
        RwaError::MathOverflow
    );
    // a creator share above 10000 basis points would exceed the total
    assert_eq!(
        calculate_payment_distribution(100, 20000, 0).unwrap_err(),
        RwaError::MathOverflow
    );
}

#[test]
fn royalty_fee_validation() {
    assert!(validate_royalty_fee(500, 10000).is_ok());
    assert!(validate_royalty_fee(5000, 10000).is_ok());
    assert_eq!(validate_royalty_fee(1, 0).unwrap_err(), RwaError::InvalidRoyaltyFee);
    assert_eq!(validate_royalty_fee(11, 10).unwrap_err(), RwaError::InvalidRoyaltyFee);
    // the cap is half of the fee's own denominator, whatever its scale
    assert_eq!(validate_royalty_fee(5001, 10000).unwrap_err(), RwaError::InvalidRoyaltyFee);
    assert_eq!(validate_royalty_fee(400, 500).unwrap_err(), RwaError::InvalidRoyaltyFee);
    assert!(validate_royalty_fee(250, 500).is_ok());
    assert!(validate_royalty_fee(5001, 10002).is_ok());
    assert_eq!(validate_royalty_fee(5001, 10001).unwrap_err(), RwaError::InvalidRoyaltyFee);
    // the cap binds at every denominator, including the largest
    assert!(validate_royalty_fee(u16::MAX / 2, u16::MAX).is_ok());
    assert_eq!(
        validate_royalty_fee(u16::MAX / 2 + 1, u16::MAX).unwrap_err(),
        RwaError::InvalidRoyaltyFee
    );
}
