use rwa_vault::errors::RwaError;
use rwa_vault::identity::IdentityKey;
use rwa_vault::kyc::register_kyc;
use rwa_vault::kyc::SimpleKycAccount;
use rwa_vault::kyc::VerificationMethod;
use rwa_vault::vault::fractionalize;
use rwa_vault::vault::is_vault_redemption_eligible;
use rwa_vault::vault::validate_redemption_eligibility;
use rwa_vault::vault::validate_sale_availability;
use rwa_vault::vault::Vault;

fn key(tag: u8) -> IdentityKey {
    let mut bytes = [0u8; 32];
    bytes[0] = tag;
    IdentityKey { bytes }
}

fn valid_buyer_kyc(tag: u8) -> SimpleKycAccount {
    SimpleKycAccount {
        user: key(tag),
        is_verified: true,
        verification_method: VerificationMethod::AdminApproval,
        verified_at: 1_700_000_000,
        email: None,
        country: None,
        verification_level: 1,
    }
}

fn sample_vault(total_fractions: u64, price_per_fraction: u64) -> Vault {
    let (vault, _) = fractionalize(
        total_fractions,
        price_per_fraction,
        key(1),
        key(2),
        key(3),
        key(4),
    )
    .unwrap();
    vault
}

#[test]
fn fractionalize_initial_state() {
    let (vault, effects) = fractionalize(1000, 10, key(1), key(2), key(3), key(4)).unwrap();
    assert_eq!(vault.total_fractions, 1000);
    assert_eq!(vault.price_per_fraction, 10);
    assert_eq!(vault.fractions_sold, 0);
    assert!(vault.is_sale_active);
    assert!(vault.sale_ended_at.is_none());
    assert!(vault.creator == key(1));
    assert!(vault.original_nft_mint == key(2));
    assert!(vault.fractional_token_mint == key(3));
    assert!(vault.creator_payment_account == key(4));
    // custody receives the single asset and every fractional unit
    assert_eq!(effects.asset_to_custody, 1);
    assert_eq!(effects.fractions_to_custody, 1000);
}

#[test]
fn fractionalize_rejects_zero_fractions() {
    let r = fractionalize(0, 10, key(1), key(2), key(3), key(4));
    assert_eq!(r.unwrap_err(), RwaError::InvalidTotalFractions);
}

#[test]
fn fractionalize_rejects_zero_price() {
    let r = fractionalize(5, 0, key(1), key(2), key(3), key(4));
    assert_eq!(r.unwrap_err(), RwaError::InvalidPrice);
}

#[test]
fn buy_fractions_example_split() {
    // total_fractions=1000, price=10, fee 5/100: buying 100 costs 1000,
    // the platform keeps 50 and the creator receives 950.
    let mut vault = sample_vault(1000, 10);
    let kyc = valid_buyer_kyc(9);
    let purchase = vault.buy_fractions(&kyc, 100).unwrap();
    assert_eq!(purchase.total_cost, 1000);
    assert_eq!(purchase.platform_fee, 50);
    assert_eq!(purchase.creator_amount, 950);
    assert_eq!(purchase.fractions_to_buyer, 100);
    assert_eq!(vault.fractions_sold, 100);
}

#[test]
fn buy_fractions_zero_amount_fails() {
    let mut vault = sample_vault(1000, 10);
    let kyc = valid_buyer_kyc(9);
    assert_eq!(vault.buy_fractions(&kyc, 0).unwrap_err(), RwaError::InvalidAmount);
    assert_eq!(vault.fractions_sold, 0);
}

#[test]
fn buy_fractions_inactive_sale_fails() {
    let mut vault = sample_vault(1000, 10);
    vault.is_sale_active = false;
    let kyc = valid_buyer_kyc(9);
    assert_eq!(vault.buy_fractions(&kyc, 1).unwrap_err(), RwaError::SaleNotActive);
}

#[test]
fn buy_fractions_unverified_buyer_fails() {
    let mut vault = sample_vault(1000, 10);
    let kyc = register_kyc(key(9));
    assert_eq!(vault.buy_fractions(&kyc, 1).unwrap_err(), RwaError::KycNotVerified);
}

#[test]
fn buy_fractions_oversubscription_fails() {
    let mut vault = sample_vault(100, 10);
    let kyc = valid_buyer_kyc(9);
    vault.buy_fractions(&kyc, 60).unwrap();
    assert_eq!(vault.buy_fractions(&kyc, 41).unwrap_err(), RwaError::InsufficientFractions);
    assert_eq!(vault.fractions_sold, 60);
    vault.buy_fractions(&kyc, 40).unwrap();
    assert_eq!(vault.fractions_sold, 100);
}

#[test]
fn buy_fractions_cost_overflow_fails() {
    let mut vault = sample_vault(u64::MAX, 3);
    let kyc = valid_buyer_kyc(9);
    let r = vault.buy_fractions(&kyc, u64::MAX / 2);
    assert_eq!(r.unwrap_err(), RwaError::MathOverflow);
    assert_eq!(vault.fractions_sold, 0);
}

#[test]
fn buy_fractions_fee_scaling_overflow_fails() {
    // the cost itself fits, but scaling it by the fee numerator does not
    let mut vault = sample_vault(u64::MAX, 1);
    let kyc = valid_buyer_kyc(9);
    let r = vault.buy_fractions(&kyc, u64::MAX / 2);
    assert_eq!(r.unwrap_err(), RwaError::MathOverflow);
}

#[test]
fn buy_sequence_is_monotonic_and_conserves_payment() {
    let mut vault = sample_vault(1000, 7);
    let kyc = valid_buyer_kyc(9);
    let mut last_sold = 0u64;
    let mut cost_sum = 0u128;
    let mut payout_sum = 0u128;
    for request in [1u64, 0, 250, 900, 500, 249] {
        match vault.buy_fractions(&kyc, request) {
            Ok(p) => {
                cost_sum += p.total_cost as u128;
                payout_sum += p.creator_amount as u128 + p.platform_fee as u128;
            }
            Err(_) => {}
        }
        assert!(vault.fractions_sold >= last_sold);
        assert!(vault.fractions_sold <= vault.total_fractions);
        last_sold = vault.fractions_sold;
    }
    assert_eq!(cost_sum, payout_sum);
    assert_eq!(vault.fractions_sold, 1000);
}

#[test]
fn redeem_with_full_balance_succeeds() {
    // fractions_sold == total_fractions == 1000, redeemer balance 1000
    let mut vault = sample_vault(1000, 10);
    let kyc = valid_buyer_kyc(9);
    vault.buy_fractions(&kyc, 1000).unwrap();
    let effects = vault.redeem(1000).unwrap();
    assert_eq!(effects.fractions_burned, 1000);
    assert_eq!(effects.asset_to_redeemer, 1);
    assert!(!vault.is_sale_active);
}

#[test]
fn redeem_with_partial_balance_fails() {
    let mut vault = sample_vault(1000, 10);
    assert_eq!(vault.redeem(999).unwrap_err(), RwaError::InsufficientTokens);
    assert!(vault.is_sale_active);
}

#[test]
fn redeem_is_terminal() {
    let mut vault = sample_vault(10, 5);
    let kyc = valid_buyer_kyc(9);
    vault.buy_fractions(&kyc, 10).unwrap();
    vault.redeem(10).unwrap();
    // after redemption the sale is closed: buys fail, and the emptied
    // redeemer cannot redeem again
    assert_eq!(vault.buy_fractions(&kyc, 1).unwrap_err(), RwaError::SaleNotActive);
    assert_eq!(vault.redeem(0).unwrap_err(), RwaError::InsufficientTokens);
}

#[test]
fn vault_getters() {
    let mut vault = sample_vault(100, 4);
    assert!(!vault.is_fully_sold());
    assert_eq!(vault.remaining_fractions(), 100);
    assert_eq!(vault.total_value().unwrap(), 400);
    assert_eq!(vault.sold_value().unwrap(), 0);
    let kyc = valid_buyer_kyc(9);
    vault.buy_fractions(&kyc, 75).unwrap();
    assert!(!vault.is_fully_sold());
    assert_eq!(vault.remaining_fractions(), 25);
    assert_eq!(vault.sold_value().unwrap(), 300);
    vault.buy_fractions(&kyc, 25).unwrap();
    assert!(vault.is_fully_sold());
    assert_eq!(vault.remaining_fractions(), 0);
}

#[test]
fn vault_value_overflow_is_reported() {
    let vault = sample_vault(u64::MAX, 2);
    assert_eq!(vault.total_value().unwrap_err(), RwaError::MathOverflow);
    assert_eq!(vault.sold_value().unwrap(), 0);
}

#[test]
fn sale_availability_checks_run_in_order() {
    let mut vault = sample_vault(100, 10);
    let kyc = valid_buyer_kyc(9);
    vault.buy_fractions(&kyc, 40).unwrap();
    assert!(validate_sale_availability(&vault, 60).is_ok());
    assert_eq!(
        validate_sale_availability(&vault, 61).unwrap_err(),
        RwaError::InsufficientFractions
    );
    assert_eq!(validate_sale_availability(&vault, 0).unwrap_err(), RwaError::InvalidAmount);
    vault.is_sale_active = false;
    assert_eq!(validate_sale_availability(&vault, 0).unwrap_err(), RwaError::SaleNotActive);
}

#[test]
fn redemption_eligibility_checks() {
    let mut vault = sample_vault(50, 10);
    let kyc = valid_buyer_kyc(9);
    assert_eq!(
        validate_redemption_eligibility(&vault, 49).unwrap_err(),
        RwaError::InsufficientTokens
    );
    assert_eq!(
        validate_redemption_eligibility(&vault, 50).unwrap_err(),
        RwaError::VaultNotReadyForRedemption
    );
    assert!(!is_vault_redemption_eligible(&vault));
    vault.buy_fractions(&kyc, 50).unwrap();
    assert!(validate_redemption_eligibility(&vault, 50).is_ok());
    assert!(is_vault_redemption_eligible(&vault));
    vault.redeem(50).unwrap();
    assert!(!is_vault_redemption_eligible(&vault));
}

#[test]
fn vault_record_size_is_exact() {
    // discriminator, four 32-byte keys, three 8-byte counters, the flag,
    // the timestamp, and the optional end timestamp
    assert_eq!(Vault::LEN, 8 + 32 + 32 + 32 + 8 + 8 + 8 + 1 + 8 + 9 + 32);
}
