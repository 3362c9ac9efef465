use rwa_vault::errors::RwaError;
use rwa_vault::identity::IdentityKey;
use rwa_vault::platform::initialize;
use rwa_vault::platform::update_platform_config;
use rwa_vault::platform::PlatformConfig;

fn key(tag: u8) -> IdentityKey {
    let mut bytes = [0u8; 32];
    bytes[0] = tag;
    IdentityKey { bytes }
}

#[test]
fn initialize_defaults() {
    let admin = key(1);
    let config = initialize(admin, 1_700_000_000);
    assert!(config.admin == admin);
    assert_eq!(config.platform_fee_numerator, 5);
    assert_eq!(config.platform_fee_denominator, 100);
    assert_eq!(config.platform_fee_bps, 500);
    assert_eq!(config.creator_fee_bps, 9500);
    assert_eq!(config.min_investment_amount, 1);
    assert_eq!(config.max_investment_amount, 10000);
    assert!(config.is_active);
    assert_eq!(config.created_at, 1_700_000_000);
    assert!(config.treasury == IdentityKey { bytes: [0u8; 32] });
}

#[test]
fn fee_structure_validation() {
    let config = initialize(key(1), 0);
    assert!(config.validate_fee_structure());
    let mut skewed = initialize(key(1), 0);
    skewed.platform_fee_bps = 600;
    assert!(!skewed.validate_fee_structure());
}

#[test]
fn platform_and_creator_fees() {
    let config = initialize(key(1), 0);
    assert_eq!(config.calculate_platform_fee(1000).unwrap(), 50);
    assert_eq!(config.calculate_creator_fee(1000).unwrap(), 950);
    assert_eq!(
        config.calculate_platform_fee(u64::MAX).unwrap_err(),
        RwaError::MathOverflow
    );
    assert_eq!(
        config.calculate_creator_fee(u64::MAX).unwrap_err(),
        RwaError::MathOverflow
    );
}

#[test]
fn update_requires_admin() {
    let admin = key(1);
    let outsider = key(2);
    let mut config = initialize(admin, 0);
    let r = update_platform_config(&mut config, &outsider, 3, 100, 1, 100, 7);
    assert_eq!(r.unwrap_err(), RwaError::UnauthorizedAccess);
    assert_eq!(config.platform_fee_numerator, 5);
}

#[test]
fn update_validates_inputs() {
    let admin = key(1);
    let mut config = initialize(admin, 0);
    assert_eq!(
        update_platform_config(&mut config, &admin, 3, 0, 1, 100, 7).unwrap_err(),
        RwaError::InvalidPrice
    );
    assert_eq!(
        update_platform_config(&mut config, &admin, 101, 100, 1, 100, 7).unwrap_err(),
        RwaError::InvalidPrice
    );
    assert_eq!(
        update_platform_config(&mut config, &admin, 3, 100, 0, 100, 7).unwrap_err(),
        RwaError::InvalidAmount
    );
    assert_eq!(
        update_platform_config(&mut config, &admin, 3, 100, 100, 100, 7).unwrap_err(),
        RwaError::InvalidAmount
    );
    // a failed update leaves the record untouched
    assert_eq!(config.platform_fee_numerator, 5);
    assert_eq!(config.updated_at, 0);
}

#[test]
fn update_applies_new_schedule() {
    let admin = key(1);
    let mut config = initialize(admin, 0);
    update_platform_config(&mut config, &admin, 3, 200, 10, 5000, 42).unwrap();
    assert_eq!(config.platform_fee_numerator, 3);
    assert_eq!(config.platform_fee_denominator, 200);
    assert_eq!(config.min_investment_amount, 10);
    assert_eq!(config.max_investment_amount, 5000);
    assert_eq!(config.updated_at, 42);
    // untouched fields stay
    assert_eq!(config.platform_fee_bps, 500);
    assert!(config.admin == admin);
}

#[test]
fn platform_record_size_is_exact() {
    assert_eq!(
        PlatformConfig::LEN,
        8 + 32 + 2 + 2 + 2 + 32 + 1 + 8 + 2 + 2 + 8 + 8 + 8 + 8
    );
}
