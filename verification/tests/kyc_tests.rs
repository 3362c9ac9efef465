use rwa_vault::compliance::validate_kyc_for_transaction;
use rwa_vault::compliance::TransactionType;
use rwa_vault::errors::RwaError;
use rwa_vault::identity::IdentityKey;
use rwa_vault::kyc::register_kyc;
use rwa_vault::kyc::verify_kyc;
use rwa_vault::kyc::KycAccount;
use rwa_vault::kyc::VerificationMethod;
use rwa_vault::platform::initialize;

fn key(tag: u8) -> IdentityKey {
    let mut bytes = [0u8; 32];
    bytes[0] = tag;
    IdentityKey { bytes }
}

#[test]
fn registration_starts_unverified() {
    let record = register_kyc(key(7));
    assert!(record.user == key(7));
    assert!(!record.is_verified);
    assert_eq!(record.verification_level, 0);
    assert_eq!(record.verified_at, 0);
    assert!(record.email.is_none());
    assert!(record.country.is_none());
    assert!(!record.is_valid());
    assert!(!record.can_perform_high_value_transactions());
}

#[test]
fn verification_requires_admin() {
    let config = initialize(key(1), 0);
    let outsider = key(2);
    let mut record = register_kyc(key(7));
    let r = verify_kyc(
        &mut record,
        &config,
        &outsider,
        VerificationMethod::EmailVerification,
        2,
        99,
    );
    assert_eq!(r.unwrap_err(), RwaError::UnauthorizedAccess);
    assert!(!record.is_verified);
}

#[test]
fn verification_caps_level_at_three() {
    let admin = key(1);
    let config = initialize(admin, 0);
    let mut record = register_kyc(key(7));
    verify_kyc(
        &mut record,
        &config,
        &admin,
        VerificationMethod::DocumentUpload,
        9,
        1_700_000_123,
    )
    .unwrap();
    assert!(record.is_verified);
    assert_eq!(record.verification_level, 3);
    assert_eq!(record.verified_at, 1_700_000_123);
    assert!(record.verification_method == VerificationMethod::DocumentUpload);
    assert!(record.is_valid());
    assert!(record.can_perform_high_value_transactions());
}

#[test]
fn verification_at_level_one_gates_ordinary_only() {
    let admin = key(1);
    let config = initialize(admin, 0);
    let mut record = register_kyc(key(7));
    verify_kyc(&mut record, &config, &admin, VerificationMethod::AdminApproval, 1, 5).unwrap();
    assert!(record.is_valid());
    assert!(!record.can_perform_high_value_transactions());
}

#[test]
fn verification_descriptions() {
    let mut record = register_kyc(key(7));
    assert_eq!(record.get_verification_description(), "Admin Approved");
    record.verification_method = VerificationMethod::EmailVerification;
    assert_eq!(record.get_verification_description(), "Email Verified");
    record.verification_method = VerificationMethod::SocialVerification;
    assert_eq!(record.get_verification_description(), "Social Media Verified");
    record.verification_method = VerificationMethod::DocumentUpload;
    assert_eq!(record.get_verification_description(), "Document Verified");
    record.verification_method = VerificationMethod::PhoneVerification;
    assert_eq!(record.get_verification_description(), "Phone Verified");
}

#[test]
fn minimal_record_gates_transactions_by_validity() {
    let admin = key(1);
    let config = initialize(admin, 0);
    let mut record = register_kyc(key(7));
    assert_eq!(
        validate_kyc_for_transaction(&record, TransactionType::Purchase).unwrap_err(),
        RwaError::KycNotVerified
    );
    verify_kyc(&mut record, &config, &admin, VerificationMethod::AdminApproval, 1, 5).unwrap();
    assert!(validate_kyc_for_transaction(&record, TransactionType::Purchase).is_ok());
    assert!(validate_kyc_for_transaction(&record, TransactionType::Transfer).is_ok());
    assert!(validate_kyc_for_transaction(&record, TransactionType::Redemption).is_ok());
}

#[test]
fn plain_record_status_methods() {
    let pending = KycAccount {
        user: key(7),
        is_verified: false,
        registered_at: 10,
        verified_at: None,
        metadata: None,
    };
    assert!(pending.is_pending_verification());
    assert!(!pending.is_verified());
    let verified = KycAccount {
        user: key(7),
        is_verified: true,
        registered_at: 10,
        verified_at: Some(20),
        metadata: Some(String::from("ok")),
    };
    assert!(!verified.is_pending_verification());
    assert!(verified.is_verified());
}
