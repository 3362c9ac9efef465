//! The minimal compliance record: a boolean verification with a level from 0
//! to 3, enough to gate ordinary purchases. The extended record with the full
//! status machine lives in `kyc_enhanced`.

use vstd::prelude::*;

use crate::errors::RwaError;
use crate::identity::IdentityKey;
use crate::platform::PlatformConfig;

verus! {

/// How a user's identity was verified.
#[derive(Clone, Copy, Debug, PartialEq, Eq, Structural)]
pub enum VerificationMethod {
    /// Manual admin verification.
    AdminApproval,
    /// Email verification.
    EmailVerification,
    /// Social media verification.
    SocialVerification,
    /// Document upload.
    DocumentUpload,
    /// Phone verification.
    PhoneVerification,
}

/// The words `get_verification_description` uses for each method.
pub open spec fn spec_verification_description(method: VerificationMethod) -> Seq<char> {
    match method {
        VerificationMethod::AdminApproval => "Admin Approved"@,
        VerificationMethod::EmailVerification => "Email Verified"@,
        VerificationMethod::SocialVerification => "Social Media Verified"@,
        VerificationMethod::DocumentUpload => "Document Verified"@,
        VerificationMethod::PhoneVerification => "Phone Verified"@,
    }
}

/// A minimal per-identity compliance record: whether the user is verified,
/// how, and to which level (0 to 3).
#[derive(Debug)]
pub struct SimpleKycAccount {
    /// The user this record describes.
    pub user: IdentityKey,
    /// Whether the user has been verified.
    pub is_verified: bool,
    /// The method that verified the user.
    pub verification_method: VerificationMethod,
    /// When verification completed (zero while unverified).
    pub verified_at: i64,
    /// The user's email for notifications, if given.
    pub email: Option<String>,
    /// The user's country for compliance, if given.
    pub country: Option<String>,
    /// Verification level, 0 (none) to 3 (strongest).
    pub verification_level: u8,
}

impl SimpleKycAccount {
    /// The storage bytes the record reserves: an 8-byte discriminator,
    /// every field at its serialized width, length-prefixed optional strings
    /// at their maximum lengths, and trailing padding.
    pub const LEN: usize = 8  // discriminator
     + 32  // user
     + 1  // is_verified
     + 1  // verification_method
     + 8  // verified_at
     + 4  // email length prefix
     + 64  // email (at most 64 bytes)
     + 4  // country length prefix
     + 32  // country (at most 32 bytes)
     + 1  // verification_level
     + 8;  // padding

    /// Whether the record authorizes ordinary transactions: verified, at
    /// level 1 or above.
    pub open spec fn valid_spec(&self) -> bool {
        self.is_verified && self.verification_level >= 1
    }

    /// Check if the record is valid for transactions.
    pub fn is_valid(&self) -> (r: bool)
        ensures
            r == self.valid_spec(),
    {
        self.is_verified && self.verification_level >= 1
    }

    /// Whether the record authorizes high-value transactions: verified, at
    /// level 2 or above.
    pub open spec fn high_value_spec(&self) -> bool {
        self.is_verified && self.verification_level >= 2
    }

    /// Check if the user can perform high-value transactions.
    pub fn can_perform_high_value_transactions(&self) -> (r: bool)
        ensures
            r == self.high_value_spec(),
    {
        self.is_verified && self.verification_level >= 2
    }

    /// A human-readable description of the verification method.
    pub fn get_verification_description(&self) -> (s: String)
        ensures
            s@ == spec_verification_description(self.verification_method),
    {
        match self.verification_method {
            VerificationMethod::AdminApproval => String::from_str("Admin Approved"),
            VerificationMethod::EmailVerification => String::from_str("Email Verified"),
            VerificationMethod::SocialVerification => String::from_str("Social Media Verified"),
            VerificationMethod::DocumentUpload => String::from_str("Document Verified"),
            VerificationMethod::PhoneVerification => String::from_str("Phone Verified"),
        }
    }
}

/// Creates the compliance record of a freshly registered user: unverified, at
/// level 0, with nothing recorded yet.
pub fn register_kyc(user: IdentityKey) -> (r: SimpleKycAccount)
    ensures
        r.user == user,
        !r.is_verified,
        r.verification_method == VerificationMethod::AdminApproval,
        r.verified_at == 0,
        r.email is None,
        r.country is None,
        r.verification_level == 0,
        !r.valid_spec(),
{
    SimpleKycAccount {
        user,
        is_verified: false,
        verification_method: VerificationMethod::AdminApproval,
        verified_at: 0,
        email: None,
        country: None,
        verification_level: 0,
    }
}

/// Marks a user verified. Only the platform admin may verify; the level is
/// capped at 3; a rejected call leaves the record untouched.
pub fn verify_kyc(
    kyc_account: &mut SimpleKycAccount,
    config: &PlatformConfig,
    caller: &IdentityKey,
    verification_method: VerificationMethod,
    verification_level: u8,
    now: i64,
) -> (r: Result<(), RwaError>)
    ensures
        r is Err <==> config.admin@ != caller@,
        r == Err::<(), RwaError>(RwaError::UnauthorizedAccess) || r == Ok::<(), RwaError>(()),
        r is Err ==> *final(kyc_account) == *old(kyc_account),
        r is Ok ==> {
            &&& final(kyc_account).is_verified
            &&& final(kyc_account).verification_method == verification_method
            &&& final(kyc_account).verified_at == now
            &&& final(kyc_account).verification_level == if verification_level > 3 {
                3u8
            } else {
                verification_level
            }
            &&& final(kyc_account).user == old(kyc_account).user
            &&& final(kyc_account).email == old(kyc_account).email
            &&& final(kyc_account).country == old(kyc_account).country
            &&& final(kyc_account).valid_spec() == (verification_level >= 1)
        },
{
    if !(config.admin == *caller) {
        return Err(RwaError::UnauthorizedAccess);
    }
    kyc_account.is_verified = true;
    kyc_account.verification_method = verification_method;
    kyc_account.verified_at = now;
    kyc_account.verification_level = if verification_level > 3 {
        3
    } else {
        verification_level
    };
    Ok(())
}

/// A plain per-identity verification record kept alongside the minimal one:
/// a boolean status with registration and completion timestamps.
#[derive(Debug)]
pub struct KycAccount {
    /// The user this record describes.
    pub user: IdentityKey,
    /// Whether the user has been verified.
    pub is_verified: bool,
    /// When registration was initiated.
    pub registered_at: i64,
    /// When verification completed, if it has.
    pub verified_at: Option<i64>,
    /// Additional metadata for the verification process, if any.
    pub metadata: Option<String>,
}

impl KycAccount {
    /// The storage bytes the record reserves: an 8-byte discriminator, every
    /// field at its serialized width, and the length-prefixed metadata at its
    /// maximum length.
    pub const LEN: usize = 8  // discriminator
     + 32  // user
     + 1  // is_verified
     + 8  // registered_at
     + 9  // verified_at (optional)
     + 4  // metadata length prefix
     + 256;  // metadata (at most 256 bytes)

    /// Whether the record still awaits verification.
    pub fn is_pending_verification(&self) -> (r: bool)
        ensures
            r == (!self.is_verified && self.verified_at is None),
    {
        !self.is_verified && self.verified_at.is_none()
    }

    /// Whether the record has completed verification.
    pub fn is_verified(&self) -> (r: bool)
        ensures
            r == (self.is_verified && self.verified_at is Some),
    {
        self.is_verified && self.verified_at.is_some()
    }
}

} // verus!
