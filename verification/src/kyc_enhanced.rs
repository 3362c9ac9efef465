//! The extended compliance record: a per-identity verification status
//! machine with a provider, an attempt counter, a risk score, compliance
//! flags, and an optional expiry, together with the provider configuration
//! record and the operations that advance the machine.
//!
//! The status machine: Pending moves to InProgress at initiation; a provider
//! result moves InProgress to Verified or Rejected (or Failed); Verified can
//! expire by time or be suspended by the admin; only Expired and Failed can
//! be refreshed back to Pending. Rejected and Suspended recover only through
//! an explicit admin decision.

use vstd::prelude::*;

use crate::compliance::{ComplianceCapability, RiskLevel};
use crate::errors::RwaError;
use crate::identity::IdentityKey;
use crate::text::{spec_decimal_int, spec_hex_bytes, format_timestamp, identity_hex_prefix};

verus! {

/// How many times one identity may attempt verification.
pub const MAX_VERIFICATION_ATTEMPTS: u8 = 3;

/// The lowest risk score that counts as High risk.
pub const HIGH_RISK_MIN_SCORE: u8 = 70;

/// The lowest risk score that counts as Medium risk.
pub const MEDIUM_RISK_MIN_SCORE: u8 = 40;

/// Seconds in a day, for expiration windows given in days.
pub const SECONDS_PER_DAY: i64 = 86400;

/// The states of the verification machine.
#[derive(Clone, Copy, Debug, PartialEq, Eq, Structural)]
pub enum KycStatus {
    /// Registered, verification not yet started.
    Pending,
    /// A provider session is under way.
    InProgress,
    /// The provider (or the admin) confirmed the identity.
    Verified,
    /// The provider (or the admin) rejected the identity.
    Rejected,
    /// A previously granted verification ran out by time.
    Expired,
    /// The admin suspended the record; the reason is kept as metadata.
    Suspended,
    /// The verification attempt failed before completion.
    Failed,
}

/// The verification providers the platform can work with.
#[derive(Clone, Copy, Debug, PartialEq, Eq, Structural)]
pub enum KycProvider {
    /// A platform admin decides by hand.
    Manual,
    Persona,
    Jumio,
    Onfido,
}

/// The words `provider_name` uses for each provider.
pub open spec fn spec_provider_name(provider: KycProvider) -> Seq<char> {
    match provider {
        KycProvider::Manual => "Manual"@,
        KycProvider::Persona => "Persona"@,
        KycProvider::Jumio => "Jumio"@,
        KycProvider::Onfido => "Onfido"@,
    }
}

impl KycProvider {
    /// The provider's name, used in verification identifiers and displays.
    pub fn name(&self) -> (s: String)
        ensures
            s@ == spec_provider_name(*self),
    {
        match self {
            KycProvider::Manual => String::from_str("Manual"),
            KycProvider::Persona => String::from_str("Persona"),
            KycProvider::Jumio => String::from_str("Jumio"),
            KycProvider::Onfido => String::from_str("Onfido"),
        }
    }
}

/// The per-check compliance flags a provider result reports. All of them are
/// required for full compliance; a redemption needs only `aml_cleared`.
#[derive(Clone, Copy, Debug, PartialEq, Eq, Structural)]
pub struct ComplianceFlags {
    /// The identity documents checked out.
    pub identity_verified: bool,
    /// The anti-money-laundering screening cleared.
    pub aml_cleared: bool,
    /// The sanctions-list screening cleared.
    pub sanctions_cleared: bool,
    /// The residence address was confirmed.
    pub address_verified: bool,
}

/// The flags of a record that has passed no checks: all false.
pub open spec fn spec_default_flags() -> ComplianceFlags {
    ComplianceFlags {
        identity_verified: false,
        aml_cleared: false,
        sanctions_cleared: false,
        address_verified: false,
    }
}

impl Default for ComplianceFlags {
    /// A fresh record has passed no checks.
    fn default() -> (r: ComplianceFlags)
        ensures
            r == spec_default_flags(),
    {
        ComplianceFlags {
            identity_verified: false,
            aml_cleared: false,
            sanctions_cleared: false,
            address_verified: false,
        }
    }
}

impl ComplianceFlags {
    /// Whether every flag is set.
    pub open spec fn all_set_spec(&self) -> bool {
        self.identity_verified && self.aml_cleared && self.sanctions_cleared
            && self.address_verified
    }
}

/// What the platform demands of verifications, configured by the admin.
#[derive(Clone, Copy, Debug, PartialEq, Eq, Structural)]
pub struct KycRequirements {
    /// How many days a granted verification lasts; None means it does not
    /// expire.
    pub expiration_days: Option<u16>,
}

/// The provider configuration: which providers are active, which one is the
/// default, and what the platform requires. Mutated only by the admin.
#[derive(Debug)]
pub struct KycProviderConfig {
    /// The admin who may change this record and decide manual verifications.
    pub admin: IdentityKey,
    /// The providers a user may initiate verification with.
    pub active_providers: Vec<KycProvider>,
    /// The provider used when a refresh names none.
    pub default_provider: KycProvider,
    /// What the platform requires of verifications.
    pub requirements: KycRequirements,
    /// Last update timestamp.
    pub updated_at: i64,
    /// Creation timestamp.
    pub created_at: i64,
}

impl KycProviderConfig {
    /// The storage bytes the record reserves: an 8-byte discriminator, every
    /// field at its serialized width, and the length-prefixed provider list
    /// at its maximum length.
    pub const LEN: usize = 8  // discriminator
     + 32  // admin
     + 4  // active_providers length prefix
     + 16  // active_providers (at most 16 entries)
     + 1  // default_provider
     + 3  // requirements: expiration_days (optional)
     + 8  // updated_at
     + 8;  // created_at

    /// Creates the provider configuration in its initial state: no active
    /// providers yet, manual decisions as the default, and no expiration
    /// window; `update_kyc_provider_config` is its only mutator afterwards.
    pub fn new(admin: IdentityKey, now: i64) -> (r: KycProviderConfig)
        ensures
            r.admin == admin,
            r.active_providers@ == Seq::<KycProvider>::empty(),
            r.default_provider == KycProvider::Manual,
            r.requirements.expiration_days is None,
            r.updated_at == now,
            r.created_at == now,
    {
        KycProviderConfig {
            admin,
            active_providers: Vec::new(),
            default_provider: KycProvider::Manual,
            requirements: KycRequirements { expiration_days: None },
            updated_at: now,
            created_at: now,
        }
    }
}

/// The extended per-identity compliance record.
#[derive(Debug)]
pub struct EnhancedKycAccount {
    /// The user this record describes.
    pub user: IdentityKey,
    /// Where the record stands in the verification machine.
    pub status: KycStatus,
    /// The provider handling (or having handled) the verification.
    pub provider: KycProvider,
    /// When the current verification was initiated.
    pub registered_at: i64,
    /// When verification was granted, if it was.
    pub verified_at: Option<i64>,
    /// When a granted verification runs out, if a window is configured.
    pub expires_at: Option<i64>,
    /// How many verification attempts the identity has used.
    pub verification_attempts: u8,
    /// When the last attempt was initiated, if any.
    pub last_attempt_at: Option<i64>,
    /// The provider's risk score, 0 to 100, if reported.
    pub risk_score: Option<u8>,
    /// The per-check compliance flags the provider reported.
    pub compliance_flags: ComplianceFlags,
    /// The identifier of the provider session opened at initiation.
    pub provider_verification_id: Option<String>,
    /// Free-form provider metadata, or the admin's suspension reason.
    pub provider_metadata: Option<String>,
}

impl EnhancedKycAccount {
    /// The storage bytes the record reserves: an 8-byte discriminator, every
    /// field at its serialized width, and the length-prefixed strings at
    /// their maximum lengths.
    pub const LEN: usize = 8  // discriminator
     + 32  // user
     + 1  // status
     + 1  // provider
     + 8  // registered_at
     + 9  // verified_at (optional)
     + 9  // expires_at (optional)
     + 1  // verification_attempts
     + 9  // last_attempt_at (optional)
     + 2  // risk_score (optional)
     + 4  // compliance_flags
     + 4  // provider_verification_id length prefix
     + 64  // provider_verification_id (at most 64 bytes)
     + 4  // provider_metadata length prefix
     + 256;  // provider_metadata (at most 256 bytes)

    /// Creates the record of a user who has registered but attempted
    /// nothing: Pending, no attempts used, nothing reported.
    pub fn new(user: IdentityKey) -> (r: EnhancedKycAccount)
        ensures
            r.user == user,
            r.status == KycStatus::Pending,
            r.provider == KycProvider::Manual,
            r.registered_at == 0,
            r.verified_at is None,
            r.expires_at is None,
            r.verification_attempts == 0,
            r.last_attempt_at is None,
            r.risk_score is None,
            r.compliance_flags == spec_default_flags(),
            r.provider_verification_id is None,
            r.provider_metadata is None,
    {
        EnhancedKycAccount {
            user,
            status: KycStatus::Pending,
            provider: KycProvider::Manual,
            registered_at: 0,
            verified_at: None,
            expires_at: None,
            verification_attempts: 0,
            last_attempt_at: None,
            risk_score: None,
            compliance_flags: ComplianceFlags::default(),
            provider_verification_id: None,
            provider_metadata: None,
        }
    }

    /// Whether the identity may still attempt verification.
    pub fn can_attempt_verification(&self) -> (r: bool)
        ensures
            r == (self.verification_attempts < MAX_VERIFICATION_ATTEMPTS),
    {
        self.verification_attempts < MAX_VERIFICATION_ATTEMPTS
    }
}

/// The risk level a record derives from its score: no score is Low risk, and
/// the two named thresholds begin Medium and High.
pub open spec fn spec_risk_level(risk_score: Option<u8>) -> RiskLevel {
    match risk_score {
        None => RiskLevel::Low,
        Some(score) => if score >= HIGH_RISK_MIN_SCORE {
            RiskLevel::High
        } else if score >= MEDIUM_RISK_MIN_SCORE {
            RiskLevel::Medium
        } else {
            RiskLevel::Low
        },
    }
}

/// The extended record gates on its status machine: only Verified status is
/// valid, full compliance demands every reported flag, and the risk level
/// derives from the provider's score.
impl ComplianceCapability for EnhancedKycAccount {
    open spec fn valid_spec(&self) -> bool {
        self.status == KycStatus::Verified
    }

    open spec fn fully_compliant_spec(&self) -> bool {
        self.compliance_flags.all_set_spec()
    }

    open spec fn aml_cleared_spec(&self) -> bool {
        self.compliance_flags.aml_cleared
    }

    open spec fn risk_level_spec(&self) -> RiskLevel {
        spec_risk_level(self.risk_score)
    }

    fn is_valid(&self) -> (r: bool) {
        self.status == KycStatus::Verified
    }

    fn is_fully_compliant(&self) -> (r: bool) {
        self.compliance_flags.identity_verified && self.compliance_flags.aml_cleared
            && self.compliance_flags.sanctions_cleared && self.compliance_flags.address_verified
    }

    fn is_aml_cleared(&self) -> (r: bool) {
        self.compliance_flags.aml_cleared
    }

    fn get_risk_level(&self) -> (r: RiskLevel) {
        match self.risk_score {
            None => RiskLevel::Low,
            Some(score) => if score >= HIGH_RISK_MIN_SCORE {
                RiskLevel::High
            } else if score >= MEDIUM_RISK_MIN_SCORE {
                RiskLevel::Medium
            } else {
                RiskLevel::Low
            },
        }
    }
}

/// The deterministic identifier of a verification session: the provider's
/// name, the first four bytes of the user's identity in hexadecimal, and the
/// initiation timestamp, joined by underscores.
pub open spec fn spec_verification_id(provider: KycProvider, user: IdentityKey, now: i64) -> Seq<
    char,
> {
    spec_provider_name(provider) + "_"@ + spec_hex_bytes(user@.take(4)) + "_"@ + spec_decimal_int(
        now as int,
    )
}

/// Builds the deterministic verification identifier for a session.
fn build_verification_id(provider: KycProvider, user: &IdentityKey, now: i64) -> (s: String)
    ensures
        s@ == spec_verification_id(provider, *user, now),
{
    let mut id = provider.name();
    id.append("_");
    let hex = identity_hex_prefix(user, 4);
    id.append(hex.as_str());
    id.append("_");
    let stamp = format_timestamp(now);
    id.append(stamp.as_str());
    id
}

/// Whether a record's stored verification identifier is exactly `id`.
pub open spec fn spec_id_matches(account: EnhancedKycAccount, id: Seq<char>) -> bool {
    match account.provider_verification_id {
        Some(stored) => stored@ == id,
        None => false,
    }
}

/// Starts a verification session with a provider. The provider must be
/// active and the identity must have attempts left; then the record moves to
/// InProgress under the chosen provider, the attempt is counted, the flags
/// reset, and a deterministic session identifier is recorded. The
/// environment opens the provider session (and contacts the user) outside
/// this record.
pub fn initiate_kyc_verification(
    kyc_account: &mut EnhancedKycAccount,
    provider_config: &KycProviderConfig,
    user: IdentityKey,
    provider: KycProvider,
    now: i64,
) -> (r: Result<(), RwaError>)
    ensures
        r == if !provider_config.active_providers@.contains(provider) {
            Err::<(), RwaError>(RwaError::InvalidKycProvider)
        } else if old(kyc_account).verification_attempts >= MAX_VERIFICATION_ATTEMPTS {
            Err::<(), RwaError>(RwaError::KycVerificationLimitExceeded)
        } else {
            Ok::<(), RwaError>(())
        },
        r is Err ==> *final(kyc_account) == *old(kyc_account),
        r is Ok ==> {
            &&& final(kyc_account).user == user
            &&& final(kyc_account).status == KycStatus::InProgress
            &&& final(kyc_account).provider == provider
            &&& final(kyc_account).registered_at == now
            &&& final(kyc_account).verification_attempts == old(
                kyc_account,
            ).verification_attempts + 1
            &&& final(kyc_account).verification_attempts <= MAX_VERIFICATION_ATTEMPTS
            &&& final(kyc_account).last_attempt_at == Some(now)
            &&& final(kyc_account).compliance_flags == spec_default_flags()
            &&& spec_id_matches(*final(kyc_account), spec_verification_id(provider, user, now))
            &&& final(kyc_account).verified_at == old(kyc_account).verified_at
            &&& final(kyc_account).expires_at == old(kyc_account).expires_at
            &&& final(kyc_account).risk_score == old(kyc_account).risk_score
            &&& final(kyc_account).provider_metadata == old(kyc_account).provider_metadata
        },
{
    if !provider_is_active(provider_config, provider) {
        return Err(RwaError::InvalidKycProvider);
    }
    if !kyc_account.can_attempt_verification() {
        return Err(RwaError::KycVerificationLimitExceeded);
    }
    kyc_account.user = user;
    kyc_account.status = KycStatus::InProgress;
    kyc_account.provider = provider;
    kyc_account.registered_at = now;
    kyc_account.verification_attempts = kyc_account.verification_attempts + 1;
    kyc_account.last_attempt_at = Some(now);
    kyc_account.compliance_flags = ComplianceFlags::default();
    kyc_account.provider_verification_id = Some(build_verification_id(provider, &user, now));
    Ok(())
}

/// Whether the configuration lists the provider as active.
fn provider_is_active(provider_config: &KycProviderConfig, provider: KycProvider) -> (r: bool)
    ensures
        r == provider_config.active_providers@.contains(provider),
{
    let mut i: usize = 0;
    while i < provider_config.active_providers.len()
        invariant
            i <= provider_config.active_providers@.len(),
            forall|j: int| 0 <= j < i ==> provider_config.active_providers@[j] != provider,
        decreases provider_config.active_providers@.len() - i,
    {
        if provider_config.active_providers[i] == provider {
            return true;
        }
        i += 1;
    }
    false
}

/// Records a provider's verification result. The caller must be the admin
/// behind the provider configuration and the session identifier must match
/// the one stored at initiation; then the reported status, risk score, flags
/// and metadata overwrite the record, and a Verified result stamps the grant
/// time and, when a window is configured, the expiry.
pub fn process_kyc_result(
    kyc_account: &mut EnhancedKycAccount,
    provider_config: &KycProviderConfig,
    caller: &IdentityKey,
    verification_id: &String,
    status: KycStatus,
    risk_score: Option<u8>,
    compliance_data: ComplianceFlags,
    provider_metadata: Option<String>,
    now: i64,
) -> (r: Result<(), RwaError>)
    requires
        provider_config.requirements.expiration_days matches Some(days) ==> now + days as int
            * SECONDS_PER_DAY as int <= i64::MAX,
    ensures
        r == if provider_config.admin@ != caller@ {
            Err::<(), RwaError>(RwaError::UnauthorizedAccess)
        } else if !spec_id_matches(*old(kyc_account), verification_id@) {
            Err::<(), RwaError>(RwaError::InvalidVerificationId)
        } else {
            Ok::<(), RwaError>(())
        },
        r is Err ==> *final(kyc_account) == *old(kyc_account),
        r is Ok ==> {
            &&& final(kyc_account).status == status
            &&& final(kyc_account).risk_score == risk_score
            &&& final(kyc_account).compliance_flags == compliance_data
            &&& final(kyc_account).provider_metadata == provider_metadata
            &&& final(kyc_account).verified_at == if status == KycStatus::Verified {
                Some(now)
            } else {
                old(kyc_account).verified_at
            }
            &&& final(kyc_account).expires_at == if status == KycStatus::Verified
                && provider_config.requirements.expiration_days is Some {
                Some(
                    (now + provider_config.requirements.expiration_days->0 as i64
                        * SECONDS_PER_DAY) as i64,
                )
            } else {
                old(kyc_account).expires_at
            }
            &&& final(kyc_account).user == old(kyc_account).user
            &&& final(kyc_account).provider == old(kyc_account).provider
            &&& final(kyc_account).registered_at == old(kyc_account).registered_at
            &&& final(kyc_account).verification_attempts == old(
                kyc_account,
            ).verification_attempts
            &&& final(kyc_account).last_attempt_at == old(kyc_account).last_attempt_at
            &&& final(kyc_account).provider_verification_id == old(
                kyc_account,
            ).provider_verification_id
        },
{
    if !(provider_config.admin == *caller) {
        return Err(RwaError::UnauthorizedAccess);
    }
    let id_matches = match &kyc_account.provider_verification_id {
        Some(stored) => *stored == *verification_id,
        None => false,
    };
    if !id_matches {
        return Err(RwaError::InvalidVerificationId);
    }
    kyc_account.status = status;
    kyc_account.risk_score = risk_score;
    kyc_account.compliance_flags = compliance_data;
    kyc_account.provider_metadata = provider_metadata;
    if status == KycStatus::Verified {
        kyc_account.verified_at = Some(now);
        match provider_config.requirements.expiration_days {
            Some(days) => {
                kyc_account.expires_at = Some(now + days as i64 * SECONDS_PER_DAY);
            },
            None => {},
        }
    }
    Ok(())
}

/// Verifies or rejects an identity by the admin's own decision, without a
/// provider session: the provider becomes Manual, the status follows the
/// boolean directly, and a grant stamps the time and configured expiry, as a
/// provider result would.
pub fn manual_kyc_verification(
    kyc_account: &mut EnhancedKycAccount,
    provider_config: &KycProviderConfig,
    caller: &IdentityKey,
    is_verified: bool,
    risk_score: Option<u8>,
    compliance_data: ComplianceFlags,
    notes: Option<String>,
    now: i64,
) -> (r: Result<(), RwaError>)
    requires
        provider_config.requirements.expiration_days matches Some(days) ==> now + days as int
            * SECONDS_PER_DAY as int <= i64::MAX,
    ensures
        r == if provider_config.admin@ != caller@ {
            Err::<(), RwaError>(RwaError::UnauthorizedAccess)
        } else {
            Ok::<(), RwaError>(())
        },
        r is Err ==> *final(kyc_account) == *old(kyc_account),
        r is Ok ==> {
            &&& final(kyc_account).status == if is_verified {
                KycStatus::Verified
            } else {
                KycStatus::Rejected
            }
            &&& final(kyc_account).provider == KycProvider::Manual
            &&& final(kyc_account).risk_score == risk_score
            &&& final(kyc_account).compliance_flags == compliance_data
            &&& final(kyc_account).provider_metadata == notes
            &&& final(kyc_account).verified_at == if is_verified {
                Some(now)
            } else {
                old(kyc_account).verified_at
            }
            &&& final(kyc_account).expires_at == if is_verified
                && provider_config.requirements.expiration_days is Some {
                Some(
                    (now + provider_config.requirements.expiration_days->0 as i64
                        * SECONDS_PER_DAY) as i64,
                )
            } else {
                old(kyc_account).expires_at
            }
            &&& final(kyc_account).user == old(kyc_account).user
            &&& final(kyc_account).registered_at == old(kyc_account).registered_at
            &&& final(kyc_account).verification_attempts == old(
                kyc_account,
            ).verification_attempts
            &&& final(kyc_account).last_attempt_at == old(kyc_account).last_attempt_at
            &&& final(kyc_account).provider_verification_id == old(
                kyc_account,
            ).provider_verification_id
        },
{
    if !(provider_config.admin == *caller) {
        return Err(RwaError::UnauthorizedAccess);
    }
    kyc_account.status = if is_verified {
        KycStatus::Verified
    } else {
        KycStatus::Rejected
    };
    kyc_account.provider = KycProvider::Manual;
    kyc_account.risk_score = risk_score;
    kyc_account.compliance_flags = compliance_data;
    kyc_account.provider_metadata = notes;
    if is_verified {
        kyc_account.verified_at = Some(now);
        match provider_config.requirements.expiration_days {
            Some(days) => {
                kyc_account.expires_at = Some(now + days as i64 * SECONDS_PER_DAY);
            },
            None => {},
        }
    }
    Ok(())
}

/// Suspends a record by admin action; the reason is kept as metadata for
/// audit. Suspension does not recover on its own.
pub fn suspend_kyc_verification(
    kyc_account: &mut EnhancedKycAccount,
    provider_config: &KycProviderConfig,
    caller: &IdentityKey,
    reason: String,
) -> (r: Result<(), RwaError>)
    ensures
        r == if provider_config.admin@ != caller@ {
            Err::<(), RwaError>(RwaError::UnauthorizedAccess)
        } else {
            Ok::<(), RwaError>(())
        },
        r is Err ==> *final(kyc_account) == *old(kyc_account),
        r is Ok ==> {
            &&& final(kyc_account).status == KycStatus::Suspended
            &&& final(kyc_account).provider_metadata == Some(reason)
            &&& final(kyc_account).user == old(kyc_account).user
            &&& final(kyc_account).provider == old(kyc_account).provider
            &&& final(kyc_account).registered_at == old(kyc_account).registered_at
            &&& final(kyc_account).verified_at == old(kyc_account).verified_at
            &&& final(kyc_account).expires_at == old(kyc_account).expires_at
            &&& final(kyc_account).verification_attempts == old(
                kyc_account,
            ).verification_attempts
            &&& final(kyc_account).last_attempt_at == old(kyc_account).last_attempt_at
            &&& final(kyc_account).risk_score == old(kyc_account).risk_score
            &&& final(kyc_account).compliance_flags == old(kyc_account).compliance_flags
            &&& final(kyc_account).provider_verification_id == old(
                kyc_account,
            ).provider_verification_id
        },
{
    if !(provider_config.admin == *caller) {
        return Err(RwaError::UnauthorizedAccess);
    }
    kyc_account.status = KycStatus::Suspended;
    kyc_account.provider_metadata = Some(reason);
    Ok(())
}

/// Refreshes an Expired or Failed record back to Pending under the chosen
/// (else the default) provider, clearing the grant, expiry, risk score,
/// flags and metadata; the attempt counter and session identifier stay. A
/// record in any other state, or one out of attempts, does not refresh.
pub fn refresh_kyc_verification(
    kyc_account: &mut EnhancedKycAccount,
    provider_config: &KycProviderConfig,
    provider: Option<KycProvider>,
) -> (r: Result<(), RwaError>)
    ensures
        r == if !(old(kyc_account).status == KycStatus::Expired || old(kyc_account).status
            == KycStatus::Failed) {
            Err::<(), RwaError>(RwaError::KycRefreshNotAllowed)
        } else if old(kyc_account).verification_attempts >= MAX_VERIFICATION_ATTEMPTS {
            Err::<(), RwaError>(RwaError::KycVerificationLimitExceeded)
        } else {
            Ok::<(), RwaError>(())
        },
        r is Err ==> *final(kyc_account) == *old(kyc_account),
        r is Ok ==> old(kyc_account).status == KycStatus::Expired || old(kyc_account).status
            == KycStatus::Failed,
        r is Ok ==> {
            &&& final(kyc_account).status == KycStatus::Pending
            &&& final(kyc_account).provider == (match provider {
                Some(chosen) => chosen,
                None => provider_config.default_provider,
            })
            &&& final(kyc_account).verified_at is None
            &&& final(kyc_account).expires_at is None
            &&& final(kyc_account).risk_score is None
            &&& final(kyc_account).compliance_flags == spec_default_flags()
            &&& final(kyc_account).provider_metadata is None
            &&& final(kyc_account).user == old(kyc_account).user
            &&& final(kyc_account).registered_at == old(kyc_account).registered_at
            &&& final(kyc_account).verification_attempts == old(
                kyc_account,
            ).verification_attempts
            &&& final(kyc_account).last_attempt_at == old(kyc_account).last_attempt_at
            &&& final(kyc_account).provider_verification_id == old(
                kyc_account,
            ).provider_verification_id
        },
{
    if !(kyc_account.status == KycStatus::Expired || kyc_account.status == KycStatus::Failed) {
        return Err(RwaError::KycRefreshNotAllowed);
    }
    if !kyc_account.can_attempt_verification() {
        return Err(RwaError::KycVerificationLimitExceeded);
    }
    let selected_provider = match provider {
        Some(chosen) => chosen,
        None => provider_config.default_provider,
    };
    kyc_account.status = KycStatus::Pending;
    kyc_account.provider = selected_provider;
    kyc_account.verified_at = None;
    kyc_account.expires_at = None;
    kyc_account.risk_score = None;
    kyc_account.compliance_flags = ComplianceFlags::default();
    kyc_account.provider_metadata = None;
    Ok(())
}

/// Replaces the provider configuration's active set, default provider and
/// requirements. Only the admin may write; a rejected update leaves the
/// record untouched.
pub fn update_kyc_provider_config(
    provider_config: &mut KycProviderConfig,
    caller: &IdentityKey,
    active_providers: Vec<KycProvider>,
    default_provider: KycProvider,
    requirements: KycRequirements,
    now: i64,
) -> (r: Result<(), RwaError>)
    ensures
        r == if old(provider_config).admin@ != caller@ {
            Err::<(), RwaError>(RwaError::UnauthorizedAccess)
        } else {
            Ok::<(), RwaError>(())
        },
        r is Err ==> *final(provider_config) == *old(provider_config),
        r is Ok ==> {
            &&& final(provider_config).active_providers@ == active_providers@
            &&& final(provider_config).default_provider == default_provider
            &&& final(provider_config).requirements == requirements
            &&& final(provider_config).updated_at == now
            &&& final(provider_config).admin == old(provider_config).admin
            &&& final(provider_config).created_at == old(provider_config).created_at
        },
{
    if !(provider_config.admin == *caller) {
        return Err(RwaError::UnauthorizedAccess);
    }
    provider_config.active_providers = active_providers;
    provider_config.default_provider = default_provider;
    provider_config.requirements = requirements;
    provider_config.updated_at = now;
    Ok(())
}

/// Law: a record whose status is anything but Verified never authorizes a
/// gated operation, whatever its flags, risk score, or the transaction kind.
pub proof fn lemma_unverified_never_authorizes(
    record: EnhancedKycAccount,
    transaction_type: crate::compliance::TransactionType,
)
    requires
        record.status != KycStatus::Verified,
    ensures
        crate::compliance::spec_validate_for_transaction(
            record.valid_spec(),
            record.fully_compliant_spec(),
            record.aml_cleared_spec(),
            record.risk_level_spec(),
            transaction_type,
        ) == Err::<(), RwaError>(RwaError::KycNotVerified),
{
}

} // verus!
