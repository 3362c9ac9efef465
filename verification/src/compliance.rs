//! The compliance capability: one interface over the minimal and the extended
//! compliance records, and the transaction-gating rule that consults it.

use vstd::prelude::*;

use crate::errors::RwaError;
use crate::kyc::SimpleKycAccount;

verus! {

/// The risk level derived from a compliance record; a High level blocks every
/// gated transaction.
#[derive(Clone, Copy, Debug, PartialEq, Eq, Structural)]
pub enum RiskLevel {
    Low,
    Medium,
    High,
}

/// The kinds of value-moving operations that consult a compliance record.
#[derive(Clone, Copy, Debug, PartialEq, Eq, Structural)]
pub enum TransactionType {
    Purchase,
    Redemption,
    Transfer,
}

/// What a compliance record offers to the gating rule, however the record is
/// stored. The minimal and the extended record both implement this; callers
/// depend on the interface only.
pub trait ComplianceCapability {
    /// Whether the record authorizes gated operations at all.
    spec fn valid_spec(&self) -> bool;

    /// Whether every compliance flag the platform requires is set.
    spec fn fully_compliant_spec(&self) -> bool;

    /// Whether the anti-money-laundering check has cleared.
    spec fn aml_cleared_spec(&self) -> bool;

    /// The risk level the record derives.
    spec fn risk_level_spec(&self) -> RiskLevel;

    /// Check whether the record authorizes gated operations.
    fn is_valid(&self) -> (r: bool)
        ensures
            r == self.valid_spec(),
    ;

    /// Check whether every required compliance flag is set.
    fn is_fully_compliant(&self) -> (r: bool)
        ensures
            r == self.fully_compliant_spec(),
    ;

    /// Check whether the anti-money-laundering flag has cleared.
    fn is_aml_cleared(&self) -> (r: bool)
        ensures
            r == self.aml_cleared_spec(),
    ;

    /// Derive the record's risk level.
    fn get_risk_level(&self) -> (r: RiskLevel)
        ensures
            r == self.risk_level_spec(),
    ;
}

/// The minimal record gates on its boolean verification and level alone: it
/// carries no flags or risk data, so validity stands in for full compliance
/// and for the AML check, and its risk is always Low.
impl ComplianceCapability for SimpleKycAccount {
    open spec fn valid_spec(&self) -> bool {
        self.is_verified && self.verification_level >= 1
    }

    open spec fn fully_compliant_spec(&self) -> bool {
        self.is_verified && self.verification_level >= 1
    }

    open spec fn aml_cleared_spec(&self) -> bool {
        self.is_verified && self.verification_level >= 1
    }

    open spec fn risk_level_spec(&self) -> RiskLevel {
        RiskLevel::Low
    }

    fn is_valid(&self) -> (r: bool) {
        self.is_verified && self.verification_level >= 1
    }

    fn is_fully_compliant(&self) -> (r: bool) {
        self.is_verified && self.verification_level >= 1
    }

    fn is_aml_cleared(&self) -> (r: bool) {
        self.is_verified && self.verification_level >= 1
    }

    fn get_risk_level(&self) -> (r: RiskLevel) {
        RiskLevel::Low
    }
}

/// What `validate_kyc_for_transaction` returns: the record must be valid; a
/// purchase or transfer demands full compliance while a redemption demands
/// only the AML flag; and a High risk level blocks everything.
pub open spec fn spec_validate_for_transaction(
    valid: bool,
    fully_compliant: bool,
    aml_cleared: bool,
    risk: RiskLevel,
    transaction_type: TransactionType,
) -> Result<(), RwaError> {
    if !valid {
        Err(RwaError::KycNotVerified)
    } else if (transaction_type == TransactionType::Purchase || transaction_type
        == TransactionType::Transfer) && !fully_compliant {
        Err(RwaError::KycComplianceIncomplete)
    } else if transaction_type == TransactionType::Redemption && !aml_cleared {
        Err(RwaError::KycComplianceIncomplete)
    } else if risk == RiskLevel::High {
        Err(RwaError::KycRiskLevelTooHigh)
    } else {
        Ok(())
    }
}

/// Decides whether a compliance record authorizes a transaction of the given
/// kind, and reports exactly which requirement failed when it does not.
pub fn validate_kyc_for_transaction<T: ComplianceCapability>(
    kyc_account: &T,
    transaction_type: TransactionType,
) -> (r: Result<(), RwaError>)
    ensures
        r == spec_validate_for_transaction(
            kyc_account.valid_spec(),
            kyc_account.fully_compliant_spec(),
            kyc_account.aml_cleared_spec(),
            kyc_account.risk_level_spec(),
            transaction_type,
        ),
{
    if !kyc_account.is_valid() {
        return Err(RwaError::KycNotVerified);
    }
    match transaction_type {
        TransactionType::Purchase | TransactionType::Transfer => {
            if !kyc_account.is_fully_compliant() {
                return Err(RwaError::KycComplianceIncomplete);
            }
        },
        TransactionType::Redemption => {
            if !kyc_account.is_aml_cleared() {
                return Err(RwaError::KycComplianceIncomplete);
            }
        },
    }
    if kyc_account.get_risk_level() == RiskLevel::High {
        return Err(RwaError::KycRiskLevelTooHigh);
    }
    Ok(())
}

} // verus!
