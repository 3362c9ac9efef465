//! The error taxonomy of the platform.

use vstd::prelude::*;

verus! {

/// Every operation of the platform fails with exactly one of these; an error
/// is terminal for the attempted operation and no state change is retained.
#[derive(Clone, Copy, Debug, PartialEq, Eq, Structural)]
pub enum RwaError {
    /// Invalid total fractions - must be greater than 0
    InvalidTotalFractions,
    /// Invalid price per fraction - must be greater than 0
    InvalidPrice,
    /// Invalid royalty fee - numerator must be <= denominator and denominator > 0
    InvalidRoyaltyFee,
    /// Sale is not active
    SaleNotActive,
    /// Invalid amount - must be greater than 0
    InvalidAmount,
    /// Insufficient fractions available for purchase
    InsufficientFractions,
    /// Compliance verification required to purchase fractions
    KycNotVerified,
    /// Insufficient tokens for redemption - must own all fractional tokens
    InsufficientTokens,
    /// Math overflow occurred during calculation
    MathOverflow,
    /// Unauthorized access - admin authority required
    UnauthorizedAccess,
    /// Vault is not ready for redemption - not all fractions sold
    VaultNotReadyForRedemption,
    /// Invalid vault state
    InvalidVaultState,
    /// Token account mismatch
    TokenAccountMismatch,
    /// Payment account insufficient funds
    InsufficientPaymentFunds,
    /// Platform authority mismatch
    PlatformAuthorityMismatch,
    /// Compliance account already exists
    KycAccountAlreadyExists,
    /// Compliance account not found
    KycAccountNotFound,
    /// Vault account already exists
    VaultAccountAlreadyExists,
    /// Fractional token mint already exists
    FractionalMintAlreadyExists,
    /// Invalid token program
    InvalidTokenProgram,
    /// Invalid token 2022 program
    InvalidToken2022Program,
    /// Invalid verification code
    InvalidVerificationCode,
    /// Invalid document data
    InvalidDocumentData,
    /// Invalid compliance provider
    InvalidKycProvider,
    /// Verification attempt limit exceeded
    KycVerificationLimitExceeded,
    /// Invalid verification ID
    InvalidVerificationId,
    /// Compliance refresh not allowed
    KycRefreshNotAllowed,
    /// Compliance incomplete for the requested transaction
    KycComplianceIncomplete,
    /// Compliance risk level too high
    KycRiskLevelTooHigh,
}

} // verus!
