//! The platform configuration: a singleton governance record holding the
//! admin identity, the fee schedule, and the investment bounds. It has no
//! state machine; initialization and one admin-gated update are its only
//! writers.

use vstd::prelude::*;

use crate::errors::RwaError;
use crate::identity::IdentityKey;
use crate::math::{spec_basis_point_fee, FULL_BASIS_POINTS};

verus! {

/// Platform-wide settings. The fee schedule is stored twice: as a
/// numerator/denominator pair (read by the purchase flow) and as a
/// basis-point pair kept for compatibility; a well-formed record keeps the
/// basis-point pair covering the full 10000 basis points.
#[derive(Debug)]
pub struct PlatformConfig {
    /// Platform admin authority.
    pub admin: IdentityKey,
    /// Platform fee share in basis points.
    pub platform_fee_bps: u16,
    /// Creator fee share in basis points.
    pub creator_fee_bps: u16,
    /// Default royalty fee for fractional tokens, in basis points.
    pub default_royalty_bps: u16,
    /// Platform treasury for collecting fees.
    pub treasury: IdentityKey,
    /// Whether the platform is currently active.
    pub is_active: bool,
    /// When the platform was initialized.
    pub initialized_at: i64,
    /// Platform fee numerator, the pair the purchase flow reads.
    pub platform_fee_numerator: u16,
    /// Platform fee denominator, the pair the purchase flow reads.
    pub platform_fee_denominator: u16,
    /// Minimum allowed investment amount.
    pub min_investment_amount: u64,
    /// Maximum allowed investment amount.
    pub max_investment_amount: u64,
    /// Last update timestamp.
    pub updated_at: i64,
    /// Creation timestamp.
    pub created_at: i64,
}

impl PlatformConfig {
    /// The storage bytes the record reserves: an 8-byte discriminator followed
    /// by every field at its serialized width.
    pub const LEN: usize = 8  // discriminator
     + 32  // admin
     + 2  // platform_fee_bps
     + 2  // creator_fee_bps
     + 2  // default_royalty_bps
     + 32  // treasury
     + 1  // is_active
     + 8  // initialized_at
     + 2  // platform_fee_numerator
     + 2  // platform_fee_denominator
     + 8  // min_investment_amount
     + 8  // max_investment_amount
     + 8  // updated_at
     + 8;  // created_at

    /// The record's invariant: the fee fraction is proper, the basis-point
    /// pair covers the full 10000 basis points, and the investment bounds
    /// form a non-empty range.
    pub open spec fn well_formed(&self) -> bool {
        &&& self.platform_fee_denominator > 0
        &&& self.platform_fee_numerator <= self.platform_fee_denominator
        &&& self.platform_fee_bps + self.creator_fee_bps == 10000
        &&& self.min_investment_amount > 0
        &&& self.max_investment_amount > self.min_investment_amount
    }

    /// True exactly when the platform and creator basis-point shares sum to
    /// 100%.
    pub fn validate_fee_structure(&self) -> (r: bool)
        ensures
            r == (self.platform_fee_bps + self.creator_fee_bps == 10000),
    {
        self.platform_fee_bps as u32 + self.creator_fee_bps as u32 == 10000
    }

    /// The platform's basis-point fee on `total_amount`, flooring;
    /// `MathOverflow` when the product does not fit in 64 bits.
    pub fn calculate_platform_fee(&self, total_amount: u64) -> (r: Result<u64, RwaError>)
        ensures
            r == spec_basis_point_fee(total_amount, self.platform_fee_bps),
    {
        match total_amount.checked_mul(self.platform_fee_bps as u64) {
            None => Err(RwaError::MathOverflow),
            Some(product) => Ok(product / (FULL_BASIS_POINTS as u64)),
        }
    }

    /// The creator's basis-point fee on `total_amount`, flooring;
    /// `MathOverflow` when the product does not fit in 64 bits.
    pub fn calculate_creator_fee(&self, total_amount: u64) -> (r: Result<u64, RwaError>)
        ensures
            r == spec_basis_point_fee(total_amount, self.creator_fee_bps),
    {
        match total_amount.checked_mul(self.creator_fee_bps as u64) {
            None => Err(RwaError::MathOverflow),
            Some(product) => Ok(product / (FULL_BASIS_POINTS as u64)),
        }
    }
}

/// Creates the platform configuration in its initial state: a 5/100 fee in
/// favor of the platform (mirrored as 500/9500 basis points), an investment
/// range of 1 to 10000, the caller as admin, and an unclaimed treasury slot.
pub fn initialize(admin: IdentityKey, now: i64) -> (r: PlatformConfig)
    ensures
        r.admin == admin,
        r.platform_fee_numerator == 5,
        r.platform_fee_denominator == 100,
        r.platform_fee_bps == 500,
        r.creator_fee_bps == 9500,
        r.default_royalty_bps == 0,
        r.treasury@ == Seq::new(32, |i: int| 0u8),
        r.is_active,
        r.min_investment_amount == 1,
        r.max_investment_amount == 10000,
        r.initialized_at == now,
        r.updated_at == now,
        r.created_at == now,
        r.well_formed(),
{
    PlatformConfig {
        admin,
        platform_fee_bps: 500,
        creator_fee_bps: 9500,
        default_royalty_bps: 0,
        treasury: IdentityKey::zero(),
        is_active: true,
        initialized_at: now,
        platform_fee_numerator: 5,
        platform_fee_denominator: 100,
        min_investment_amount: 1,
        max_investment_amount: 10000,
        updated_at: now,
        created_at: now,
    }
}

/// What `update_platform_config` does to the record when the caller is (or is
/// not) the admin: the new fee fraction must be proper and the new investment
/// bounds a non-empty range, or the record stays as it was.
pub open spec fn spec_update_platform_config(
    config: PlatformConfig,
    caller_is_admin: bool,
    platform_fee_numerator: u16,
    platform_fee_denominator: u16,
    min_investment_amount: u64,
    max_investment_amount: u64,
    now: i64,
) -> Result<PlatformConfig, RwaError> {
    if !caller_is_admin {
        Err(RwaError::UnauthorizedAccess)
    } else if platform_fee_denominator == 0 {
        Err(RwaError::InvalidPrice)
    } else if platform_fee_numerator > platform_fee_denominator {
        Err(RwaError::InvalidPrice)
    } else if min_investment_amount == 0 {
        Err(RwaError::InvalidAmount)
    } else if max_investment_amount <= min_investment_amount {
        Err(RwaError::InvalidAmount)
    } else {
        Ok(
            PlatformConfig {
                platform_fee_numerator,
                platform_fee_denominator,
                min_investment_amount,
                max_investment_amount,
                updated_at: now,
                ..config
            },
        )
    }
}

/// Updates the fee fraction and investment bounds. Only the admin may write;
/// a rejected update leaves the record untouched and reports exactly why.
pub fn update_platform_config(
    config: &mut PlatformConfig,
    caller: &IdentityKey,
    platform_fee_numerator: u16,
    platform_fee_denominator: u16,
    min_investment_amount: u64,
    max_investment_amount: u64,
    now: i64,
) -> (r: Result<(), RwaError>)
    ensures
        ({
            let outcome = spec_update_platform_config(
                *old(config),
                old(config).admin@ == caller@,
                platform_fee_numerator,
                platform_fee_denominator,
                min_investment_amount,
                max_investment_amount,
                now,
            );
            match r {
                Ok(u) => outcome == Ok::<PlatformConfig, RwaError>(*final(config)),
                Err(e) => outcome == Err::<PlatformConfig, RwaError>(e) && *final(config) == *old(
                    config,
                ),
            }
        }),
        old(config).well_formed() ==> final(config).well_formed(),
{
    if !(config.admin == *caller) {
        return Err(RwaError::UnauthorizedAccess);
    }
    if platform_fee_denominator == 0 {
        return Err(RwaError::InvalidPrice);
    }
    if platform_fee_numerator > platform_fee_denominator {
        return Err(RwaError::InvalidPrice);
    }
    if min_investment_amount == 0 {
        return Err(RwaError::InvalidAmount);
    }
    if max_investment_amount <= min_investment_amount {
        return Err(RwaError::InvalidAmount);
    }
    config.platform_fee_numerator = platform_fee_numerator;
    config.platform_fee_denominator = platform_fee_denominator;
    config.min_investment_amount = min_investment_amount;
    config.max_investment_amount = max_investment_amount;
    config.updated_at = now;
    Ok(())
}

} // verus!
