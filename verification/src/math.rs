//! Fee and arithmetic utilities: overflow-checked multiply/divide helpers,
//! basis-point fee splits, and royalty-fee validation.
//!
//! All helpers are pure integer arithmetic; any computation that would wrap a
//! 64-bit unsigned integer fails with `MathOverflow` instead.

use vstd::prelude::*;

use crate::errors::RwaError;

verus! {

/// One hundred percent expressed in basis points.
pub const FULL_BASIS_POINTS: u16 = 10000;

/// What `calculate_royalty_amount` returns: floor(amount * numerator /
/// denominator), or `MathOverflow` when the product does not fit in 64 bits or
/// the denominator is zero.
pub open spec fn spec_royalty_amount(amount: u64, numerator: u16, denominator: u16) -> Result<
    u64,
    RwaError,
> {
    if amount * numerator > u64::MAX {
        Err(RwaError::MathOverflow)
    } else if denominator == 0 {
        Err(RwaError::MathOverflow)
    } else {
        Ok(((amount * numerator) / (denominator as int)) as u64)
    }
}

/// The royalty retained from a transfer of `amount` under the fee
/// `numerator / denominator`, flooring; the division never rounds up.
pub fn calculate_royalty_amount(amount: u64, royalty_numerator: u16, royalty_denominator: u16) -> (r:
    Result<u64, RwaError>)
    ensures
        r == spec_royalty_amount(amount, royalty_numerator, royalty_denominator),
{
    match amount.checked_mul(royalty_numerator as u64) {
        None => Err(RwaError::MathOverflow),
        Some(product) => match product.checked_div(royalty_denominator as u64) {
            None => Err(RwaError::MathOverflow),
            Some(quotient) => Ok(quotient),
        },
    }
}

/// What `calculate_net_amount` returns: the amount minus its royalty, or
/// `MathOverflow` when the royalty cannot be computed or exceeds the amount
/// (a fee above 100% of its denominator).
pub open spec fn spec_net_amount(amount: u64, numerator: u16, denominator: u16) -> Result<
    u64,
    RwaError,
> {
    match spec_royalty_amount(amount, numerator, denominator) {
        Err(e) => Err(e),
        Ok(royalty) => if royalty > amount {
            Err(RwaError::MathOverflow)
        } else {
            Ok((amount - royalty) as u64)
        },
    }
}

/// The amount a recipient keeps after the royalty `numerator / denominator`
/// is deducted.
pub fn calculate_net_amount(amount: u64, royalty_numerator: u16, royalty_denominator: u16) -> (r:
    Result<u64, RwaError>)
    ensures
        r == spec_net_amount(amount, royalty_numerator, royalty_denominator),
{
    let royalty_amount = match calculate_royalty_amount(
        amount,
        royalty_numerator,
        royalty_denominator,
    ) {
        Err(e) => {
            return Err(e);
        },
        Ok(royalty) => royalty,
    };
    match amount.checked_sub(royalty_amount) {
        None => Err(RwaError::MathOverflow),
        Some(net) => Ok(net),
    }
}

/// What `calculate_purchase_cost` returns: the exact product, or
/// `MathOverflow` when it does not fit in 64 bits.
pub open spec fn spec_purchase_cost(num_fractions: u64, price_per_fraction: u64) -> Result<
    u64,
    RwaError,
> {
    if num_fractions * price_per_fraction > u64::MAX {
        Err(RwaError::MathOverflow)
    } else {
        Ok((num_fractions * price_per_fraction) as u64)
    }
}

/// The total cost of purchasing `num_fractions` units at
/// `price_per_fraction` each; a product beyond 64 bits fails rather than
/// silently wrapping.
pub fn calculate_purchase_cost(num_fractions: u64, price_per_fraction: u64) -> (r: Result<
    u64,
    RwaError,
>)
    ensures
        r == spec_purchase_cost(num_fractions, price_per_fraction),
{
    match num_fractions.checked_mul(price_per_fraction) {
        None => Err(RwaError::MathOverflow),
        Some(cost) => Ok(cost),
    }
}

/// A fee of `bps` basis points on `total`: floor(total * bps / 10000), or
/// `MathOverflow` when the product does not fit in 64 bits.
pub open spec fn spec_basis_point_fee(total: u64, bps: u16) -> Result<u64, RwaError> {
    if total * bps > u64::MAX {
        Err(RwaError::MathOverflow)
    } else {
        Ok(((total * bps) / (FULL_BASIS_POINTS as int)) as u64)
    }
}

/// What `calculate_payment_distribution` returns: the creator's floored
/// basis-point share and, subtractively, the platform's remainder, so that the
/// two always sum exactly to the total.
pub open spec fn spec_payment_distribution(
    total_amount: u64,
    creator_fee_bps: u16,
    platform_fee_bps: u16,
) -> Result<(u64, u64), RwaError> {
    if total_amount * creator_fee_bps > u64::MAX {
        Err(RwaError::MathOverflow)
    } else {
        let creator_amount = (total_amount * creator_fee_bps) / (FULL_BASIS_POINTS as int);
        if creator_amount > total_amount {
            Err(RwaError::MathOverflow)
        } else {
            Ok((creator_amount as u64, (total_amount - creator_amount) as u64))
        }
    }
}

/// Splits a payment into `(creator_amount, platform_amount)`. The creator's
/// share is floor(total * creator_fee_bps / 10000); the platform keeps the
/// remainder, so rounding never loses a unit of the total.
pub fn calculate_payment_distribution(
    total_amount: u64,
    creator_fee_bps: u16,
    platform_fee_bps: u16,
) -> (r: Result<(u64, u64), RwaError>)
    ensures
        r == spec_payment_distribution(total_amount, creator_fee_bps, platform_fee_bps),
        r matches Ok(pair) ==> pair.0 + pair.1 == total_amount,
{
    let creator_amount = match total_amount.checked_mul(creator_fee_bps as u64) {
        None => {
            return Err(RwaError::MathOverflow);
        },
        Some(product) => product / (FULL_BASIS_POINTS as u64),
    };
    match total_amount.checked_sub(creator_amount) {
        None => Err(RwaError::MathOverflow),
        Some(platform_amount) => Ok((creator_amount, platform_amount)),
    }
}

/// Law: a basis-point distribution neither leaks nor invents value. For every
/// total and every split that covers the full 10000 basis points, the
/// distribution succeeds exactly when the intermediate product fits in 64
/// bits, and a successful distribution returns two amounts that sum to the
/// total exactly, rounding notwithstanding.
pub proof fn lemma_distribution_exact(total_amount: u64, creator_fee_bps: u16, platform_fee_bps: u16)
    requires
        creator_fee_bps + platform_fee_bps == 10000,
    ensures
        spec_payment_distribution(total_amount, creator_fee_bps, platform_fee_bps) is Ok <==> total_amount
            * creator_fee_bps <= u64::MAX,
        spec_payment_distribution(total_amount, creator_fee_bps, platform_fee_bps) matches Ok(pair)
            ==> pair.0 + pair.1 == total_amount,
{
    if total_amount * creator_fee_bps <= u64::MAX {
        let product = total_amount as int * creator_fee_bps as int;
        let creator_amount = product / (FULL_BASIS_POINTS as int);
        assert(product <= 10000 * total_amount) by {
            vstd::arithmetic::mul::lemma_mul_inequality(
                creator_fee_bps as int,
                10000,
                total_amount as int,
            );
            vstd::arithmetic::mul::lemma_mul_is_commutative(total_amount as int, creator_fee_bps as int);
            vstd::arithmetic::mul::lemma_mul_is_commutative(creator_fee_bps as int, total_amount as int);
        }
        assert(creator_amount <= total_amount) by {
            vstd::arithmetic::div_mod::lemma_multiply_divide_le(
                product,
                10000,
                total_amount as int,
            );
        }
        assert(creator_amount >= 0) by {
            vstd::arithmetic::div_mod::lemma_div_pos_is_pos(product, 10000);
        }
    }
}

/// What `validate_royalty_fee` returns: `InvalidRoyaltyFee` unless the
/// denominator is positive, the numerator does not exceed it, and the fee
/// claims at most half of its denominator.
pub open spec fn spec_validate_royalty_fee(numerator: u16, denominator: u16) -> Result<
    (),
    RwaError,
> {
    if denominator == 0 {
        Err(RwaError::InvalidRoyaltyFee)
    } else if numerator > denominator {
        Err(RwaError::InvalidRoyaltyFee)
    } else if 2 * numerator > denominator {
        Err(RwaError::InvalidRoyaltyFee)
    } else {
        Ok(())
    }
}

/// Accepts a royalty fee only when its denominator is positive, its numerator
/// does not exceed the denominator, and the fee claims at most 50% of that
/// denominator.
pub fn validate_royalty_fee(numerator: u16, denominator: u16) -> (r: Result<(), RwaError>)
    ensures
        r == spec_validate_royalty_fee(numerator, denominator),
{
    if denominator == 0 {
        return Err(RwaError::InvalidRoyaltyFee);
    }
    if numerator > denominator {
        return Err(RwaError::InvalidRoyaltyFee);
    }
    if 2 * (numerator as u32) > denominator as u32 {
        return Err(RwaError::InvalidRoyaltyFee);
    }
    Ok(())
}

} // verus!
