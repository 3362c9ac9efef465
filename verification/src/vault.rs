//! The vault accounting engine: one record per fractionalized asset, tracking
//! fractionalization, sale progress, and redemption eligibility.
//!
//! Every operation is a pure decision over the record and plain inputs. An
//! operation that moves value returns an effects value describing the ledger
//! calls the environment must perform atomically with the state change; if
//! any ledger call fails, the environment discards the mutated record.

use vstd::prelude::*;

use crate::errors::RwaError;
use crate::identity::IdentityKey;
use crate::kyc::SimpleKycAccount;
use crate::math::spec_purchase_cost;

verus! {

/// The custody record of one fractionalized asset.
#[derive(Debug)]
pub struct Vault {
    /// The original owner of the asset being fractionalized.
    pub creator: IdentityKey,
    /// The original asset locked in the vault.
    pub original_nft_mint: IdentityKey,
    /// The fractional token kind created for the asset.
    pub fractional_token_mint: IdentityKey,
    /// Total number of fractional shares created; fixed at creation.
    pub total_fractions: u64,
    /// Price per fractional share, in the smallest payment unit; fixed at
    /// creation.
    pub price_per_fraction: u64,
    /// Number of fractional shares sold so far; never decreases and never
    /// exceeds `total_fractions`.
    pub fractions_sold: u64,
    /// Whether the sale is currently active; cleared terminally by
    /// redemption.
    pub is_sale_active: bool,
    /// When the vault was created.
    pub created_at: i64,
    /// When the sale ended, if it has.
    pub sale_ended_at: Option<i64>,
    /// The creator's payment destination for sale proceeds.
    pub creator_payment_account: IdentityKey,
}

/// The ledger calls that accompany a successful fractionalization: the single
/// original asset moves into vault custody, and every freshly issued
/// fractional unit lands in vault custody.
#[derive(Clone, Copy, Debug, PartialEq, Eq, Structural)]
pub struct FractionalizeEffects {
    /// Units of the original asset transferred from the creator into vault
    /// custody; always one.
    pub asset_to_custody: u64,
    /// Fractional units issued into vault custody; always the vault's total.
    pub fractions_to_custody: u64,
}

/// The payment split and unit movement of one successful purchase: the buyer
/// pays `creator_amount` to the creator's payment account, the platform
/// retains `platform_fee`, and `fractions_to_buyer` units move from vault
/// custody to the buyer.
#[derive(Clone, Copy, Debug, PartialEq, Eq, Structural)]
pub struct Purchase {
    /// What the buyer owes: fractions bought times price per fraction.
    pub total_cost: u64,
    /// The platform's floored share of the cost.
    pub platform_fee: u64,
    /// The creator's remainder: total cost minus platform fee.
    pub creator_amount: u64,
    /// Fractional units transferred from vault custody to the buyer.
    pub fractions_to_buyer: u64,
}

/// The ledger calls that accompany a successful redemption: every fractional
/// unit burns from the redeemer's balance and the original asset leaves vault
/// custody for the redeemer.
#[derive(Clone, Copy, Debug, PartialEq, Eq, Structural)]
pub struct RedeemEffects {
    /// Fractional units burned from the redeemer; always the vault's total.
    pub fractions_burned: u64,
    /// Units of the original asset released to the redeemer; always one.
    pub asset_to_redeemer: u64,
}

impl Vault {
    /// The storage bytes the record reserves: an 8-byte discriminator
    /// followed by every field at its serialized width.
    pub const LEN: usize = 8  // discriminator
     + 32  // creator
     + 32  // original_nft_mint
     + 32  // fractional_token_mint
     + 8  // total_fractions
     + 8  // price_per_fraction
     + 8  // fractions_sold
     + 1  // is_sale_active
     + 8  // created_at
     + 9  // sale_ended_at (optional)
     + 32;  // creator_payment_account

    /// The record's invariant: the share count and price are positive, and no
    /// more shares are sold than exist.
    pub open spec fn well_formed(&self) -> bool {
        &&& self.total_fractions > 0
        &&& self.price_per_fraction > 0
        &&& self.fractions_sold <= self.total_fractions
    }

    /// Whether every fraction has been sold.
    pub open spec fn fully_sold_spec(&self) -> bool {
        self.fractions_sold >= self.total_fractions
    }

    /// Check if all fractions have been sold.
    pub fn is_fully_sold(&self) -> (r: bool)
        ensures
            r == self.fully_sold_spec(),
    {
        self.fractions_sold >= self.total_fractions
    }

    /// The number of fractions still available for sale.
    pub fn remaining_fractions(&self) -> (r: u64)
        ensures
            r == if self.total_fractions >= self.fractions_sold {
                self.total_fractions - self.fractions_sold
            } else {
                0
            },
    {
        self.total_fractions.saturating_sub(self.fractions_sold)
    }

    /// The value of the whole vault at the fixed price: total fractions times
    /// price, or `MathOverflow` when that does not fit in 64 bits rather than
    /// a silently wrapped figure.
    pub fn total_value(&self) -> (r: Result<u64, RwaError>)
        ensures
            r == spec_purchase_cost(self.total_fractions, self.price_per_fraction),
    {
        match self.total_fractions.checked_mul(self.price_per_fraction) {
            None => Err(RwaError::MathOverflow),
            Some(value) => Ok(value),
        }
    }

    /// The value of the fractions sold so far, under the same overflow rule
    /// as `total_value`.
    pub fn sold_value(&self) -> (r: Result<u64, RwaError>)
        ensures
            r == spec_purchase_cost(self.fractions_sold, self.price_per_fraction),
    {
        match self.fractions_sold.checked_mul(self.price_per_fraction) {
            None => Err(RwaError::MathOverflow),
            Some(value) => Ok(value),
        }
    }
}

/// What `fractionalize` creates: a vault with nothing sold and the sale
/// active, or the validation error for a zero share count or zero price.
pub open spec fn spec_fractionalize(
    total_fractions: u64,
    price_per_fraction: u64,
    creator: IdentityKey,
    original_nft_mint: IdentityKey,
    fractional_token_mint: IdentityKey,
    creator_payment_account: IdentityKey,
) -> Result<(Vault, FractionalizeEffects), RwaError> {
    if total_fractions == 0 {
        Err(RwaError::InvalidTotalFractions)
    } else if price_per_fraction == 0 {
        Err(RwaError::InvalidPrice)
    } else {
        Ok(
            (
                Vault {
                    creator,
                    original_nft_mint,
                    fractional_token_mint,
                    total_fractions,
                    price_per_fraction,
                    fractions_sold: 0,
                    is_sale_active: true,
                    created_at: 0,
                    sale_ended_at: None,
                    creator_payment_account,
                },
                FractionalizeEffects { asset_to_custody: 1, fractions_to_custody: total_fractions },
            ),
        )
    }
}

/// Creates the vault for an asset: validates the share count and price, then
/// returns the initial record together with the custody effects the ledger
/// must apply (the asset moves into custody and all fractions are issued to
/// custody; no buyer holds anything yet).
pub fn fractionalize(
    total_fractions: u64,
    price_per_fraction: u64,
    creator: IdentityKey,
    original_nft_mint: IdentityKey,
    fractional_token_mint: IdentityKey,
    creator_payment_account: IdentityKey,
) -> (r: Result<(Vault, FractionalizeEffects), RwaError>)
    ensures
        r == spec_fractionalize(
            total_fractions,
            price_per_fraction,
            creator,
            original_nft_mint,
            fractional_token_mint,
            creator_payment_account,
        ),
        r matches Ok(created) ==> created.0.well_formed(),
{
    if total_fractions == 0 {
        return Err(RwaError::InvalidTotalFractions);
    }
    if price_per_fraction == 0 {
        return Err(RwaError::InvalidPrice);
    }
    Ok(
        (
            Vault {
                creator,
                original_nft_mint,
                fractional_token_mint,
                total_fractions,
                price_per_fraction,
                fractions_sold: 0,
                is_sale_active: true,
                created_at: 0,
                sale_ended_at: None,
                creator_payment_account,
            },
            FractionalizeEffects { asset_to_custody: 1, fractions_to_custody: total_fractions },
        ),
    )
}

/// Law: a vault fresh from a valid fractionalization has sold nothing, its
/// sale is active, and custody receives exactly the original asset and all
/// `total_fractions` fractional units.
pub proof fn lemma_fractionalize_initial(
    total_fractions: u64,
    price_per_fraction: u64,
    creator: IdentityKey,
    original_nft_mint: IdentityKey,
    fractional_token_mint: IdentityKey,
    creator_payment_account: IdentityKey,
)
    requires
        total_fractions > 0,
        price_per_fraction > 0,
    ensures
        ({
            let r = spec_fractionalize(
                total_fractions,
                price_per_fraction,
                creator,
                original_nft_mint,
                fractional_token_mint,
                creator_payment_account,
            );
            &&& r is Ok
            &&& r->Ok_0.0.fractions_sold == 0
            &&& r->Ok_0.0.is_sale_active
            &&& r->Ok_0.0.well_formed()
            &&& r->Ok_0.1.fractions_to_custody == total_fractions
            &&& r->Ok_0.1.asset_to_custody == 1
        }),
{
}

/// What `buy_fractions` does, as a function of the vault, the validity of the
/// buyer's compliance record, and the requested amount. The checks run in the
/// order the purchase flow applies them; the platform fee is the hard-wired
/// 5/100 of the purchase flow, flooring, and the creator receives the
/// remainder.
pub open spec fn spec_buy_fractions(vault: Vault, kyc_valid: bool, num_fractions: u64) -> Result<
    (Vault, Purchase),
    RwaError,
> {
    if !kyc_valid {
        Err(RwaError::KycNotVerified)
    } else if num_fractions == 0 {
        Err(RwaError::InvalidAmount)
    } else if !vault.is_sale_active {
        Err(RwaError::SaleNotActive)
    } else if vault.fractions_sold + num_fractions > vault.total_fractions {
        Err(RwaError::InsufficientFractions)
    } else if num_fractions * vault.price_per_fraction > u64::MAX {
        Err(RwaError::MathOverflow)
    } else {
        let total_cost = (num_fractions * vault.price_per_fraction) as u64;
        if total_cost * 5 > u64::MAX {
            Err(RwaError::MathOverflow)
        } else {
            let platform_fee = ((total_cost * 5) / 100) as u64;
            Ok(
                (
                    Vault {
                        fractions_sold: (vault.fractions_sold + num_fractions) as u64,
                        ..vault
                    },
                    Purchase {
                        total_cost,
                        platform_fee,
                        creator_amount: (total_cost - platform_fee) as u64,
                        fractions_to_buyer: num_fractions,
                    },
                ),
            )
        }
    }
}

/// The platform fee never exceeds the cost it is taken from, so the creator's
/// remainder is a true subtraction.
proof fn lemma_platform_fee_bounded(total_cost: u64)
    ensures
        0 <= (total_cost * 5) / 100 <= total_cost,
{
    vstd::arithmetic::div_mod::lemma_div_pos_is_pos(total_cost * 5, 100);
    vstd::arithmetic::div_mod::lemma_multiply_divide_le(total_cost * 5, 100, total_cost as int);
}

impl Vault {
    /// Sells `num_fractions` units to the holder of the given compliance
    /// record. The record must authorize the purchase, the sale must be
    /// active, enough fractions must remain, and the cost arithmetic must fit
    /// in 64 bits; otherwise the vault is untouched and the error says which
    /// check failed. On success the sold counter advances and the returned
    /// purchase carries the exact payment split the ledger must apply
    /// atomically with this state change.
    pub fn buy_fractions(&mut self, kyc_account: &SimpleKycAccount, num_fractions: u64) -> (r:
        Result<Purchase, RwaError>)
        ensures
            ({
                let outcome = spec_buy_fractions(*old(self), kyc_account.valid_spec(), num_fractions);
                match r {
                    Ok(purchase) => outcome == Ok::<(Vault, Purchase), RwaError>(
                        (*final(self), purchase),
                    ),
                    Err(e) => outcome == Err::<(Vault, Purchase), RwaError>(e) && *final(self)
                        == *old(self),
                }
            }),
            final(self).fractions_sold >= old(self).fractions_sold,
            r is Ok ==> final(self).fractions_sold <= final(self).total_fractions,
            old(self).well_formed() ==> final(self).well_formed(),
            r matches Ok(purchase) ==> purchase.creator_amount + purchase.platform_fee
                == purchase.total_cost,
    {
        if !kyc_account.is_valid() {
            return Err(RwaError::KycNotVerified);
        }
        if num_fractions == 0 {
            return Err(RwaError::InvalidAmount);
        }
        if !self.is_sale_active {
            return Err(RwaError::SaleNotActive);
        }
        let new_sold = match self.fractions_sold.checked_add(num_fractions) {
            None => {
                return Err(RwaError::InsufficientFractions);
            },
            Some(sold) => sold,
        };
        if new_sold > self.total_fractions {
            return Err(RwaError::InsufficientFractions);
        }
        let total_cost = match num_fractions.checked_mul(self.price_per_fraction) {
            None => {
                return Err(RwaError::MathOverflow);
            },
            Some(cost) => cost,
        };
        let scaled = match total_cost.checked_mul(5) {
            None => {
                return Err(RwaError::MathOverflow);
            },
            Some(scaled) => scaled,
        };
        let platform_fee = scaled / 100;
        proof {
            lemma_platform_fee_bounded(total_cost);
        }
        let creator_amount = total_cost - platform_fee;
        self.fractions_sold = new_sold;
        Ok(
            Purchase {
                total_cost,
                platform_fee,
                creator_amount,
                fractions_to_buyer: num_fractions,
            },
        )
    }
}

/// The vault, the summed costs, and the summed payouts (creator amount plus
/// platform fee) after attempting every purchase of `requests` in order
/// against one vault; a failed attempt changes nothing and the next attempt
/// proceeds.
pub open spec fn spec_buy_sequence(vault: Vault, kyc_valid: bool, requests: Seq<u64>) -> (
    Vault,
    int,
    int,
)
    decreases requests.len(),
{
    if requests.len() == 0 {
        (vault, 0, 0)
    } else {
        match spec_buy_fractions(vault, kyc_valid, requests[0]) {
            Ok(step) => {
                let rest = spec_buy_sequence(step.0, kyc_valid, requests.drop_first());
                (
                    rest.0,
                    step.1.total_cost + rest.1,
                    step.1.creator_amount + step.1.platform_fee + rest.2,
                )
            },
            Err(_) => spec_buy_sequence(vault, kyc_valid, requests.drop_first()),
        }
    }
}

/// One successful purchase step: the sold counter does not decrease and stays
/// within the total, the fixed fields stay fixed, and the payment split sums
/// exactly to the cost.
proof fn lemma_buy_step(vault: Vault, kyc_valid: bool, num_fractions: u64)
    ensures
        spec_buy_fractions(vault, kyc_valid, num_fractions) matches Ok(step) ==> {
            &&& step.0.fractions_sold >= vault.fractions_sold
            &&& step.0.fractions_sold <= step.0.total_fractions
            &&& step.0.total_fractions == vault.total_fractions
            &&& step.0.price_per_fraction == vault.price_per_fraction
            &&& step.0.is_sale_active == vault.is_sale_active
            &&& step.1.creator_amount + step.1.platform_fee == step.1.total_cost
        },
{
    if spec_buy_fractions(vault, kyc_valid, num_fractions) is Ok {
        let total_cost = (num_fractions * vault.price_per_fraction) as u64;
        lemma_platform_fee_bounded(total_cost);
    }
}

/// Law: over every sequence of purchase attempts against one vault, the sold
/// counter is monotonically non-decreasing and, on a well-formed vault, never
/// exceeds the total; and the payouts conserve value exactly: the sum of
/// creator amounts and platform fees over the successful purchases equals the
/// sum of their total costs.
pub proof fn lemma_buy_sequence_accounting(vault: Vault, kyc_valid: bool, requests: Seq<u64>)
    ensures
        spec_buy_sequence(vault, kyc_valid, requests).0.fractions_sold >= vault.fractions_sold,
        spec_buy_sequence(vault, kyc_valid, requests).0.total_fractions == vault.total_fractions,
        spec_buy_sequence(vault, kyc_valid, requests).0.price_per_fraction
            == vault.price_per_fraction,
        vault.well_formed() ==> spec_buy_sequence(vault, kyc_valid, requests).0.well_formed(),
        spec_buy_sequence(vault, kyc_valid, requests).1 == spec_buy_sequence(
            vault,
            kyc_valid,
            requests,
        ).2,
    decreases requests.len(),
{
    if requests.len() > 0 {
        lemma_buy_step(vault, kyc_valid, requests[0]);
        match spec_buy_fractions(vault, kyc_valid, requests[0]) {
            Ok(step) => {
                lemma_buy_sequence_accounting(step.0, kyc_valid, requests.drop_first());
            },
            Err(_) => {
                lemma_buy_sequence_accounting(vault, kyc_valid, requests.drop_first());
            },
        }
    }
}

/// What `redeem` does: it succeeds exactly when the redeemer's balance equals
/// the vault's total share count, burning every unit, releasing the asset,
/// and terminally deactivating the sale.
pub open spec fn spec_redeem(vault: Vault, redeemer_balance: u64) -> Result<
    (Vault, RedeemEffects),
    RwaError,
> {
    if redeemer_balance != vault.total_fractions {
        Err(RwaError::InsufficientTokens)
    } else {
        Ok(
            (
                Vault { is_sale_active: false, ..vault },
                RedeemEffects {
                    fractions_burned: vault.total_fractions,
                    asset_to_redeemer: 1,
                },
            ),
        )
    }
}

impl Vault {
    /// Redeems the original asset for the holder of every fractional unit.
    /// `redeemer_balance` is the redeemer's fractional-unit balance as the
    /// ledger reports it; redemption succeeds exactly when it equals the
    /// vault's total. On success the sale is terminally deactivated and the
    /// returned effects burn every unit and release the asset, atomically
    /// with this state change.
    pub fn redeem(&mut self, redeemer_balance: u64) -> (r: Result<RedeemEffects, RwaError>)
        ensures
            ({
                let outcome = spec_redeem(*old(self), redeemer_balance);
                match r {
                    Ok(effects) => outcome == Ok::<(Vault, RedeemEffects), RwaError>(
                        (*final(self), effects),
                    ),
                    Err(e) => outcome == Err::<(Vault, RedeemEffects), RwaError>(e) && *final(self)
                        == *old(self),
                }
            }),
            r is Ok <==> redeemer_balance == old(self).total_fractions,
            r is Ok ==> !final(self).is_sale_active,
            old(self).well_formed() ==> final(self).well_formed(),
    {
        if redeemer_balance != self.total_fractions {
            return Err(RwaError::InsufficientTokens);
        }
        self.is_sale_active = false;
        Ok(
            RedeemEffects {
                fractions_burned: self.total_fractions,
                asset_to_redeemer: 1,
            },
        )
    }
}

/// Law: redemption succeeds exactly when the redeemer holds every fraction,
/// and it is terminal: on the vault it leaves behind, every further purchase
/// attempt fails (the sale is no longer active), and a further redemption by
/// the now-emptied redeemer fails as well.
pub proof fn lemma_redeem_terminal(vault: Vault, redeemer_balance: u64)
    requires
        vault.well_formed(),
    ensures
        spec_redeem(vault, redeemer_balance) is Ok <==> redeemer_balance == vault.total_fractions,
        spec_redeem(vault, redeemer_balance) matches Ok(done) ==> {
            &&& !done.0.is_sale_active
            &&& done.1.fractions_burned == vault.total_fractions
            &&& done.1.asset_to_redeemer == 1
            &&& forall|valid: bool, n: u64| !(#[trigger] spec_buy_fractions(done.0, valid, n) is Ok)
            &&& spec_redeem(done.0, 0) == Err::<(Vault, RedeemEffects), RwaError>(
                RwaError::InsufficientTokens,
            )
        },
{
}

/// What `validate_sale_availability` returns: the first failed check among an
/// inactive sale, a zero request, and a request beyond the remaining
/// fractions.
pub open spec fn spec_validate_sale_availability(vault: Vault, requested_fractions: u64) -> Result<
    (),
    RwaError,
> {
    if !vault.is_sale_active {
        Err(RwaError::SaleNotActive)
    } else if requested_fractions == 0 {
        Err(RwaError::InvalidAmount)
    } else if vault.fractions_sold + requested_fractions > vault.total_fractions {
        Err(RwaError::InsufficientFractions)
    } else {
        Ok(())
    }
}

/// Checks that a vault's sale is active and can still cover a request of
/// `requested_fractions` units.
pub fn validate_sale_availability(vault: &Vault, requested_fractions: u64) -> (r: Result<
    (),
    RwaError,
>)
    ensures
        r == spec_validate_sale_availability(*vault, requested_fractions),
{
    if !vault.is_sale_active {
        return Err(RwaError::SaleNotActive);
    }
    if requested_fractions == 0 {
        return Err(RwaError::InvalidAmount);
    }
    match vault.fractions_sold.checked_add(requested_fractions) {
        None => Err(RwaError::InsufficientFractions),
        Some(sold_after) => if sold_after > vault.total_fractions {
            Err(RwaError::InsufficientFractions)
        } else {
            Ok(())
        },
    }
}

/// What `validate_redemption_eligibility` returns: the redeemer must hold
/// exactly the vault's total and the vault must be fully sold.
pub open spec fn spec_validate_redemption_eligibility(
    vault: Vault,
    redeemer_balance: u64,
) -> Result<(), RwaError> {
    if redeemer_balance != vault.total_fractions {
        Err(RwaError::InsufficientTokens)
    } else if !vault.fully_sold_spec() {
        Err(RwaError::VaultNotReadyForRedemption)
    } else {
        Ok(())
    }
}

/// Checks that a redeemer holding `redeemer_balance` fractional units may
/// redeem the vault: the balance must equal the total share count and every
/// share must have been sold.
pub fn validate_redemption_eligibility(vault: &Vault, redeemer_balance: u64) -> (r: Result<
    (),
    RwaError,
>)
    ensures
        r == spec_validate_redemption_eligibility(*vault, redeemer_balance),
{
    if redeemer_balance != vault.total_fractions {
        return Err(RwaError::InsufficientTokens);
    }
    if !vault.is_fully_sold() {
        return Err(RwaError::VaultNotReadyForRedemption);
    }
    Ok(())
}

/// True exactly when the vault is fully sold and its sale is still active:
/// the moment at which redemption becomes possible.
pub fn is_vault_redemption_eligible(vault: &Vault) -> (r: bool)
    ensures
        r == (vault.fully_sold_spec() && vault.is_sale_active),
{
    vault.is_fully_sold() && vault.is_sale_active
}

} // verus!
