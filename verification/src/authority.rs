//! The vault's custody authority and the seed schemes behind the platform's
//! derived addresses.
//!
//! A vault holds assets without any externally held signing secret: its
//! authority is the ledger's program-derived address of a fixed domain
//! separator plus the asset's identity, searched together with a bump seed.
//! The derivation itself is the ledger's scheme and is called, not rebuilt;
//! everything around it (the seed layout) is verified.

use vstd::prelude::*;

use crate::identity::IdentityKey;
use vstd::string::StringSliceAdditionalSpecFns;

verus! {

/// The domain separator of vault custody authorities.
pub open spec fn vault_seed_prefix() -> Seq<u8> {
    "vault".spec_bytes()
}

/// The domain separator of fractional-mint addresses.
pub open spec fn fractional_mint_seed_prefix() -> Seq<u8> {
    "fractional_mint".spec_bytes()
}

/// The domain separator of compliance-record addresses.
pub open spec fn kyc_seed_prefix() -> Seq<u8> {
    "kyc".spec_bytes()
}

/// The derived-address seeds of a vault: the domain separator, then the
/// fractionalized asset's identity.
pub fn generate_vault_seeds(nft_mint: &IdentityKey) -> (r: Vec<Vec<u8>>)
    ensures
        r@.len() == 2,
        r@[0]@ == vault_seed_prefix(),
        r@[1]@ == nft_mint@,
{
    let mut seeds: Vec<Vec<u8>> = Vec::new();
    seeds.push("vault".as_bytes_vec());
    seeds.push(vstd::slice::slice_to_vec(nft_mint.bytes.as_slice()));
    seeds
}

/// The derived-address seeds of an asset's fractional mint: the domain
/// separator, then the asset's identity.
pub fn generate_fractional_mint_seeds(nft_mint: &IdentityKey) -> (r: Vec<Vec<u8>>)
    ensures
        r@.len() == 2,
        r@[0]@ == fractional_mint_seed_prefix(),
        r@[1]@ == nft_mint@,
{
    let mut seeds: Vec<Vec<u8>> = Vec::new();
    seeds.push("fractional_mint".as_bytes_vec());
    seeds.push(vstd::slice::slice_to_vec(nft_mint.bytes.as_slice()));
    seeds
}

/// The derived-address seeds of a user's compliance record: the domain
/// separator, then the user's identity.
pub fn generate_kyc_seeds(user: &IdentityKey) -> (r: Vec<Vec<u8>>)
    ensures
        r@.len() == 2,
        r@[0]@ == kyc_seed_prefix(),
        r@[1]@ == user@,
{
    let mut seeds: Vec<Vec<u8>> = Vec::new();
    seeds.push("kyc".as_bytes_vec());
    seeds.push(vstd::slice::slice_to_vec(user.bytes.as_slice()));
    seeds
}

/// What the ledger's program-derived-address search returns for the given
/// seeds under the given program: a 32-byte address with its bump seed, or
/// nothing when no bump seed works or the seeds break the scheme's limits.
/// The result is a pure function of the seeds and the program identity.
pub uninterp spec fn pda_of(seeds: Seq<Seq<u8>>, program_id: Seq<u8>) -> Option<(Seq<u8>, u8)>;

/// Relies on Pubkey::try_find_program_address, re-exported by anchor_lang
/// from the ledger's address crate: the search is deterministic in the seeds
/// and the program id, returns None when no bump seed yields a valid derived
/// address or when the seeds exceed the scheme's count or length limits, and
/// never panics.
#[verifier::external_body]
fn try_find_pda(seeds: &Vec<Vec<u8>>, program_id: &IdentityKey) -> (r: Option<(IdentityKey, u8)>)
    ensures
        ({
            let outcome = pda_of(seeds@.map_values(|s: Vec<u8>| s@), program_id@);
            match r {
                Some(found) => outcome == Some((found.0@, found.1)),
                None => outcome is None,
            }
        }),
{
    let seed_refs: Vec<&[u8]> = seeds.iter().map(|s: &Vec<u8>| s.as_slice()).collect();
    let program = anchor_lang::prelude::Pubkey::new_from_array(program_id.bytes);
    anchor_lang::prelude::Pubkey::try_find_program_address(seed_refs.as_slice(), &program).map(
        |found: (anchor_lang::prelude::Pubkey, u8)|
            (IdentityKey { bytes: found.0.to_bytes() }, found.1),
    )
}

/// The vault's custody authority for an asset: the derived address of the
/// vault seeds under the platform's program, with the bump seed the ledger
/// search found. The environment presents this pair when the vault authorizes
/// ledger calls on assets it holds.
pub fn derive_vault_authority(nft_mint: &IdentityKey, program_id: &IdentityKey) -> (r: Option<
    (IdentityKey, u8),
>)
    ensures
        ({
            let outcome = pda_of(seq![vault_seed_prefix(), nft_mint@], program_id@);
            match r {
                Some(found) => outcome == Some((found.0@, found.1)),
                None => outcome is None,
            }
        }),
{
    let seeds = generate_vault_seeds(nft_mint);
    proof {
        assert(seeds@.map_values(|s: Vec<u8>| s@) =~= seq![vault_seed_prefix(), nft_mint@]);
    }
    try_find_pda(&seeds, program_id)
}

} // verus!
