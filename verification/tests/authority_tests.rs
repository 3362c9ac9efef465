use anchor_lang::prelude::Pubkey;
use rwa_vault::authority::derive_vault_authority;
use rwa_vault::authority::generate_fractional_mint_seeds;
use rwa_vault::authority::generate_kyc_seeds;
use rwa_vault::authority::generate_vault_seeds;
use rwa_vault::identity::IdentityKey;

fn key(tag: u8) -> IdentityKey {
    let mut bytes = [0u8; 32];
    bytes[0] = tag;
    IdentityKey { bytes }
}

#[test]
fn vault_seeds_layout() {
    let mint = key(42);
    let seeds = generate_vault_seeds(&mint);
    assert_eq!(seeds.len(), 2);
    assert_eq!(seeds[0], b"vault".to_vec());
    assert_eq!(seeds[1], mint.bytes.to_vec());
}

#[test]
fn fractional_mint_seeds_layout() {
    let mint = key(42);
    let seeds = generate_fractional_mint_seeds(&mint);
    assert_eq!(seeds.len(), 2);
    assert_eq!(seeds[0], b"fractional_mint".to_vec());
    assert_eq!(seeds[1], mint.bytes.to_vec());
}

#[test]
fn kyc_seeds_layout() {
    let user = key(42);
    let seeds = generate_kyc_seeds(&user);
    assert_eq!(seeds.len(), 2);
    assert_eq!(seeds[0], b"kyc".to_vec());
    assert_eq!(seeds[1], user.bytes.to_vec());
}

#[test]
fn vault_authority_matches_ledger_derivation() {
    let mint = key(42);
    let program = key(77);
    let (authority, bump) = derive_vault_authority(&mint, &program).unwrap();
    let program_id = Pubkey::new_from_array(program.bytes);
    let (expected, expected_bump) =
        Pubkey::find_program_address(&[b"vault", mint.bytes.as_ref()], &program_id);
    assert_eq!(authority.bytes, expected.to_bytes());
    assert_eq!(bump, expected_bump);
    // the derived authority is not any of its inputs
    assert!(authority != mint);
    assert!(authority != program);
}

#[test]
fn vault_authority_is_deterministic() {
    let mint = key(3);
    let program = key(4);
    let first = derive_vault_authority(&mint, &program).unwrap();
    let second = derive_vault_authority(&mint, &program).unwrap();
    assert!(first.0 == second.0);
    assert_eq!(first.1, second.1);
    let other = derive_vault_authority(&key(5), &program).unwrap();
    assert!(other.0 != first.0);
}
