use anchor_lang::error::ErrorCode;
use anchor_lang::prelude::Pubkey;
use anchor_spl::associated_token::get_associated_token_address;
use anchor_spl::token::spl_token::error::TokenError;
use solana_forge::address::{
    associated_token_program, check_id, find_holding_address, find_mint_address, id, is_derived,
    token_program,
};
use solana_forge::error::{
    ACCOUNT_NOT_ASSOCIATED_TOKEN_ACCOUNT, CONSTRAINT_SEEDS, CONSTRAINT_TOKEN_MINT,
    CONSTRAINT_TOKEN_OWNER, TOKEN_MINT_MISMATCH, TOKEN_OVERFLOW,
};
use solana_forge::identity::Identity;
use std::str::FromStr;

fn key(seed: u8) -> Identity {
    let mut bytes = [0u8; 32];
    for (i, byte) in bytes.iter_mut().enumerate() {
        *byte = seed.wrapping_mul(31).wrapping_add(i as u8);
    }
    Identity::new(bytes)
}

#[test]
fn identity_keeps_its_bytes() {
    let mut bytes = [0u8; 32];
    bytes[0] = 1;
    bytes[31] = 255;
    let identity = Identity::new(bytes);
    assert_eq!(identity.to_bytes(), bytes);
    assert_eq!(identity.bytes, bytes);
}

#[test]
fn identities_compare_by_all_bytes() {
    let a = Identity::new([7u8; 32]);
    let b = Identity::new([7u8; 32]);
    assert!(a == b);
    for i in 0..32 {
        let mut bytes = [7u8; 32];
        bytes[i] = 8;
        assert!(a != Identity::new(bytes), "difference at byte {}", i);
    }
}

#[test]
fn program_identity_is_the_declared_one() {
    let declared = Pubkey::from_str("DqgCoHx1ncV6PzVYVg7bRxj4KQ5XrxhpPTT5qqe2FR99").unwrap();
    assert_eq!(id().to_bytes(), declared.to_bytes());
    assert!(check_id(&Identity::new(declared.to_bytes())));
    assert!(!check_id(&key(1)));
    assert!(!check_id(&token_program()));
}

#[test]
fn token_programs_are_the_ledgers() {
    assert_eq!(token_program().to_bytes(), anchor_spl::token::ID.to_bytes());
    assert_eq!(
        associated_token_program().to_bytes(),
        anchor_spl::associated_token::ID.to_bytes()
    );
}

#[test]
fn mint_address_is_the_program_derived_address() {
    for seed in 0..20u8 {
        let payer = key(seed);
        let program = Pubkey::new_from_array(id().to_bytes());
        let (expected, bump) =
            Pubkey::find_program_address(&[b"mint", payer.to_bytes().as_ref()], &program);
        let found = find_mint_address(&payer, &id());
        assert_eq!(found, Some((Identity::new(expected.to_bytes()), bump)));
        assert!(found.unwrap().0 != payer);
        assert!(found.unwrap().0 != id());
    }
}

#[test]
fn mint_address_depends_on_the_program() {
    let payer = key(3);
    let other = key(200);
    let program = Pubkey::new_from_array(other.to_bytes());
    let (expected, bump) =
        Pubkey::find_program_address(&[b"mint", payer.to_bytes().as_ref()], &program);
    assert_eq!(
        find_mint_address(&payer, &other),
        Some((Identity::new(expected.to_bytes()), bump))
    );
    assert!(find_mint_address(&payer, &other) != find_mint_address(&payer, &id()));
}

#[test]
fn holding_address_is_the_associated_token_address() {
    for seed in 0..20u8 {
        let owner = key(seed);
        let asset = key(seed.wrapping_add(100));
        let expected = get_associated_token_address(
            &Pubkey::new_from_array(owner.to_bytes()),
            &Pubkey::new_from_array(asset.to_bytes()),
        );
        let found = find_holding_address(&owner, &asset).unwrap();
        assert_eq!(found.0.to_bytes(), expected.to_bytes());
        assert!(found.0 != owner);
        assert!(found.0 != asset);
    }
}

#[test]
fn holding_address_differs_per_owner_and_asset() {
    let a = find_holding_address(&key(1), &key(2)).unwrap().0;
    let b = find_holding_address(&key(2), &key(1)).unwrap().0;
    let c = find_holding_address(&key(1), &key(3)).unwrap().0;
    assert!(a != b);
    assert!(a != c);
    assert_eq!(find_holding_address(&key(1), &key(2)).unwrap().0, a);
}

#[test]
fn is_derived_compares_with_the_found_address() {
    let address = key(9);
    assert!(is_derived(&Some((address, 255)), &address));
    assert!(is_derived(&Some((address, 0)), &address));
    assert!(!is_derived(&Some((key(10), 255)), &address));
    assert!(!is_derived(&None, &address));
}

#[test]
fn failure_codes_are_the_collaborators() {
    assert_eq!(CONSTRAINT_SEEDS, ErrorCode::ConstraintSeeds as u32);
    assert_eq!(CONSTRAINT_TOKEN_MINT, ErrorCode::ConstraintTokenMint as u32);
    assert_eq!(CONSTRAINT_TOKEN_OWNER, ErrorCode::ConstraintTokenOwner as u32);
    assert_eq!(
        ACCOUNT_NOT_ASSOCIATED_TOKEN_ACCOUNT,
        ErrorCode::AccountNotAssociatedTokenAccount as u32
    );
    assert_eq!(TOKEN_MINT_MISMATCH, TokenError::MintMismatch as u32);
    assert_eq!(TOKEN_OVERFLOW, TokenError::Overflow as u32);
}
