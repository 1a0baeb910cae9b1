//! The four operations, end to end: schema rejection, pass-through fidelity
//! against the token library's own builders, and the concrete call shapes.

use mytokendapp::accounts::{AccountRef, ProxyBurn, ProxyMintTo, ProxySetAuthority, ProxyTransfer};
use mytokendapp::authority::{authority_code, AuthorityType};
use mytokendapp::context::CallContext;
use mytokendapp::{proxy_burn, proxy_mint_to, proxy_set_authority, proxy_transfer, ProxyError};

use spl_token::solana_program::pubkey::Pubkey;

fn key(n: u8) -> [u8; 32] {
    [n; 32]
}

fn signer(n: u8) -> AccountRef {
    AccountRef { key: key(n), is_signer: true, is_writable: false }
}

fn writable(n: u8) -> AccountRef {
    AccountRef { key: key(n), is_signer: false, is_writable: true }
}

fn readonly(n: u8) -> AccountRef {
    AccountRef { key: key(n), is_signer: false, is_writable: false }
}

fn token_program() -> AccountRef {
    AccountRef { key: spl_token::id().to_bytes(), is_signer: false, is_writable: false }
}

fn transfer_accounts() -> ProxyTransfer {
    ProxyTransfer {
        authority: signer(1),
        from: writable(2),
        to: writable(3),
        token_program: token_program(),
    }
}

fn mint_to_accounts() -> ProxyMintTo {
    ProxyMintTo {
        authority: signer(1),
        mint: writable(4),
        to: writable(3),
        token_program: token_program(),
    }
}

fn burn_accounts() -> ProxyBurn {
    ProxyBurn {
        authority: signer(1),
        mint: writable(4),
        to: writable(3),
        token_program: token_program(),
    }
}

fn set_authority_accounts() -> ProxySetAuthority {
    ProxySetAuthority {
        current_authority: signer(1),
        account_or_mint: writable(4),
        token_program: token_program(),
    }
}

/// Converts an instruction the token library built itself into the same
/// plain shape the library returns, for byte-for-byte comparison.
fn context_of(ix: spl_token::solana_program::instruction::Instruction) -> CallContext {
    CallContext {
        program_id: ix.program_id.to_bytes(),
        accounts: ix
            .accounts
            .iter()
            .map(|m| AccountRef {
                key: m.pubkey.to_bytes(),
                is_signer: m.is_signer,
                is_writable: m.is_writable,
            })
            .collect(),
        data: ix.data,
    }
}

#[test]
fn token_program_id_matches_library() {
    assert_eq!(
        spl_token::id().to_bytes(),
        [
            6, 221, 246, 225, 215, 101, 161, 147, 217, 203, 225, 70, 206, 235, 121, 172, 28, 180,
            133, 237, 95, 91, 55, 145, 58, 140, 245, 133, 126, 255, 0, 169,
        ]
    );
}

#[test]
fn transfer_missing_signer_rejected() {
    let mut accounts = transfer_accounts();
    accounts.authority = readonly(1);
    assert_eq!(proxy_transfer(&accounts, 1), Err(ProxyError::SchemaViolation));
}

#[test]
fn mint_to_missing_signer_rejected() {
    let mut accounts = mint_to_accounts();
    accounts.authority = readonly(1);
    assert_eq!(proxy_mint_to(&accounts, 1), Err(ProxyError::SchemaViolation));
}

#[test]
fn burn_missing_signer_rejected() {
    let mut accounts = burn_accounts();
    accounts.authority = readonly(1);
    assert_eq!(proxy_burn(&accounts, 1), Err(ProxyError::SchemaViolation));
}

#[test]
fn set_authority_missing_signer_rejected() {
    let mut accounts = set_authority_accounts();
    accounts.current_authority = readonly(1);
    assert_eq!(
        proxy_set_authority(&accounts, AuthorityType::AccountOwner, None),
        Err(ProxyError::SchemaViolation)
    );
}

#[test]
fn transfer_missing_writable_rejected() {
    let mut accounts = transfer_accounts();
    accounts.from = readonly(2);
    assert_eq!(proxy_transfer(&accounts, 1), Err(ProxyError::SchemaViolation));
}

#[test]
fn transfer_wrong_token_program_rejected() {
    let mut accounts = transfer_accounts();
    accounts.token_program = readonly(9);
    assert_eq!(proxy_transfer(&accounts, 1), Err(ProxyError::IncorrectProgramId));
}

#[test]
fn transfer_passes_through_verbatim() {
    let accounts = transfer_accounts();
    let built = proxy_transfer(&accounts, 42).unwrap();
    let expected = spl_token::instruction::transfer(
        &spl_token::id(),
        &Pubkey::new_from_array(key(2)),
        &Pubkey::new_from_array(key(3)),
        &Pubkey::new_from_array(key(1)),
        &[],
        42,
    )
    .unwrap();
    assert_eq!(built, context_of(expected));
}

#[test]
fn mint_to_passes_through_verbatim() {
    let accounts = mint_to_accounts();
    let built = proxy_mint_to(&accounts, 7).unwrap();
    let expected = spl_token::instruction::mint_to(
        &spl_token::id(),
        &Pubkey::new_from_array(key(4)),
        &Pubkey::new_from_array(key(3)),
        &Pubkey::new_from_array(key(1)),
        &[],
        7,
    )
    .unwrap();
    assert_eq!(built, context_of(expected));
}

#[test]
fn burn_passes_through_verbatim() {
    let accounts = burn_accounts();
    let built = proxy_burn(&accounts, 9).unwrap();
    let expected = spl_token::instruction::burn(
        &spl_token::id(),
        &Pubkey::new_from_array(key(3)),
        &Pubkey::new_from_array(key(4)),
        &Pubkey::new_from_array(key(1)),
        &[],
        9,
    )
    .unwrap();
    assert_eq!(built, context_of(expected));
}

#[test]
fn set_authority_passes_through_verbatim() {
    let accounts = set_authority_accounts();
    let new_authority = key(8);
    let built = proxy_set_authority(
        &accounts,
        AuthorityType::FreezeAccount,
        Some(new_authority),
    )
    .unwrap();
    let expected = spl_token::instruction::set_authority(
        &spl_token::id(),
        &Pubkey::new_from_array(key(4)),
        Some(&Pubkey::new_from_array(new_authority)),
        spl_token::instruction::AuthorityType::FreezeAccount,
        &Pubkey::new_from_array(key(1)),
        &[],
    )
    .unwrap();
    assert_eq!(built, context_of(expected));
}

#[test]
fn transfer_amount_1000_call_shape() {
    let accounts = transfer_accounts();
    let built = proxy_transfer(&accounts, 1000).unwrap();
    assert_eq!(built.program_id, spl_token::id().to_bytes());
    assert_eq!(built.data, vec![3, 232, 3, 0, 0, 0, 0, 0, 0]);
    assert_eq!(built.accounts.len(), 3);
    assert_eq!(built.accounts[0], writable(2));
    assert_eq!(built.accounts[1], writable(3));
    assert_eq!(built.accounts[2], AccountRef { key: key(1), is_signer: true, is_writable: false });
}

#[test]
fn set_authority_close_account_authority_removed() {
    let accounts = set_authority_accounts();
    let built = proxy_set_authority(&accounts, AuthorityType::CloseAccount, None).unwrap();
    assert_eq!(built.data, vec![6, 3, 0]);
    assert_eq!(built.accounts.len(), 2);
    assert_eq!(built.accounts[0], writable(4));
    assert_eq!(built.accounts[1], AccountRef { key: key(1), is_signer: true, is_writable: false });
}

#[test]
fn set_authority_with_new_authority_call_shape() {
    let accounts = set_authority_accounts();
    let new_authority = key(8);
    let built =
        proxy_set_authority(&accounts, AuthorityType::AccountOwner, Some(new_authority)).unwrap();
    let mut expected_data = vec![6, 2, 1];
    expected_data.extend_from_slice(&new_authority);
    assert_eq!(built.data, expected_data);
}

#[test]
fn authority_codes_match_token_library() {
    let kinds = [
        (AuthorityType::MintTokens, spl_token::instruction::AuthorityType::MintTokens),
        (AuthorityType::FreezeAccount, spl_token::instruction::AuthorityType::FreezeAccount),
        (AuthorityType::AccountOwner, spl_token::instruction::AuthorityType::AccountOwner),
        (AuthorityType::CloseAccount, spl_token::instruction::AuthorityType::CloseAccount),
    ];
    let accounts = set_authority_accounts();
    let mut seen = Vec::new();
    for (local, external) in kinds {
        let built = proxy_set_authority(&accounts, local, None).unwrap();
        let expected = spl_token::instruction::set_authority(
            &spl_token::id(),
            &Pubkey::new_from_array(key(4)),
            None,
            external,
            &Pubkey::new_from_array(key(1)),
            &[],
        )
        .unwrap();
        assert_eq!(built.data, expected.data);
        assert_eq!(built.data[1], authority_code(local));
        assert!(!seen.contains(&built.data[1]));
        seen.push(built.data[1]);
    }
    seen.sort();
    assert_eq!(seen, vec![0, 1, 2, 3]);
}

#[test]
fn repeated_transfer_builds_the_same_call_each_time() {
    let accounts = transfer_accounts();
    let first = proxy_transfer(&accounts, 5).unwrap();
    let second = proxy_transfer(&accounts, 5).unwrap();
    assert_eq!(first, second);
}
