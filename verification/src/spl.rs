//! The calls into the token library's instruction builders.
//!
//! Each function here hands one operation to `spl_token`'s own builder and
//! converts the instruction it returns into a [`CallContext`] of plain
//! values. The contracts state what the builders produce — the account
//! order, the flags, and the exact data bytes — as the library's source
//! shows; Verus takes them on trust.

use vstd::prelude::*;

use spl_token::instruction as token_instruction;
use spl_token::instruction::AuthorityType as TokenAuthority;
use spl_token::solana_program::pubkey::Pubkey;

use crate::accounts::{AccountRef, ProxyBurn, ProxyMintTo, ProxySetAuthority, ProxyTransfer};
use crate::authority::AuthorityType;
use crate::context::{
    is_burn_call, is_mint_to_call, is_set_authority_call, is_transfer_call, spl_token_id,
    CallContext,
};
use crate::ProxyError;

verus! {

/// Relies on `spl_token::instruction::transfer`: with the token program's own
/// id it returns the transfer instruction for source, destination and
/// authority, and with any other id it rejects the call without building one.
#[verifier::external_body]
pub(crate) fn spl_transfer(a: &ProxyTransfer, amount: u64) -> (r: Result<CallContext, ProxyError>)
    ensures
        r is Ok <==> a.token_program.key@ == spl_token_id(),
        r matches Ok(c) ==> is_transfer_call(c, *a, amount),
        r matches Err(e) ==> e == ProxyError::IncorrectProgramId,
{
    match token_instruction::transfer(
        &Pubkey::new_from_array(a.token_program.key), &Pubkey::new_from_array(a.from.key),
        &Pubkey::new_from_array(a.to.key), &Pubkey::new_from_array(a.authority.key), &[], amount,
    ) {
        Ok(ix) => Ok(CallContext {
            program_id: ix.program_id.to_bytes(),
            accounts: ix.accounts.iter().map(|m| AccountRef {
                key: m.pubkey.to_bytes(), is_signer: m.is_signer, is_writable: m.is_writable,
            }).collect(),
            data: ix.data,
        }),
        Err(_) => Err(ProxyError::IncorrectProgramId),
    }
}

/// Relies on `spl_token::instruction::mint_to`: with the token program's own
/// id it returns the mint instruction for mint, destination and authority,
/// and with any other id it rejects the call without building one.
#[verifier::external_body]
pub(crate) fn spl_mint_to(a: &ProxyMintTo, amount: u64) -> (r: Result<CallContext, ProxyError>)
    ensures
        r is Ok <==> a.token_program.key@ == spl_token_id(),
        r matches Ok(c) ==> is_mint_to_call(c, *a, amount),
        r matches Err(e) ==> e == ProxyError::IncorrectProgramId,
{
    match token_instruction::mint_to(
        &Pubkey::new_from_array(a.token_program.key), &Pubkey::new_from_array(a.mint.key),
        &Pubkey::new_from_array(a.to.key), &Pubkey::new_from_array(a.authority.key), &[], amount,
    ) {
        Ok(ix) => Ok(CallContext {
            program_id: ix.program_id.to_bytes(),
            accounts: ix.accounts.iter().map(|m| AccountRef {
                key: m.pubkey.to_bytes(), is_signer: m.is_signer, is_writable: m.is_writable,
            }).collect(),
            data: ix.data,
        }),
        Err(_) => Err(ProxyError::IncorrectProgramId),
    }
}

/// Relies on `spl_token::instruction::burn`: with the token program's own id
/// it returns the burn instruction for the debited account, its mint and the
/// authority, and with any other id it rejects the call without building one.
#[verifier::external_body]
pub(crate) fn spl_burn(a: &ProxyBurn, amount: u64) -> (r: Result<CallContext, ProxyError>)
    ensures
        r is Ok <==> a.token_program.key@ == spl_token_id(),
        r matches Ok(c) ==> is_burn_call(c, *a, amount),
        r matches Err(e) ==> e == ProxyError::IncorrectProgramId,
{
    match token_instruction::burn(
        &Pubkey::new_from_array(a.token_program.key), &Pubkey::new_from_array(a.to.key),
        &Pubkey::new_from_array(a.mint.key), &Pubkey::new_from_array(a.authority.key), &[], amount,
    ) {
        Ok(ix) => Ok(CallContext {
            program_id: ix.program_id.to_bytes(),
            accounts: ix.accounts.iter().map(|m| AccountRef {
                key: m.pubkey.to_bytes(), is_signer: m.is_signer, is_writable: m.is_writable,
            }).collect(),
            data: ix.data,
        }),
        Err(_) => Err(ProxyError::IncorrectProgramId),
    }
}

/// Relies on `spl_token::instruction::set_authority`: with the token
/// program's own id it returns the set-authority instruction for the owned
/// account and its current authority, carrying the kind's wire code and the
/// optional new authority, and with any other id it rejects the call without
/// building one.
#[verifier::external_body]
pub(crate) fn spl_set_authority(
    a: &ProxySetAuthority,
    kind: AuthorityType,
    new_authority: Option<[u8; 32]>,
) -> (r: Result<CallContext, ProxyError>)
    ensures
        r is Ok <==> a.token_program.key@ == spl_token_id(),
        r matches Ok(c) ==> is_set_authority_call(c, *a, kind, new_authority),
        r matches Err(e) ==> e == ProxyError::IncorrectProgramId,
{
    let kind_arg = match kind {
        AuthorityType::MintTokens => TokenAuthority::MintTokens,
        AuthorityType::FreezeAccount => TokenAuthority::FreezeAccount,
        AuthorityType::AccountOwner => TokenAuthority::AccountOwner,
        AuthorityType::CloseAccount => TokenAuthority::CloseAccount,
    };
    let new_key = new_authority.map(Pubkey::new_from_array);
    match token_instruction::set_authority(&Pubkey::new_from_array(a.token_program.key), &Pubkey::new_from_array(a.account_or_mint.key), new_key.as_ref(), kind_arg, &Pubkey::new_from_array(a.current_authority.key), &[]) {
        Ok(ix) => Ok(CallContext { program_id: ix.program_id.to_bytes(), accounts: ix.accounts.iter().map(|m| AccountRef { key: m.pubkey.to_bytes(), is_signer: m.is_signer, is_writable: m.is_writable }).collect(), data: ix.data }),
        Err(_) => Err(ProxyError::IncorrectProgramId),
    }
}

} // verus!
