//! A proxy instruction dispatcher for the SPL token program.
//!
//! Each of the four operations — transfer, mint, burn and authority change —
//! checks the caller's account set against a fixed per-operation schema of
//! signer and writable flags, and then delegates to the token library's own
//! instruction builder. The result is a single [`context::CallContext`]: the
//! exact sub-call, account order and data bytes included, for the runtime to
//! invoke. A schema violation is rejected before any delegated call is
//! built; a token-program account that is not the token program is rejected
//! by the builder itself; and nothing is retried or deduplicated — one
//! invocation, one delegated call.

pub mod accounts;
pub mod authority;
pub mod context;
mod spl;

use vstd::prelude::*;

use crate::accounts::{
    burn_schema_ok, mint_to_schema_ok, set_authority_schema_ok, transfer_schema_ok, ProxyBurn,
    ProxyMintTo, ProxySetAuthority, ProxyTransfer,
};
use crate::authority::AuthorityType;
use crate::context::{
    is_burn_call, is_mint_to_call, is_set_authority_call, is_transfer_call, spl_token_id,
    CallContext,
};

verus! {

/// Why an operation was rejected before the runtime saw a sub-call.
#[derive(Clone, Copy, Debug, PartialEq, Eq)]
pub enum ProxyError {
    /// The account set does not meet the operation's signer/writable schema;
    /// raised before any delegated call is built.
    SchemaViolation,
    /// The supplied token-program account is not the token program; raised
    /// by the token library's builder.
    IncorrectProgramId,
}

/// Transfer `amount` tokens from `from` to `to` under `authority`, by one
/// delegated token-program call carrying the inputs verbatim.
pub fn proxy_transfer(accounts: &ProxyTransfer, amount: u64) -> (r: Result<
    CallContext,
    ProxyError,
>)
    ensures
        r is Ok <==> transfer_schema_ok(*accounts) && accounts.token_program.key@
            == spl_token_id(),
        r matches Ok(c) ==> is_transfer_call(c, *accounts, amount),
        !transfer_schema_ok(*accounts) ==> r == Err::<CallContext, ProxyError>(
            ProxyError::SchemaViolation,
        ),
        transfer_schema_ok(*accounts) && accounts.token_program.key@ != spl_token_id() ==> r
            == Err::<CallContext, ProxyError>(ProxyError::IncorrectProgramId),
{
    if !accounts.schema_ok() {
        return Err(ProxyError::SchemaViolation);
    }
    spl::spl_transfer(accounts, amount)
}

/// Mint `amount` new tokens of `mint` into `to` under `authority`, by one
/// delegated token-program call carrying the inputs verbatim.
pub fn proxy_mint_to(accounts: &ProxyMintTo, amount: u64) -> (r: Result<CallContext, ProxyError>)
    ensures
        r is Ok <==> mint_to_schema_ok(*accounts) && accounts.token_program.key@
            == spl_token_id(),
        r matches Ok(c) ==> is_mint_to_call(c, *accounts, amount),
        !mint_to_schema_ok(*accounts) ==> r == Err::<CallContext, ProxyError>(
            ProxyError::SchemaViolation,
        ),
        mint_to_schema_ok(*accounts) && accounts.token_program.key@ != spl_token_id() ==> r
            == Err::<CallContext, ProxyError>(ProxyError::IncorrectProgramId),
{
    if !accounts.schema_ok() {
        return Err(ProxyError::SchemaViolation);
    }
    spl::spl_mint_to(accounts, amount)
}

/// Burn `amount` tokens of `mint` held in `to` under `authority`, by one
/// delegated token-program call carrying the inputs verbatim.
pub fn proxy_burn(accounts: &ProxyBurn, amount: u64) -> (r: Result<CallContext, ProxyError>)
    ensures
        r is Ok <==> burn_schema_ok(*accounts) && accounts.token_program.key@ == spl_token_id(),
        r matches Ok(c) ==> is_burn_call(c, *accounts, amount),
        !burn_schema_ok(*accounts) ==> r == Err::<CallContext, ProxyError>(
            ProxyError::SchemaViolation,
        ),
        burn_schema_ok(*accounts) && accounts.token_program.key@ != spl_token_id() ==> r
            == Err::<CallContext, ProxyError>(ProxyError::IncorrectProgramId),
{
    if !accounts.schema_ok() {
        return Err(ProxyError::SchemaViolation);
    }
    spl::spl_burn(accounts, amount)
}

/// Change one authority of a token account or mint to `new_authority` (or
/// remove it) under the current authority, by one delegated token-program
/// call carrying the inputs verbatim.
pub fn proxy_set_authority(
    accounts: &ProxySetAuthority,
    authority_type: AuthorityType,
    new_authority: Option<[u8; 32]>,
) -> (r: Result<CallContext, ProxyError>)
    ensures
        r is Ok <==> set_authority_schema_ok(*accounts) && accounts.token_program.key@
            == spl_token_id(),
        r matches Ok(c) ==> is_set_authority_call(c, *accounts, authority_type, new_authority),
        !set_authority_schema_ok(*accounts) ==> r == Err::<CallContext, ProxyError>(
            ProxyError::SchemaViolation,
        ),
        set_authority_schema_ok(*accounts) && accounts.token_program.key@ != spl_token_id() ==> r
            == Err::<CallContext, ProxyError>(ProxyError::IncorrectProgramId),
{
    if !accounts.schema_ok() {
        return Err(ProxyError::SchemaViolation);
    }
    spl::spl_set_authority(accounts, authority_type, new_authority)
}

} // verus!
