//! The authority kinds a token account or mint can change, and their wire
//! codes in the token program's instruction encoding.

use vstd::prelude::*;

verus! {

/// The kind of authority a set-authority operation changes. Mirrors the token
/// library's own enumeration, variant for variant.
#[derive(Clone, Copy, Debug, PartialEq, Eq)]
pub enum AuthorityType {
    /// Authority to mint new tokens.
    MintTokens,
    /// Authority to freeze a token account.
    FreezeAccount,
    /// Owner of a token account.
    AccountOwner,
    /// Authority to close a token account.
    CloseAccount,
}

/// The wire code under which the token library serializes each authority
/// kind inside a set-authority instruction.
pub open spec fn spec_authority_code(kind: AuthorityType) -> u8 {
    match kind {
        AuthorityType::MintTokens => 0,
        AuthorityType::FreezeAccount => 1,
        AuthorityType::AccountOwner => 2,
        AuthorityType::CloseAccount => 3,
    }
}

/// The wire code of an authority kind.
pub fn authority_code(kind: AuthorityType) -> (code: u8)
    ensures
        code == spec_authority_code(kind),
{
    match kind {
        AuthorityType::MintTokens => 0,
        AuthorityType::FreezeAccount => 1,
        AuthorityType::AccountOwner => 2,
        AuthorityType::CloseAccount => 3,
    }
}

/// The authority mapping is a bijection: distinct local kinds carry distinct
/// wire codes, each kind maps to exactly one code, and every code of the
/// token library's four-variant enumeration is reached from some local kind.
pub proof fn lemma_authority_code_bijective()
    ensures
        forall|a: AuthorityType, b: AuthorityType|
            spec_authority_code(a) == spec_authority_code(b) ==> a == b,
        forall|a: AuthorityType| spec_authority_code(a) < 4,
        spec_authority_code(AuthorityType::MintTokens) == 0,
        spec_authority_code(AuthorityType::FreezeAccount) == 1,
        spec_authority_code(AuthorityType::AccountOwner) == 2,
        spec_authority_code(AuthorityType::CloseAccount) == 3,
{
}

} // verus!
