//! Account references and the per-operation account sets.
//!
//! Every on-ledger account is handed to an operation as an [`AccountRef`]: its
//! 32-byte address together with the signer and writable capability flags the
//! runtime granted for this call. Each operation declares the exact set of
//! accounts it needs as a struct, and a schema predicate over the flags says
//! when that set is acceptable: the accounts that must have signed must carry
//! the signer flag, and the accounts the delegated call mutates must carry the
//! writable flag.

use vstd::prelude::*;

verus! {

/// A reference to an on-ledger account: its address and the capability flags
/// under which it was passed into the current call.
#[derive(Clone, Copy, Debug, PartialEq, Eq)]
pub struct AccountRef {
    /// The account's 32-byte address.
    pub key: [u8; 32],
    /// Whether this account signed the current call.
    pub is_signer: bool,
    /// Whether this account may be mutated by the current call.
    pub is_writable: bool,
}

/// The account set of a transfer: move `amount` tokens from `from` to `to`,
/// authorized by `authority`.
#[derive(Clone, Copy, Debug, PartialEq, Eq)]
pub struct ProxyTransfer {
    /// The owner or delegate of `from`; must have signed.
    pub authority: AccountRef,
    /// The token account debited; must be writable.
    pub from: AccountRef,
    /// The token account credited; must be writable.
    pub to: AccountRef,
    /// The token program the call is delegated to.
    pub token_program: AccountRef,
}

/// The account set of a mint: create `amount` new tokens of `mint` in `to`,
/// authorized by `authority`.
#[derive(Clone, Copy, Debug, PartialEq, Eq)]
pub struct ProxyMintTo {
    /// The mint authority; must have signed.
    pub authority: AccountRef,
    /// The mint whose supply grows; must be writable.
    pub mint: AccountRef,
    /// The token account credited; must be writable.
    pub to: AccountRef,
    /// The token program the call is delegated to.
    pub token_program: AccountRef,
}

/// The account set of a burn: destroy `amount` tokens of `mint` held in `to`,
/// authorized by `authority`.
#[derive(Clone, Copy, Debug, PartialEq, Eq)]
pub struct ProxyBurn {
    /// The owner or delegate of `to`; must have signed.
    pub authority: AccountRef,
    /// The mint whose supply shrinks; must be writable.
    pub mint: AccountRef,
    /// The token account debited; must be writable.
    pub to: AccountRef,
    /// The token program the call is delegated to.
    pub token_program: AccountRef,
}

/// The account set of an authority change on a token account or mint.
#[derive(Clone, Copy, Debug, PartialEq, Eq)]
pub struct ProxySetAuthority {
    /// The authority being replaced; must have signed.
    pub current_authority: AccountRef,
    /// The token account or mint whose authority changes; must be writable.
    pub account_or_mint: AccountRef,
    /// The token program the call is delegated to.
    pub token_program: AccountRef,
}

/// The transfer schema: the authority signed, and both token accounts are
/// writable.
pub open spec fn transfer_schema_ok(a: ProxyTransfer) -> bool {
    a.authority.is_signer && a.from.is_writable && a.to.is_writable
}

/// The mint schema: the authority signed, and the mint and the credited
/// account are writable.
pub open spec fn mint_to_schema_ok(a: ProxyMintTo) -> bool {
    a.authority.is_signer && a.mint.is_writable && a.to.is_writable
}

/// The burn schema: the authority signed, and the mint and the debited
/// account are writable.
pub open spec fn burn_schema_ok(a: ProxyBurn) -> bool {
    a.authority.is_signer && a.mint.is_writable && a.to.is_writable
}

/// The set-authority schema: the current authority signed, and the owned
/// account or mint is writable.
pub open spec fn set_authority_schema_ok(a: ProxySetAuthority) -> bool {
    a.current_authority.is_signer && a.account_or_mint.is_writable
}

impl ProxyTransfer {
    /// Whether this account set meets the transfer schema.
    pub fn schema_ok(&self) -> (ok: bool)
        ensures
            ok == transfer_schema_ok(*self),
    {
        self.authority.is_signer && self.from.is_writable && self.to.is_writable
    }
}

impl ProxyMintTo {
    /// Whether this account set meets the mint schema.
    pub fn schema_ok(&self) -> (ok: bool)
        ensures
            ok == mint_to_schema_ok(*self),
    {
        self.authority.is_signer && self.mint.is_writable && self.to.is_writable
    }
}

impl ProxyBurn {
    /// Whether this account set meets the burn schema.
    pub fn schema_ok(&self) -> (ok: bool)
        ensures
            ok == burn_schema_ok(*self),
    {
        self.authority.is_signer && self.mint.is_writable && self.to.is_writable
    }
}

impl ProxySetAuthority {
    /// Whether this account set meets the set-authority schema.
    pub fn schema_ok(&self) -> (ok: bool)
        ensures
            ok == set_authority_schema_ok(*self),
    {
        self.current_authority.is_signer && self.account_or_mint.is_writable
    }
}

} // verus!
