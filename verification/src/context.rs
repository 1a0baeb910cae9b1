//! The delegated call: its account order and its instruction encoding.
//!
//! A [`CallContext`] is the one sub-call an operation hands to the runtime:
//! the program to invoke, the accounts in the positional order that program
//! expects, and the instruction data bytes. The spec functions here pin down,
//! byte for byte, what the token program's instruction builders produce for
//! each of the four operations.

use vstd::prelude::*;

use crate::accounts::{AccountRef, ProxyBurn, ProxyMintTo, ProxySetAuthority, ProxyTransfer};
use crate::authority::{spec_authority_code, AuthorityType};

verus! {

/// A delegated call, built immediately before dispatch and handed to the
/// runtime to invoke: the callee program, the ordered account list with the
/// roles the callee expects, and the encoded instruction data.
#[derive(Clone, Debug, PartialEq, Eq)]
pub struct CallContext {
    /// The address of the program to invoke.
    pub program_id: [u8; 32],
    /// The accounts of the call, in the callee's positional order.
    pub accounts: Vec<AccountRef>,
    /// The encoded instruction data.
    pub data: Vec<u8>,
}

/// The address of the token program, as the token library declares it.
pub open spec fn spl_token_id() -> Seq<u8> {
    seq![
        6u8, 221u8, 246u8, 225u8, 215u8, 101u8, 161u8, 147u8, 217u8, 203u8, 225u8, 70u8, 206u8,
        235u8, 121u8, 172u8, 28u8, 180u8, 133u8, 237u8, 95u8, 91u8, 55u8, 145u8, 58u8, 140u8,
        245u8, 133u8, 126u8, 255u8, 0u8, 169u8,
    ]
}

/// The little-endian bytes of a 64-bit amount.
pub open spec fn u64_le_bytes(v: u64) -> Seq<u8> {
    seq![
        (v & 0xff) as u8,
        ((v >> 8) & 0xff) as u8,
        ((v >> 16) & 0xff) as u8,
        ((v >> 24) & 0xff) as u8,
        ((v >> 32) & 0xff) as u8,
        ((v >> 40) & 0xff) as u8,
        ((v >> 48) & 0xff) as u8,
        ((v >> 56) & 0xff) as u8,
    ]
}

/// The token program's transfer instruction data: tag 3, then the amount.
pub open spec fn transfer_data(amount: u64) -> Seq<u8> {
    seq![3u8] + u64_le_bytes(amount)
}

/// The token program's mint instruction data: tag 7, then the amount.
pub open spec fn mint_to_data(amount: u64) -> Seq<u8> {
    seq![7u8] + u64_le_bytes(amount)
}

/// The token program's burn instruction data: tag 8, then the amount.
pub open spec fn burn_data(amount: u64) -> Seq<u8> {
    seq![8u8] + u64_le_bytes(amount)
}

/// The token program's set-authority instruction data: tag 6, the authority
/// kind's wire code, then the new authority (1 and its address) or its
/// removal (0).
pub open spec fn set_authority_data(kind: AuthorityType, new_authority: Option<[u8; 32]>) -> Seq<
    u8,
> {
    match new_authority {
        Some(key) => seq![6u8, spec_authority_code(kind), 1u8] + key@,
        None => seq![6u8, spec_authority_code(kind), 0u8],
    }
}

/// The delegated call of a transfer: the token program, the debited and
/// credited accounts writable, the authority as sole signer, and the
/// transfer data for `amount` — every argument passed through verbatim.
pub open spec fn is_transfer_call(c: CallContext, a: ProxyTransfer, amount: u64) -> bool {
    &&& c.program_id == a.token_program.key
    &&& c.accounts@ == seq![
        AccountRef { key: a.from.key, is_signer: false, is_writable: true },
        AccountRef { key: a.to.key, is_signer: false, is_writable: true },
        AccountRef { key: a.authority.key, is_signer: true, is_writable: false },
    ]
    &&& c.data@ == transfer_data(amount)
}

/// The delegated call of a mint: the token program, the mint and the credited
/// account writable, the authority as sole signer, and the mint data for
/// `amount`.
pub open spec fn is_mint_to_call(c: CallContext, a: ProxyMintTo, amount: u64) -> bool {
    &&& c.program_id == a.token_program.key
    &&& c.accounts@ == seq![
        AccountRef { key: a.mint.key, is_signer: false, is_writable: true },
        AccountRef { key: a.to.key, is_signer: false, is_writable: true },
        AccountRef { key: a.authority.key, is_signer: true, is_writable: false },
    ]
    &&& c.data@ == mint_to_data(amount)
}

/// The delegated call of a burn: the token program, the debited account
/// first and the mint second, both writable, the authority as sole signer,
/// and the burn data for `amount`.
pub open spec fn is_burn_call(c: CallContext, a: ProxyBurn, amount: u64) -> bool {
    &&& c.program_id == a.token_program.key
    &&& c.accounts@ == seq![
        AccountRef { key: a.to.key, is_signer: false, is_writable: true },
        AccountRef { key: a.mint.key, is_signer: false, is_writable: true },
        AccountRef { key: a.authority.key, is_signer: true, is_writable: false },
    ]
    &&& c.data@ == burn_data(amount)
}

/// The delegated call of an authority change: the token program, the owned
/// account or mint writable, the current authority as sole signer, and the
/// set-authority data for the kind and the optional new authority.
pub open spec fn is_set_authority_call(
    c: CallContext,
    a: ProxySetAuthority,
    kind: AuthorityType,
    new_authority: Option<[u8; 32]>,
) -> bool {
    &&& c.program_id == a.token_program.key
    &&& c.accounts@ == seq![
        AccountRef { key: a.account_or_mint.key, is_signer: false, is_writable: true },
        AccountRef { key: a.current_authority.key, is_signer: true, is_writable: false },
    ]
    &&& c.data@ == set_authority_data(kind, new_authority)
}

/// The little-endian encoding is lossless: the bytes a delegated call
/// carries determine the amount that was passed in, so pass-through keeps
/// the amount verbatim.
pub proof fn lemma_u64_le_bytes_injective(a: u64, b: u64)
    requires
        u64_le_bytes(a) == u64_le_bytes(b),
    ensures
        a == b,
{
    assert(u64_le_bytes(a)[0] == u64_le_bytes(b)[0]);
    assert(u64_le_bytes(a)[1] == u64_le_bytes(b)[1]);
    assert(u64_le_bytes(a)[2] == u64_le_bytes(b)[2]);
    assert(u64_le_bytes(a)[3] == u64_le_bytes(b)[3]);
    assert(u64_le_bytes(a)[4] == u64_le_bytes(b)[4]);
    assert(u64_le_bytes(a)[5] == u64_le_bytes(b)[5]);
    assert(u64_le_bytes(a)[6] == u64_le_bytes(b)[6]);
    assert(u64_le_bytes(a)[7] == u64_le_bytes(b)[7]);
    assert(a == b) by (bit_vector)
        requires
            (a & 0xff) as u8 == (b & 0xff) as u8,
            ((a >> 8) & 0xff) as u8 == ((b >> 8) & 0xff) as u8,
            ((a >> 16) & 0xff) as u8 == ((b >> 16) & 0xff) as u8,
            ((a >> 24) & 0xff) as u8 == ((b >> 24) & 0xff) as u8,
            ((a >> 32) & 0xff) as u8 == ((b >> 32) & 0xff) as u8,
            ((a >> 40) & 0xff) as u8 == ((b >> 40) & 0xff) as u8,
            ((a >> 48) & 0xff) as u8 == ((b >> 48) & 0xff) as u8,
            ((a >> 56) & 0xff) as u8 == ((b >> 56) & 0xff) as u8,
    ;
}

/// The delegated call is a function of the operation's inputs alone: two
/// invocations on the same account set and amount issue byte-for-byte the
/// same single sub-call, so repeating an operation repeats its effect — the
/// dispatcher neither deduplicates nor retries.
pub proof fn lemma_transfer_call_deterministic(
    c1: CallContext,
    c2: CallContext,
    a: ProxyTransfer,
    amount: u64,
)
    requires
        is_transfer_call(c1, a, amount),
        is_transfer_call(c2, a, amount),
    ensures
        c1.program_id == c2.program_id,
        c1.accounts@ == c2.accounts@,
        c1.data@ == c2.data@,
{
}

/// As for transfers: a mint is pinned by its inputs alone.
pub proof fn lemma_mint_to_call_deterministic(
    c1: CallContext,
    c2: CallContext,
    a: ProxyMintTo,
    amount: u64,
)
    requires
        is_mint_to_call(c1, a, amount),
        is_mint_to_call(c2, a, amount),
    ensures
        c1.program_id == c2.program_id,
        c1.accounts@ == c2.accounts@,
        c1.data@ == c2.data@,
{
}

/// As for transfers: a burn is pinned by its inputs alone.
pub proof fn lemma_burn_call_deterministic(
    c1: CallContext,
    c2: CallContext,
    a: ProxyBurn,
    amount: u64,
)
    requires
        is_burn_call(c1, a, amount),
        is_burn_call(c2, a, amount),
    ensures
        c1.program_id == c2.program_id,
        c1.accounts@ == c2.accounts@,
        c1.data@ == c2.data@,
{
}

/// As for transfers: an authority change is pinned by its inputs alone.
pub proof fn lemma_set_authority_call_deterministic(
    c1: CallContext,
    c2: CallContext,
    a: ProxySetAuthority,
    kind: AuthorityType,
    new_authority: Option<[u8; 32]>,
)
    requires
        is_set_authority_call(c1, a, kind, new_authority),
        is_set_authority_call(c2, a, kind, new_authority),
    ensures
        c1.program_id == c2.program_id,
        c1.accounts@ == c2.accounts@,
        c1.data@ == c2.data@,
{
}

} // verus!
