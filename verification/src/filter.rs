//! The program filter: which instructions are looked at at all.
//!
//! A session follows one program. An instruction is handed on to the
//! decoder only if its resolved program is that program, byte for byte.

use vstd::prelude::*;
use crate::account::AccountId;

verus! {

/// The address of the Raydium AMM v4 program, in base58.
pub const RAYDIUM_PROGRAM_ID: &'static str = "675kPX9MHTjS2zt1qfr1NYHuzeLXfQM9H24wFSUt1Mp8";

/// The 32 bytes that the base58 text `text` stands for: `None` where
/// `text` is no base58 numeral of exactly 32 bytes.
pub uninterp spec fn base58_account(text: Seq<char>) -> Option<Seq<u8>>;

/// Parses `text` with the `FromStr` of `solana_sdk::pubkey::Pubkey` and
/// keeps the bytes of the key. The result depends on `text` alone.
#[verifier::external_body]
fn parse_account_id(text: &str) -> (id: Option<AccountId>)
    ensures
        match id {
            Some(id) => base58_account(text@) == Some(id@),
            None => base58_account(text@) is None,
        },
{
    let key: solana_sdk::pubkey::Pubkey = text.parse().ok()?;
    Some(AccountId { bytes: key.to_bytes() })
}

/// The identifier of the Raydium AMM v4 program: what its base58 address
/// stands for.
pub fn raydium_program_id() -> (id: Option<AccountId>)
    ensures
        match id {
            Some(id) => base58_account(RAYDIUM_PROGRAM_ID@) == Some(id@),
            None => base58_account(RAYDIUM_PROGRAM_ID@) is None,
        },
{
    parse_account_id(RAYDIUM_PROGRAM_ID)
}

/// Tells whether an instruction of `program_id` belongs to the program
/// `target`: only if the two are the same identifier.
pub fn accepts(program_id: &AccountId, target: &AccountId) -> (accepted: bool)
    ensures
        accepted == (program_id@ == target@),
{
    *program_id == *target
}

} // verus!
