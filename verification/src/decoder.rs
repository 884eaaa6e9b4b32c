//! The decoder of the program's payloads, and what this library takes from
//! it.
//!
//! The payload of an instruction is opaque to everyone but its program.
//! The decoder for the Raydium AMM v4 program turns a resolved instruction
//! into one of the program's instruction kinds, or into nothing where the
//! payload fits none of them. Of these kinds only the base-in swap gives an
//! event; every other kind is passed over.

use vstd::prelude::*;
use vstd::string::StringExecFns;
use crate::event::{DecodedEvent, DecodedEventView};
use crate::instruction::{ResolvedInstruction, ResolvedInstructionView};

verus! {

/// What the decoder made of an instruction.
#[derive(Clone, Copy, Debug, PartialEq, Eq, Structural)]
pub enum DecodedInstruction {
    /// A swap of a fixed input amount for at least a given output amount.
    SwapBaseIn { amount_in: u64, minimum_amount_out: u64 },
    /// Any other instruction of the program.
    Other,
}

/// What the decoder of the Raydium AMM v4 program makes of the instruction
/// `ix`: `None` where it recognises no instruction of the program in it.
pub uninterp spec fn raydium_decoding(ix: ResolvedInstructionView) -> Option<DecodedInstruction>;

/// Hands `ix` to `RaydiumAmmV4Decoder::decode_instruction` of
/// `carbon_raydium_amm_v4_decoder`, as an `Instruction` with the same
/// program, accounts and payload, and keeps of the answer the kind and, for
/// a base-in swap, its two amounts. The result depends on `ix` alone.
#[verifier::external_body]
fn decode_raydium(ix: &ResolvedInstruction) -> (decoded: Option<DecodedInstruction>)
    ensures
        decoded == raydium_decoding(ix@),
{
    let outside = solana_program::instruction::Instruction {
        program_id: solana_sdk::pubkey::Pubkey::new_from_array(ix.program_id.bytes),
        accounts: ix.accounts.iter().map(|a| solana_program::instruction::AccountMeta {
            pubkey: solana_sdk::pubkey::Pubkey::new_from_array(a.pubkey.bytes),
            is_signer: a.is_signer,
            is_writable: a.is_writable,
        }).collect(),
        data: ix.data.clone(),
    };
    match carbon_core::instruction::InstructionDecoder::decode_instruction(
        &carbon_raydium_amm_v4_decoder::RaydiumAmmV4Decoder, &outside)? {
        carbon_raydium_amm_v4_decoder::instructions::RaydiumAmmV4Instruction::SwapBaseIn { data, .. } =>
            Some(DecodedInstruction::SwapBaseIn { amount_in: data.amount_in, minimum_amount_out: data.minimum_amount_out }),
        _ => Some(DecodedInstruction::Other),
    }
}

/// The event that a decoded instruction gives, found under `signature` in
/// `slot`: one for a base-in swap, with its two amounts, and none for
/// anything else.
pub open spec fn swap_event_of(
    decoded: Option<DecodedInstruction>,
    signature: Seq<char>,
    slot: u64,
) -> Option<DecodedEventView> {
    match decoded {
        Some(DecodedInstruction::SwapBaseIn { amount_in, minimum_amount_out }) => Some(
            DecodedEventView { signature, slot, amount_in, minimum_amount_out },
        ),
        _ => None,
    }
}

/// Makes the event of a decoded instruction that was found under
/// `signature` in `slot`.
///
/// Only a base-in swap gives an event. An instruction of another kind, or
/// one that the decoder did not recognise, gives none.
pub fn swap_event(decoded: Option<DecodedInstruction>, signature: &str, slot: u64) -> (event:
    Option<DecodedEvent>)
    ensures
        match event {
            Some(e) => swap_event_of(decoded, signature@, slot) == Some(e@),
            None => swap_event_of(decoded, signature@, slot) is None,
        },
{
    match decoded {
        Some(DecodedInstruction::SwapBaseIn { amount_in, minimum_amount_out }) => Some(
            DecodedEvent {
                signature: String::from_str(signature),
                slot,
                amount_in,
                minimum_amount_out,
            },
        ),
        _ => None,
    }
}

/// Decodes the payload of a resolved instruction of the program and makes
/// the event it gives, if any.
pub fn decode_swap(ix: &ResolvedInstruction, signature: &str, slot: u64) -> (event: Option<
    DecodedEvent,
>)
    ensures
        match event {
            Some(e) => swap_event_of(raydium_decoding(ix@), signature@, slot) == Some(e@),
            None => swap_event_of(raydium_decoding(ix@), signature@, slot) is None,
        },
{
    swap_event(decode_raydium(ix), signature, slot)
}

} // verus!
