//! Messages and the walk over their instructions.
//!
//! A message holds a header, a table of accounts and a list of
//! instructions. The walk takes the instructions in message order. Each one
//! is resolved against the table, dropped unless it belongs to the program
//! that the session follows, and decoded. Every base-in swap gives one
//! event, so a message may give several, and gives them in the order of its
//! instructions. An instruction that cannot be resolved or decoded is passed
//! over and does not stop the walk.

use vstd::prelude::*;
use crate::account::{key_table, AccountId, MessageHeader};
use crate::decoder::{decode_swap, raydium_decoding, swap_event_of};
use crate::event::{event_views, DecodedEvent, DecodedEventView};
use crate::filter::accepts;
use crate::instruction::{
    indices_in_range,
    resolve_instruction,
    resolved,
    CompiledInstruction,
    CompiledInstructionView,
    ResolvedInstruction,
    ResolvedInstructionView,
};

verus! {

/// The message of a transaction, as far as the walk reads it.
#[derive(Clone, Debug, PartialEq, Eq)]
pub struct TransactionMessage {
    pub header: MessageHeader,
    pub account_keys: Vec<AccountId>,
    pub instructions: Vec<CompiledInstruction>,
}

/// The mathematical value of a [`TransactionMessage`].
pub struct TransactionMessageView {
    pub header: MessageHeader,
    pub account_keys: Seq<Seq<u8>>,
    pub instructions: Seq<CompiledInstructionView>,
}

impl View for TransactionMessage {
    type V = TransactionMessageView;

    open spec fn view(&self) -> TransactionMessageView {
        TransactionMessageView {
            header: self.header,
            account_keys: key_table(self.account_keys@),
            instructions: self.instructions@.map_values(|c: CompiledInstruction| c@),
        }
    }
}

impl TransactionMessage {
    /// The header of the message is consistent.
    pub open spec fn wf(&self) -> bool {
        self.header.wf()
    }
}

/// The instruction that `cix` of `msg` hands to the decoder of `target`:
/// its resolved form if all its indices are in range and its program is
/// `target`, and nothing otherwise.
pub open spec fn accepted_instruction(
    msg: TransactionMessageView,
    cix: CompiledInstructionView,
    target: Seq<u8>,
) -> Option<ResolvedInstructionView> {
    match resolved(msg.account_keys, msg.header, cix) {
        Some(ix) => if ix.program_id == target {
            Some(ix)
        } else {
            None
        },
        None => None,
    }
}

/// The event that `cix` of `msg` gives.
pub open spec fn instruction_event(
    msg: TransactionMessageView,
    cix: CompiledInstructionView,
    target: Seq<u8>,
    signature: Seq<char>,
    slot: u64,
) -> Option<DecodedEventView> {
    match accepted_instruction(msg, cix, target) {
        Some(ix) => swap_event_of(raydium_decoding(ix), signature, slot),
        None => None,
    }
}

/// The events that the first `n` instructions of `msg` give, in message
/// order.
pub open spec fn events_of_prefix(
    msg: TransactionMessageView,
    n: nat,
    target: Seq<u8>,
    signature: Seq<char>,
    slot: u64,
) -> Seq<DecodedEventView>
    decreases n,
{
    if n == 0 {
        Seq::empty()
    } else {
        let before = events_of_prefix(msg, (n - 1) as nat, target, signature, slot);
        match instruction_event(msg, msg.instructions[n - 1], target, signature, slot) {
            Some(event) => before.push(event),
            None => before,
        }
    }
}

/// The events that `msg` gives, in message order.
pub open spec fn transaction_events(
    msg: TransactionMessageView,
    target: Seq<u8>,
    signature: Seq<char>,
    slot: u64,
) -> Seq<DecodedEventView> {
    events_of_prefix(msg, msg.instructions.len(), target, signature, slot)
}

/// An instruction whose program is not `target` is not handed to the
/// decoder and gives no event, whatever its payload holds.
pub proof fn lemma_foreign_program_gives_no_event(
    msg: TransactionMessageView,
    cix: CompiledInstructionView,
    target: Seq<u8>,
    signature: Seq<char>,
    slot: u64,
)
    requires
        cix.program_id_index < msg.account_keys.len(),
        msg.account_keys[cix.program_id_index as int] != target,
    ensures
        accepted_instruction(msg, cix, target) is None,
        instruction_event(msg, cix, target, signature, slot) is None,
{
}

/// An instruction with an index outside the account table of its message
/// is skipped: it is not handed to the decoder and gives no event.
pub proof fn lemma_out_of_range_gives_no_event(
    msg: TransactionMessageView,
    cix: CompiledInstructionView,
    target: Seq<u8>,
    signature: Seq<char>,
    slot: u64,
)
    requires
        !indices_in_range(msg.account_keys.len(), cix),
    ensures
        accepted_instruction(msg, cix, target) is None,
        instruction_event(msg, cix, target, signature, slot) is None,
{
}

/// A message none of whose instructions is accepted for `target` gives no
/// event.
pub proof fn lemma_nothing_accepted_gives_no_event(
    msg: TransactionMessageView,
    n: nat,
    target: Seq<u8>,
    signature: Seq<char>,
    slot: u64,
)
    requires
        n <= msg.instructions.len(),
        forall|j: int|
            0 <= j < n ==> accepted_instruction(msg, #[trigger] msg.instructions[j], target)
                is None,
    ensures
        events_of_prefix(msg, n, target, signature, slot) == Seq::<DecodedEventView>::empty(),
    decreases n,
{
    if n > 0 {
        lemma_nothing_accepted_gives_no_event(msg, (n - 1) as nat, target, signature, slot);
    }
}

/// Resolves the instruction `cix` of `msg` and keeps it only if it belongs
/// to `target`.
///
/// The result is `None` if an index of `cix` lies outside the account
/// table of `msg`, and `None` if the program of `cix` is not `target`,
/// whatever the payload holds.
pub fn convert_compiled_instruction(
    cix: &CompiledInstruction,
    msg: &TransactionMessage,
    target: &AccountId,
) -> (ix: Option<ResolvedInstruction>)
    requires
        msg.wf(),
    ensures
        match ix {
            Some(ix) => accepted_instruction(msg@, cix@, target@) == Some(ix@),
            None => accepted_instruction(msg@, cix@, target@) is None,
        },
        ix is Some ==> indices_in_range(msg.account_keys@.len(), cix@),
        ix matches Some(ix) ==> ix.program_id@ == target@,
{
    match resolve_instruction(msg.account_keys.as_slice(), &msg.header, cix) {
        Ok(ix) => {
            if accepts(&ix.program_id, target) {
                Some(ix)
            } else {
                None
            }
        },
        Err(_) => None,
    }
}

/// Walks the instructions of `msg`, found under `signature` in `slot`, and
/// collects the events of the base-in swaps of `target` among them.
///
/// The events come in the order of the instructions that gave them. An
/// instruction gives no event if it cannot be resolved, if it belongs to
/// another program, or if its payload is no base-in swap.
pub fn decode_transaction(
    signature: &str,
    msg: &TransactionMessage,
    slot: u64,
    target: &AccountId,
) -> (events: Vec<DecodedEvent>)
    requires
        msg.wf(),
    ensures
        event_views(events@) == transaction_events(msg@, target@, signature@, slot),
{
    let mut events: Vec<DecodedEvent> = Vec::new();
    let mut j: usize = 0;
    assert(event_views(events@) =~= events_of_prefix(msg@, 0, target@, signature@, slot));
    while j < msg.instructions.len()
        invariant
            msg.wf(),
            j <= msg.instructions@.len(),
            event_views(events@) == events_of_prefix(msg@, j as nat, target@, signature@, slot),
        decreases msg.instructions@.len() - j,
    {
        let cix: &CompiledInstruction = &msg.instructions[j];
        let ghost before = events@;
        assert(msg@.instructions[j as int] == cix@);
        match convert_compiled_instruction(cix, msg, target) {
            Some(ix) => {
                match decode_swap(&ix, signature, slot) {
                    Some(event) => {
                        events.push(event);
                        assert(event_views(events@) =~= event_views(before).push(event@));
                    },
                    None => {},
                }
            },
            None => {},
        }
        j += 1;
    }
    events
}

} // verus!
