//! Instructions, compact and resolved, and the step from one to the other.
//!
//! Inside a message an instruction names its program and its accounts by
//! their indices in the message's account table. Resolving it looks each
//! index up and attaches to every account the permissions that the message
//! header gives to that index. The indices come from the network: each is
//! checked against the table before it is used, and an instruction with an
//! index outside the table is rejected as a whole.

use vstd::prelude::*;
use vstd::slice::slice_to_vec;
use crate::account::{account_at, key_table, AccountId, AccountMeta, AccountMetaView, MessageHeader};

verus! {

/// An instruction as a message stores it.
#[derive(Clone, Debug, PartialEq, Eq)]
pub struct CompiledInstruction {
    /// Index of the program in the account table.
    pub program_id_index: u8,
    /// Indices of the accounts in the account table, in call order.
    pub accounts: Vec<u8>,
    /// The payload, which only the program can interpret.
    pub data: Vec<u8>,
}

/// The mathematical value of a [`CompiledInstruction`].
pub struct CompiledInstructionView {
    pub program_id_index: u8,
    pub accounts: Seq<u8>,
    pub data: Seq<u8>,
}

impl View for CompiledInstruction {
    type V = CompiledInstructionView;

    open spec fn view(&self) -> CompiledInstructionView {
        CompiledInstructionView {
            program_id_index: self.program_id_index,
            accounts: self.accounts@,
            data: self.data@,
        }
    }
}

/// An instruction with its program and accounts looked up.
#[derive(Clone, Debug, PartialEq, Eq)]
pub struct ResolvedInstruction {
    pub program_id: AccountId,
    pub accounts: Vec<AccountMeta>,
    pub data: Vec<u8>,
}

/// The mathematical value of a [`ResolvedInstruction`].
pub struct ResolvedInstructionView {
    pub program_id: Seq<u8>,
    pub accounts: Seq<AccountMetaView>,
    pub data: Seq<u8>,
}

impl View for ResolvedInstruction {
    type V = ResolvedInstructionView;

    open spec fn view(&self) -> ResolvedInstructionView {
        ResolvedInstructionView {
            program_id: self.program_id@,
            accounts: self.accounts@.map_values(|a: AccountMeta| a@),
            data: self.data@,
        }
    }
}

/// Why an instruction could not be resolved.
#[derive(Clone, Copy, Debug, PartialEq, Eq, Structural)]
pub enum ResolveError {
    /// The program index, or one of the account indices, lies outside the
    /// account table.
    IndexOutOfRange,
}

/// Every index that `cix` uses lies inside a table of `table_len` entries.
pub open spec fn indices_in_range(table_len: nat, cix: CompiledInstructionView) -> bool {
    &&& cix.program_id_index < table_len
    &&& forall|j: int| 0 <= j < cix.accounts.len() ==> (#[trigger] cix.accounts[j]) < table_len
}

/// The accounts of `cix`, in its own order, each with the permissions that
/// `header` gives to its index.
pub open spec fn resolved_accounts(
    keys: Seq<Seq<u8>>,
    header: MessageHeader,
    cix: CompiledInstructionView,
) -> Seq<AccountMetaView> {
    Seq::new(cix.accounts.len(), |j: int| account_at(keys, header, cix.accounts[j] as int))
}

/// What `cix` resolves to against the table `keys` under `header`: nothing
/// if an index is out of range, else the program, the accounts and the
/// unchanged payload.
pub open spec fn resolved(
    keys: Seq<Seq<u8>>,
    header: MessageHeader,
    cix: CompiledInstructionView,
) -> Option<ResolvedInstructionView> {
    if indices_in_range(keys.len(), cix) {
        Some(
            ResolvedInstructionView {
                program_id: keys[cix.program_id_index as int],
                accounts: resolved_accounts(keys, header, cix),
                data: cix.data,
            },
        )
    } else {
        None
    }
}

/// Every account of a resolved instruction is the table entry that its
/// index names, signs exactly if that index is below the number of
/// required signatures, and is writable exactly if that index is below the
/// number of writable signers plus the number of read-only accounts that do
/// not sign.
pub proof fn lemma_resolved_permissions(
    keys: Seq<Seq<u8>>,
    header: MessageHeader,
    cix: CompiledInstructionView,
    j: int,
)
    requires
        header.wf(),
        indices_in_range(keys.len(), cix),
        0 <= j < cix.accounts.len(),
    ensures
        resolved(keys, header, cix) is Some,
        resolved(keys, header, cix)->0.accounts.len() == cix.accounts.len(),
        resolved(keys, header, cix)->0.accounts[j].pubkey == keys[cix.accounts[j] as int],
        resolved(keys, header, cix)->0.accounts[j].is_signer == (cix.accounts[j]
            < header.num_required_signatures),
        resolved(keys, header, cix)->0.accounts[j].is_writable == (cix.accounts[j] < (
        header.num_required_signatures - header.num_readonly_signed_accounts)
            + header.num_readonly_unsigned_accounts),
{
}

/// An instruction with an index outside the account table resolves to
/// nothing, whichever index it is and whatever else the instruction holds.
pub proof fn lemma_out_of_range_is_rejected(
    keys: Seq<Seq<u8>>,
    header: MessageHeader,
    cix: CompiledInstructionView,
)
    requires
        cix.program_id_index >= keys.len() || exists|j: int|
            0 <= j < cix.accounts.len() && #[trigger] cix.accounts[j] >= keys.len(),
    ensures
        resolved(keys, header, cix) is None,
{
}

/// Resolves `cix` against the account table `keys` of a message with the
/// given `header`.
///
/// Fails exactly when the program index or any account index is not an
/// index of the table. Otherwise the result holds the program's identifier,
/// one account for each index of `cix` in the same order, with
/// `is_signer` and `is_writable` as the header derives them from the index,
/// and the payload byte for byte.
pub fn resolve_instruction(
    keys: &[AccountId],
    header: &MessageHeader,
    cix: &CompiledInstruction,
) -> (result: Result<ResolvedInstruction, ResolveError>)
    requires
        header.wf(),
    ensures
        result is Ok <==> indices_in_range(keys@.len(), cix@),
        result matches Ok(ix) ==> resolved(key_table(keys@), *header, cix@) == Some(ix@),
        result matches Err(e) ==> e == ResolveError::IndexOutOfRange && resolved(
            key_table(keys@),
            *header,
            cix@,
        ) is None,
{
    let program_index: usize = cix.program_id_index as usize;
    if program_index >= keys.len() {
        return Err(ResolveError::IndexOutOfRange);
    }
    let program_id: AccountId = keys[program_index];
    let mut accounts: Vec<AccountMeta> = Vec::new();
    let mut j: usize = 0;
    while j < cix.accounts.len()
        invariant
            header.wf(),
            j <= cix.accounts@.len(),
            accounts@.len() == j,
            forall|k: int| 0 <= k < j ==> (#[trigger] cix.accounts@[k]) < keys@.len(),
            forall|k: int|
                0 <= k < j ==> (#[trigger] accounts@[k])@ == account_at(
                    key_table(keys@),
                    *header,
                    cix.accounts@[k] as int,
                ),
        decreases cix.accounts@.len() - j,
    {
        let index: usize = cix.accounts[j] as usize;
        if index >= keys.len() {
            return Err(ResolveError::IndexOutOfRange);
        }
        accounts.push(
            AccountMeta {
                pubkey: keys[index],
                is_signer: header.signer_at(index),
                is_writable: header.writable_at(index),
            },
        );
        j += 1;
    }
    let data: Vec<u8> = slice_to_vec(cix.data.as_slice());
    let ix = ResolvedInstruction { program_id, accounts, data };
    proof {
        assert(ix@.accounts =~= resolved_accounts(key_table(keys@), *header, cix@));
    }
    Ok(ix)
}

} // verus!
