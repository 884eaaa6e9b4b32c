//! Account identifiers and the positional permission rules of a message.
//!
//! A message lists its accounts once, in a table. Where an account stands in
//! that table decides what an instruction may do with it: signers come first
//! (writable signers before read-only signers), then the accounts that do not
//! sign (writable before read-only). The three counts of the message header
//! mark the borders between these four groups.

use vstd::prelude::*;
use vstd::std_specs::cmp::PartialEqSpecImpl;

verus! {

/// The address of an account or a program: 32 bytes.
#[derive(Clone, Copy, Debug)]
pub struct AccountId {
    pub bytes: [u8; 32],
}

impl View for AccountId {
    type V = Seq<u8>;

    open spec fn view(&self) -> Seq<u8> {
        self.bytes@
    }
}

impl AccountId {
    /// An identifier made of the given bytes.
    pub fn new(bytes: [u8; 32]) -> (id: AccountId)
        ensures
            id.bytes == bytes,
            id@ == bytes@,
    {
        AccountId { bytes }
    }
}

impl PartialEq for AccountId {
    fn eq(&self, other: &AccountId) -> (r: bool) {
        let mut i: usize = 0;
        while i < 32
            invariant
                i <= 32,
                forall|j: int| 0 <= j < i ==> self.bytes@[j] == other.bytes@[j],
            decreases 32 - i,
        {
            if self.bytes[i] != other.bytes[i] {
                return false;
            }
            i += 1;
        }
        assert(self.bytes@ =~= other.bytes@);
        true
    }
}

impl PartialEqSpecImpl for AccountId {
    open spec fn obeys_eq_spec() -> bool {
        true
    }

    open spec fn eq_spec(&self, other: &AccountId) -> bool {
        self@ == other@
    }
}

impl Eq for AccountId {

}

/// The three counts at the head of a message.
///
/// They place every entry of the account table in one of four groups, by its
/// index alone.
#[derive(Clone, Copy, Debug, PartialEq, Eq, Structural)]
pub struct MessageHeader {
    /// How many entries, counted from the start of the table, sign.
    pub num_required_signatures: u8,
    /// How many of the signing entries, the last ones, are read-only.
    pub num_readonly_signed_accounts: u8,
    /// How many of the entries that do not sign are read-only.
    pub num_readonly_unsigned_accounts: u8,
}

impl MessageHeader {
    /// A header cannot declare more read-only signers than signers.
    pub open spec fn wf(&self) -> bool {
        self.num_readonly_signed_accounts <= self.num_required_signatures
    }

    /// The number of signing entries.
    pub open spec fn num_signers(&self) -> int {
        self.num_required_signatures as int
    }

    /// The number of signing entries that are writable.
    pub open spec fn num_writable_signers(&self) -> int {
        self.num_signers() - self.num_readonly_signed_accounts
    }

    /// The index below which an entry counts as writable.
    pub open spec fn num_writable_accounts(&self) -> int {
        self.num_writable_signers() + self.num_readonly_unsigned_accounts
    }

    /// Whether the entry at `index` signs the transaction.
    pub open spec fn is_signer(&self, index: int) -> bool {
        index < self.num_signers()
    }

    /// Whether the entry at `index` may be written by an instruction.
    pub open spec fn is_writable(&self, index: int) -> bool {
        index < self.num_writable_accounts()
    }

    /// A header with the given counts, if they are consistent.
    pub fn new(
        num_required_signatures: u8,
        num_readonly_signed_accounts: u8,
        num_readonly_unsigned_accounts: u8,
    ) -> (header: Option<MessageHeader>)
        ensures
            header is Some <==> num_readonly_signed_accounts <= num_required_signatures,
            header matches Some(h) ==> h.wf() && h.num_required_signatures
                == num_required_signatures && h.num_readonly_signed_accounts
                == num_readonly_signed_accounts && h.num_readonly_unsigned_accounts
                == num_readonly_unsigned_accounts,
    {
        if num_readonly_signed_accounts <= num_required_signatures {
            Some(
                MessageHeader {
                    num_required_signatures,
                    num_readonly_signed_accounts,
                    num_readonly_unsigned_accounts,
                },
            )
        } else {
            None
        }
    }

    /// Tells whether the counts are consistent.
    pub fn is_well_formed(&self) -> (ok: bool)
        ensures
            ok == self.wf(),
    {
        self.num_readonly_signed_accounts <= self.num_required_signatures
    }

    /// Tells whether the entry at `index` of the account table signs.
    pub fn signer_at(&self, index: usize) -> (signer: bool)
        ensures
            signer == self.is_signer(index as int),
            signer == (index < self.num_required_signatures),
    {
        index < self.num_required_signatures as usize
    }

    /// Tells whether the entry at `index` of the account table is writable.
    pub fn writable_at(&self, index: usize) -> (writable: bool)
        requires
            self.wf(),
        ensures
            writable == self.is_writable(index as int),
            writable == (index < (self.num_required_signatures
                - self.num_readonly_signed_accounts) + self.num_readonly_unsigned_accounts),
    {
        let writable_signers: usize = (self.num_required_signatures
            - self.num_readonly_signed_accounts) as usize;
        let writable_accounts: usize = writable_signers
            + self.num_readonly_unsigned_accounts as usize;
        index < writable_accounts
    }
}

/// An account as one instruction sees it: who it is, and what the
/// instruction may do with it.
#[derive(Clone, Copy, Debug, PartialEq, Eq)]
pub struct AccountMeta {
    pub pubkey: AccountId,
    pub is_signer: bool,
    pub is_writable: bool,
}

/// The mathematical value of an [`AccountMeta`].
pub struct AccountMetaView {
    pub pubkey: Seq<u8>,
    pub is_signer: bool,
    pub is_writable: bool,
}

impl View for AccountMeta {
    type V = AccountMetaView;

    open spec fn view(&self) -> AccountMetaView {
        AccountMetaView {
            pubkey: self.pubkey@,
            is_signer: self.is_signer,
            is_writable: self.is_writable,
        }
    }
}

/// The entry at `index` of the table `keys`, with the permissions that
/// `header` gives to that index.
pub open spec fn account_at(keys: Seq<Seq<u8>>, header: MessageHeader, index: int) -> AccountMetaView {
    AccountMetaView {
        pubkey: keys[index],
        is_signer: header.is_signer(index),
        is_writable: header.is_writable(index),
    }
}

/// The identifiers of a table of accounts, as a sequence of byte strings.
pub open spec fn key_table(keys: Seq<AccountId>) -> Seq<Seq<u8>> {
    keys.map_values(|k: AccountId| k@)
}

} // verus!
