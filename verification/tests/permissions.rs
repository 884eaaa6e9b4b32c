use swapwatch::account::{AccountId, AccountMeta, MessageHeader};
use swapwatch::instruction::{resolve_instruction, CompiledInstruction, ResolveError};

fn key(n: u8) -> AccountId {
    AccountId::new([n; 32])
}

fn table(len: u8) -> Vec<AccountId> {
    (0..len).map(key).collect()
}

fn header(signers: u8, readonly_signed: u8, readonly_unsigned: u8) -> MessageHeader {
    MessageHeader::new(signers, readonly_signed, readonly_unsigned).unwrap()
}

#[test]
fn account_ids_compare_by_their_bytes() {
    let mut bytes: [u8; 32] = [7; 32];
    assert_eq!(AccountId::new(bytes), key(7));
    bytes[31] = 8;
    assert_ne!(AccountId::new(bytes), key(7));
    bytes[31] = 7;
    bytes[0] = 0;
    assert_ne!(AccountId::new(bytes), key(7));
    assert_eq!(AccountId::new(bytes).bytes, bytes);
}

#[test]
fn header_needs_as_many_signers_as_readonly_signers() {
    assert!(MessageHeader::new(1, 2, 0).is_none());
    assert!(MessageHeader::new(0, 1, 255).is_none());
    let h: MessageHeader = MessageHeader::new(2, 2, 9).unwrap();
    assert_eq!(h.num_required_signatures, 2);
    assert_eq!(h.num_readonly_signed_accounts, 2);
    assert_eq!(h.num_readonly_unsigned_accounts, 9);
    assert!(h.is_well_formed());
    let bad = MessageHeader {
        num_required_signatures: 1,
        num_readonly_signed_accounts: 2,
        num_readonly_unsigned_accounts: 0,
    };
    assert!(!bad.is_well_formed());
}

#[test]
fn permissions_follow_the_header_for_every_index() {
    for signers in 0u8..=4 {
        for readonly_signed in 0u8..=signers {
            for readonly_unsigned in 0u8..=4 {
                let h: MessageHeader = header(signers, readonly_signed, readonly_unsigned);
                let top: usize = (signers + readonly_signed + readonly_unsigned + 2) as usize;
                for index in 0usize..top {
                    assert_eq!(h.signer_at(index), index < signers as usize);
                    assert_eq!(
                        h.writable_at(index),
                        index < (signers - readonly_signed) as usize + readonly_unsigned as usize
                    );
                }
            }
        }
    }
}

#[test]
fn permissions_at_the_borders() {
    let h: MessageHeader = header(3, 1, 2);
    assert!(h.signer_at(2));
    assert!(!h.signer_at(3));
    assert!(h.writable_at(3));
    assert!(!h.writable_at(4));
    let none: MessageHeader = header(0, 0, 0);
    assert!(!none.signer_at(0));
    assert!(!none.writable_at(0));
    let wide: MessageHeader = header(255, 0, 255);
    assert!(wide.signer_at(254));
    assert!(!wide.signer_at(255));
    assert!(wide.writable_at(509));
    assert!(!wide.writable_at(510));
    assert!(!wide.writable_at(usize::MAX));
}

#[test]
fn four_accounts_of_a_five_entry_table() {
    let keys: Vec<AccountId> = table(5);
    let h: MessageHeader = header(2, 1, 1);
    let cix = CompiledInstruction { program_id_index: 4, accounts: vec![0, 1, 2, 3], data: vec![1, 2, 3] };
    let ix = resolve_instruction(&keys, &h, &cix).unwrap();
    assert_eq!(ix.program_id, key(4));
    assert_eq!(ix.data, vec![1, 2, 3]);
    assert_eq!(ix.accounts.len(), 4);
    for (position, account) in ix.accounts.iter().enumerate() {
        assert_eq!(account.pubkey, key(position as u8));
    }
    // Signers are the first two entries.
    assert!(ix.accounts[0].is_signer);
    assert!(ix.accounts[1].is_signer);
    assert!(!ix.accounts[2].is_signer);
    assert!(!ix.accounts[3].is_signer);
    // Writable are the entries below (2 - 1) + 1 = 2.
    assert!(ix.accounts[0].is_writable);
    assert!(ix.accounts[1].is_writable);
    assert!(!ix.accounts[2].is_writable);
    assert!(!ix.accounts[3].is_writable);
}

#[test]
fn resolved_accounts_keep_order_and_repeats() {
    let keys: Vec<AccountId> = table(3);
    let h: MessageHeader = header(1, 0, 0);
    let cix = CompiledInstruction { program_id_index: 0, accounts: vec![2, 0, 2], data: vec![] };
    let ix = resolve_instruction(&keys, &h, &cix).unwrap();
    assert_eq!(
        ix.accounts,
        vec![
            AccountMeta { pubkey: key(2), is_signer: false, is_writable: false },
            AccountMeta { pubkey: key(0), is_signer: true, is_writable: true },
            AccountMeta { pubkey: key(2), is_signer: false, is_writable: false },
        ]
    );
    assert_eq!(ix.program_id, key(0));
    assert!(ix.data.is_empty());
}

#[test]
fn program_index_outside_the_table_is_rejected() {
    let keys: Vec<AccountId> = table(3);
    let h: MessageHeader = header(1, 0, 0);
    for index in [3u8, 4, 200, 255] {
        let cix = CompiledInstruction { program_id_index: index, accounts: vec![0], data: vec![9] };
        assert_eq!(resolve_instruction(&keys, &h, &cix), Err(ResolveError::IndexOutOfRange));
    }
    let last = CompiledInstruction { program_id_index: 2, accounts: vec![0], data: vec![9] };
    assert!(resolve_instruction(&keys, &h, &last).is_ok());
}

#[test]
fn account_index_outside_the_table_rejects_the_instruction() {
    let keys: Vec<AccountId> = table(3);
    let h: MessageHeader = header(1, 0, 0);
    for accounts in [vec![3u8], vec![0, 1, 2, 3], vec![255, 0], vec![0, 7, 1]] {
        let cix = CompiledInstruction { program_id_index: 0, accounts, data: vec![] };
        assert_eq!(resolve_instruction(&keys, &h, &cix), Err(ResolveError::IndexOutOfRange));
    }
}

#[test]
fn nothing_resolves_against_an_empty_table() {
    let keys: Vec<AccountId> = Vec::new();
    let h: MessageHeader = header(0, 0, 0);
    let cix = CompiledInstruction { program_id_index: 0, accounts: vec![], data: vec![] };
    assert_eq!(resolve_instruction(&keys, &h, &cix), Err(ResolveError::IndexOutOfRange));
}

#[test]
fn an_instruction_without_accounts_resolves() {
    let keys: Vec<AccountId> = table(1);
    let h: MessageHeader = header(1, 1, 0);
    let cix = CompiledInstruction { program_id_index: 0, accounts: vec![], data: vec![5; 40] };
    let ix = resolve_instruction(&keys, &h, &cix).unwrap();
    assert!(ix.accounts.is_empty());
    assert_eq!(ix.data, vec![5; 40]);
}
