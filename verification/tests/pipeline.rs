use swapwatch::account::{AccountId, AccountMeta, MessageHeader};
use swapwatch::decoder::decode_swap;
use swapwatch::event::DecodedEvent;
use swapwatch::fetch::{
    decode_response, decode_transaction_bytes, fetch_transaction, read_message, FetchError,
};
use swapwatch::filter::{accepts, raydium_program_id, RAYDIUM_PROGRAM_ID};
use swapwatch::instruction::{CompiledInstruction, ResolvedInstruction};
use swapwatch::message::{convert_compiled_instruction, decode_transaction, TransactionMessage};

const SWAP_ACCOUNTS: usize = 18;

fn key(n: u8) -> AccountId {
    AccountId::new([n; 32])
}

fn raydium() -> AccountId {
    raydium_program_id().unwrap()
}

fn event(signature: &str, slot: u64, amount_in: u64, minimum_amount_out: u64) -> DecodedEvent {
    DecodedEvent { signature: signature.to_string(), slot, amount_in, minimum_amount_out }
}

/// The payload of a base-in swap: its tag, then the two amounts.
fn swap_payload(amount_in: u64, minimum_amount_out: u64) -> Vec<u8> {
    let mut data: Vec<u8> = vec![9];
    data.extend_from_slice(&amount_in.to_le_bytes());
    data.extend_from_slice(&minimum_amount_out.to_le_bytes());
    data
}

fn swap_instruction(program_id_index: u8, amount_in: u64, minimum_amount_out: u64) -> CompiledInstruction {
    CompiledInstruction {
        program_id_index,
        accounts: (0..SWAP_ACCOUNTS).map(|i| (i % 4) as u8).collect(),
        data: swap_payload(amount_in, minimum_amount_out),
    }
}

/// A table of four plain accounts with the program at index 4.
fn message(instructions: Vec<CompiledInstruction>) -> TransactionMessage {
    TransactionMessage {
        header: MessageHeader::new(2, 1, 1).unwrap(),
        account_keys: vec![key(1), key(2), key(3), key(4), raydium()],
        instructions,
    }
}

fn wire(msg: &TransactionMessage) -> Vec<u8> {
    let message = solana_sdk::message::Message {
        header: solana_sdk::message::MessageHeader {
            num_required_signatures: msg.header.num_required_signatures,
            num_readonly_signed_accounts: msg.header.num_readonly_signed_accounts,
            num_readonly_unsigned_accounts: msg.header.num_readonly_unsigned_accounts,
        },
        account_keys: msg
            .account_keys
            .iter()
            .map(|k| solana_sdk::pubkey::Pubkey::new_from_array(k.bytes))
            .collect(),
        recent_blockhash: solana_sdk::hash::Hash::default(),
        instructions: msg
            .instructions
            .iter()
            .map(|c| solana_sdk::message::compiled_instruction::CompiledInstruction {
                program_id_index: c.program_id_index,
                accounts: c.accounts.clone(),
                data: c.data.clone(),
            })
            .collect(),
    };
    let tx = solana_sdk::transaction::VersionedTransaction {
        signatures: vec![solana_sdk::signature::Signature::default()],
        message: solana_sdk::message::VersionedMessage::Legacy(message),
    };
    bincode::serialize(&tx).unwrap()
}

#[allow(deprecated)]
fn answer(bytes: &[u8]) -> String {
    format!(
        "{{\"jsonrpc\":\"2.0\",\"id\":1,\"result\":{{\"slot\":5,\"transaction\":[\"{}\",\"base64\"]}}}}",
        base64::encode(bytes)
    )
}

#[test]
fn program_address_is_read_as_base58() {
    assert_eq!(RAYDIUM_PROGRAM_ID, "675kPX9MHTjS2zt1qfr1NYHuzeLXfQM9H24wFSUt1Mp8");
    let id = raydium_program_id().unwrap();
    let expected = solana_sdk::pubkey::Pubkey::from_str_const(RAYDIUM_PROGRAM_ID);
    assert_eq!(id.bytes, expected.to_bytes());
    assert_eq!(id.bytes[0], 0x4b);
    assert_eq!(id.bytes[31], 0xcd);
    assert_eq!(id.bytes, carbon_raydium_amm_v4_decoder::PROGRAM_ID.to_bytes());
}

#[test]
fn filter_is_plain_equality() {
    assert!(accepts(&raydium(), &raydium()));
    assert!(accepts(&key(3), &key(3)));
    assert!(!accepts(&key(3), &raydium()));
    assert!(!accepts(&raydium(), &key(3)));
    let mut near: [u8; 32] = raydium().bytes;
    near[17] ^= 1;
    assert!(!accepts(&AccountId::new(near), &raydium()));
}

#[test]
fn base_in_swap_is_decoded() {
    let msg = message(vec![swap_instruction(4, 1_000_000, 990_000)]);
    let ix = convert_compiled_instruction(&msg.instructions[0], &msg, &raydium()).unwrap();
    assert_eq!(ix.program_id, raydium());
    assert_eq!(ix.accounts.len(), SWAP_ACCOUNTS);
    assert_eq!(ix.accounts[1], AccountMeta { pubkey: key(2), is_signer: true, is_writable: true });
    assert_eq!(ix.accounts[2], AccountMeta { pubkey: key(3), is_signer: false, is_writable: false });
    assert_eq!(ix.data, swap_payload(1_000_000, 990_000));
    assert_eq!(decode_swap(&ix, "sig", 9), Some(event("sig", 9, 1_000_000, 990_000)));
}

#[test]
fn other_payloads_give_no_event() {
    let accounts: Vec<AccountMeta> = (0..SWAP_ACCOUNTS)
        .map(|i| AccountMeta { pubkey: key(i as u8), is_signer: i == 0, is_writable: i < 2 })
        .collect();
    let with = |data: Vec<u8>| ResolvedInstruction { program_id: raydium(), accounts: accounts.clone(), data };
    assert_eq!(decode_swap(&with(swap_payload(3, 2)), "s", 1), Some(event("s", 1, 3, 2)));
    // Truncated, empty and unknown payloads.
    assert_eq!(decode_swap(&with(swap_payload(3, 2)[..16].to_vec()), "s", 1), None);
    assert_eq!(decode_swap(&with(vec![9]), "s", 1), None);
    assert_eq!(decode_swap(&with(vec![]), "s", 1), None);
    assert_eq!(decode_swap(&with(vec![250, 1, 2, 3]), "s", 1), None);
    // A base-out swap is an instruction of the program, but gives no event.
    let mut base_out: Vec<u8> = swap_payload(3, 2);
    base_out[0] = 11;
    assert_eq!(decode_swap(&with(base_out), "s", 1), None);
    // The same payload under another program.
    let foreign = ResolvedInstruction { program_id: key(9), accounts: accounts.clone(), data: swap_payload(3, 2) };
    assert_eq!(decode_swap(&foreign, "s", 1), None);
}

#[test]
fn foreign_program_is_not_handed_to_the_decoder() {
    // The instruction is a swap of the program at index 4, but the session
    // follows another program.
    let msg = message(vec![swap_instruction(4, 5, 4)]);
    assert_eq!(convert_compiled_instruction(&msg.instructions[0], &msg, &key(4)), None);
    assert!(decode_transaction("sig", &msg, 1, &key(4)).is_empty());
    // The instruction carries a swap payload, but its program is not the
    // one that the session follows.
    let other = message(vec![swap_instruction(3, 5, 4)]);
    assert_eq!(convert_compiled_instruction(&other.instructions[0], &other, &raydium()), None);
    assert!(decode_transaction("sig", &other, 1, &raydium()).is_empty());
    for payload in [vec![], vec![9], swap_payload(u64::MAX, 0), vec![0; 300]] {
        let cix = CompiledInstruction { program_id_index: 0, accounts: vec![0; SWAP_ACCOUNTS], data: payload };
        let msg = message(vec![cix]);
        assert_eq!(convert_compiled_instruction(&msg.instructions[0], &msg, &raydium()), None);
        assert!(decode_transaction("sig", &msg, 1, &raydium()).is_empty());
    }
}

#[test]
fn out_of_range_instruction_is_skipped_and_its_siblings_are_not() {
    let mut bad_account: CompiledInstruction = swap_instruction(4, 7, 7);
    bad_account.accounts[5] = 5;
    let bad_program: CompiledInstruction = swap_instruction(5, 8, 8);
    let msg = message(vec![
        swap_instruction(4, 1, 1),
        bad_account,
        bad_program,
        swap_instruction(4, 2, 2),
    ]);
    assert_eq!(convert_compiled_instruction(&msg.instructions[1], &msg, &raydium()), None);
    assert_eq!(convert_compiled_instruction(&msg.instructions[2], &msg, &raydium()), None);
    assert_eq!(
        decode_transaction("sig", &msg, 3, &raydium()),
        vec![event("sig", 3, 1, 1), event("sig", 3, 2, 2)]
    );
}

#[test]
fn every_swap_of_a_transaction_gives_its_own_event_in_order() {
    let transfer = CompiledInstruction { program_id_index: 3, accounts: vec![0, 1], data: vec![2, 0, 0, 0] };
    let mut withdraw: CompiledInstruction = swap_instruction(4, 0, 0);
    withdraw.data[0] = 4;
    let msg = message(vec![
        swap_instruction(4, 30, 3),
        transfer,
        swap_instruction(4, 10, 1),
        withdraw,
        swap_instruction(4, 10, 1),
        swap_instruction(4, 20, 2),
    ]);
    assert_eq!(
        decode_transaction("abc", &msg, 77, &raydium()),
        vec![
            event("abc", 77, 30, 3),
            event("abc", 77, 10, 1),
            event("abc", 77, 10, 1),
            event("abc", 77, 20, 2),
        ]
    );
    assert!(decode_transaction("abc", &message(vec![]), 77, &raydium()).is_empty());
}

#[test]
fn message_is_read_from_the_wire_format() {
    let msg = message(vec![swap_instruction(4, 6, 5), swap_instruction(2, 1, 0)]);
    assert_eq!(read_message(&wire(&msg)), Ok(msg.clone()));
    let mut longer: Vec<u8> = wire(&msg);
    longer.extend_from_slice(&[1, 2, 3]);
    assert_eq!(read_message(&longer), Ok(msg));
}

#[test]
fn bytes_that_are_no_transaction_are_rejected() {
    assert_eq!(read_message(&[]), Err(FetchError::BadTransaction));
    assert_eq!(read_message(&[1]), Err(FetchError::BadTransaction));
    let whole: Vec<u8> = wire(&message(vec![swap_instruction(4, 6, 5)]));
    assert_eq!(read_message(&whole[..whole.len() - 1]), Err(FetchError::BadTransaction));
    assert_eq!(read_message(&[255; 40]), Err(FetchError::BadTransaction));
}

#[test]
fn inconsistent_header_is_rejected() {
    let mut msg: TransactionMessage = message(vec![swap_instruction(4, 6, 5)]);
    msg.header = MessageHeader {
        num_required_signatures: 1,
        num_readonly_signed_accounts: 2,
        num_readonly_unsigned_accounts: 0,
    };
    assert_eq!(read_message(&wire(&msg)), Err(FetchError::BadHeader));
    assert_eq!(decode_transaction_bytes(&wire(&msg), &raydium(), "s", 1), Err(FetchError::BadHeader));
    assert_eq!(decode_response(&answer(&wire(&msg)), &raydium(), "s", 1), Err(FetchError::BadHeader));
}

#[test]
fn transaction_bytes_are_taken_out_of_the_answer() {
    assert_eq!(fetch_transaction(&answer(&[1, 2, 3, 250])), Ok(vec![1, 2, 3, 250]));
    assert_eq!(fetch_transaction(&answer(&[])), Ok(vec![]));
    assert_eq!(
        fetch_transaction("{\"result\":{\"transaction\":[\"aGVsbG8=\",\"base64\"]}}"),
        Ok(b"hello".to_vec())
    );
}

#[test]
fn answers_without_a_transaction_say_why() {
    for body in ["", "not json", "{\"result\":", "{\"result\":null} x"] {
        assert_eq!(fetch_transaction(body), Err(FetchError::Malformed), "{}", body);
    }
    for body in ["{\"jsonrpc\":\"2.0\",\"result\":null,\"id\":1}", "{}", "[]", "7", "{\"error\":{\"code\":-32}}"] {
        assert_eq!(fetch_transaction(body), Err(FetchError::NotFound), "{}", body);
    }
    for body in [
        "{\"result\":{}}",
        "{\"result\":7}",
        "{\"result\":{\"transaction\":[]}}",
        "{\"result\":{\"transaction\":[17,\"base64\"]}}",
        "{\"result\":{\"transaction\":\"aGVsbG8=\"}}",
        "{\"result\":{\"transaction\":{\"0\":\"aGVsbG8=\"}}}",
        "{\"result\":{\"transaction\":[null,\"aGVsbG8=\"]}}",
    ] {
        assert_eq!(fetch_transaction(body), Err(FetchError::NoTransaction), "{}", body);
    }
    for body in [
        "{\"result\":{\"transaction\":[\"a\"]}}",
        "{\"result\":{\"transaction\":[\"aGVsbG8\"]}}",
        "{\"result\":{\"transaction\":[\"aGVs bG8=\"]}}",
        "{\"result\":{\"transaction\":[\"aGVsbG8=====\"]}}",
        "{\"result\":{\"transaction\":[\"aGV_bG8=\"]}}",
    ] {
        assert_eq!(fetch_transaction(body), Err(FetchError::BadEncoding), "{}", body);
    }
}

#[test]
fn answer_is_decoded_into_events() {
    let msg = message(vec![swap_instruction(4, 500, 450), swap_instruction(1, 9, 9), swap_instruction(4, 2, 1)]);
    let body: String = answer(&wire(&msg));
    assert_eq!(
        decode_response(&body, &raydium(), "5VERv8", 1234),
        Ok(vec![event("5VERv8", 1234, 500, 450), event("5VERv8", 1234, 2, 1)])
    );
    assert_eq!(decode_response(&body, &key(2), "5VERv8", 1234), Ok(vec![]));
    assert_eq!(decode_response("{\"result\":null}", &raydium(), "s", 1), Err(FetchError::NotFound));
    assert_eq!(decode_response("?", &raydium(), "s", 1), Err(FetchError::Malformed));
    assert_eq!(decode_response(&answer(&[0]), &raydium(), "s", 1), Err(FetchError::BadTransaction));
    assert_eq!(
        decode_response("{\"result\":{\"transaction\":[\"*\"]}}", &raydium(), "s", 1),
        Err(FetchError::BadEncoding)
    );
    assert_eq!(
        decode_response("{\"result\":{\"transaction\":[]}}", &raydium(), "s", 1),
        Err(FetchError::NoTransaction)
    );
}

#[test]
fn decoding_the_same_bytes_twice_gives_the_same_events() {
    let msg = message(vec![swap_instruction(4, 500, 450), swap_instruction(4, 2, 1)]);
    let bytes: Vec<u8> = wire(&msg);
    let first = decode_transaction_bytes(&bytes, &raydium(), "sig", 8);
    let second = decode_transaction_bytes(&bytes, &raydium(), "sig", 8);
    assert_eq!(first, second);
    assert_eq!(first, Ok(vec![event("sig", 8, 500, 450), event("sig", 8, 2, 1)]));
    let broken = decode_transaction_bytes(&bytes[..20], &raydium(), "sig", 8);
    assert_eq!(broken, decode_transaction_bytes(&bytes[..20], &raydium(), "sig", 8));
    assert_eq!(broken, Err(FetchError::BadTransaction));
}
