//! From the answer of a transaction request to the events of the
//! transaction.
//!
//! The node answers a request for a transaction with a JSON text. Its
//! `result` is `null` where the node does not know the transaction. Else
//! the first element of `result.transaction` is the transaction in base64,
//! and the bytes under the base64 are the transaction in the wire format.
//! Every step can fail on what the network sent; a failure gives up the one
//! transaction and nothing more.

use vstd::prelude::*;
use crate::account::AccountId;
use crate::event::{event_views, DecodedEvent, DecodedEventView};
use crate::json::{json_element_text_at, json_null_at, path_view, read_element_text, read_null};
use crate::message::{
    decode_transaction,
    transaction_events,
    TransactionMessage,
    TransactionMessageView,
};

verus! {

/// Why the answer to a transaction request gave no transaction.
#[derive(Clone, Copy, Debug, PartialEq, Eq, Structural)]
pub enum FetchError {
    /// The answer is not JSON.
    Malformed,
    /// The node does not know the transaction.
    NotFound,
    /// The answer holds no transaction text where one belongs.
    NoTransaction,
    /// The transaction text is not base64.
    BadEncoding,
    /// The bytes are not a transaction in the wire format.
    BadTransaction,
    /// The header of the message declares more read-only signers than
    /// signers.
    BadHeader,
}

/// The bytes that the base64 text `text` stands for, in the standard
/// alphabet with padding: `None` where `text` is not such a text.
pub uninterp spec fn base64_decoding(text: Seq<char>) -> Option<Seq<u8>>;

/// The message of the transaction that `bytes` hold in the wire format:
/// `None` where `bytes` do not start with a transaction.
pub uninterp spec fn wire_message(bytes: Seq<u8>) -> Option<TransactionMessageView>;

/// Decodes `text` with `base64::decode`. The result depends on `text`
/// alone.
#[verifier::external_body]
fn decode_base64(text: &str) -> (bytes: Option<Vec<u8>>)
    ensures
        match bytes {
            Some(b) => base64_decoding(text@) == Some(b@),
            None => base64_decoding(text@) is None,
        },
{
    #[allow(deprecated)]
    base64::decode(text).ok()
}

/// Reads a `solana_sdk::transaction::VersionedTransaction` out of `bytes`
/// with `bincode::deserialize`, and copies the header, the static account
/// keys and the instructions of its message, each field as it stands. The
/// result depends on `bytes` alone.
#[verifier::external_body]
fn deserialize_message(bytes: &[u8]) -> (msg: Option<TransactionMessage>)
    ensures
        match msg {
            Some(m) => wire_message(bytes@) == Some(m@),
            None => wire_message(bytes@) is None,
        },
{
    let tx: solana_sdk::transaction::VersionedTransaction = bincode::deserialize(bytes).ok()?;
    let header = tx.message.header();
    Some(TransactionMessage {
        header: crate::account::MessageHeader {
            num_required_signatures: header.num_required_signatures,
            num_readonly_signed_accounts: header.num_readonly_signed_accounts,
            num_readonly_unsigned_accounts: header.num_readonly_unsigned_accounts,
        },
        account_keys: tx.message.static_account_keys().iter().map(|k| AccountId { bytes: k.to_bytes() }).collect(),
        instructions: tx.message.instructions().iter().map(|c| crate::instruction::CompiledInstruction {
            program_id_index: c.program_id_index, accounts: c.accounts.clone(), data: c.data.clone() }).collect(),
    })
}

/// Where an answer keeps its result.
pub open spec fn result_path() -> Seq<Seq<char>> {
    seq!["result"@]
}

/// Where an answer keeps the encodings of its transaction.
pub open spec fn transaction_path() -> Seq<Seq<char>> {
    seq!["result"@, "transaction"@]
}

/// The transaction bytes that the answer `body` holds, or why it holds
/// none.
pub open spec fn response_bytes(body: Seq<char>) -> Result<Seq<u8>, FetchError> {
    match json_null_at(body, result_path()) {
        None => Err(FetchError::Malformed),
        Some(true) => Err(FetchError::NotFound),
        Some(false) => match json_element_text_at(body, transaction_path(), 0) {
            None => Err(FetchError::NoTransaction),
            Some(text) => match base64_decoding(text) {
                None => Err(FetchError::BadEncoding),
                Some(bytes) => Ok(bytes),
            },
        },
    }
}

/// The message that the transaction bytes `bytes` hold, or why they hold
/// none.
pub open spec fn message_of(bytes: Seq<u8>) -> Result<TransactionMessageView, FetchError> {
    match wire_message(bytes) {
        None => Err(FetchError::BadTransaction),
        Some(m) => if m.header.wf() {
            Ok(m)
        } else {
            Err(FetchError::BadHeader)
        },
    }
}

/// The events of the transaction that `bytes` hold, found under
/// `signature` in `slot`, or why there is no transaction.
pub open spec fn events_of_bytes(
    bytes: Seq<u8>,
    target: Seq<u8>,
    signature: Seq<char>,
    slot: u64,
) -> Result<Seq<DecodedEventView>, FetchError> {
    match message_of(bytes) {
        Ok(m) => Ok(transaction_events(m, target, signature, slot)),
        Err(e) => Err(e),
    }
}

/// The events of the transaction in the answer `body`, found under
/// `signature` in `slot`, or why there is no transaction.
pub open spec fn events_of_response(
    body: Seq<char>,
    target: Seq<u8>,
    signature: Seq<char>,
    slot: u64,
) -> Result<Seq<DecodedEventView>, FetchError> {
    match response_bytes(body) {
        Ok(bytes) => events_of_bytes(bytes, target, signature, slot),
        Err(e) => Err(e),
    }
}

/// The value of the outcome of a decoding.
pub open spec fn outcome_view(outcome: Result<Vec<DecodedEvent>, FetchError>) -> Result<
    Seq<DecodedEventView>,
    FetchError,
> {
    match outcome {
        Ok(events) => Ok(event_views(events@)),
        Err(e) => Err(e),
    }
}

/// Decoding is a function of what is decoded: two decodings of the same
/// transaction bytes, for the same program, signature and slot, end alike,
/// with the same events in the same order or with the same error.
pub proof fn lemma_decoding_is_repeatable(
    bytes: Seq<u8>,
    target: Seq<u8>,
    signature: Seq<char>,
    slot: u64,
    first: Result<Vec<DecodedEvent>, FetchError>,
    second: Result<Vec<DecodedEvent>, FetchError>,
)
    requires
        outcome_view(first) == events_of_bytes(bytes, target, signature, slot),
        outcome_view(second) == events_of_bytes(bytes, target, signature, slot),
    ensures
        outcome_view(first) == outcome_view(second),
        first is Ok <==> second is Ok,
        first matches Ok(a) ==> second matches Ok(b) && a@.len() == b@.len() && forall|i: int|
            0 <= i < a@.len() ==> (#[trigger] a@[i])@ == b@[i]@,
{
    if let Ok(a) = first {
        let b = second->Ok_0;
        assert(event_views(a@) == event_views(b@));
        assert forall|i: int| 0 <= i < a@.len() implies (#[trigger] a@[i])@ == b@[i]@ by {
            assert(event_views(a@)[i] == a@[i]@);
            assert(event_views(b@)[i] == b@[i]@);
        }
    }
}

/// Takes the bytes of the transaction out of the answer `body`.
///
/// Fails with `Malformed` if `body` is not JSON, with `NotFound` if its
/// `result` is `null` or missing, with `NoTransaction` if the first element
/// of `result.transaction` is not a string, and with `BadEncoding` if that
/// string is not base64.
pub fn fetch_transaction(body: &str) -> (bytes: Result<Vec<u8>, FetchError>)
    ensures
        match bytes {
            Ok(b) => response_bytes(body@) == Ok::<Seq<u8>, FetchError>(b@),
            Err(e) => response_bytes(body@) == Err::<Seq<u8>, FetchError>(e),
        },
{
    let result_keys: [&str; 1] = ["result"];
    let transaction_keys: [&str; 2] = ["result", "transaction"];
    proof {
        assert(path_view(result_keys@) =~= result_path());
        assert(path_view(transaction_keys@) =~= transaction_path());
    }
    match read_null(body, result_keys.as_slice()) {
        None => Err(FetchError::Malformed),
        Some(true) => Err(FetchError::NotFound),
        Some(false) => match read_element_text(body, transaction_keys.as_slice(), 0) {
            None => Err(FetchError::NoTransaction),
            Some(text) => match decode_base64(text.as_str()) {
                None => Err(FetchError::BadEncoding),
                Some(bytes) => Ok(bytes),
            },
        },
    }
}

/// Reads the message of a transaction out of its bytes in the wire
/// format.
///
/// Fails with `BadTransaction` if the bytes hold no transaction, and with
/// `BadHeader` if the header of the message is inconsistent. A message that
/// is returned is well formed.
pub fn read_message(bytes: &[u8]) -> (msg: Result<TransactionMessage, FetchError>)
    ensures
        match msg {
            Ok(m) => message_of(bytes@) == Ok::<TransactionMessageView, FetchError>(m@) && m.wf(),
            Err(e) => message_of(bytes@) == Err::<TransactionMessageView, FetchError>(e),
        },
{
    match deserialize_message(bytes) {
        None => Err(FetchError::BadTransaction),
        Some(m) => {
            if m.header.is_well_formed() {
                Ok(m)
            } else {
                Err(FetchError::BadHeader)
            }
        },
    }
}

/// Decodes the transaction that `bytes` hold, found under `signature` in
/// `slot`, into the events of the base-in swaps of `target` in it.
pub fn decode_transaction_bytes(bytes: &[u8], target: &AccountId, signature: &str, slot: u64) -> (events:
    Result<Vec<DecodedEvent>, FetchError>)
    ensures
        outcome_view(events) == events_of_bytes(bytes@, target@, signature@, slot),
{
    match read_message(bytes) {
        Ok(m) => Ok(decode_transaction(signature, &m, slot, target)),
        Err(e) => Err(e),
    }
}

/// Decodes the transaction in the answer `body` to a request for
/// `signature`, seen in `slot`, into the events of the base-in swaps of
/// `target` in it.
pub fn decode_response(body: &str, target: &AccountId, signature: &str, slot: u64) -> (events:
    Result<Vec<DecodedEvent>, FetchError>)
    ensures
        outcome_view(events) == events_of_response(body@, target@, signature@, slot),
{
    match fetch_transaction(body) {
        Ok(bytes) => decode_transaction_bytes(bytes.as_slice(), target, signature, slot),
        Err(e) => Err(e),
    }
}

} // verus!
