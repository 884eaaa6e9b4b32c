//! Notifications of the log stream.

use vstd::prelude::*;
use crate::json::{json_text_at, json_u64_at, path_view, read_text, read_u64};

verus! {

/// One notification of the log stream: a transaction was seen in a slot.
#[derive(Clone, Debug, PartialEq, Eq)]
pub struct Notification {
    pub slot: u64,
    pub signature: String,
}

/// The mathematical value of a [`Notification`].
pub struct NotificationView {
    pub slot: u64,
    pub signature: Seq<char>,
}

impl View for Notification {
    type V = NotificationView;

    open spec fn view(&self) -> NotificationView {
        NotificationView { slot: self.slot, signature: self.signature@ }
    }
}

/// Where a notification keeps its slot.
pub open spec fn slot_path() -> Seq<Seq<char>> {
    seq!["params"@, "result"@, "context"@, "slot"@]
}

/// Where a notification keeps the signature of its transaction.
pub open spec fn signature_path() -> Seq<Seq<char>> {
    seq!["params"@, "result"@, "value"@, "signature"@]
}

/// The notification that the two fields of a message make: none without a
/// slot; with a slot, the signature that was found, or the empty one.
pub open spec fn notification_of(
    slot: Option<u64>,
    signature: Option<Seq<char>>,
) -> Option<NotificationView> {
    match slot {
        None => None,
        Some(slot) => Some(
            NotificationView {
                slot,
                signature: match signature {
                    Some(s) => s,
                    None => Seq::<char>::empty(),
                },
            },
        ),
    }
}

/// Builds a notification from the two fields read out of a message.
///
/// A message without a slot gives no notification. A message without a
/// signature gives a notification with the empty signature.
pub fn notification_from_fields(slot: Option<u64>, signature: Option<String>) -> (n: Option<
    Notification,
>)
    ensures
        n is Some <==> slot is Some,
        match n {
            Some(n) => notification_of(
                slot,
                match signature {
                    Some(s) => Some(s@),
                    None => None,
                },
            ) == Some(n@),
            None => slot is None,
        },
{
    match slot {
        None => None,
        Some(slot) => {
            let signature: String = match signature {
                Some(s) => s,
                None => String::new(),
            };
            Some(Notification { slot, signature })
        },
    }
}

/// Reads a notification out of the text of a stream message.
///
/// The slot is the unsigned integer at `params.result.context.slot`, the
/// signature the string at `params.result.value.signature`.
pub fn parse_notification(raw: &str) -> (n: Option<Notification>)
    ensures
        match n {
            Some(n) => notification_of(
                json_u64_at(raw@, slot_path()),
                json_text_at(raw@, signature_path()),
            ) == Some(n@),
            None => json_u64_at(raw@, slot_path()) is None,
        },
{
    let slot_keys: [&str; 4] = ["params", "result", "context", "slot"];
    let signature_keys: [&str; 4] = ["params", "result", "value", "signature"];
    proof {
        assert(path_view(slot_keys@) =~= slot_path());
        assert(path_view(signature_keys@) =~= signature_path());
    }
    let slot = read_u64(raw, slot_keys.as_slice());
    let signature = read_text(raw, signature_keys.as_slice());
    notification_from_fields(slot, signature)
}

} // verus!
