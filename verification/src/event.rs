//! Swap events and the records they are stored as.

use vstd::prelude::*;
use vstd::string::StringExecFns;

verus! {

/// A base-in swap that was seen on chain: the input amount, the least
/// output the trader accepts, and where the instruction was found.
#[derive(Clone, Debug, PartialEq, Eq)]
pub struct DecodedEvent {
    pub signature: String,
    pub slot: u64,
    pub amount_in: u64,
    pub minimum_amount_out: u64,
}

/// The mathematical value of a [`DecodedEvent`].
pub struct DecodedEventView {
    pub signature: Seq<char>,
    pub slot: u64,
    pub amount_in: u64,
    pub minimum_amount_out: u64,
}

impl View for DecodedEvent {
    type V = DecodedEventView;

    open spec fn view(&self) -> DecodedEventView {
        DecodedEventView {
            signature: self.signature@,
            slot: self.slot,
            amount_in: self.amount_in,
            minimum_amount_out: self.minimum_amount_out,
        }
    }
}

/// The values of a list of events, in the same order.
pub open spec fn event_views(events: Seq<DecodedEvent>) -> Seq<DecodedEventView> {
    events.map_values(|e: DecodedEvent| e@)
}

/// The character of a decimal digit.
pub open spec fn digit_char(d: int) -> char {
    if d == 0 {
        '0'
    } else if d == 1 {
        '1'
    } else if d == 2 {
        '2'
    } else if d == 3 {
        '3'
    } else if d == 4 {
        '4'
    } else if d == 5 {
        '5'
    } else if d == 6 {
        '6'
    } else if d == 7 {
        '7'
    } else if d == 8 {
        '8'
    } else {
        '9'
    }
}

/// The decimal numeral of `n`: no sign, no leading zero but for zero
/// itself.
pub open spec fn decimal(n: nat) -> Seq<char>
    decreases n,
{
    if n < 10 {
        seq![digit_char(n as int)]
    } else {
        decimal(n / 10).push(digit_char((n % 10) as int))
    }
}

/// The text `s` as a JSON string: in double quotes, with every character
/// that JSON does not allow bare in a string escaped.
pub uninterp spec fn json_string_literal(s: Seq<char>) -> Seq<char>;

/// The record of an event: one JSON object on one line, its four fields in
/// the alphabetical order of their names.
pub open spec fn record_of(event: DecodedEventView) -> Seq<char> {
    "{\"amount_in\":"@ + decimal(event.amount_in as nat) + ",\"min_amount_out\":"@ + decimal(
        event.minimum_amount_out as nat,
    ) + ",\"slot\":"@ + decimal(event.slot as nat) + ",\"transaction_signature\":"@
        + json_string_literal(event.signature) + "}"@
}

/// Writes `s` as a JSON string with the `Display` of a `serde_json::Value`
/// that holds it. The result depends on `s` alone.
#[verifier::external_body]
fn quote_json(s: &str) -> (quoted: String)
    ensures
        quoted@ == json_string_literal(s@),
{
    serde_json::Value::from(s).to_string()
}

fn digit_str(d: u64) -> (s: &'static str)
    requires
        d < 10,
    ensures
        s@ == seq![digit_char(d as int)],
{
    proof {
        reveal_strlit("0");
        reveal_strlit("1");
        reveal_strlit("2");
        reveal_strlit("3");
        reveal_strlit("4");
        reveal_strlit("5");
        reveal_strlit("6");
        reveal_strlit("7");
        reveal_strlit("8");
        reveal_strlit("9");
    }
    let s: &'static str = if d == 0 {
        "0"
    } else if d == 1 {
        "1"
    } else if d == 2 {
        "2"
    } else if d == 3 {
        "3"
    } else if d == 4 {
        "4"
    } else if d == 5 {
        "5"
    } else if d == 6 {
        "6"
    } else if d == 7 {
        "7"
    } else if d == 8 {
        "8"
    } else {
        "9"
    };
    assert(s@ =~= seq![digit_char(d as int)]);
    s
}

/// Writes `n` in decimal.
pub fn decimal_string(n: u64) -> (s: String)
    ensures
        s@ == decimal(n as nat),
    decreases n,
{
    if n < 10 {
        String::from_str(digit_str(n))
    } else {
        let mut s: String = decimal_string(n / 10);
        s.append(digit_str(n % 10));
        assert(s@ =~= decimal(n as nat));
        s
    }
}

/// Writes the record of `event`, without a line end.
pub fn record_line(event: &DecodedEvent) -> (line: String)
    ensures
        line@ == record_of(event@),
{
    let mut line: String = String::from_str("{\"amount_in\":");
    line.append(decimal_string(event.amount_in).as_str());
    line.append(",\"min_amount_out\":");
    line.append(decimal_string(event.minimum_amount_out).as_str());
    line.append(",\"slot\":");
    line.append(decimal_string(event.slot).as_str());
    line.append(",\"transaction_signature\":");
    line.append(quote_json(event.signature.as_str()).as_str());
    line.append("}");
    line
}

} // verus!
