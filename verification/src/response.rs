//! From advice to a response, and a response as JSON text.

use crate::advice::{Advice, AdviceView};
use crate::clock::{submission_text, writable, write_submission};
use crate::model::{copy_decimal, OptimizeOutput, OptimizeOutputView, Timestamp};
use crate::decimal::digit_char;
use crate::model::{Decimal, DecimalView};
use crate::writing::{format_price, price_text};
use vstd::prelude::*;
use vstd::string::StringExecFns;

verus! {

/// The reason that a response gives: the median of the history in gwei, in
/// plain decimal notation without zeros at the end, or that there is no
/// history.
pub open spec fn reason_text(median: Option<DecimalView>) -> Seq<char> {
    match median {
        Some(median) => "median="@ + price_text(median, 0),
        None => "No recent data"@,
    }
}

/// The reason to give for advice with this median.
pub fn reason(median: &Option<Decimal>) -> (r: String)
    ensures
        r@ == reason_text(
            match *median {
                Some(m) => Some(m@),
                None => None,
            },
        ),
{
    match median {
        Some(m) => {
            let mut text: String = String::from_str("median=");
            let number: String = format_price(m, 0);
            text.append(number.as_str());
            text
        },
        None => String::from_str("No recent data"),
    }
}

/// The response to give for `advice` at the time `now`.
pub open spec fn output_for(advice: AdviceView, now: Timestamp) -> OptimizeOutputView {
    OptimizeOutputView {
        suggested_gas: advice.suggested_gas,
        risk: advice.risk,
        optimal_time_iso: submission_text(advice.wait, now),
        reason: reason_text(advice.median),
    }
}

/// Puts `advice` into a response, at the time `now`.
pub fn report(advice: &Advice, now: Timestamp) -> (r: OptimizeOutput)
    requires
        writable(now),
    ensures
        r@ == output_for(advice@, now),
{
    OptimizeOutput {
        suggested_gas: copy_decimal(&advice.suggested_gas),
        risk: advice.risk,
        optimal_time_iso: write_submission(advice.wait, now),
        reason: reason(&advice.median),
    }
}

/// The lower-case hexadecimal digit of `n`.
pub open spec fn hex_char(n: nat) -> char {
    if n < 10 {
        digit_char(n)
    } else if n == 10 {
        'a'
    } else if n == 11 {
        'b'
    } else if n == 12 {
        'c'
    } else if n == 13 {
        'd'
    } else if n == 14 {
        'e'
    } else {
        'f'
    }
}

/// A character as it stands inside a JSON string: the quote and the
/// backslash after a backslash; backspace, tab, line feed, form feed and
/// carriage return as a backslash and a letter; any other character below
/// the blank as `\u00` and two hexadecimal digits; every other character
/// as it is.
pub open spec fn escaped_char(c: char) -> Seq<char> {
    let code = c as u32;
    if code == 0x22 {
        seq!['\\', '"']
    } else if code == 0x5c {
        seq!['\\', '\\']
    } else if code == 0x08 {
        seq!['\\', 'b']
    } else if code == 0x09 {
        seq!['\\', 't']
    } else if code == 0x0a {
        seq!['\\', 'n']
    } else if code == 0x0c {
        seq!['\\', 'f']
    } else if code == 0x0d {
        seq!['\\', 'r']
    } else if code < 0x20 {
        seq!['\\', 'u', '0', '0', hex_char((code / 16) as nat), hex_char((code % 16) as nat)]
    } else {
        seq![c]
    }
}

/// A text as it stands inside a JSON string, character by character.
pub open spec fn escaped(text: Seq<char>) -> Seq<char>
    decreases text.len(),
{
    if text.len() == 0 {
        Seq::empty()
    } else {
        escaped(text.drop_last()) + escaped_char(text.last())
    }
}

/// A text as a JSON string: escaped, in double quotes.
pub open spec fn json_string(text: Seq<char>) -> Seq<char> {
    seq!['"'] + escaped(text) + seq!['"']
}

/// `Display` of `serde_json::Value::String`: the text as a JSON string, as
/// `serde_json` writes one in its compact form.
#[verifier::external_body]
fn quote(text: &str) -> (r: String)
    ensures
        r@ == json_string(text@),
{
    serde_json::Value::String(text.to_owned()).to_string()
}

/// A response as JSON text: an object with the members `suggested_gas` (in
/// gwei, in plain decimal notation with at least one decimal place), `risk`, `optimal_time_iso` and
/// `reason`, in this order and without blanks.
pub open spec fn output_json(out: OptimizeOutputView) -> Seq<char> {
    "{\"suggested_gas\":"@ + price_text(out.suggested_gas, 1) + ",\"risk\":"@ + (if out.risk {
        "true"@
    } else {
        "false"@
    }) + ",\"optimal_time_iso\":"@ + json_string(out.optimal_time_iso) + ",\"reason\":"@ + json_string(
        out.reason,
    ) + "}"@
}

/// What is answered to a request that cannot be read.
pub open spec fn invalid_input_json() -> Seq<char> {
    "{\"error\":\"invalid input\"}"@
}

/// Writes a response as JSON text.
pub fn encode_output(out: &OptimizeOutput) -> (r: String)
    ensures
        r@ == output_json(out@),
{
    let mut text: String = String::from_str("{\"suggested_gas\":");
    let price: String = format_price(&out.suggested_gas, 1);
    text.append(price.as_str());
    text.append(",\"risk\":");
    if out.risk {
        text.append("true");
    } else {
        text.append("false");
    }
    text.append(",\"optimal_time_iso\":");
    let time: String = quote(out.optimal_time_iso.as_str());
    text.append(time.as_str());
    text.append(",\"reason\":");
    let why: String = quote(out.reason.as_str());
    text.append(why.as_str());
    text.append("}");
    text
}

} // verus!
