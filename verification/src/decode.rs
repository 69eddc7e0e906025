//! Reading a request from a JSON document.
//!
//! A request is an object with the members `tx` (a string), `current_gas` (a
//! number) and `recent` (an array of objects, each with the members
//! `timestamp`, a string, and `gas_gwei`, a number). Members beyond these are
//! passed over, and of a member that is written twice the last one counts.
//! A number is a price in gwei, of either sign and any size, and is held as
//! `serde_json` writes it, digit by digit. Every document of this shape is a
//! request: `holds_request` says the shape, and the functions that read say
//! that they read exactly what has it.

use crate::reading::{parse_price, price_of_text};
use crate::json::{content, elements, member, numeral, parse, parsed, text, Json};
use crate::model::{
    Decimal, DecimalView, OptimizeInput, OptimizeInputView, RecentGasPoint, RecentGasPointView,
};
use vstd::prelude::*;

verus! {

/// The member `name` of `doc`, where `doc` is an object that has one.
pub open spec fn member_of(doc: Json, name: Seq<char>) -> Option<Json> {
    match doc {
        Json::Object(members) => if members.contains_key(name) {
            Some(members[name])
        } else {
            None
        },
        _ => None,
    }
}

/// The text of the member `name` of `doc`, where that is a string.
pub open spec fn text_member(doc: Json, name: Seq<char>) -> Option<Seq<char>> {
    match member_of(doc, name) {
        Some(Json::Text(text)) => Some(text),
        _ => None,
    }
}

/// The price in the member `name` of `doc`, where that is a number.
pub open spec fn price_member(doc: Json, name: Seq<char>) -> Option<DecimalView> {
    match member_of(doc, name) {
        Some(Json::Number(digits)) => price_of_text(digits),
        _ => None,
    }
}

/// Whether the member `name` of `doc` is a number.
pub open spec fn number_member(doc: Json, name: Seq<char>) -> bool {
    member_of(doc, name) matches Some(Json::Number(_))
}

/// Whether `doc` has the shape of a sample: an object with a string
/// `timestamp` and a number `gas_gwei`.
pub open spec fn holds_point(doc: Json) -> bool {
    text_member(doc, "timestamp"@) is Some && number_member(doc, "gas_gwei"@)
}

/// Whether `doc` has the shape of a request: an object with a string `tx`,
/// a number `current_gas`, and an array `recent` of samples.
pub open spec fn holds_request(doc: Json) -> bool {
    &&& text_member(doc, "tx"@) is Some
    &&& number_member(doc, "current_gas"@)
    &&& member_of(doc, "recent"@) matches Some(Json::Array(items)) && forall|i: int|
        0 <= i < items.len() ==> #[trigger] holds_point(items[i])
}

/// The sample that `doc` holds.
pub open spec fn decoded_point(doc: Json) -> Option<RecentGasPointView> {
    match (text_member(doc, "timestamp"@), price_member(doc, "gas_gwei"@)) {
        (Some(timestamp), Some(gas_gwei)) => Some(RecentGasPointView { timestamp, gas_gwei }),
        _ => None,
    }
}

/// The history that the member `recent` of `doc` holds: an array, each of
/// whose elements holds a sample.
pub open spec fn decoded_history(doc: Json) -> Option<Seq<RecentGasPointView>> {
    match member_of(doc, "recent"@) {
        Some(Json::Array(items)) => if forall|i: int|
            0 <= i < items.len() ==> (#[trigger] decoded_point(items[i])) is Some {
            Some(Seq::new(items.len(), |i: int| decoded_point(items[i]).unwrap()))
        } else {
            None
        },
        _ => None,
    }
}

/// The request that `doc` holds.
pub open spec fn decoded_input(doc: Json) -> Option<OptimizeInputView> {
    match (text_member(doc, "tx"@), price_member(doc, "current_gas"@), decoded_history(doc)) {
        (Some(tx), Some(current_gas), Some(recent)) => Some(
            OptimizeInputView { tx, current_gas, recent },
        ),
        _ => None,
    }
}

/// The request that a JSON text holds: `None` where the text is not JSON, or
/// holds no request.
pub open spec fn decoded_text(json: Seq<char>) -> Option<OptimizeInputView> {
    match parsed(json) {
        Some(doc) => decoded_input(doc),
        None => None,
    }
}

fn read_text(value: &serde_json::Value, name: &str) -> (r: Option<String>)
    ensures
        r is Some <==> text_member(content(*value), name@) is Some,
        r matches Some(s) ==> text_member(content(*value), name@) == Some(s@),
{
    match member(value, name) {
        Some(found) => match text(found) {
            Some(s) => Some(s.to_owned()),
            None => None,
        },
        None => None,
    }
}

fn read_price(value: &serde_json::Value, name: &str) -> (r: Option<Decimal>)
    ensures
        r is Some <==> number_member(content(*value), name@),
        r is Some <==> price_member(content(*value), name@) is Some,
        r matches Some(price) ==> price_member(content(*value), name@) == Some(price@),
{
    match member(value, name) {
        Some(found) => match numeral(found) {
            Some(digits) => parse_price(&digits),
            None => None,
        },
        None => None,
    }
}

/// Reads one sample of the history.
pub fn decode_point(value: &serde_json::Value) -> (r: Option<RecentGasPoint>)
    ensures
        r is Some <==> holds_point(content(*value)),
        r is Some <==> decoded_point(content(*value)) is Some,
        r matches Some(point) ==> decoded_point(content(*value)) == Some(point@),
{
    let timestamp: String = match read_text(value, "timestamp") {
        Some(s) => s,
        None => {
            return None;
        },
    };
    match read_price(value, "gas_gwei") {
        Some(gas_gwei) => Some(RecentGasPoint { timestamp, gas_gwei }),
        None => None,
    }
}

fn read_history(value: &serde_json::Value) -> (r: Option<Vec<RecentGasPoint>>)
    ensures
        r is Some <==> (member_of(content(*value), "recent"@) matches Some(Json::Array(items))
            && forall|i: int| 0 <= i < items.len() ==> #[trigger] holds_point(items[i])),
        r is Some <==> decoded_history(content(*value)) is Some,
        r matches Some(recent) ==> decoded_history(content(*value)) == Some(
            Seq::new(recent@.len(), |i: int| recent@[i]@),
        ),
{
    let items: &Vec<serde_json::Value> = match member(value, "recent") {
        Some(found) => match elements(found) {
            Some(items) => items,
            None => {
                return None;
            },
        },
        None => {
            return None;
        },
    };
    let ghost docs: Seq<Json> = content(*value)->Object_0["recent"@]->Array_0;
    assert(member_of(content(*value), "recent"@) == Some(Json::Array(docs)));
    let mut recent: Vec<RecentGasPoint> = Vec::new();
    let mut i: usize = 0;
    while i < items.len()
        invariant
            i <= items@.len(),
            docs.len() == items@.len(),
            member_of(content(*value), "recent"@) == Some(Json::Array(docs)),
            forall|j: int| 0 <= j < docs.len() ==> docs[j] == content(#[trigger] items@[j]),
            recent@.len() == i,
            forall|j: int| 0 <= j < i ==> (#[trigger] decoded_point(docs[j])) == Some(recent@[j]@),
            forall|j: int| 0 <= j < i ==> #[trigger] holds_point(docs[j]),
        decreases items@.len() - i,
    {
        match decode_point(&items[i]) {
            Some(point) => {
                recent.push(point);
            },
            None => {
                assert(decoded_point(docs[i as int]) is None);
                assert(!holds_point(docs[i as int]));
                return None;
            },
        }
        i += 1;
    }
    assert(decoded_history(content(*value)) is Some);
    assert(decoded_history(content(*value)).unwrap() =~= Seq::new(recent@.len(), |i: int| recent@[i]@));
    Some(recent)
}

/// Reads a request from a JSON document.
pub fn decode_input(value: &serde_json::Value) -> (r: Option<OptimizeInput>)
    ensures
        r is Some <==> holds_request(content(*value)),
        r is Some <==> decoded_input(content(*value)) is Some,
        r matches Some(input) ==> decoded_input(content(*value)) == Some(input@),
{
    let tx: String = match read_text(value, "tx") {
        Some(s) => s,
        None => {
            return None;
        },
    };
    let current_gas: Decimal = match read_price(value, "current_gas") {
        Some(price) => price,
        None => {
            return None;
        },
    };
    match read_history(value) {
        Some(recent) => Some(OptimizeInput { tx, current_gas, recent }),
        None => None,
    }
}

/// Reads a request from JSON text.
pub fn decode(json: &str) -> (r: Option<OptimizeInput>)
    ensures
        r is Some <==> (parsed(json@) matches Some(doc) && holds_request(doc)),
        r is Some <==> decoded_text(json@) is Some,
        r matches Some(input) ==> decoded_text(json@) == Some(input@),
{
    match parse(json) {
        Ok(value) => decode_input(&value),
        Err(_) => None,
    }
}

} // verus!
