//! The optimizer from end to end: a request in JSON bytes, a response in JSON
//! bytes.
//!
//! The buffer that is handed in is read and never changed; the buffer that is
//! handed back is new and belongs to the caller, with its length.
//!
//! A request is answered with a response exactly when it can be read. What
//! cannot be read is bytes that are not UTF-8, text that is not JSON, and a
//! document without one of the members or with one of another type. Every
//! number is a price.

use crate::advice::{advice_for, analyze, Advice};
use crate::clock::{can_write, now, writable};
use crate::decode::{decode, decoded_text, holds_request};
use crate::json::parsed;
use crate::model::{
    OptimizeInput, OptimizeInputView, OptimizeOutput, OptimizeOutputView, Timestamp,
};
use crate::response::{encode_output, invalid_input_json, output_for, output_json, report};
use vstd::prelude::*;
use vstd::string::{StrSliceExecFns, StringExecFns, StringSliceAdditionalSpecFns};
use vstd::utf8::{decode_utf8, encode_utf8, encode_utf8_decode_utf8, valid_utf8};

verus! {

/// `std::str::from_utf8`: the text that the bytes encode, where they are
/// valid UTF-8.
#[verifier::external_body]
fn utf8(bytes: &[u8]) -> (r: Option<&str>)
    ensures
        r is Some <==> valid_utf8(bytes@),
        r matches Some(text) ==> text.spec_bytes() == bytes@,
{
    std::str::from_utf8(bytes).ok()
}

/// The request that a buffer holds: `None` where the bytes are not UTF-8, the
/// text is not JSON, or the document holds no request.
pub open spec fn request_of(bytes: Seq<u8>) -> Option<OptimizeInputView> {
    if valid_utf8(bytes) {
        decoded_text(decode_utf8(bytes))
    } else {
        None
    }
}

/// Whether a buffer holds a document of the shape of a request: UTF-8 that is
/// JSON, an object with a string `tx`, a number `current_gas`, and an array
/// `recent` of objects with a string `timestamp` and a number `gas_gwei`.
pub open spec fn holds_request_bytes(bytes: Seq<u8>) -> bool {
    valid_utf8(bytes) && (parsed(decode_utf8(bytes)) matches Some(doc) && holds_request(doc))
}

/// The response to a request at the time `now`.
pub open spec fn answer_for(input: OptimizeInputView, now: Timestamp) -> OptimizeOutputView {
    output_for(advice_for(input), now)
}

/// The JSON text that answers a request at the time `now`: the response, or
/// for what is no request an object with the one member `error`.
pub open spec fn response_text(request: Option<OptimizeInputView>, now: Timestamp) -> Seq<char> {
    match request {
        Some(input) => output_json(answer_for(input, now)),
        None => invalid_input_json(),
    }
}

/// Reads the request in `input_json`.
pub fn read_request(input_json: &[u8]) -> (r: Option<OptimizeInput>)
    ensures
        r is Some <==> holds_request_bytes(input_json@),
        r is Some <==> request_of(input_json@) is Some,
        r matches Some(input) ==> request_of(input_json@) == Some(input@),
{
    match utf8(input_json) {
        Some(text) => {
            proof {
                encode_utf8_decode_utf8(text@);
            }
            decode(text)
        },
        None => None,
    }
}

/// Answers a request at the time `now`.
pub fn answer(input: &OptimizeInput, now: Timestamp) -> (r: OptimizeOutput)
    requires
        writable(now),
    ensures
        r@ == answer_for(input@, now),
{
    let advice: Advice = analyze(input);
    report(&advice, now)
}

/// Answers a request at the time `now`, as JSON text.
pub fn respond(input: &OptimizeInput, now: Timestamp) -> (r: String)
    requires
        writable(now),
    ensures
        r@ == response_text(Some(input@), now),
{
    let out: OptimizeOutput = answer(input, now);
    encode_output(&out)
}

/// Answers the request in `input_json` at the time `now`, which must be one
/// that can be written where the buffer holds a request (see `can_write` and
/// `try_optimize_at`).
///
/// A buffer that holds a request is answered with the response to it, any
/// other with the error object. A request is held where the bytes are UTF-8,
/// the text is JSON, and the members are there with their types.
pub fn optimize_at(input_json: &[u8], now: Timestamp) -> (r: Vec<u8>)
    requires
        request_of(input_json@) is Some ==> writable(now),
    ensures
        r@ == encode_utf8(response_text(request_of(input_json@), now)),
        request_of(input_json@) is None ==> r@ == encode_utf8(invalid_input_json()),
        request_of(input_json@) matches Some(input) ==> r@ == encode_utf8(
            output_json(answer_for(input, now)),
        ),
        request_of(input_json@) is Some <==> holds_request_bytes(input_json@),
{
    let text: String = match read_request(input_json) {
        Some(input) => respond(&input, now),
        None => String::from_str("{\"error\":\"invalid input\"}"),
    };
    text.as_str().as_bytes_vec()
}

/// Answers the request in `input_json` at the time `now`; `None` where the
/// buffer holds a request and `now` is a time that cannot be written.
pub fn try_optimize_at(input_json: &[u8], now: Timestamp) -> (r: Option<Vec<u8>>)
    ensures
        r is Some <==> (request_of(input_json@) is None || writable(now)),
        r matches Some(bytes) ==> bytes@ == encode_utf8(response_text(request_of(input_json@), now)),
{
    let text: String = match read_request(input_json) {
        Some(input) => {
            if !can_write(now) {
                return None;
            }
            respond(&input, now)
        },
        None => String::from_str("{\"error\":\"invalid input\"}"),
    };
    Some(text.as_str().as_bytes_vec())
}

/// Answers the request in `input_json` at the time that the clock shows.
///
/// A buffer that holds no request is answered with the error object, and the
/// clock is not read. A buffer that holds one is answered with the response
/// to it at the time that the clock shows. Which time that is, no contract
/// can say, but that it can be written. The clock is read through `chrono`,
/// which panics where the system clock stands before 1970.
pub fn optimize(input_json: &[u8]) -> (r: Vec<u8>)
    ensures
        request_of(input_json@) is None ==> r@ == encode_utf8(invalid_input_json()),
        request_of(input_json@) matches Some(input) ==> exists|at: Timestamp|
            writable(at) && r@ == encode_utf8(output_json(#[trigger] answer_for(input, at))),
        request_of(input_json@) is Some <==> holds_request_bytes(input_json@),
{
    let text: String = match read_request(input_json) {
        Some(input) => {
            let at: Timestamp = now();
            respond(&input, at)
        },
        None => String::from_str("{\"error\":\"invalid input\"}"),
    };
    text.as_str().as_bytes_vec()
}

} // verus!
