//! What this library assumes of `serde_json`: how a parsed document is
//! described in contracts, and the calls that read one.

use vstd::prelude::*;

verus! {

/// A JSON document as contracts see it.
///
/// A number is held as the decimal text that `serde_json` prints for it; an
/// object is a map from member names to values.
pub enum Json {
    Null,
    Bool(bool),
    Number(Seq<char>),
    Text(Seq<char>),
    Array(Seq<Json>),
    Object(Map<Seq<char>, Json>),
}

#[verifier::external_type_specification]
#[verifier::external_body]
pub struct ExValue(serde_json::Value);

#[verifier::external_type_specification]
#[verifier::external_body]
pub struct ExJsonError(serde_json::Error);

/// The document that `serde_json` reads from a text, or `None` where it
/// rejects the text.
pub uninterp spec fn parsed(text: Seq<char>) -> Option<Json>;

/// The document that a `serde_json::Value` holds.
pub uninterp spec fn content(value: serde_json::Value) -> Json;

/// `serde_json::from_str` at type `Value`: the text is accepted exactly when
/// `parsed` names a document for it, and the value then holds that document.
#[verifier::external_body]
pub(crate) fn parse(text: &str) -> (r: Result<serde_json::Value, serde_json::Error>)
    ensures
        r is Ok <==> parsed(text@) is Some,
        r matches Ok(v) ==> parsed(text@) == Some(content(v)),
{
    serde_json::from_str::<serde_json::Value>(text)
}

/// `Value::get` with a string index: the member of that name where the value
/// is an object that has one, `None` otherwise.
#[verifier::external_body]
pub(crate) fn member<'a>(value: &'a serde_json::Value, name: &str) -> (r: Option<&'a serde_json::Value>)
    ensures
        r is Some <==> (content(*value) matches Json::Object(m) && m.contains_key(name@)),
        r matches Some(v) ==> (content(*value) matches Json::Object(m) && m[name@] == content(*v)),
{
    value.get(name)
}

/// `Value::as_array`: the elements, in order, where the value is an array.
#[verifier::external_body]
pub(crate) fn elements(value: &serde_json::Value) -> (r: Option<&Vec<serde_json::Value>>)
    ensures
        r is Some <==> content(*value) is Array,
        r matches Some(items) ==> (content(*value) matches Json::Array(a) && a.len() == items@.len()
            && forall|i: int| 0 <= i < a.len() ==> a[i] == content(#[trigger] items@[i])),
{
    value.as_array()
}

/// `Value::as_str`: the text where the value is a string.
#[verifier::external_body]
pub(crate) fn text(value: &serde_json::Value) -> (r: Option<&str>)
    ensures
        r is Some <==> content(*value) is Text,
        r matches Some(s) ==> content(*value) == Json::Text(s@),
{
    value.as_str()
}

/// `Value::as_number`, printed by the number's `Display`: the characters of
/// the decimal text where the value is a number.
///
/// The text is that of a JSON number, as `serde_json` writes one: digits, a
/// point and digits or neither, an exponent of up to three digits or none,
/// and a minus sign in front or none. So it is one that
/// `price_of_text` reads.
#[verifier::external_body]
pub(crate) fn numeral(value: &serde_json::Value) -> (r: Option<Vec<char>>)
    ensures
        r is Some <==> content(*value) is Number,
        r matches Some(digits) ==> content(*value) == Json::Number(digits@),
        r matches Some(digits) ==> crate::reading::price_of_text(digits@) is Some,
{
    match value.as_number() {
        Some(number) => Some(number.to_string().chars().collect()),
        None => None,
    }
}

} // verus!
