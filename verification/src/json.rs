//! JSON documents as the account service and model endpoints send them.
//!
//! Parsing and navigation are done by `serde_json`; this module states what
//! its calls return over a mathematical picture of a JSON value, and the rest
//! of the library is proved against those statements.

use vstd::prelude::*;

verus! {

/// `serde_json::Value`, a parsed JSON value. Nothing inside it is visible
/// here; what it holds is spoken of through [`json_tree`].
#[verifier::external_type_specification]
#[verifier::external_body]
pub struct ExValue(serde_json::Value);

/// A JSON number: an integer, or a number with a fractional part or exponent.
pub enum JsonNumber {
    Integer(int),
    Fraction,
}

/// The mathematical content of a JSON value.
pub enum Json {
    Null,
    Bool(bool),
    Number(JsonNumber),
    Text(Seq<char>),
    Array(Seq<Json>),
    Object(Map<Seq<char>, Json>),
}

impl Json {
    /// The member stored under `key`, when this is an object that has one.
    pub open spec fn member(self, key: Seq<char>) -> Option<Json> {
        match self {
            Json::Object(members) => if members.contains_key(key) {
                Some(members[key])
            } else {
                None
            },
            _ => None,
        }
    }

    /// The elements, when this is an array.
    pub open spec fn elements(self) -> Option<Seq<Json>> {
        match self {
            Json::Array(items) => Some(items),
            _ => None,
        }
    }

    /// The characters, when this is a string.
    pub open spec fn text(self) -> Option<Seq<char>> {
        match self {
            Json::Text(chars) => Some(chars),
            _ => None,
        }
    }

    /// The value as a signed 64-bit integer, when this is an integer in range.
    pub open spec fn signed(self) -> Option<i64> {
        match self {
            Json::Number(JsonNumber::Integer(n)) => if i64::MIN <= n <= i64::MAX {
                Some(n as i64)
            } else {
                None
            },
            _ => None,
        }
    }

    /// The value as an unsigned 64-bit integer, when this is an integer in
    /// range.
    pub open spec fn unsigned(self) -> Option<u64> {
        match self {
            Json::Number(JsonNumber::Integer(n)) => if 0 <= n <= u64::MAX {
                Some(n as u64)
            } else {
                None
            },
            _ => None,
        }
    }
}

/// What a `serde_json::Value` holds.
pub uninterp spec fn json_tree(value: serde_json::Value) -> Json;

/// The document that a text parses to; `None` where it is not one JSON value.
pub uninterp spec fn json_document(text: Seq<char>) -> Option<Json>;

/// The contents of each value of a sequence.
pub open spec fn json_trees(values: Seq<serde_json::Value>) -> Seq<Json> {
    values.map_values(|value: serde_json::Value| json_tree(value))
}

/// `serde_json::from_str` at `Value`: succeeds exactly on the texts that are
/// one JSON document, and then holds that document. A failure comes back as
/// the parser's own description of it, of which nothing is claimed.
#[verifier::external_body]
pub(crate) fn parse_value(text: &str) -> (parsed: Result<serde_json::Value, String>)
    ensures
        match parsed {
            Ok(value) => json_document(text@) == Some(json_tree(value)),
            Err(_) => json_document(text@) is None,
        },
{
    serde_json::from_str(text).map_err(|failure: serde_json::Error| failure.to_string())
}

/// `Value::get` with a string key: the member of that name when the value is
/// an object that has it, `None` otherwise.
#[verifier::external_body]
pub(crate) fn value_member<'a>(value: &'a serde_json::Value, key: &str) -> (found: Option<
    &'a serde_json::Value,
>)
    ensures
        match found {
            Some(member) => json_tree(*value).member(key@) == Some(json_tree(*member)),
            None => json_tree(*value).member(key@) is None,
        },
{
    value.get(key)
}

/// `Value::as_array`: the elements when the value is an array.
#[verifier::external_body]
pub(crate) fn value_elements<'a>(value: &'a serde_json::Value) -> (found: Option<
    &'a Vec<serde_json::Value>,
>)
    ensures
        match found {
            Some(items) => json_tree(*value).elements() == Some(json_trees(items@)),
            None => json_tree(*value).elements() is None,
        },
{
    value.as_array()
}

/// `Value::as_str`: the characters when the value is a string.
#[verifier::external_body]
pub(crate) fn value_text<'a>(value: &'a serde_json::Value) -> (found: Option<&'a str>)
    ensures
        match found {
            Some(text) => json_tree(*value).text() == Some(text@),
            None => json_tree(*value).text() is None,
        },
{
    value.as_str()
}

/// `Value::as_i64`: the number when the value is an integer that fits `i64`.
#[verifier::external_body]
pub(crate) fn value_signed(value: &serde_json::Value) -> (found: Option<i64>)
    ensures
        found == json_tree(*value).signed(),
{
    value.as_i64()
}

/// `Value::as_u64`: the number when the value is an integer that fits `u64`.
#[verifier::external_body]
pub(crate) fn value_unsigned(value: &serde_json::Value) -> (found: Option<u64>)
    ensures
        found == json_tree(*value).unsigned(),
{
    value.as_u64()
}

/// `Value::is_object`: whether the value is an object.
#[verifier::external_body]
pub(crate) fn value_is_object(value: &serde_json::Value) -> (yes: bool)
    ensures
        yes == (json_tree(*value) is Object),
{
    value.is_object()
}

/// The `Debug` text of a `serde_json::Value`, for error messages. Nothing is
/// claimed of it.
#[verifier::external_body]
pub(crate) fn debug_text(value: &serde_json::Value) -> (text: String) {
    format!("{:?}", value)
}

/// The text stored under `key`, or the empty text where the document has no
/// string there.
pub open spec fn text_or_empty(document: Json, key: Seq<char>) -> Seq<char> {
    match document.member(key) {
        Some(Json::Text(chars)) => chars,
        _ => Seq::empty(),
    }
}

/// Reads the string member `key` of `document`, defaulting to the empty
/// string.
pub fn text_member_or_empty(document: &serde_json::Value, key: &str) -> (text: String)
    ensures
        text@ == text_or_empty(json_tree(*document), key@),
{
    match value_member(document, key) {
        Some(member) => match value_text(member) {
            Some(text) => text.to_owned(),
            None => String::new(),
        },
        None => String::new(),
    }
}

/// The integer stored under `key`, or zero where the document has no integer
/// there that fits `i64`.
pub open spec fn signed_or_zero(document: Json, key: Seq<char>) -> i64 {
    match document.member(key) {
        Some(member) => match member.signed() {
            Some(number) => number,
            None => 0,
        },
        None => 0,
    }
}

/// Reads the integer member `key` of `document`, defaulting to zero.
pub fn signed_member_or_zero(document: &serde_json::Value, key: &str) -> (number: i64)
    ensures
        number == signed_or_zero(json_tree(*document), key@),
{
    match value_member(document, key) {
        Some(member) => match value_signed(member) {
            Some(number) => number,
            None => 0,
        },
        None => 0,
    }
}

/// The elements of the array stored under `key`, where the document has one.
pub open spec fn array_member(document: Json, key: Seq<char>) -> Option<Seq<Json>> {
    match document.member(key) {
        Some(member) => member.elements(),
        None => None,
    }
}

/// Reads the array member `key` of `document`.
pub fn elements_of_member<'a>(document: &'a serde_json::Value, key: &str) -> (found: Option<
    &'a Vec<serde_json::Value>,
>)
    ensures
        match found {
            Some(entries) => array_member(json_tree(*document), key@) == Some(json_trees(entries@)),
            None => array_member(json_tree(*document), key@) is None,
        },
{
    match value_member(document, key) {
        Some(member) => value_elements(member),
        None => None,
    }
}

/// The integer stored under `key`, or zero where the document has no integer
/// there that fits `u64`.
pub open spec fn unsigned_or_zero(document: Json, key: Seq<char>) -> u64 {
    match document.member(key) {
        Some(member) => match member.unsigned() {
            Some(number) => number,
            None => 0,
        },
        None => 0,
    }
}

/// Reads the unsigned integer member `key` of `document`, defaulting to zero.
pub fn unsigned_member_or_zero(document: &serde_json::Value, key: &str) -> (number: u64)
    ensures
        number == unsigned_or_zero(json_tree(*document), key@),
{
    match value_member(document, key) {
        Some(member) => match value_unsigned(member) {
            Some(number) => number,
            None => 0,
        },
        None => 0,
    }
}

} // verus!
