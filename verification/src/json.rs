//! A JSON value as plain data.

use vstd::prelude::*;
use crate::error::ParseError;
use crate::text::str_eq;

verus! {

/// A JSON value.
///
/// Numbers are kept as the integers that test vectors use. A number with a
/// fraction or an exponent is kept as its text.
#[derive(Debug, PartialEq, Eq)]
pub enum Json {
    Null,
    Bool(bool),
    /// A non-negative integer.
    UInt(u64),
    /// A negative integer.
    NegInt(i64),
    /// A number that is no integer in the 64-bit range, as text.
    Real(String),
    Str(String),
    Array(Vec<Json>),
    /// The members of an object, in the order in which they are held.
    Object(Vec<(String, Json)>),
}

/// The value of the first member of that name, if there is one.
pub open spec fn spec_find(fields: Seq<(String, Json)>, name: Seq<char>) -> Option<Json>
    decreases fields.len(),
{
    if fields.len() == 0 {
        None
    } else if fields[0].0@ == name {
        Some(fields[0].1)
    } else {
        spec_find(fields.drop_first(), name)
    }
}

/// Looks a member up by its name.
pub fn find<'a>(fields: &'a Vec<(String, Json)>, name: &str) -> (r: Option<&'a Json>)
    ensures
        r is Some <==> spec_find(fields@, name@) is Some,
        r is Some ==> *r->Some_0 == spec_find(fields@, name@)->Some_0,
{
    let mut i: usize = 0;
    assert(fields@.skip(0) =~= fields@);
    while i < fields.len()
        invariant
            i <= fields.len(),
            spec_find(fields@, name@) == spec_find(fields@.skip(i as int), name@),
        decreases fields.len() - i,
    {
        let ghost rest = fields@.skip(i as int);
        assert(rest[0] == fields@[i as int]);
        assert(rest.drop_first() =~= fields@.skip(i + 1));
        if str_eq(fields[i].0.as_str(), name) {
            return Some(&fields[i].1);
        }
        i = i + 1;
    }
    None
}

/// `serde_json::Value`: a JSON value as the reader gives it.
#[verifier::external_type_specification]
#[verifier::external_body]
pub struct ExJsonValue(serde_json::Value);

/// `serde_json::Number`: a JSON number as the reader gives it.
#[verifier::external_type_specification]
#[verifier::external_body]
pub struct ExJsonNumber(serde_json::Number);

/// `serde_json::Error`: why a text is no JSON document.
#[verifier::external_type_specification]
#[verifier::external_body]
pub struct ExJsonError(serde_json::Error);

/// The JSON value that a text is, if it is a JSON document.
pub uninterp spec fn parsed_json(text: Seq<char>) -> Option<Json>;

/// A `serde_json::Number` as a JSON value of this library.
///
/// Trusted: `as_u64` and `as_i64` tell the three kinds of number apart, and
/// `to_string` gives the text of one that is no 64-bit integer.
#[verifier::external_body]
fn json_of_number(n: &serde_json::Number) -> Json {
    match (n.as_u64(), n.as_i64()) {
        (Some(u), _) => Json::UInt(u),
        (None, Some(i)) => Json::NegInt(i),
        (None, None) => Json::Real(n.to_string()),
    }
}

/// A `serde_json::Value` as a JSON value of this library, variant by
/// variant; the members of an object in the order in which the map holds
/// them.
#[verifier::external_body]
fn json_of_value(v: serde_json::Value) -> Json {
    match v {
        serde_json::Value::Null => Json::Null,
        serde_json::Value::Bool(b) => Json::Bool(b),
        serde_json::Value::Number(n) => json_of_number(&n),
        serde_json::Value::String(s) => Json::Str(s),
        serde_json::Value::Array(a) => Json::Array(a.into_iter().map(json_of_value).collect()),
        serde_json::Value::Object(m) => Json::Object(
            m.into_iter().map(|(k, x)| (k, json_of_value(x))).collect(),
        ),
    }
}

/// `serde_json::from_str` to a `serde_json::Value`.
///
/// Trusted: whether the call succeeds, and what it gives, depends on the
/// text alone. The value is named, not spelled out.
#[verifier::external_body]
fn json_from_str(text: &str) -> (r: Result<Json, serde_json::Error>)
    ensures
        r is Ok <==> parsed_json(text@) is Some,
        r is Ok ==> r->Ok_0 == parsed_json(text@)->Some_0,
{
    serde_json::from_str::<serde_json::Value>(text).map(json_of_value)
}

/// The message of a `serde_json::Error`, as its `Display` writes it.
#[verifier::external_body]
fn json_error_message(e: &serde_json::Error) -> String {
    e.to_string()
}

/// What reading a text gives: the JSON value that the text is, or a
/// syntax error where it is none.
pub open spec fn parse_json_post(text: Seq<char>, r: Result<Json, ParseError>) -> bool {
    match r {
        Ok(j) => parsed_json(text) == Some(j),
        Err(e) => parsed_json(text) is None && e is Syntax,
    }
}

/// Reads a JSON document.
pub fn parse_json(text: &str) -> (r: Result<Json, ParseError>)
    ensures
        parse_json_post(text@, r),
{
    match json_from_str(text) {
        Ok(j) => Ok(j),
        Err(e) => Err(ParseError::Syntax(json_error_message(&e))),
    }
}

} // verus!
