//! JSON documents, read into a plain model.

use vstd::prelude::*;

verus! {

/// `serde_json::Value`, carried as an opaque value.
#[verifier::external_type_specification]
#[verifier::external_body]
pub struct ExValue(serde_json::Value);

/// A JSON value. A number is kept as the unsigned integer it stands for,
/// if it stands for one; the members of an object are kept in the order
/// the parser lists them, each key once.
#[derive(Debug)]
pub enum Json {
    Null,
    Bool(bool),
    Number(Option<u64>),
    Text(String),
    Array(Vec<Json>),
    Object(Vec<(String, Json)>),
}

/// The value that `text` is parsed as, if it is one JSON value.
pub uninterp spec fn json_value(text: Seq<char>) -> Option<Json>;

/// The values that `text` is parsed as, if it is one JSON array.
pub uninterp spec fn json_list(text: Seq<char>) -> Option<Vec<Json>>;

/// A `serde_json::Value`, copied into the model variant by variant.
#[verifier::external_body]
pub(crate) fn to_json(value: serde_json::Value) -> (json: Json) {
    match value {
        serde_json::Value::Null => Json::Null,
        serde_json::Value::Bool(b) => Json::Bool(b),
        serde_json::Value::Number(n) => Json::Number(n.as_u64()),
        serde_json::Value::String(s) => Json::Text(s),
        serde_json::Value::Array(items) => Json::Array(items.into_iter().map(to_json).collect()),
        serde_json::Value::Object(members) => Json::Object(
            members.into_iter().map(|(key, value)| (key, to_json(value))).collect(),
        ),
    }
}

/// `serde_json::from_str` for one value of any kind.
#[verifier::external_body]
pub(crate) fn parse_value(text: &str) -> (r: Result<Json, serde_json::Error>)
    ensures
        match r {
            Ok(json) => json_value(text@) == Some(json),
            Err(_) => json_value(text@) is None,
        },
{
    serde_json::from_str::<serde_json::Value>(text).map(to_json)
}

/// `serde_json::from_str` for a list of values of any kind.
#[verifier::external_body]
pub(crate) fn parse_list(text: &str) -> (r: Result<Vec<Json>, serde_json::Error>)
    ensures
        match r {
            Ok(items) => json_list(text@) == Some(items),
            Err(_) => json_list(text@) is None,
        },
{
    let values = serde_json::from_str::<Vec<serde_json::Value>>(text)?;
    Ok(values.into_iter().map(to_json).collect())
}

} // verus!
