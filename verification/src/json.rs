//! The document model, and the boundary to `serde_json`.
//!
//! [`Json`] is the mathematical value of a JSON document. The library builds
//! its documents as `serde_json::Value`s; what such a value holds is named by
//! [`json_of`], and every contract of the library speaks of documents through
//! that name. The functions at the end of this module are the only places
//! where `serde_json` is called; their contracts are taken on trust.

use vstd::prelude::*;

verus! {

/// The value of a JSON number.
pub enum Num {
    /// A whole number.
    Integer(int),
    /// Any other number, given by the bits of its finite binary value.
    Binary(int),
}

/// The value of a JSON document.
pub enum Json {
    Null,
    Bool(bool),
    Number(Num),
    Str(Seq<char>),
    Array(Seq<Json>),
    Object(Map<Seq<char>, Json>),
}

#[verifier::external_type_specification]
#[verifier::external_body]
pub struct ExValue(serde_json::Value);

#[verifier::external_type_specification]
#[verifier::external_body]
pub struct ExNumber(serde_json::Number);

#[verifier::external_type_specification]
#[verifier::external_body]
#[verifier::reject_recursive_types(K)]
#[verifier::reject_recursive_types(V)]
pub struct ExFields<K, V>(serde_json::Map<K, V>);

#[verifier::external_type_specification]
#[verifier::external_body]
pub struct ExError(serde_json::Error);

/// The document that a `serde_json::Value` holds.
pub uninterp spec fn json_of(value: serde_json::Value) -> Json;

/// The number that a `serde_json::Number` holds: a whole number where it was
/// made of an integer.
pub uninterp spec fn number_of(number: serde_json::Number) -> Num;

/// The members that a `serde_json::Map` holds, by key. The map keeps its
/// members by key alone, whatever the order in which they came: this is how
/// `serde_json` is built here, without its option to keep that order.
pub uninterp spec fn fields_of(fields: serde_json::Map<String, serde_json::Value>) -> Map<Seq<char>, Json>;

/// What `serde_json::to_string` returns for a document: its compact JSON
/// text, with the members of an object in the order of their keys, or the
/// message of the error with which it refuses the document.
pub uninterp spec fn written_of(json: Json) -> Result<Seq<char>, Seq<char>>;

/// The message that a `serde_json::Error` displays.
pub uninterp spec fn message_of(error: serde_json::Error) -> Seq<char>;

/// What an outcome of `serde_json::to_string` holds: the text, or the message
/// of the error.
pub open spec fn held_by(outcome: Result<String, serde_json::Error>) -> Result<
    Seq<char>,
    Seq<char>,
> {
    match outcome {
        Ok(text) => Ok(text@),
        Err(error) => Err(message_of(error)),
    }
}

/// The documents that a list of `serde_json::Value`s holds, in order.
pub open spec fn jsons_of(values: Seq<serde_json::Value>) -> Seq<Json> {
    values.map_values(|value: serde_json::Value| json_of(value))
}

/// `serde_json::Value::Bool`: a document that is the given truth value.
#[verifier::external_body]
pub(crate) fn bool_value(flag: bool) -> (value: serde_json::Value)
    ensures
        json_of(value) == Json::Bool(flag),
{
    serde_json::Value::Bool(flag)
}

/// `serde_json::Value::String`: a document that is the given string.
#[verifier::external_body]
pub(crate) fn string_value(text: String) -> (value: serde_json::Value)
    ensures
        json_of(value) == Json::Str(text@),
{
    serde_json::Value::String(text)
}

/// `From<u64>` of `serde_json::Value`: a document that is the given whole
/// number.
#[verifier::external_body]
pub(crate) fn unsigned_value(number: u64) -> (value: serde_json::Value)
    ensures
        json_of(value) == Json::Number(Num::Integer(number as int)),
{
    serde_json::Value::from(number)
}

/// `From<i64>` of `serde_json::Value`: a document that is the given whole
/// number.
#[verifier::external_body]
pub(crate) fn signed_value(number: i64) -> (value: serde_json::Value)
    ensures
        json_of(value) == Json::Number(Num::Integer(number as int)),
{
    serde_json::Value::from(number)
}

/// `serde_json::Value::Number`: a document that is the given number.
#[verifier::external_body]
pub(crate) fn number_value(number: &serde_json::Number) -> (value: serde_json::Value)
    ensures
        json_of(value) == Json::Number(number_of(*number)),
{
    serde_json::Value::Number(number.clone())
}

/// `serde_json::Value::Array`: a document that lists the given documents in
/// their order.
#[verifier::external_body]
pub(crate) fn array_value(items: Vec<serde_json::Value>) -> (value: serde_json::Value)
    ensures
        json_of(value) == Json::Array(jsons_of(items@)),
{
    serde_json::Value::Array(items)
}

/// `serde_json::Value::Object`: a document that is an object with the given
/// members.
#[verifier::external_body]
pub(crate) fn object_value(fields: serde_json::Map<String, serde_json::Value>) -> (value:
    serde_json::Value)
    ensures
        json_of(value) == Json::Object(fields_of(fields)),
{
    serde_json::Value::Object(fields)
}

/// `serde_json::Map::new`: a map without members.
#[verifier::external_body]
pub(crate) fn new_fields() -> (fields: serde_json::Map<String, serde_json::Value>)
    ensures
        fields_of(fields) == (Map::<Seq<char>, Json>::empty()),
{
    serde_json::Map::new()
}

/// `serde_json::Map::insert`: the map holds the value under the key, in
/// place of what it held there, and keeps every other member. The result is
/// what the key held before, if anything.
#[verifier::external_body]
pub(crate) fn insert_field(
    fields: &mut serde_json::Map<String, serde_json::Value>,
    key: String,
    value: serde_json::Value,
) -> (previous: Option<serde_json::Value>)
    ensures
        fields_of(*final(fields)) == fields_of(*old(fields)).insert(key@, json_of(value)),
        previous is Some <==> fields_of(*old(fields)).contains_key(key@),
        previous matches Some(held) ==> json_of(held) == fields_of(*old(fields))[key@],
{
    fields.insert(key, value)
}

/// `serde_json::to_string` on a `serde_json::Value`: what it returns, the
/// text or the error, goes by the document alone. Whether it ever refuses
/// a document is not claimed.
#[verifier::external_body]
pub(crate) fn write_text(value: &serde_json::Value) -> (written: Result<
    String,
    serde_json::Error,
>)
    ensures
        held_by(written) == written_of(json_of(*value)),
{
    serde_json::to_string(value)
}

/// `ToString` of `serde_json::Error`: the error's message, as its `Display`
/// writes it.
#[verifier::external_body]
pub(crate) fn error_message(error: &serde_json::Error) -> (message: String)
    ensures
        message@ == message_of(*error),
{
    error.to_string()
}

} // verus!
