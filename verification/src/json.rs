//! JSON documents, read and written by `serde_json`.
//!
//! A document is held as a `serde_json::Value`. Verified code never looks
//! inside one: it asks through the functions below, each of which makes one
//! call into `serde_json` and states what that call is documented to return,
//! over `value_model`, the document a value stands for.

use vstd::prelude::*;

verus! {

/// A JSON document. An object is a map from its keys to their values. A
/// number is an integer, or else a real number kept as its text.
pub enum JsonValue {
    Null,
    Bool(bool),
    Integer(int),
    Real(Seq<char>),
    Text(Seq<char>),
    Array(Seq<JsonValue>),
    Object(Map<Seq<char>, JsonValue>),
}

/// Declares `serde_json::Value`, of which nothing inside is seen.
#[verifier::external_type_specification]
#[verifier::external_body]
pub struct ExValue(serde_json::Value);

/// Declares `serde_json::Error`, of which nothing inside is seen.
#[verifier::external_type_specification]
#[verifier::external_body]
pub struct ExError(serde_json::Error);

/// Declares `serde_json::Map`, of which nothing inside is seen.
#[verifier::external_type_specification]
#[verifier::external_body]
#[verifier::reject_recursive_types(K)]
#[verifier::reject_recursive_types(V)]
pub struct ExMap<K, V>(serde_json::Map<K, V>);

/// The document that a `serde_json::Value` stands for.
pub uninterp spec fn value_model(value: serde_json::Value) -> JsonValue;

/// The entries that a `serde_json::Map` holds: its keys, each with the
/// document of its value.
pub uninterp spec fn map_model(entries: serde_json::Map<String, serde_json::Value>) -> Map<
    Seq<char>,
    JsonValue,
>;

/// The entries of an empty object.
pub open spec fn no_entries() -> Map<Seq<char>, JsonValue> {
    Map::empty()
}

/// The message that a `serde_json::Error` displays.
pub uninterp spec fn error_message(error: serde_json::Error) -> Seq<char>;

/// What `serde_json::from_str` makes of a text: the document it reads, or the
/// message of the error it reports.
pub uninterp spec fn json_reading(text: Seq<char>) -> Result<JsonValue, Seq<char>>;

/// The compact text that `serde_json::to_string` writes for a document.
pub uninterp spec fn json_writing(document: JsonValue) -> Seq<char>;

/// The indented text that `serde_json::to_string_pretty` writes for a document.
pub uninterp spec fn json_pretty_writing(document: JsonValue) -> Seq<char>;

/// The documents of a sequence of values, in order.
pub open spec fn models(values: Seq<serde_json::Value>) -> Seq<JsonValue> {
    values.map_values(|value: serde_json::Value| value_model(value))
}

/// Calls `serde_json::from_str::<Value>`. Trusted: whether the text is read,
/// the document read, and the error reported depend on the text alone.
#[verifier::external_body]
pub(crate) fn read_json(text: &str) -> (r: Result<serde_json::Value, serde_json::Error>)
    ensures
        match r {
            Ok(value) => json_reading(text@) == Ok::<JsonValue, Seq<char>>(value_model(value)),
            Err(error) => json_reading(text@) == Err::<JsonValue, Seq<char>>(error_message(error)),
        },
{
    serde_json::from_str::<serde_json::Value>(text)
}

/// Calls `to_string` on a `serde_json::Error`, which gives its `Display` text.
#[verifier::external_body]
pub(crate) fn error_text(error: &serde_json::Error) -> (text: String)
    ensures
        text@ == error_message(*error),
{
    error.to_string()
}

/// Calls `serde_json::to_string`. Trusted: the text depends on the document
/// alone. Writing a `Value` cannot fail: its keys are strings.
#[verifier::external_body]
pub(crate) fn write_json(value: &serde_json::Value) -> (text: String)
    ensures
        text@ == json_writing(value_model(*value)),
{
    serde_json::to_string(value).unwrap_or_default()
}

/// Calls `serde_json::to_string_pretty`. Trusted: the text depends on the
/// document alone. Writing a `Value` cannot fail: its keys are strings.
#[verifier::external_body]
pub(crate) fn write_json_pretty(value: &serde_json::Value) -> (text: String)
    ensures
        text@ == json_pretty_writing(value_model(*value)),
{
    serde_json::to_string_pretty(value).unwrap_or_default()
}

/// Calls `Value::is_object`: true exactly for an object.
#[verifier::external_body]
pub(crate) fn is_object(value: &serde_json::Value) -> (r: bool)
    ensures
        r == (value_model(*value) is Object),
{
    value.is_object()
}

/// Calls `Value::get` with a text key: the value under that key where `value`
/// is an object that has the key, `None` otherwise.
#[verifier::external_body]
pub(crate) fn get<'a>(value: &'a serde_json::Value, key: &str) -> (r: Option<&'a serde_json::Value>)
    ensures
        match r {
            Some(found) => value_model(*value) matches JsonValue::Object(entries)
                && entries.dom().contains(key@) && entries[key@] == value_model(*found),
            None => !(value_model(*value) matches JsonValue::Object(entries)
                && entries.dom().contains(key@)),
        },
{
    value.get(key)
}

/// Calls `Value::is_null`: true exactly for `null`.
#[verifier::external_body]
pub(crate) fn is_null(value: &serde_json::Value) -> (r: bool)
    ensures
        r == (value_model(*value) is Null),
{
    value.is_null()
}

/// Calls `Value::as_bool`: the boolean where `value` is one, `None` otherwise.
#[verifier::external_body]
pub(crate) fn as_bool(value: &serde_json::Value) -> (r: Option<bool>)
    ensures
        r == match value_model(*value) {
            JsonValue::Bool(b) => Some(b),
            _ => None::<bool>,
        },
{
    value.as_bool()
}

/// Calls `Value::as_u64`: the number where `value` is an integer that fits
/// `u64`, `None` otherwise.
#[verifier::external_body]
pub(crate) fn as_u64(value: &serde_json::Value) -> (r: Option<u64>)
    ensures
        r == match value_model(*value) {
            JsonValue::Integer(n) => if 0 <= n <= u64::MAX {
                Some(n as u64)
            } else {
                None::<u64>
            },
            _ => None::<u64>,
        },
{
    value.as_u64()
}

/// Calls `Value::as_str`: the text where `value` is a string, `None` otherwise.
#[verifier::external_body]
pub(crate) fn as_str<'a>(value: &'a serde_json::Value) -> (r: Option<&'a str>)
    ensures
        match r {
            Some(text) => value_model(*value) == JsonValue::Text(text@),
            None => !(value_model(*value) is Text),
        },
{
    value.as_str()
}

/// Calls `Value::as_array`: the items where `value` is an array, `None` otherwise.
#[verifier::external_body]
pub(crate) fn as_array<'a>(value: &'a serde_json::Value) -> (r: Option<&'a Vec<serde_json::Value>>)
    ensures
        match r {
            Some(items) => value_model(*value) == JsonValue::Array(models(items@)),
            None => !(value_model(*value) is Array),
        },
{
    value.as_array()
}

/// Makes `Value::Null`.
#[verifier::external_body]
pub(crate) fn null() -> (value: serde_json::Value)
    ensures
        value_model(value) == JsonValue::Null,
{
    serde_json::Value::Null
}

/// Makes `Value::Bool`.
#[verifier::external_body]
pub(crate) fn boolean(b: bool) -> (value: serde_json::Value)
    ensures
        value_model(value) == JsonValue::Bool(b),
{
    serde_json::Value::Bool(b)
}

/// Calls `Value::from` on a `u64`, which makes the number `n`.
#[verifier::external_body]
pub(crate) fn number(n: u64) -> (value: serde_json::Value)
    ensures
        value_model(value) == JsonValue::Integer(n as int),
{
    serde_json::Value::from(n)
}

/// Makes `Value::String`.
#[verifier::external_body]
pub(crate) fn string(text: String) -> (value: serde_json::Value)
    ensures
        value_model(value) == JsonValue::Text(text@),
{
    serde_json::Value::String(text)
}

/// Makes `Value::Array`.
#[verifier::external_body]
pub(crate) fn array(items: Vec<serde_json::Value>) -> (value: serde_json::Value)
    ensures
        value_model(value) == JsonValue::Array(models(items@)),
{
    serde_json::Value::Array(items)
}

/// Calls `Map::new`: a map without entries.
#[verifier::external_body]
pub(crate) fn new_map() -> (made: serde_json::Map<String, serde_json::Value>)
    ensures
        map_model(made) == no_entries(),
{
    serde_json::Map::new()
}

/// Calls `Map::insert`: afterwards the map holds `value` under `key`, in
/// place of any value it held under that key, and its other entries as
/// before.
#[verifier::external_body]
pub(crate) fn insert(
    entries: &mut serde_json::Map<String, serde_json::Value>,
    key: String,
    value: serde_json::Value,
)
    ensures
        map_model(*final(entries)) == map_model(*old(entries)).insert(key@, value_model(value)),
{
    entries.insert(key, value);
}

/// Makes `Value::Object`.
#[verifier::external_body]
pub(crate) fn object(entries: serde_json::Map<String, serde_json::Value>) -> (value:
    serde_json::Value)
    ensures
        value_model(value) == JsonValue::Object(map_model(entries)),
{
    serde_json::Value::Object(entries)
}

} // verus!
