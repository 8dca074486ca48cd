//! JSON values as `serde_json` holds them, and the calls into that crate.
//!
//! [`JsonData`] is the mathematical content of a `serde_json::Value`, with
//! the members of an object kept by key, as `serde_json` keeps them unless it
//! is built to preserve their order. Every executable function in this file
//! is a single call into `serde_json` whose contract is taken on trust from
//! that crate's source; the rest of the library is proved against these
//! contracts.

use vstd::prelude::*;
use serde_json::Value;

verus! {

/// A JSON number, as `serde_json` classifies it.
pub enum JsonNumber {
    /// A non-negative integer below 2^64.
    Unsigned(u64),
    /// A negative integer, at least -2^63.
    Negative(i64),
    /// Any other finite number, by the bit pattern of its binary64 form.
    Binary64(u64),
}

/// The content of a JSON value.
pub enum JsonData {
    Null,
    Bool(bool),
    Number(JsonNumber),
    /// A string, by its characters.
    Text(Seq<char>),
    /// An array, by its elements in order.
    List(Seq<JsonData>),
    /// An object, by its members under their keys.
    Object(Map<Seq<char>, JsonData>),
}

impl JsonData {
    /// The member stored under `key`, or `Null` when `self` is not an object
    /// or has no such member.
    pub open spec fn member(self, key: Seq<char>) -> JsonData {
        match self {
            JsonData::Object(members) => if members.contains_key(key) {
                members[key]
            } else {
                JsonData::Null
            },
            _ => JsonData::Null,
        }
    }
}

/// `serde_json::Value`, carried as an opaque value: what it holds is known
/// through [`json_view`] alone.
#[verifier::external_type_specification]
#[verifier::external_body]
pub struct ExValue(serde_json::Value);

/// `serde_json::Error`, carried as an opaque value: only its message is
/// read, through [`json_error_text`].
#[verifier::external_type_specification]
#[verifier::external_body]
pub struct ExError(serde_json::Error);

/// What a `serde_json::Value` holds.
pub uninterp spec fn json_view(v: Value) -> JsonData;

/// The message that `serde_json::Error` displays.
pub uninterp spec fn json_error_text(e: serde_json::Error) -> Seq<char>;

/// What `serde_json::from_str` makes of a text: the content of the value it
/// parses, or the message of the error it reports.
pub uninterp spec fn json_parse(text: Seq<char>) -> Result<JsonData, Seq<char>>;

/// The compact JSON text that `serde_json` writes for a value with the given
/// content.
pub uninterp spec fn json_render(content: JsonData) -> Seq<char>;

/// Whether no two of the pairs have the same key.
pub open spec fn distinct_keys(fields: Seq<(String, Value)>) -> bool {
    forall|i: int, j: int|
        0 <= i < j < fields.len() ==> (#[trigger] fields[i]).0@ != (#[trigger] fields[j]).0@
}

/// The members that a sequence of pairs of key and value describes.
pub open spec fn members_of(fields: Seq<(String, Value)>) -> Map<Seq<char>, JsonData>
    decreases fields.len(),
{
    if fields.len() == 0 {
        Map::empty()
    } else {
        members_of(fields.drop_last()).insert(fields.last().0@, json_view(fields.last().1))
    }
}

/// The contents of a sequence of values, element by element.
pub open spec fn json_views(items: Seq<Value>) -> Seq<JsonData> {
    Seq::new(items.len(), |i: int| json_view(items[i]))
}

/// `serde_json::from_str::<Value>`: parsing is a function of the text alone.
#[verifier::external_body]
pub(crate) fn parse_value(text: &str) -> (r: Result<Value, serde_json::Error>)
    ensures
        match r {
            Ok(v) => json_parse(text@) == Ok::<JsonData, Seq<char>>(json_view(v)),
            Err(e) => json_parse(text@) == Err::<JsonData, Seq<char>>(json_error_text(e)),
        },
{
    serde_json::from_str(text)
}

/// `Value`'s index operator with a string key: the member of an object under
/// that key, and a null value when there is none or `v` is no object.
#[verifier::external_body]
pub(crate) fn member<'a>(v: &'a Value, key: &str) -> (r: &'a Value)
    ensures
        json_view(*r) == json_view(*v).member(key@),
{
    &v[key]
}

/// `Value::as_str`: the string that a string value holds.
#[verifier::external_body]
pub(crate) fn as_text<'a>(v: &'a Value) -> (r: Option<&'a str>)
    ensures
        match r {
            Some(s) => json_view(*v) == JsonData::Text(s@),
            None => !(json_view(*v) is Text),
        },
{
    v.as_str()
}

/// `Value::as_array`: the elements that an array value holds.
#[verifier::external_body]
pub(crate) fn as_list<'a>(v: &'a Value) -> (r: Option<&'a Vec<Value>>)
    ensures
        match r {
            Some(items) => json_view(*v) == JsonData::List(json_views(items@)),
            None => !(json_view(*v) is List),
        },
{
    v.as_array()
}

/// `Value::from` on a string slice: a string value with those characters.
#[verifier::external_body]
pub(crate) fn text_value(s: &str) -> (r: Value)
    ensures
        json_view(r) == JsonData::Text(s@),
{
    Value::from(s)
}

/// `Value::from` on an unsigned 64-bit integer: that number.
#[verifier::external_body]
pub(crate) fn number_value(n: u64) -> (r: Value)
    ensures
        json_view(r) == JsonData::Number(JsonNumber::Unsigned(n)),
{
    Value::from(n)
}

/// `Value::Array`: an array value with the given elements, in their order.
#[verifier::external_body]
pub(crate) fn list_value(items: Vec<Value>) -> (r: Value)
    ensures
        json_view(r) == JsonData::List(json_views(items@)),
{
    Value::Array(items)
}

/// `Value::Object` on the map that `serde_json::Map` collects from pairs of
/// key and value: an object with exactly those members. The keys must differ
/// from one another, since the map is not said to keep any particular one of
/// two equal keys.
#[verifier::external_body]
pub(crate) fn object_value(fields: Vec<(String, Value)>) -> (r: Value)
    requires
        distinct_keys(fields@),
    ensures
        json_view(r) == JsonData::Object(members_of(fields@)),
{
    Value::Object(fields.into_iter().collect())
}

/// `Value`'s `to_string`: the compact JSON text of the value, which depends
/// on its content alone.
#[verifier::external_body]
pub(crate) fn render(v: &Value) -> (r: String)
    ensures
        r@ == json_render(json_view(*v)),
{
    v.to_string()
}

/// `serde_json::Error`'s `to_string`: the message that the error displays.
#[verifier::external_body]
pub(crate) fn error_text(e: &serde_json::Error) -> (r: String)
    ensures
        r@ == json_error_text(*e),
{
    e.to_string()
}

} // verus!
