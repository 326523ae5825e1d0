//! JSON documents. The documents themselves are `serde_json::Value`s; what the
//! rest of the library proves about them is stated over `Json`, their
//! mathematical content. Every function in this file that is marked
//! `external_body` is a direct call into `serde_json` whose contract is taken
//! on trust from that crate's documentation and source.

use crate::text::single_line;
use vstd::prelude::*;

verus! {

/// `serde_json::Value`. Nothing is known of a value but what the functions
/// below say of its content.
#[verifier::external_type_specification]
#[verifier::external_body]
pub struct ExValue(serde_json::Value);

/// `serde_json::Error`, of which only the message is ever read.
#[verifier::external_type_specification]
#[verifier::external_body]
pub struct ExJsonError(serde_json::Error);

/// The content of a JSON document.
///
/// Objects are maps: `serde_json` is built here with its default, sorted
/// object representation, so an object is determined by its members alone.
#[verifier::ext_equal]
pub enum Json {
    Null,
    Bool(bool),
    /// A number held as an integer.
    Int(int),
    /// A number held as a double, named by its bit pattern.
    Real(int),
    Text(Seq<char>),
    List(Seq<Json>),
    Object(Map<Seq<char>, Json>),
}

impl Json {
    /// The member `key` of an object; nothing for a missing key or a document
    /// that is no object.
    pub open spec fn member(self, key: Seq<char>) -> Option<Json> {
        match self {
            Json::Object(members) => if members.contains_key(key) {
                Some(members[key])
            } else {
                None
            },
            _ => None,
        }
    }

    /// The string found under `key`, or `default` where there is none.
    pub open spec fn text_at(self, key: Seq<char>, default: Seq<char>) -> Seq<char> {
        match self.member(key) {
            Some(Json::Text(t)) => t,
            _ => default,
        }
    }

    /// The document with `key` set to `value`. Only objects have members.
    pub open spec fn with(self, key: Seq<char>, value: Json) -> Json {
        match self {
            Json::Object(members) => Json::Object(members.insert(key, value)),
            _ => self,
        }
    }

    /// The object without members.
    pub open spec fn empty_object() -> Json {
        Json::Object(Map::empty())
    }
}

/// The content of a `serde_json::Value`.
pub uninterp spec fn json_model(v: serde_json::Value) -> Json;

/// The compact text that `serde_json::to_string` writes for a document.
pub uninterp spec fn json_text(j: Json) -> Seq<char>;

/// The indented text that `serde_json::to_string_pretty` writes for a document.
pub uninterp spec fn json_pretty_text(j: Json) -> Seq<char>;

/// The document that `serde_json::from_str` reads from a text, if it reads one.
pub uninterp spec fn json_parsed(text: Seq<char>) -> Option<Json>;

/// The contents of a sequence of values, element by element.
pub open spec fn models(items: Seq<serde_json::Value>) -> Seq<Json> {
    Seq::new(items.len(), |i: int| json_model(items[i]))
}

/// The content of a value that may be absent.
pub open spec fn optional_model(v: Option<serde_json::Value>) -> Option<Json> {
    match v {
        Some(v) => Some(json_model(v)),
        None => None,
    }
}

/// `serde_json::Value::Null`.
#[verifier::external_body]
pub(crate) fn json_null() -> (v: serde_json::Value)
    ensures
        json_model(v) == Json::Null,
{
    serde_json::Value::Null
}

/// `serde_json::Value::String` holding a copy of `s`.
#[verifier::external_body]
pub(crate) fn json_string(s: &str) -> (v: serde_json::Value)
    ensures
        json_model(v) == Json::Text(s@),
{
    serde_json::Value::String(s.to_owned())
}

/// `Value::from` on an `i32`: the number is kept as an integer.
#[verifier::external_body]
pub(crate) fn json_int(n: i32) -> (v: serde_json::Value)
    ensures
        json_model(v) == Json::Int(n as int),
{
    serde_json::Value::from(n)
}

/// `serde_json::Value::Array` holding `items` in their order.
#[verifier::external_body]
pub(crate) fn json_array(items: Vec<serde_json::Value>) -> (v: serde_json::Value)
    ensures
        json_model(v) == Json::List(models(items@)),
{
    serde_json::Value::Array(items)
}

/// `serde_json::Value::Object` on `Map::new()`: an object without members.
#[verifier::external_body]
pub(crate) fn json_object() -> (v: serde_json::Value)
    ensures
        json_model(v) == Json::empty_object(),
{
    serde_json::Value::Object(serde_json::Map::new())
}

/// Assignment through `IndexMut<&str>` of `Value`: on an object the key is
/// inserted, or its value replaced. On a value that is neither an object nor
/// null the crate panics, so only objects are admitted.
#[verifier::external_body]
pub(crate) fn json_set(object: &mut serde_json::Value, key: &str, value: serde_json::Value)
    requires
        json_model(*old(object)) is Object,
    ensures
        json_model(*final(object)) == json_model(*old(object)).with(key@, json_model(value)),
{
    object[key] = value;
}

/// `Value::get` with a string key: the member of an object, `None` for a
/// missing key and for anything that is not an object.
#[verifier::external_body]
pub(crate) fn json_get<'a>(v: &'a serde_json::Value, key: &str) -> (found: Option<
    &'a serde_json::Value,
>)
    ensures
        match found {
            Some(m) => json_model(*v).member(key@) == Some(json_model(*m)),
            None => json_model(*v).member(key@) is None,
        },
{
    v.get(key)
}

/// `Value::as_str`: the characters of a string value, `None` for any other.
#[verifier::external_body]
pub(crate) fn json_as_str<'a>(v: &'a serde_json::Value) -> (s: Option<&'a str>)
    ensures
        match s {
            Some(t) => json_model(*v) == Json::Text(t@),
            None => !(json_model(*v) is Text),
        },
{
    v.as_str()
}

/// `Value::as_array`: the elements of an array value, `None` for any other.
#[verifier::external_body]
pub(crate) fn json_as_array<'a>(v: &'a serde_json::Value) -> (items: Option<
    &'a Vec<serde_json::Value>,
>)
    ensures
        match items {
            Some(list) => json_model(*v) == Json::List(models(list@)),
            None => !(json_model(*v) is List),
        },
{
    v.as_array()
}

/// `Clone::clone` of `Value`: a value with the same content.
pub assume_specification[ <serde_json::Value as Clone>::clone ](
    v: &serde_json::Value,
) -> (copy: serde_json::Value)
    ensures
        json_model(copy) == json_model(*v),
;

/// `serde_json::to_string` on a `Value`. The text depends on the content
/// alone. It is compact: the serializer puts no line feed between the parts of
/// a document, and writes one inside a string as an escape, so the text holds
/// none. Writing a `Value` into a string does not fail; the default is there
/// for the form.
#[verifier::external_body]
pub(crate) fn json_to_string(v: &serde_json::Value) -> (text: String)
    ensures
        text@ == json_text(json_model(*v)),
        single_line(text@),
{
    serde_json::to_string(v).unwrap_or_default()
}

/// `serde_json::to_string_pretty` on a `Value`. The text depends on the
/// content alone. Writing a `Value` into a string does not fail; the default
/// is there for the form.
#[verifier::external_body]
pub(crate) fn json_to_string_pretty(v: &serde_json::Value) -> (text: String)
    ensures
        text@ == json_pretty_text(json_model(*v)),
{
    serde_json::to_string_pretty(v).unwrap_or_default()
}

/// `serde_json::from_str` to a `Value`: whether a text is read, and as which
/// document, depends on the text alone.
#[verifier::external_body]
pub(crate) fn json_parse(text: &str) -> (r: Result<serde_json::Value, serde_json::Error>)
    ensures
        match r {
            Ok(v) => json_parsed(text@) == Some(json_model(v)),
            Err(_) => json_parsed(text@) is None,
        },
{
    serde_json::from_str::<serde_json::Value>(text)
}

/// Reads the string under `key` of `entry`, or takes `default` where `entry`
/// has no such member or the member is no string.
pub fn text_member<'a>(entry: &'a serde_json::Value, key: &str, default: &'a str) -> (text:
    &'a str)
    ensures
        text@ == json_model(*entry).text_at(key@, default@),
{
    match json_get(entry, key) {
        Some(found) => match json_as_str(found) {
            Some(text) => text,
            None => default,
        },
        None => default,
    }
}

/// The message of a `serde_json::Error`, as its `Display` writes it.
#[verifier::external_body]
pub(crate) fn json_error_message(e: &serde_json::Error) -> String {
    e.to_string()
}

} // verus!
