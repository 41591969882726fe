//! The JSON values of `serde_json`, as far as the merge of reports reads
//! and writes them. Verus does not see inside a `serde_json::Value`: what
//! one holds is named by [`json_of`], and the functions of this module say
//! over that name what the functions of `serde_json` do. These contracts
//! are believed, not proved.
use serde_json::{Error, Number, Value};
use vstd::prelude::*;

verus! {

/// `serde_json::Value`: a JSON value.
#[verifier::external_type_specification]
#[verifier::external_body]
pub struct ExValue(serde_json::Value);

/// `serde_json::Number`: a JSON number.
#[verifier::external_type_specification]
#[verifier::external_body]
pub struct ExNumber(serde_json::Number);

/// `serde_json::Error`: why a text could not be read or a value not be
/// written.
#[verifier::external_type_specification]
#[verifier::external_body]
pub struct ExError(serde_json::Error);

/// A JSON value as a mathematical tree.
pub enum Json {
    Null,
    Bool(bool),
    Number(Number),
    Text(Seq<char>),
    List(Seq<Json>),
    Object(Map<Seq<char>, Json>),
}

/// What a `serde_json::Value` holds.
pub uninterp spec fn json_of(v: Value) -> Json;

/// The value that `serde_json` reads from a text, where the text is JSON.
pub uninterp spec fn json_parse(text: Seq<char>) -> Option<Json>;

/// The text that `serde_json` writes for a value, in its indented form,
/// where it writes one.
pub uninterp spec fn json_pretty(j: Json) -> Option<Seq<char>>;

/// What each of the values holds.
pub open spec fn jsons(items: Seq<Value>) -> Seq<Json> {
    items.map_values(|v: Value| json_of(v))
}

/// The member `key` of an object; nothing of another value, or of an
/// object without that key.
pub open spec fn member_of(j: Json, key: Seq<char>) -> Option<Json> {
    match j {
        Json::Object(fields) => if fields.contains_key(key) {
            Some(fields[key])
        } else {
            None
        },
        _ => None,
    }
}

/// `serde_json::from_str` reads a value from a text, or fails where the
/// text is not JSON. Which of the two, and the value, depend on the text
/// alone.
#[verifier::external_body]
pub(crate) fn parse(text: &str) -> (out: Result<Value, Error>)
    ensures
        match out {
            Ok(v) => json_parse(text@) == Some(json_of(v)),
            Err(_) => json_parse(text@) is None,
        },
{
    serde_json::from_str(text)
}

/// `serde_json::to_string_pretty` writes a value as indented text, or
/// fails. Which of the two, and the text, depend on the value alone.
#[verifier::external_body]
pub(crate) fn pretty(v: &Value) -> (out: Result<String, Error>)
    ensures
        match out {
            Ok(text) => json_pretty(json_of(*v)) == Some(text@),
            Err(_) => json_pretty(json_of(*v)) is None,
        },
{
    serde_json::to_string_pretty(v)
}

/// `Value::get` with a string key gives the member of an object under
/// that key, and nothing for a missing key or a value that is no object.
#[verifier::external_body]
pub(crate) fn member<'a>(v: &'a Value, key: &str) -> (out: Option<&'a Value>)
    ensures
        match out {
            Some(m) => member_of(json_of(*v), key@) == Some(json_of(*m)),
            None => member_of(json_of(*v), key@) is None,
        },
{
    v.get(key)
}

/// `Value::as_str` gives the text of a string, and nothing for any other
/// value.
#[verifier::external_body]
pub(crate) fn text_of<'a>(v: &'a Value) -> (out: Option<&'a str>)
    ensures
        match out {
            Some(s) => json_of(*v) == Json::Text(s@),
            None => !(json_of(*v) is Text),
        },
{
    v.as_str()
}

/// `Value::as_array` gives the items of an array, and nothing for any
/// other value.
#[verifier::external_body]
pub(crate) fn items_of<'a>(v: &'a Value) -> (out: Option<&'a Vec<Value>>)
    ensures
        match out {
            Some(items) => json_of(*v) == Json::List(jsons(items@)),
            None => !(json_of(*v) is List),
        },
{
    v.as_array()
}

/// `Value::from` makes the string value that holds the given text.
#[verifier::external_body]
pub(crate) fn text_value(s: String) -> (out: Value)
    ensures
        json_of(out) == Json::Text(s@),
{
    Value::from(s)
}

/// `Value::from` makes the array that holds the given values in their
/// order.
#[verifier::external_body]
pub(crate) fn list_value(items: Vec<Value>) -> (out: Value)
    ensures
        json_of(out) == Json::List(jsons(items@)),
{
    Value::from(items)
}

/// Assignment to `v[key]` puts `m` under `key` in an object, in place of
/// what stood there, and leaves the other members as they are. On a value
/// that is neither an object nor null it panics, and on null it makes an
/// object: both are left out here.
#[verifier::external_body]
pub(crate) fn set_member(v: &mut Value, key: &str, m: Value)
    requires
        json_of(*old(v)) is Object,
    ensures
        json_of(*final(v)) == Json::Object(json_of(*old(v))->Object_0.insert(key@, json_of(m))),
{
    v[key] = m;
}

/// The clone of a value holds what the value holds.
pub assume_specification[ <Value as Clone>::clone ](v: &Value) -> (out: Value)
    ensures
        json_of(out) == json_of(*v),
;

} // verus!
