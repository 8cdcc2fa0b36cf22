//! The JSON values that windows exchange with the editor core.
//!
//! `serde_json` parses and builds them. Nothing in this module is proved: each
//! function states what the corresponding `serde_json` function does, over
//! [`Json`], the mathematical content of a value.

use vstd::prelude::*;

verus! {

/// `serde_json::Value`, carried through as an opaque value.
#[verifier::external_type_specification]
#[verifier::external_body]
pub struct ExValue(serde_json::Value);

/// `serde_json::Error`, carried through as an opaque value.
#[verifier::external_type_specification]
#[verifier::external_body]
pub struct ExError(serde_json::Error);

/// `serde_json::Map`, the table behind a JSON object.
#[verifier::external_type_specification]
#[verifier::external_body]
#[verifier::reject_recursive_types(K)]
#[verifier::reject_recursive_types(V)]
pub struct ExMap<K, V>(serde_json::Map<K, V>);

/// What a JSON value holds. A number that `serde_json` keeps as an integer
/// is `Int`; any other number is `Fraction`.
pub ghost enum Json {
    Null,
    Bool(bool),
    Int(int),
    Fraction,
    Text(Seq<char>),
    List(Seq<Json>),
    Object(Map<Seq<char>, Json>),
}

/// What a `serde_json::Value` holds.
pub uninterp spec fn json_model(v: serde_json::Value) -> Json;

/// The members of a `serde_json::Map`, by key.
pub uninterp spec fn object_fields(m: serde_json::Map<String, serde_json::Value>) -> Map<
    Seq<char>,
    Json,
>;

/// The members of an object that has none.
pub open spec fn no_fields() -> Map<Seq<char>, Json> {
    Map::empty()
}

/// What `serde_json::from_str` reads from a text: the content of the value it
/// returns, or the message of the error it returns.
pub uninterp spec fn json_parse(text: Seq<char>) -> Result<Json, Seq<char>>;

/// The message of a `serde_json::Error`, as `to_string` gives it.
pub uninterp spec fn error_message(e: serde_json::Error) -> Seq<char>;

/// `serde_json::from_str::<Value>`. Trusted: the outcome is `json_parse` of
/// the text: a value that holds the content, or an error with the message.
#[verifier::external_body]
pub(crate) fn parse(text: &str) -> (res: Result<serde_json::Value, serde_json::Error>)
    ensures
        match res {
            Ok(v) => json_parse(text@) matches Ok(content) && content == json_model(v),
            Err(e) => json_parse(text@) matches Err(message) && message == error_message(e),
        },
{
    serde_json::from_str::<serde_json::Value>(text)
}

/// `to_string` of a `serde_json::Error`. Trusted: the text is the error's
/// message.
#[verifier::external_body]
pub(crate) fn error_text(e: &serde_json::Error) -> (res: String)
    ensures
        res@ == error_message(*e),
{
    e.to_string()
}

/// `Value::get` with a string index. Trusted: a member is returned exactly
/// when the value is an object that has the key, and it is that member.
#[verifier::external_body]
pub(crate) fn member<'a>(v: &'a serde_json::Value, key: &str) -> (res: Option<
    &'a serde_json::Value,
>)
    ensures
        match res {
            Some(m) => json_model(*v) matches Json::Object(fields) && fields.contains_key(key@)
                && fields[key@] == json_model(*m),
            None => !(json_model(*v) matches Json::Object(fields) && fields.contains_key(key@)),
        },
{
    v.get(key)
}

/// `Value::as_str`. Trusted: a text is returned exactly when the value is a
/// string, and it is that string.
#[verifier::external_body]
pub(crate) fn as_text<'a>(v: &'a serde_json::Value) -> (res: Option<&'a str>)
    ensures
        match res {
            Some(s) => json_model(*v) == Json::Text(s@),
            None => !(json_model(*v) is Text),
        },
{
    v.as_str()
}

/// `Value::as_i64`. Trusted: an integer is returned exactly when the value is
/// an integer number that fits in `i64`, and it is that number.
#[verifier::external_body]
pub(crate) fn as_int(v: &serde_json::Value) -> (res: Option<i64>)
    ensures
        match res {
            Some(i) => json_model(*v) == Json::Int(i as int),
            None => !(json_model(*v) matches Json::Int(i) && i64::MIN <= i <= i64::MAX),
        },
{
    v.as_i64()
}

/// `Value::as_bool`. Trusted: a boolean is returned exactly when the value is
/// one, and it is that boolean.
#[verifier::external_body]
pub(crate) fn as_flag(v: &serde_json::Value) -> (res: Option<bool>)
    ensures
        match res {
            Some(b) => json_model(*v) == Json::Bool(b),
            None => !(json_model(*v) is Bool),
        },
{
    v.as_bool()
}

/// `Value::is_object`. Trusted: true exactly for an object.
#[verifier::external_body]
pub(crate) fn is_object(v: &serde_json::Value) -> (res: bool)
    ensures
        res == (json_model(*v) is Object),
{
    v.is_object()
}

/// `Clone::clone` of a `serde_json::Value`. Trusted: the copy is the same value.
#[verifier::external_body]
pub(crate) fn clone_value(v: &serde_json::Value) -> (res: serde_json::Value)
    ensures
        res == *v,
{
    v.clone()
}

/// `Value::from(String)`. Trusted: the result is the string value of that text.
#[verifier::external_body]
pub(crate) fn text_value(s: String) -> (res: serde_json::Value)
    ensures
        json_model(res) == Json::Text(s@),
{
    serde_json::Value::from(s)
}

/// `Value::from(bool)`. Trusted: the result is that boolean value.
#[verifier::external_body]
pub(crate) fn flag_value(b: bool) -> (res: serde_json::Value)
    ensures
        json_model(res) == Json::Bool(b),
{
    serde_json::Value::from(b)
}

/// `Value::from(i64)`. Trusted: the result is the integer number of that value.
#[verifier::external_body]
pub(crate) fn int_value(i: i64) -> (res: serde_json::Value)
    ensures
        json_model(res) == Json::Int(i as int),
{
    serde_json::Value::from(i)
}

/// `Map::new`. Trusted: the new table has no member.
#[verifier::external_body]
pub(crate) fn empty_object() -> (res: serde_json::Map<String, serde_json::Value>)
    ensures
        object_fields(res) == no_fields(),
{
    serde_json::Map::new()
}

/// `Map::insert`. Trusted: afterwards the key holds the given value, and every
/// other key holds what it held. The value that the key held before is dropped.
#[verifier::external_body]
pub(crate) fn set_member(
    m: &mut serde_json::Map<String, serde_json::Value>,
    key: String,
    v: serde_json::Value,
)
    ensures
        object_fields(*final(m)) == object_fields(*old(m)).insert(key@, json_model(v)),
{
    m.insert(key, v);
}

/// `Value::from(Map)`. Trusted: the result is the object with the table's members.
#[verifier::external_body]
pub(crate) fn object_value(m: serde_json::Map<String, serde_json::Value>) -> (res:
    serde_json::Value)
    ensures
        json_model(res) == Json::Object(object_fields(m)),
{
    serde_json::Value::from(m)
}

} // verus!
