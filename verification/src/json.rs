//! JSON documents, as `serde_json` reads them.
use vstd::prelude::*;

verus! {

/// `serde_json::Value`: a JSON value, of which the proofs see nothing but
/// what the functions below tell of it.
#[verifier::external_type_specification]
#[verifier::external_body]
pub struct ExValue(serde_json::Value);

/// What a JSON value holds. A number counts as the binary64 number nearest
/// to it and is held as the bit pattern of that number.
pub enum Json {
    Null,
    Bool(bool),
    Number(u64),
    String(Seq<char>),
    Array(Seq<Json>),
    Object(Map<Seq<char>, Json>),
}

/// What a value of `serde_json` holds.
pub uninterp spec fn content(value: serde_json::Value) -> Json;

/// What `serde_json::from_str` makes of a text: the value that the text
/// denotes, or `None` where the text is no JSON document.
pub uninterp spec fn document(text: Seq<char>) -> Option<Json>;

/// The kind of a value, with what a scalar holds.
pub enum Scalar {
    Null,
    Bool(bool),
    Number(u64),
    String(String),
    Array,
    Object,
}

/// Reads a JSON document.
///
/// `serde_json::from_str` at the type `serde_json::Value`, a function of the
/// text alone.
#[verifier::external_body]
pub(crate) fn parse(text: &str) -> (r: Option<serde_json::Value>)
    ensures
        match r {
            Some(value) => document(text@) == Some(content(value)),
            None => document(text@) is None,
        },
{
    serde_json::from_str::<serde_json::Value>(text).ok()
}

/// Tells the kinds of value apart.
///
/// The variants of `serde_json::Value`; of a number, `Number::as_f64`.
#[verifier::external_body]
pub(crate) fn scalar(value: &serde_json::Value) -> (r: Scalar)
    ensures
        match content(*value) {
            Json::Null => r is Null,
            Json::Bool(b) => r == Scalar::Bool(b),
            Json::Number(bits) => r == Scalar::Number(bits),
            Json::String(text) => r matches Scalar::String(s) && s@ == text,
            Json::Array(_) => r is Array,
            Json::Object(_) => r is Object,
        },
{
    match value {
        serde_json::Value::Null => Scalar::Null,
        serde_json::Value::Bool(b) => Scalar::Bool(*b),
        serde_json::Value::Number(n) => Scalar::Number(n.as_f64().unwrap_or_default().to_bits()),
        serde_json::Value::String(s) => Scalar::String(s.clone()),
        serde_json::Value::Array(_) => Scalar::Array,
        serde_json::Value::Object(_) => Scalar::Object,
    }
}

/// The member of an object under a key.
///
/// `serde_json::Value::get` with a string: the member, or `None` where the
/// value is no object or has no such member.
#[verifier::external_body]
pub(crate) fn member<'a>(value: &'a serde_json::Value, key: &str) -> (r: Option<&'a serde_json::Value>)
    ensures
        match content(*value) {
            Json::Object(members) => match r {
                Some(found) => members.dom().contains(key@) && members[key@] == content(*found),
                None => !members.dom().contains(key@),
            },
            _ => r is None,
        },
{
    value.get(key)
}

/// The items of an array.
///
/// `serde_json::Value::as_array`: the items in their order, and none where
/// the value is no array.
#[verifier::external_body]
pub(crate) fn items(value: &serde_json::Value) -> (r: &[serde_json::Value])
    ensures
        match content(*value) {
            Json::Array(list) => r@.len() == list.len() && forall|i: int|
                0 <= i < list.len() ==> content(#[trigger] r@[i]) == list[i],
            _ => r@.len() == 0,
        },
{
    match value.as_array() {
        Some(list) => list,
        None => &[],
    }
}

/// The member of an object under a key; `None` where the value is no object
/// or has no such member.
pub open spec fn field(json: Json, key: Seq<char>) -> Option<Json> {
    match json {
        Json::Object(members) => if members.dom().contains(key) {
            Some(members[key])
        } else {
            None
        },
        _ => None,
    }
}

/// The member of an object under a key, a `null` counting as no member.
pub open spec fn present(json: Json, key: Seq<char>) -> Option<Json> {
    match field(json, key) {
        Some(Json::Null) => None,
        other => other,
    }
}

/// The number that a member has to hold.
pub open spec fn number(json: Json, key: Seq<char>) -> Option<u64> {
    match field(json, key) {
        Some(Json::Number(bits)) => Some(bits),
        _ => None,
    }
}

/// The text that a member has to hold.
pub open spec fn text(json: Json, key: Seq<char>) -> Option<Seq<char>> {
    match field(json, key) {
        Some(Json::String(chars)) => Some(chars),
        _ => None,
    }
}

/// The number that a member holds if it is there: `Some(None)` where it is
/// not, and `None` where it holds something else than a number.
pub open spec fn optional_number(json: Json, key: Seq<char>) -> Option<Option<u64>> {
    match present(json, key) {
        None => Some(None),
        Some(Json::Number(bits)) => Some(Some(bits)),
        Some(_) => None,
    }
}

/// The text that a member holds if it is there: `Some(None)` where it is
/// not, and `None` where it holds something else than text.
pub open spec fn optional_text(json: Json, key: Seq<char>) -> Option<Option<Seq<char>>> {
    match present(json, key) {
        None => Some(None),
        Some(Json::String(chars)) => Some(Some(chars)),
        Some(_) => None,
    }
}

/// The text of a string, if there is one.
pub open spec fn chars(text: Option<String>) -> Option<Seq<char>> {
    match text {
        Some(s) => Some(s@),
        None => None,
    }
}

/// The texts of a result, if there is one.
pub open spec fn optional_chars(text: Option<Option<String>>) -> Option<Option<Seq<char>>> {
    match text {
        Some(inner) => Some(chars(inner)),
        None => None,
    }
}

/// What a value that was found holds.
pub open spec fn found(value: Option<&serde_json::Value>) -> Option<Json> {
    match value {
        Some(v) => Some(content(*v)),
        None => None,
    }
}

/// Finds a member that has to be there.
pub fn field_at<'a>(value: &'a serde_json::Value, key: &str) -> (r: Option<&'a serde_json::Value>)
    ensures
        found(r) == field(content(*value), key@),
{
    member(value, key)
}

/// Finds a member that may be missing or `null`.
pub fn present_at<'a>(value: &'a serde_json::Value, key: &str) -> (r: Option<
    &'a serde_json::Value,
>)
    ensures
        found(r) == present(content(*value), key@),
{
    match member(value, key) {
        None => None,
        Some(inner) => match scalar(inner) {
            Scalar::Null => None,
            _ => Some(inner),
        },
    }
}

/// Reads a member that has to hold a number.
pub fn number_at(value: &serde_json::Value, key: &str) -> (r: Option<u64>)
    ensures
        r == number(content(*value), key@),
{
    match member(value, key) {
        None => None,
        Some(inner) => match scalar(inner) {
            Scalar::Number(bits) => Some(bits),
            _ => None,
        },
    }
}

/// Reads a member that has to hold text.
pub fn text_at(value: &serde_json::Value, key: &str) -> (r: Option<String>)
    ensures
        chars(r) == text(content(*value), key@),
{
    match member(value, key) {
        None => None,
        Some(inner) => match scalar(inner) {
            Scalar::String(s) => Some(s),
            _ => None,
        },
    }
}

/// Reads a member that holds a number if it is there.
pub fn optional_number_at(value: &serde_json::Value, key: &str) -> (r: Option<Option<u64>>)
    ensures
        r == optional_number(content(*value), key@),
{
    match member(value, key) {
        None => Some(None),
        Some(inner) => match scalar(inner) {
            Scalar::Null => Some(None),
            Scalar::Number(bits) => Some(Some(bits)),
            _ => None,
        },
    }
}

/// Reads a member that holds text if it is there.
pub fn optional_text_at(value: &serde_json::Value, key: &str) -> (r: Option<Option<String>>)
    ensures
        optional_chars(r) == optional_text(content(*value), key@),
{
    match member(value, key) {
        None => Some(None),
        Some(inner) => match scalar(inner) {
            Scalar::Null => Some(None),
            Scalar::String(s) => Some(Some(s)),
            _ => None,
        },
    }
}

/// Tells whether a value is an object.
pub fn is_object(value: &serde_json::Value) -> (r: bool)
    ensures
        r == (content(*value) is Object),
{
    match scalar(value) {
        Scalar::Object => true,
        _ => false,
    }
}

/// Tells whether a value is an array.
pub fn is_array(value: &serde_json::Value) -> (r: bool)
    ensures
        r == (content(*value) is Array),
{
    match scalar(value) {
        Scalar::Array => true,
        _ => false,
    }
}

/// What tells most names of members apart at a glance: the length of the
/// name, and how it starts and ends.
pub open spec fn mark(name: Seq<char>) -> (nat, char, char) {
    (name.len(), name.first(), name.last())
}

/// An object with one member more, or the same object where there is
/// nothing to add.
pub open spec fn put(members: Map<Seq<char>, Json>, key: Seq<char>, value: Option<Json>) -> Map<
    Seq<char>,
    Json,
> {
    match value {
        Some(json) => members.insert(key, json),
        None => members,
    }
}

} // verus!
