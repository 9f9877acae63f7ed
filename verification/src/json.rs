//! JSON documents, as far as the credential formats need them. Parsing and
//! printing are serde_json's; this module states what is relied on.
//!
//! serde_json is built with `arbitrary_precision`: a number is kept as the
//! text that wrote it, and no floating point stands between a document and
//! an instant.

use crate::decimal::plain_decimal;
use std::str::FromStr;
use vstd::prelude::*;

verus! {

/// `serde_json::Value`, which the verifier does not look into: what one
/// holds is named by [`value_model`].
#[verifier::external_type_specification]
#[verifier::external_body]
pub struct ExValue(serde_json::Value);

/// `serde_json::Error`, which the verifier does not look into.
#[verifier::external_type_specification]
#[verifier::external_body]
pub struct ExJsonError(serde_json::Error);

/// A JSON document as a mathematical value. A number is held as its text.
pub enum Json {
    Null,
    Bool(bool),
    Number(Seq<u8>),
    Text(Seq<char>),
    Array(Seq<Json>),
    Object(Map<Seq<char>, Json>),
}

/// The document that a `serde_json::Value` holds.
pub uninterp spec fn value_model(v: serde_json::Value) -> Json;

/// The document that `serde_json::from_slice` reads from `bytes`, or `None`
/// where it reports an error.
pub uninterp spec fn parsed(bytes: Seq<u8>) -> Option<Json>;

/// The bytes that `serde_json::to_vec` writes for a document.
pub uninterp spec fn rendered(doc: Json) -> Seq<u8>;

/// A JSON value that is no container: nothing, a text or a number. Every
/// other value is `Other`.
#[derive(Debug)]
pub enum Scalar {
    Null,
    Text(String),
    Number(Vec<u8>),
    Other,
}

/// What a [`Scalar`] holds.
pub enum ScalarView {
    Null,
    Text(Seq<char>),
    Number(Seq<u8>),
    Other,
}

impl View for Scalar {
    type V = ScalarView;

    open spec fn view(&self) -> ScalarView {
        match self {
            Scalar::Null => ScalarView::Null,
            Scalar::Text(text) => ScalarView::Text(text@),
            Scalar::Number(digits) => ScalarView::Number(digits@),
            Scalar::Other => ScalarView::Other,
        }
    }
}

/// The scalar that a document is.
pub open spec fn scalar_of(doc: Json) -> ScalarView {
    match doc {
        Json::Null => ScalarView::Null,
        Json::Text(text) => ScalarView::Text(text),
        Json::Number(digits) => ScalarView::Number(digits),
        _ => ScalarView::Other,
    }
}

/// The member `key` of a document: `None` where the document is no object or
/// has no such member.
pub open spec fn member_of(doc: Json, key: Seq<char>) -> Option<Json> {
    match doc {
        Json::Object(members) => if members.contains_key(key) {
            Some(members[key])
        } else {
            None
        },
        _ => None,
    }
}

/// The document with the member `key` set to `value`; a document that is no
/// object stays as it is.
pub open spec fn with_member_of(doc: Json, key: Seq<char>, value: Json) -> Json {
    match doc {
        Json::Object(members) => Json::Object(members.insert(key, value)),
        _ => doc,
    }
}

/// `serde_json::from_slice`, read as a `Value`: the document is the one named
/// by [`parsed`], and an error comes exactly where that is `None`.
#[verifier::external_body]
pub(crate) fn parse(bytes: &[u8]) -> (r: Result<serde_json::Value, serde_json::Error>)
    ensures
        match r {
            Ok(v) => parsed(bytes@) == Some(value_model(v)),
            Err(_) => parsed(bytes@) is None,
        },
{
    serde_json::from_slice::<serde_json::Value>(bytes)
}

/// `serde_json::Value::get` with a text index: the member of that name where
/// the value is an object that has one, else `None`.
#[verifier::external_body]
pub(crate) fn member<'a>(v: &'a serde_json::Value, key: &str) -> (r: Option<&'a serde_json::Value>)
    ensures
        match r {
            Some(m) => member_of(value_model(*v), key@) == Some(value_model(*m)),
            None => member_of(value_model(*v), key@) is None,
        },
{
    v.get(key)
}

/// Tells the variants of a `serde_json::Value` apart and hands out what a
/// null, a string or a number holds; the number through `Number::as_str`,
/// which gives the text that the number was read from.
#[verifier::external_body]
pub(crate) fn scalar(v: &serde_json::Value) -> (s: Scalar)
    ensures
        s@ == scalar_of(value_model(*v)),
{
    match v {
        serde_json::Value::Null => Scalar::Null,
        serde_json::Value::String(text) => Scalar::Text(text.clone()),
        serde_json::Value::Number(n) => Scalar::Number(n.as_str().as_bytes().to_vec()),
        _ => Scalar::Other,
    }
}

/// `serde_json::Value::Null`.
#[verifier::external_body]
pub(crate) fn null_value() -> (v: serde_json::Value)
    ensures
        value_model(v) == Json::Null,
{
    serde_json::Value::Null
}

/// `serde_json::Value::String` of a copy of `text`.
#[verifier::external_body]
pub(crate) fn text_value(text: &str) -> (v: serde_json::Value)
    ensures
        value_model(v) == Json::Text(text@),
{
    serde_json::Value::String(text.to_owned())
}

/// `serde_json::Number::from_str`, made a `Value`: whatever it accepts is a
/// number, and a plain decimal is accepted and kept letter for letter.
#[verifier::external_body]
pub(crate) fn number_value(text: &[u8]) -> (r: Option<serde_json::Value>)
    ensures
        match r {
            Some(v) => value_model(v) is Number && (plain_decimal(text@) ==> value_model(v)
                == Json::Number(text@)),
            None => !plain_decimal(text@),
        },
{
    let text = std::str::from_utf8(text).ok()?;
    let number = serde_json::Number::from_str(text).ok()?;
    Some(serde_json::Value::Number(number))
}

/// `serde_json::Value::Object` of `serde_json::Map::new()`: the object
/// without members.
#[verifier::external_body]
pub(crate) fn empty_object() -> (v: serde_json::Value)
    ensures
        value_model(v) == Json::Object(Map::empty()),
{
    serde_json::Value::Object(serde_json::Map::new())
}

/// `serde_json::Map::insert` on the map of an object: the member is added, or
/// replaced where the object had one of that name. A value that is no object
/// is handed back unchanged.
#[verifier::external_body]
pub(crate) fn with_member(object: serde_json::Value, key: &str, value: serde_json::Value) -> (r:
    serde_json::Value)
    ensures
        value_model(r) == with_member_of(value_model(object), key@, value_model(value)),
{
    let mut object = object;
    if let serde_json::Value::Object(members) = &mut object {
        members.insert(key.to_owned(), value);
    }
    object
}

/// `serde_json::to_vec` of a `Value`: the bytes named by [`rendered`]. It
/// always gives bytes: it writes into a `Vec`, which takes every write, and
/// a `Value` holds nothing that the writer refuses, its keys being strings
/// and its numbers their own text.
#[verifier::external_body]
pub(crate) fn render(v: &serde_json::Value) -> (r: Result<Vec<u8>, serde_json::Error>)
    ensures
        match r {
            Ok(bytes) => bytes@ == rendered(value_model(*v)),
            Err(_) => false,
        },
{
    serde_json::to_vec(v)
}

} // verus!
