//! JSON documents, as `serde_json` parses them.

use crate::document::{Document, Node};
use crate::response::ManifestParseError;
use vstd::prelude::*;

verus! {

/// `serde_json::Value`, carried as an opaque value.
#[verifier::external_type_specification]
#[verifier::external_body]
pub struct ExJsonValue(serde_json::Value);

/// `serde_json::Error`, carried as an opaque value.
#[verifier::external_type_specification]
#[verifier::external_body]
pub struct ExJsonError(serde_json::Error);

/// What a JSON value holds: null, a string, a number that `as_i64` gives, an
/// array with its elements, an object by its keys, or something else.
pub uninterp spec fn json_shape(value: serde_json::Value) -> Node<serde_json::Value>;

/// The value that `serde_json::from_str` reads from a text, if it reads one.
pub uninterp spec fn json_parsed(text: Seq<char>) -> Option<serde_json::Value>;

/// The text that `toml::to_string` writes for a JSON value, if it writes one.
pub uninterp spec fn json_as_toml(value: serde_json::Value) -> Option<Seq<char>>;

/// `serde_json::from_str` at `serde_json::Value`: the same text always gives
/// the same value, or always fails.
#[verifier::external_body]
fn json_from_str(text: &str) -> (r: Result<serde_json::Value, serde_json::Error>)
    ensures
        match r {
            Ok(value) => json_parsed(text@) == Some(value),
            Err(_) => json_parsed(text@) is None,
        },
{
    serde_json::from_str::<serde_json::Value>(text)
}

/// `toml::to_string` on a JSON value: the same value always gives the same
/// text, or always fails.
#[verifier::external_body]
fn json_to_toml(value: &serde_json::Value) -> (r: Result<String, toml::ser::Error>)
    ensures
        match r {
            Ok(text) => json_as_toml(*value) == Some(text@),
            Err(_) => json_as_toml(*value) is None,
        },
{
    toml::to_string(value)
}

/// `serde_json::Value::get` with a string key: the member of an object under
/// that key; nothing for a value that is no object or a key that is not there.
#[verifier::external_body]
fn json_get<'a>(value: &'a serde_json::Value, key: &str) -> (r: Option<&'a serde_json::Value>)
    ensures
        match r {
            Some(member) => json_shape(*value).member(key@) == Some(*member),
            None => json_shape(*value).member(key@) is None,
        },
{
    value.get(key)
}

/// `serde_json::Value::as_str`: the string, for a string value only.
#[verifier::external_body]
fn json_as_str<'a>(value: &'a serde_json::Value) -> (r: Option<&'a str>)
    ensures
        match r {
            Some(text) => json_shape(*value) == Node::<serde_json::Value>::Text(text@),
            None => !(json_shape(*value) is Text),
        },
{
    value.as_str()
}

/// `serde_json::Value::as_i64`: the number, for an integer that fits 64
/// signed bits only.
#[verifier::external_body]
fn json_as_i64(value: &serde_json::Value) -> (r: Option<i64>)
    ensures
        match r {
            Some(number) => json_shape(*value) == Node::<serde_json::Value>::Integer(number),
            None => !(json_shape(*value) is Integer),
        },
{
    value.as_i64()
}

/// `serde_json::Value::as_array`, copied: the elements in order, for an array
/// only.
#[verifier::external_body]
fn json_as_array(value: &serde_json::Value) -> (r: Option<Vec<serde_json::Value>>)
    ensures
        match r {
            Some(items) => json_shape(*value) == Node::<serde_json::Value>::List(items@),
            None => !(json_shape(*value) is List),
        },
{
    value.as_array().cloned()
}

/// `serde_json::Value::is_null`.
#[verifier::external_body]
fn json_is_null(value: &serde_json::Value) -> (r: bool)
    ensures
        r == (json_shape(*value) is Null),
{
    value.is_null()
}

/// `serde_json::Value::is_object`.
#[verifier::external_body]
fn json_is_object(value: &serde_json::Value) -> (r: bool)
    ensures
        r == (json_shape(*value) is Table),
{
    value.is_object()
}

impl Document for serde_json::Value {
    open spec fn shape(&self) -> Node<Self> {
        json_shape(*self)
    }

    open spec fn parsed(text: Seq<char>) -> Option<Self> {
        json_parsed(text)
    }

    open spec fn normalized(&self, source: Seq<char>) -> Option<Seq<char>> {
        json_as_toml(*self)
    }

    fn parse(text: &str) -> (r: Result<Self, ManifestParseError>) {
        match json_from_str(text) {
            Ok(value) => Ok(value),
            Err(_) => Err(ManifestParseError::InvalidManifest),
        }
    }

    fn normalized_text(&self, source: &str) -> (r: Result<String, ManifestParseError>) {
        match json_to_toml(self) {
            Ok(text) => Ok(text),
            Err(_) => Err(ManifestParseError::InvalidManifest),
        }
    }

    fn get(&self, key: &str) -> (r: Option<&Self>) {
        json_get(self, key)
    }

    fn as_text(&self) -> (r: Option<&str>) {
        json_as_str(self)
    }

    fn as_integer(&self) -> (r: Option<i64>) {
        json_as_i64(self)
    }

    fn as_items(&self) -> (r: Option<Vec<Self>>) {
        json_as_array(self)
    }

    fn is_null(&self) -> (r: bool) {
        json_is_null(self)
    }

    fn is_table(&self) -> (r: bool) {
        json_is_object(self)
    }
}

} // verus!
