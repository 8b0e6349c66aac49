//! TOML documents, as `toml` parses them.

use crate::document::{Document, Node};
use crate::response::ManifestParseError;
use vstd::prelude::*;
use vstd::string::*;

verus! {

/// `toml::Value`, carried as an opaque value.
#[verifier::external_type_specification]
#[verifier::external_body]
pub struct ExTomlValue(toml::Value);

/// `toml::de::Error`, carried as an opaque value.
#[verifier::external_type_specification]
#[verifier::external_body]
pub struct ExTomlDeError(toml::de::Error);

/// `toml::ser::Error`, carried as an opaque value.
#[verifier::external_type_specification]
#[verifier::external_body]
pub struct ExTomlSerError(toml::ser::Error);

/// What a TOML value holds: a string, an integer, an array with its elements,
/// a table by its keys, or something else.
pub uninterp spec fn toml_shape(value: toml::Value) -> Node<toml::Value>;

/// The value that `toml::from_str` reads from a text, if it reads one.
pub uninterp spec fn toml_parsed(text: Seq<char>) -> Option<toml::Value>;

/// `toml::from_str` at `toml::Value`: the same text always gives the same
/// value, or always fails.
#[verifier::external_body]
fn toml_from_str(text: &str) -> (r: Result<toml::Value, toml::de::Error>)
    ensures
        match r {
            Ok(value) => toml_parsed(text@) == Some(value),
            Err(_) => toml_parsed(text@) is None,
        },
{
    toml::from_str::<toml::Value>(text)
}

/// `toml::Value::get` with a string key: the member of a table under that
/// key; nothing for a value that is no table or a key that is not there.
#[verifier::external_body]
fn toml_get<'a>(value: &'a toml::Value, key: &str) -> (r: Option<&'a toml::Value>)
    ensures
        match r {
            Some(member) => toml_shape(*value).member(key@) == Some(*member),
            None => toml_shape(*value).member(key@) is None,
        },
{
    value.get(key)
}

/// `toml::Value::as_str`: the string, for a string value only.
#[verifier::external_body]
fn toml_as_str<'a>(value: &'a toml::Value) -> (r: Option<&'a str>)
    ensures
        match r {
            Some(text) => toml_shape(*value) == Node::<toml::Value>::Text(text@),
            None => !(toml_shape(*value) is Text),
        },
{
    value.as_str()
}

/// `toml::Value::as_integer`: the number, for an integer value only.
#[verifier::external_body]
fn toml_as_integer(value: &toml::Value) -> (r: Option<i64>)
    ensures
        match r {
            Some(number) => toml_shape(*value) == Node::<toml::Value>::Integer(number),
            None => !(toml_shape(*value) is Integer),
        },
{
    value.as_integer()
}

/// `toml::Value::as_array`, copied: the elements in order, for an array only.
#[verifier::external_body]
fn toml_as_array(value: &toml::Value) -> (r: Option<Vec<toml::Value>>)
    ensures
        match r {
            Some(items) => toml_shape(*value) == Node::<toml::Value>::List(items@),
            None => !(toml_shape(*value) is List),
        },
{
    value.as_array().cloned()
}

/// `toml::Value::is_table`.
#[verifier::external_body]
fn toml_is_table(value: &toml::Value) -> (r: bool)
    ensures
        r == (toml_shape(*value) is Table),
{
    value.is_table()
}

impl Document for toml::Value {
    /// TOML has no null.
    open spec fn shape(&self) -> Node<Self> {
        match toml_shape(*self) {
            Node::Null => Node::Other,
            shape => shape,
        }
    }

    open spec fn parsed(text: Seq<char>) -> Option<Self> {
        toml_parsed(text)
    }

    /// The text that was parsed is TOML already.
    open spec fn normalized(&self, source: Seq<char>) -> Option<Seq<char>> {
        Some(source)
    }

    fn parse(text: &str) -> (r: Result<Self, ManifestParseError>) {
        match toml_from_str(text) {
            Ok(value) => Ok(value),
            Err(_) => Err(ManifestParseError::InvalidManifest),
        }
    }

    fn normalized_text(&self, source: &str) -> (r: Result<String, ManifestParseError>) {
        Ok(String::from_str(source))
    }

    fn get(&self, key: &str) -> (r: Option<&Self>) {
        toml_get(self, key)
    }

    fn as_text(&self) -> (r: Option<&str>) {
        toml_as_str(self)
    }

    fn as_integer(&self) -> (r: Option<i64>) {
        toml_as_integer(self)
    }

    fn as_items(&self) -> (r: Option<Vec<Self>>) {
        toml_as_array(self)
    }

    fn is_null(&self) -> (r: bool) {
        false
    }

    fn is_table(&self) -> (r: bool) {
        toml_is_table(self)
    }
}

} // verus!
