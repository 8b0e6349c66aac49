//! YAML documents, as `serde_yaml` parses them.

use crate::document::{Document, Node};
use crate::response::ManifestParseError;
use vstd::prelude::*;

verus! {

/// `serde_yaml::Value`, carried as an opaque value.
#[verifier::external_type_specification]
#[verifier::external_body]
pub struct ExYamlValue(serde_yaml::Value);

/// `serde_yaml::Error`, carried as an opaque value.
#[verifier::external_type_specification]
#[verifier::external_body]
pub struct ExYamlError(serde_yaml::Error);

/// What a YAML value holds, looking through any tag: null, a string, a number
/// that `as_i64` gives, a sequence with its elements, a mapping by its string
/// keys, or something else.
pub uninterp spec fn yaml_shape(value: serde_yaml::Value) -> Node<serde_yaml::Value>;

/// The value that `serde_yaml::from_str` reads from a text, if it reads one.
pub uninterp spec fn yaml_parsed(text: Seq<char>) -> Option<serde_yaml::Value>;

/// The text that `toml::to_string` writes for a YAML value, if it writes one.
pub uninterp spec fn yaml_as_toml(value: serde_yaml::Value) -> Option<Seq<char>>;

/// `serde_yaml::from_str` at `serde_yaml::Value`: the same text always gives
/// the same value, or always fails.
#[verifier::external_body]
fn yaml_from_str(text: &str) -> (r: Result<serde_yaml::Value, serde_yaml::Error>)
    ensures
        match r {
            Ok(value) => yaml_parsed(text@) == Some(value),
            Err(_) => yaml_parsed(text@) is None,
        },
{
    serde_yaml::from_str::<serde_yaml::Value>(text)
}

/// `toml::to_string` on a YAML value: the same value always gives the same
/// text, or always fails.
#[verifier::external_body]
fn yaml_to_toml(value: &serde_yaml::Value) -> (r: Result<String, toml::ser::Error>)
    ensures
        match r {
            Ok(text) => yaml_as_toml(*value) == Some(text@),
            Err(_) => yaml_as_toml(*value) is None,
        },
{
    toml::to_string(value)
}

/// `serde_yaml::Value::get` with a string key: the member of a mapping under
/// that key; nothing for a value that is no mapping or a key that is not
/// there.
#[verifier::external_body]
fn yaml_get<'a>(value: &'a serde_yaml::Value, key: &str) -> (r: Option<&'a serde_yaml::Value>)
    ensures
        match r {
            Some(member) => yaml_shape(*value).member(key@) == Some(*member),
            None => yaml_shape(*value).member(key@) is None,
        },
{
    value.get(key)
}

/// `serde_yaml::Value::as_str`: the string, for a string value only.
#[verifier::external_body]
fn yaml_as_str<'a>(value: &'a serde_yaml::Value) -> (r: Option<&'a str>)
    ensures
        match r {
            Some(text) => yaml_shape(*value) == Node::<serde_yaml::Value>::Text(text@),
            None => !(yaml_shape(*value) is Text),
        },
{
    value.as_str()
}

/// `serde_yaml::Value::as_i64`: the number, for an integer that fits 64
/// signed bits only.
#[verifier::external_body]
fn yaml_as_i64(value: &serde_yaml::Value) -> (r: Option<i64>)
    ensures
        match r {
            Some(number) => yaml_shape(*value) == Node::<serde_yaml::Value>::Integer(number),
            None => !(yaml_shape(*value) is Integer),
        },
{
    value.as_i64()
}

/// `serde_yaml::Value::as_sequence`, copied: the elements in order, for a
/// sequence only.
#[verifier::external_body]
fn yaml_as_sequence(value: &serde_yaml::Value) -> (r: Option<Vec<serde_yaml::Value>>)
    ensures
        match r {
            Some(items) => yaml_shape(*value) == Node::<serde_yaml::Value>::List(items@),
            None => !(yaml_shape(*value) is List),
        },
{
    value.as_sequence().cloned()
}

/// `serde_yaml::Value::is_null`.
#[verifier::external_body]
fn yaml_is_null(value: &serde_yaml::Value) -> (r: bool)
    ensures
        r == (yaml_shape(*value) is Null),
{
    value.is_null()
}

/// `serde_yaml::Value::is_mapping`.
#[verifier::external_body]
fn yaml_is_mapping(value: &serde_yaml::Value) -> (r: bool)
    ensures
        r == (yaml_shape(*value) is Table),
{
    value.is_mapping()
}

impl Document for serde_yaml::Value {
    open spec fn shape(&self) -> Node<Self> {
        yaml_shape(*self)
    }

    open spec fn parsed(text: Seq<char>) -> Option<Self> {
        yaml_parsed(text)
    }

    open spec fn normalized(&self, source: Seq<char>) -> Option<Seq<char>> {
        yaml_as_toml(*self)
    }

    fn parse(text: &str) -> (r: Result<Self, ManifestParseError>) {
        match yaml_from_str(text) {
            Ok(value) => Ok(value),
            Err(_) => Err(ManifestParseError::InvalidManifest),
        }
    }

    fn normalized_text(&self, source: &str) -> (r: Result<String, ManifestParseError>) {
        match yaml_to_toml(self) {
            Ok(text) => Ok(text),
            Err(_) => Err(ManifestParseError::InvalidManifest),
        }
    }

    fn get(&self, key: &str) -> (r: Option<&Self>) {
        yaml_get(self, key)
    }

    fn as_text(&self) -> (r: Option<&str>) {
        yaml_as_str(self)
    }

    fn as_integer(&self) -> (r: Option<i64>) {
        yaml_as_i64(self)
    }

    fn as_items(&self) -> (r: Option<Vec<Self>>) {
        yaml_as_sequence(self)
    }

    fn is_null(&self) -> (r: bool) {
        yaml_is_null(self)
    }

    fn is_table(&self) -> (r: bool) {
        yaml_is_mapping(self)
    }
}

} // verus!
