//! The view of a parsed document that the schema is bound against.

use crate::response::ManifestParseError;
use vstd::prelude::*;

verus! {

/// What a value of a parsed document holds, one level deep.
pub enum Node<T> {
    /// The format's null.
    Null,
    /// A string.
    Text(Seq<char>),
    /// An integer that fits 64 signed bits.
    Integer(i64),
    /// An array, with its elements in order.
    List(Seq<T>),
    /// A table, by the names of its members.
    Table(Map<Seq<char>, T>),
    /// Anything else: a boolean, a float, a date, a number out of range.
    Other,
}

impl<T> Node<T> {
    /// The member of a table under `key`; none where the node is no table
    /// or the table has no such member.
    pub open spec fn member(self, key: Seq<char>) -> Option<T> {
        match self {
            Node::Table(members) => if members.dom().contains(key) {
                Some(members[key])
            } else {
                None
            },
            _ => None,
        }
    }
}

/// A parsed document of one format, and every value inside it.
pub trait Document: Sized {
    /// What the value holds.
    spec fn shape(&self) -> Node<Self>;

    /// The document that a text parses to, if it parses.
    spec fn parsed(text: Seq<char>) -> Option<Self>;

    /// The TOML text that stands for this document when `source` is the text
    /// it was parsed from, if there is one.
    spec fn normalized(&self, source: Seq<char>) -> Option<Seq<char>>;

    /// Parses a whole document.
    fn parse(text: &str) -> (r: Result<Self, ManifestParseError>)
        ensures
            match r {
                Ok(doc) => Self::parsed(text@) == Some(doc),
                Err(error) => Self::parsed(text@) is None && error
                    == ManifestParseError::InvalidManifest,
            },
    ;

    /// Renders the document as TOML text for the conformance check.
    fn normalized_text(&self, source: &str) -> (r: Result<String, ManifestParseError>)
        ensures
            match r {
                Ok(text) => self.normalized(source@) == Some(text@),
                Err(error) => self.normalized(source@) is None && error
                    == ManifestParseError::InvalidManifest,
            },
    ;

    /// The member of a table under `key`.
    fn get(&self, key: &str) -> (r: Option<&Self>)
        ensures
            match r {
                Some(value) => self.shape().member(key@) == Some(*value),
                None => self.shape().member(key@) is None,
            },
    ;

    /// The string that the value is.
    fn as_text(&self) -> (r: Option<&str>)
        ensures
            match r {
                Some(text) => self.shape() == Node::<Self>::Text(text@),
                None => !(self.shape() is Text),
            },
    ;

    /// The integer that the value is.
    fn as_integer(&self) -> (r: Option<i64>)
        ensures
            match r {
                Some(number) => self.shape() == Node::<Self>::Integer(number),
                None => !(self.shape() is Integer),
            },
    ;

    /// The elements of the array that the value is.
    fn as_items(&self) -> (r: Option<Vec<Self>>)
        ensures
            match r {
                Some(items) => self.shape() == Node::<Self>::List(items@),
                None => !(self.shape() is List),
            },
    ;

    /// Whether the value is the format's null.
    fn is_null(&self) -> (r: bool)
        ensures
            r == (self.shape() is Null),
    ;

    /// Whether the value is a table.
    fn is_table(&self) -> (r: bool)
        ensures
            r == (self.shape() is Table),
    ;
}

} // verus!
