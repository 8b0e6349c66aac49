//! The manifest schema, and how a parsed document is bound to it.

use crate::document::{Document, Node};
use crate::response::ManifestParseError;
use vstd::prelude::*;
use vstd::string::*;

verus! {

/// The `metadata` table of a package.
#[derive(Debug)]
pub struct ManifestPackageMetadata<T> {
    pub orders: Option<Vec<T>>,
}

/// The `package` table of a manifest.
#[derive(Debug)]
pub struct ManifestPackage<T> {
    pub name: String,
    pub keywords: Option<Vec<String>>,
    pub metadata: Option<ManifestPackageMetadata<T>>,
}

/// A manifest whose orders are still raw values of type `T`.
#[derive(Debug)]
pub struct Manifest<T> {
    pub package: ManifestPackage<T>,
}

/// What a `ManifestPackageMetadata` stands for in specifications.
pub struct MetadataModel<T> {
    pub orders: Option<Seq<T>>,
}

/// What a `ManifestPackage` stands for in specifications.
pub struct PackageModel<T> {
    pub name: Seq<char>,
    pub keywords: Option<Seq<Seq<char>>>,
    pub metadata: Option<MetadataModel<T>>,
}

/// What a `Manifest` stands for in specifications.
pub struct ManifestModel<T> {
    pub package: PackageModel<T>,
}

/// The texts of a list of strings.
pub open spec fn texts(strings: Seq<String>) -> Seq<Seq<char>> {
    strings.map_values(|s: String| s@)
}

impl<T> View for ManifestPackageMetadata<T> {
    type V = MetadataModel<T>;

    open spec fn view(&self) -> MetadataModel<T> {
        MetadataModel {
            orders: match self.orders {
                Some(orders) => Some(orders@),
                None => None,
            },
        }
    }
}

impl<T> View for ManifestPackage<T> {
    type V = PackageModel<T>;

    open spec fn view(&self) -> PackageModel<T> {
        PackageModel {
            name: self.name@,
            keywords: match self.keywords {
                Some(keywords) => Some(texts(keywords@)),
                None => None,
            },
            metadata: match self.metadata {
                Some(metadata) => Some(metadata@),
                None => None,
            },
        }
    }
}

impl<T> View for Manifest<T> {
    type V = ManifestModel<T>;

    open spec fn view(&self) -> ManifestModel<T> {
        ManifestModel { package: self.package@ }
    }
}

impl<T> ManifestModel<T> {
    /// The orders of the manifest; none where `metadata` or `orders` is
    /// absent.
    pub open spec fn orders(self) -> Option<Seq<T>> {
        match self.package.metadata {
            Some(metadata) => metadata.orders,
            None => None,
        }
    }
}

/// Whether a member is to be read as absent: it is not there, or it is null.
pub open spec fn is_absent<T: Document>(member: Option<T>) -> bool {
    match member {
        None => true,
        Some(value) => value.shape() is Null,
    }
}

/// The strings of a list whose elements are all strings.
pub open spec fn all_texts<T: Document>(items: Seq<T>) -> Option<Seq<Seq<char>>> {
    if forall|i: int| 0 <= i < items.len() ==> (#[trigger] items[i]).shape() is Text {
        Some(Seq::new(items.len(), |i: int| items[i].shape()->Text_0))
    } else {
        None
    }
}

/// The keyword list that a `keywords` member binds to. The outer option is
/// none where the member is malformed: neither absent nor a list of strings.
pub open spec fn bound_keywords<T: Document>(member: Option<T>) -> Option<Option<Seq<Seq<char>>>> {
    if is_absent(member) {
        Some(None)
    } else {
        match member->0.shape() {
            Node::List(items) => match all_texts(items) {
                Some(keywords) => Some(Some(keywords)),
                None => None,
            },
            _ => None,
        }
    }
}

/// The orders that an `orders` member binds to. The outer option is none
/// where the member is malformed: neither absent nor a list. Any value may
/// stand in the list; whether it converts is asked later, order by order.
pub open spec fn bound_orders<T: Document>(member: Option<T>) -> Option<Option<Seq<T>>> {
    if is_absent(member) {
        Some(None)
    } else {
        match member->0.shape() {
            Node::List(items) => Some(Some(items)),
            _ => None,
        }
    }
}

/// The metadata that a `metadata` member binds to. The outer option is none
/// where the member is malformed: neither absent nor a table with well-formed
/// orders.
pub open spec fn bound_metadata<T: Document>(member: Option<T>) -> Option<Option<MetadataModel<T>>> {
    if is_absent(member) {
        Some(None)
    } else if member->0.shape() is Table {
        match bound_orders(member->0.shape().member("orders"@)) {
            Some(orders) => Some(Some(MetadataModel { orders })),
            None => None,
        }
    } else {
        None
    }
}

/// The package that a `package` member binds to, if it is well-formed: a
/// table with a string `name`, and with `keywords` and `metadata` that bind.
pub open spec fn bound_package<T: Document>(member: Option<T>) -> Option<PackageModel<T>> {
    match member {
        None => None,
        Some(package) => match package.shape().member("name"@) {
            None => None,
            Some(name) => match (
                name.shape(),
                bound_keywords(package.shape().member("keywords"@)),
                bound_metadata(package.shape().member("metadata"@)),
            ) {
                (Node::Text(name), Some(keywords), Some(metadata)) => Some(
                    PackageModel { name, keywords, metadata },
                ),
                _ => None,
            },
        },
    }
}

/// The manifest that a document binds to, if it fits the schema.
pub open spec fn bound_manifest<T: Document>(document: T) -> Option<ManifestModel<T>> {
    match bound_package(document.shape().member("package"@)) {
        Some(package) => Some(ManifestModel { package }),
        None => None,
    }
}

/// Tells an absent member from one that is there and not null.
fn present<'a, T: Document>(member: Option<&'a T>) -> (r: Option<&'a T>)
    ensures
        match r {
            Some(value) => member == Some(value) && !is_absent(Some(*value)),
            None => is_absent(
                match member {
                    Some(value) => Some(*value),
                    None => None,
                },
            ),
        },
{
    match member {
        None => None,
        Some(value) => if value.is_null() {
            None
        } else {
            Some(value)
        },
    }
}

/// Binds a `keywords` member.
fn bind_keywords<T: Document>(member: Option<&T>) -> (r: Result<
    Option<Vec<String>>,
    ManifestParseError,
>)
    ensures
        match r {
            Ok(Some(keywords)) => bound_keywords(member_model(member)) == Some(
                Some(texts(keywords@)),
            ),
            Ok(None) => bound_keywords(member_model(member)) == Some(
                None::<Seq<Seq<char>>>,
            ),
            Err(error) => bound_keywords(member_model(member)) is None && error
                == ManifestParseError::InvalidManifest,
        },
{
    let value = match present(member) {
        None => { return Ok(None); },
        Some(value) => value,
    };
    let items = match value.as_items() {
        None => { return Err(ManifestParseError::InvalidManifest); },
        Some(items) => items,
    };
    let mut keywords: Vec<String> = Vec::new();
    let mut i: usize = 0;
    while i < items.len()
        invariant
            i <= items.len(),
            keywords.len() == i,
            bound_keywords(member_model(member)) == match all_texts(items@) {
                Some(keywords) => Some(Some(keywords)),
                None => None,
            },
            forall|j: int| 0 <= j < i ==> (#[trigger] items@[j]).shape() == Node::<T>::Text(keywords@[j]@),
        decreases items.len() - i,
    {
        match items[i].as_text() {
            None => {
                return Err(ManifestParseError::InvalidManifest);
            },
            Some(text) => {
                keywords.push(String::from_str(text));
            },
        }
        i += 1;
    }
    assert(all_texts(items@)->0 =~= texts(keywords@));
    Ok(Some(keywords))
}

/// Binds an `orders` member.
fn bind_orders<T: Document>(member: Option<&T>) -> (r: Result<Option<Vec<T>>, ManifestParseError>)
    ensures
        match r {
            Ok(Some(orders)) => bound_orders(member_model(member)) == Some(Some(orders@)),
            Ok(None) => bound_orders(member_model(member)) == Some(None::<Seq<T>>),
            Err(error) => bound_orders(member_model(member)) is None && error
                == ManifestParseError::InvalidManifest,
        },
{
    let value = match present(member) {
        None => { return Ok(None); },
        Some(value) => value,
    };
    match value.as_items() {
        None => Err(ManifestParseError::InvalidManifest),
        Some(items) => Ok(Some(items)),
    }
}

/// Binds a `metadata` member.
fn bind_metadata<T: Document>(member: Option<&T>) -> (r: Result<
    Option<ManifestPackageMetadata<T>>,
    ManifestParseError,
>)
    ensures
        match r {
            Ok(Some(metadata)) => bound_metadata(member_model(member)) == Some(Some(metadata@)),
            Ok(None) => bound_metadata(member_model(member)) == Some(None::<MetadataModel<T>>),
            Err(error) => bound_metadata(member_model(member)) is None && error
                == ManifestParseError::InvalidManifest,
        },
{
    let value = match present(member) {
        None => { return Ok(None); },
        Some(value) => value,
    };
    if !value.is_table() {
        return Err(ManifestParseError::InvalidManifest);
    }
    match bind_orders(value.get("orders")) {
        Ok(orders) => Ok(Some(ManifestPackageMetadata { orders })),
        Err(error) => Err(error),
    }
}

/// Binds a `package` member.
fn bind_package<T: Document>(member: Option<&T>) -> (r: Result<
    ManifestPackage<T>,
    ManifestParseError,
>)
    ensures
        match r {
            Ok(package) => bound_package(member_model(member)) == Some(package@),
            Err(error) => bound_package(member_model(member)) is None && error
                == ManifestParseError::InvalidManifest,
        },
{
    let package = match member {
        None => { return Err(ManifestParseError::InvalidManifest); },
        Some(package) => package,
    };
    let name = match package.get("name") {
        None => { return Err(ManifestParseError::InvalidManifest); },
        Some(name) => match name.as_text() {
            None => { return Err(ManifestParseError::InvalidManifest); },
            Some(name) => String::from_str(name),
        },
    };
    let keywords = match bind_keywords(package.get("keywords")) {
        Err(error) => { return Err(error); },
        Ok(keywords) => keywords,
    };
    let metadata = match bind_metadata(package.get("metadata")) {
        Err(error) => { return Err(error); },
        Ok(metadata) => metadata,
    };
    Ok(ManifestPackage { name, keywords, metadata })
}

impl<T: Document> Manifest<T> {
    /// Binds a parsed document to the schema. The document must hold a
    /// `package` table with a string `name`; `keywords`, `metadata` and
    /// `metadata.orders` may be absent or null, and are otherwise a list of
    /// strings, a table, and a list of any values.
    pub fn from_document(document: &T) -> (r: Result<Manifest<T>, ManifestParseError>)
        ensures
            match r {
                Ok(manifest) => bound_manifest(*document) == Some(manifest@),
                Err(error) => bound_manifest(*document) is None && error
                    == ManifestParseError::InvalidManifest,
            },
    {
        match bind_package(document.get("package")) {
            Ok(package) => Ok(Manifest { package }),
            Err(error) => Err(error),
        }
    }
}

/// The value behind a borrowed member.
pub open spec fn member_model<T>(member: Option<&T>) -> Option<T> {
    match member {
        Some(value) => Some(*value),
        None => None,
    }
}

} // verus!
