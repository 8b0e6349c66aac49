//! The request pipeline: from a content type and a body to a response.

use crate::conformance::{check_conformance, conforms};
use crate::document::Document;
use crate::pipeline::{manifest_outcome, parse_manifest};
use crate::response::{outcome_model, reply_to, respond, ManifestParseError, Response};
use crate::schema::{bound_manifest, Manifest};
use crate::toy::text_model;
use vstd::prelude::*;
use vstd::string::*;

verus! {

/// The formats a manifest can arrive in.
#[derive(Debug, Clone, Copy, PartialEq, Eq, Structural)]
pub enum Format {
    Toml,
    Yaml,
    Json,
}

/// The format that a content type names, if it names one.
pub open spec fn format_of(content_type: Seq<char>) -> Option<Format> {
    if content_type == "application/toml"@ {
        Some(Format::Toml)
    } else if content_type == "application/yaml"@ {
        Some(Format::Yaml)
    } else if content_type == "application/json"@ {
        Some(Format::Json)
    } else {
        None
    }
}

/// What a body comes to when it is read as a document of type `T`: it must
/// parse, its TOML form must conform, and it must fit the schema, in that
/// order; then the manifest decides.
pub open spec fn document_outcome<T: Document>(body: Seq<char>) -> Result<
    Seq<char>,
    ManifestParseError,
> {
    match T::parsed(body) {
        None => Err(ManifestParseError::InvalidManifest),
        Some(document) => match document.normalized(body) {
            None => Err(ManifestParseError::InvalidManifest),
            Some(text) => if !conforms(text) {
                Err(ManifestParseError::InvalidManifest)
            } else {
                match bound_manifest(document) {
                    None => Err(ManifestParseError::InvalidManifest),
                    Some(manifest) => manifest_outcome(manifest),
                }
            },
        },
    }
}

/// What a body comes to in a given format.
pub open spec fn format_outcome(format: Format, body: Seq<char>) -> Result<
    Seq<char>,
    ManifestParseError,
> {
    match format {
        Format::Toml => document_outcome::<toml::Value>(body),
        Format::Yaml => document_outcome::<serde_yaml::Value>(body),
        Format::Json => document_outcome::<serde_json::Value>(body),
    }
}

/// What a request comes to: the content type is asked for first, then that it
/// names a format, then the body is read in that format.
pub open spec fn request_outcome(content_type: Option<Seq<char>>, body: Seq<char>) -> Result<
    Seq<char>,
    ManifestParseError,
> {
    match content_type {
        None => Err(ManifestParseError::MissingContentType),
        Some(content_type) => match format_of(content_type) {
            None => Err(ManifestParseError::InvalidContentType),
            Some(format) => format_outcome(format, body),
        },
    }
}

fn same_text(a: &str, b: &str) -> (same: bool)
    ensures
        same == (a@ == b@),
{
    String::from_str(a) == String::from_str(b)
}

/// The format that a content type names.
pub fn content_format(content_type: &str) -> (format: Option<Format>)
    ensures
        format == format_of(content_type@),
{
    if same_text(content_type, "application/toml") {
        Some(Format::Toml)
    } else if same_text(content_type, "application/yaml") {
        Some(Format::Yaml)
    } else if same_text(content_type, "application/json") {
        Some(Format::Json)
    } else {
        None
    }
}

/// Reads a body as a document of type `T` and renders its orders.
pub fn parse_document<T: Document>(body: &str) -> (r: Result<String, ManifestParseError>)
    ensures
        outcome_model(r) == document_outcome::<T>(body@),
{
    let document = match T::parse(body) {
        Ok(document) => document,
        Err(error) => { return Err(error); },
    };
    let text = match document.normalized_text(body) {
        Ok(text) => text,
        Err(error) => { return Err(error); },
    };
    if !check_conformance(text.as_str()) {
        return Err(ManifestParseError::InvalidManifest);
    }
    match Manifest::from_document(&document) {
        Ok(manifest) => parse_manifest(manifest),
        Err(error) => Err(error),
    }
}

/// Renders the orders of a TOML manifest.
pub fn parse_toml(body: String) -> (r: Result<String, ManifestParseError>)
    ensures
        outcome_model(r) == format_outcome(Format::Toml, body@),
{
    parse_document::<toml::Value>(body.as_str())
}

/// Renders the orders of a YAML manifest.
pub fn parse_yaml(body: String) -> (r: Result<String, ManifestParseError>)
    ensures
        outcome_model(r) == format_outcome(Format::Yaml, body@),
{
    parse_document::<serde_yaml::Value>(body.as_str())
}

/// Renders the orders of a JSON manifest.
pub fn parse_json(body: String) -> (r: Result<String, ManifestParseError>)
    ensures
        outcome_model(r) == format_outcome(Format::Json, body@),
{
    parse_document::<serde_json::Value>(body.as_str())
}

/// Validates a request and renders its orders.
pub fn validate(content_type: Option<&str>, body: String) -> (r: Result<String, ManifestParseError>)
    ensures
        outcome_model(r) == request_outcome(text_model(content_type), body@),
{
    let content_type = match content_type {
        Some(content_type) => content_type,
        None => { return Err(ManifestParseError::MissingContentType); },
    };
    match content_format(content_type) {
        Some(Format::Toml) => parse_toml(body),
        Some(Format::Yaml) => parse_yaml(body),
        Some(Format::Json) => parse_json(body),
        None => Err(ManifestParseError::InvalidContentType),
    }
}

/// Answers a request for the orders of a manifest. The response is a function
/// of the content type and the body alone.
pub fn manifest(content_type: Option<&str>, body: String) -> (response: Response)
    ensures
        response@ == reply_to(request_outcome(text_model(content_type), body@)),
{
    respond(validate(content_type, body))
}

} // verus!
