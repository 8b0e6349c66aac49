//! Validation of package manifests that carry toy orders.
//!
//! A manifest arrives as TOML, YAML or JSON text. It is parsed, held against
//! the Cargo manifest convention, bound to a small schema, and its orders are
//! rendered one per line.

pub mod conformance;
pub mod document;
pub mod endpoint;
pub mod json_doc;
pub mod laws;
pub mod pipeline;
pub mod response;
pub mod routing;
pub mod schema;
pub mod toml_doc;
pub mod toy;
pub mod yaml_doc;
