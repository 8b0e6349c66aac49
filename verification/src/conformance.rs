//! The Cargo manifest convention, as `cargo_manifest` checks it.

use std::str::FromStr;
use vstd::prelude::*;

verus! {

/// Whether `cargo_manifest::Manifest::from_str` accepts a TOML text.
pub uninterp spec fn conforms(text: Seq<char>) -> bool;

/// `cargo_manifest::Manifest::from_str`, for its verdict alone: the same text
/// is always accepted or always refused.
#[verifier::external_body]
pub(crate) fn check_conformance(text: &str) -> (accepted: bool)
    ensures
        accepted == conforms(text@),
{
    cargo_manifest::Manifest::from_str(text).is_ok()
}

} // verus!
