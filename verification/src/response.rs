//! The ways a request can fail, and the response each outcome maps to.

use vstd::prelude::*;
use vstd::string::*;

verus! {

/// Why a request produced no rendered orders.
#[derive(Debug, Clone, Copy, PartialEq, Eq, Structural)]
pub enum ManifestParseError {
    /// The request names no content type, or one that is not text.
    MissingContentType,
    /// The content type is none of the three supported formats.
    InvalidContentType,
    /// The body does not parse, does not conform, or does not fit the schema.
    InvalidManifest,
    /// The keyword list is absent or lacks the magic keyword.
    MissingMagicKeyword,
    /// There are no orders, or none of them converts.
    MissingOrders,
}

/// A status code and a text body.
#[derive(Debug)]
pub struct Response {
    pub status: u16,
    pub body: String,
}

/// What a `Response` stands for in specifications.
pub struct Reply {
    pub status: int,
    pub body: Seq<char>,
}

impl View for Response {
    type V = Reply;

    open spec fn view(&self) -> Reply {
        Reply { status: self.status as int, body: self.body@ }
    }
}

impl ManifestParseError {
    /// The status code that reports this error.
    pub open spec fn status(self) -> int {
        match self {
            ManifestParseError::MissingContentType => 400,
            ManifestParseError::InvalidContentType => 415,
            ManifestParseError::InvalidManifest => 400,
            ManifestParseError::MissingMagicKeyword => 400,
            ManifestParseError::MissingOrders => 204,
        }
    }

    /// The body text that reports this error.
    pub open spec fn message(self) -> Seq<char> {
        match self {
            ManifestParseError::MissingContentType => "Missing Content Type"@,
            ManifestParseError::InvalidContentType => Seq::empty(),
            ManifestParseError::InvalidManifest => "Invalid manifest"@,
            ManifestParseError::MissingMagicKeyword => "Magic keyword not provided"@,
            ManifestParseError::MissingOrders => Seq::empty(),
        }
    }

    /// The message of this error as an owned string.
    pub fn to_string(&self) -> (text: String)
        ensures
            text@ == self.message(),
    {
        match self {
            ManifestParseError::MissingContentType => String::from_str("Missing Content Type"),
            ManifestParseError::InvalidContentType => String::new(),
            ManifestParseError::InvalidManifest => String::from_str("Invalid manifest"),
            ManifestParseError::MissingMagicKeyword => String::from_str(
                "Magic keyword not provided",
            ),
            ManifestParseError::MissingOrders => String::new(),
        }
    }

    /// The response that reports this error.
    pub fn into_response(self) -> (response: Response)
        ensures
            response@ == reply_to(Err(self)),
    {
        let status: u16 = match self {
            ManifestParseError::InvalidContentType => 415,
            ManifestParseError::MissingOrders => 204,
            ManifestParseError::MissingContentType => 400,
            ManifestParseError::InvalidManifest => 400,
            ManifestParseError::MissingMagicKeyword => 400,
        };
        Response { status, body: self.to_string() }
    }
}

/// The reply owed to an outcome: 200 with the rendered orders, or the
/// status and message of the error.
pub open spec fn reply_to(outcome: Result<Seq<char>, ManifestParseError>) -> Reply {
    match outcome {
        Ok(text) => Reply { status: 200, body: text },
        Err(error) => Reply { status: error.status(), body: error.message() },
    }
}

/// What an outcome with an owned text stands for in specifications.
pub open spec fn outcome_model(outcome: Result<String, ManifestParseError>) -> Result<
    Seq<char>,
    ManifestParseError,
> {
    match outcome {
        Ok(text) => Ok(text@),
        Err(error) => Err(error),
    }
}

/// Turns the outcome of validation into a response.
pub fn respond(outcome: Result<String, ManifestParseError>) -> (response: Response)
    ensures
        response@ == reply_to(outcome_model(outcome)),
{
    match outcome {
        Ok(text) => Response { status: 200, body: text },
        Err(error) => error.into_response(),
    }
}

} // verus!
