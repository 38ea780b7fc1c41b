//! The closed error taxonomy: every failure a request can produce falls
//! under exactly one variant, and each variant keeps the context needed to
//! diagnose the failure without re-issuing the request. A failed decode
//! keeps the raw payload it could not decode.

use vstd::prelude::*;
use vstd::string::*;

verus! {

/// An error returned by the remote service itself: a structured message
/// plus a documentation reference.
#[derive(Clone, Debug, PartialEq, Eq)]
pub struct GitHubError {
    pub documentation_url: String,
    pub message: String,
}

/// Everything that can go wrong while issuing a request. Callers can match
/// on all five variants without a default arm.
#[derive(Clone, Debug, PartialEq, Eq)]
pub enum Error {
    /// The remote service explicitly reported a failure.
    GitHub { source: GitHubError },
    /// The base and path did not combine into a well-formed request target;
    /// nothing was sent.
    Url { message: String },
    /// The transport layer failed (connection, timeout, protocol).
    Http { message: String },
    /// A response body did not decode into the expected shape. `json` holds
    /// the raw payload exactly as received, for post-hoc inspection.
    Json { message: String, json: String },
    /// A collaborator-specific failure not otherwise classified.
    Other { message: String },
}

/// The rendered text of a remote-service error: message, then the
/// documentation reference.
pub open spec fn github_error_text(g: GitHubError) -> Seq<char> {
    "Error: "@ + g.message@ + "\nDocumentation URL: "@ + g.documentation_url@
}

/// The rendered text of each error variant. A remote error surfaces its
/// documentation reference; a decode error surfaces the raw payload.
pub open spec fn error_text(e: Error) -> Seq<char> {
    match e {
        Error::GitHub { source } => github_error_text(source),
        Error::Url { message } => "URL Error: "@ + message@,
        Error::Http { message } => "HTTP Error: "@ + message@,
        Error::Json { message, json } => "JSON Error: "@ + message@ + "\n"@ + json@,
        Error::Other { message } => "Other Error: "@ + message@,
    }
}

impl GitHubError {
    /// Renders this error as human-readable text.
    pub fn to_text(&self) -> (r: String)
        ensures
            r@ == github_error_text(*self),
    {
        let mut out = String::from_str("Error: ");
        out.append(self.message.as_str());
        out.append("\nDocumentation URL: ");
        out.append(self.documentation_url.as_str());
        proof {
            assert(out@ =~= github_error_text(*self));
        }
        out
    }
}

impl Error {
    /// Renders this error as human-readable text.
    pub fn to_text(&self) -> (r: String)
        ensures
            r@ == error_text(*self),
    {
        match self {
            Error::GitHub { source } => source.to_text(),
            Error::Url { message } => {
                let mut out = String::from_str("URL Error: ");
                out.append(message.as_str());
                out
            },
            Error::Http { message } => {
                let mut out = String::from_str("HTTP Error: ");
                out.append(message.as_str());
                out
            },
            Error::Json { message, json } => {
                let mut out = String::from_str("JSON Error: ");
                out.append(message.as_str());
                out.append("\n");
                out.append(json.as_str());
                proof {
                    assert(out@ =~= error_text(*self));
                }
                out
            },
            Error::Other { message } => {
                let mut out = String::from_str("Other Error: ");
                out.append(message.as_str());
                out
            },
        }
    }
}

} // verus!
