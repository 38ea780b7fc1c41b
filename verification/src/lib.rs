//! A typed client core for a REST-style listing API: a fluent query builder
//! over optional filter, sort and pagination fields, a request dispatcher
//! that turns a built query into an absolute URL plus canonical wire text,
//! and a closed error taxonomy that classifies every failure a request can
//! produce while keeping the raw payload of a failed decode.
//!
//! Transport (sending the request) and structural decoding of response
//! bodies are collaborators outside this crate; the functions here compute
//! the request and interpret what the collaborators hand back.

pub mod error;
pub mod issues;
pub mod models;
pub mod page;
pub mod params;
pub mod pulls;
pub mod wire;

pub use error::Error;
pub use error::GitHubError;
pub use page::Page;

use vstd::prelude::*;
use vstd::string::*;

verus! {

/// What `url::Url::parse(base)` followed by `.join(path)` resolves to: the
/// serialization of the combined URL, or nothing when either step fails.
/// Both steps depend on the two strings alone.
pub uninterp spec fn resolved_url(base: Seq<char>, path: Seq<char>) -> Option<Seq<char>>;

/// Relies on `url::Url::parse` and `url::Url::join`: parsing the base and
/// resolving the path against it are functions of the two strings alone,
/// and `From<Url> for String` yields the resolved URL's serialization.
#[verifier::external_body]
fn resolve_url(base: &str, path: &str) -> (r: Result<String, String>)
    ensures
        r is Ok <==> resolved_url(base@, path@) is Some,
        r matches Ok(u) ==> (resolved_url(base@, path@) matches Some(v) && u@ == v),
{
    match url::Url::parse(base).and_then(|b| b.join(path)) {
        Ok(u) => Ok(String::from(u)),
        Err(e) => Err(e.to_string()),
    }
}

/// The HTTP method of a dispatched request.
#[derive(Clone, Copy, Debug, PartialEq, Eq)]
pub enum HttpMethod {
    Get,
    Post,
}

/// Everything the transport collaborator needs to issue one request: the
/// method, the resolved absolute URL, and the serialized parameters, if
/// any. A value of this type exists only for a well-formed URL.
#[derive(Clone, Debug, PartialEq, Eq)]
pub struct RequestParts {
    pub method: HttpMethod,
    pub url: String,
    pub body: Option<String>,
}

/// Whether `status` announces a successful exchange.
pub open spec fn is_success_status(status: u16) -> bool {
    200 <= status < 300
}

/// Whether `status` announces a successful exchange.
pub fn status_is_success(status: u16) -> (r: bool)
    ensures
        r == is_success_status(status),
{
    200 <= status && status < 300
}

/// What the decoding collaborator reports for one decode attempt: the
/// decoded value, or the decoder's diagnostic message.
#[derive(Clone, Debug, PartialEq, Eq)]
pub enum DecodeOutcome<T> {
    Decoded(T),
    Failed(String),
}

/// Interprets the body of a response whose status announced success: a
/// decoded value is the result; a failed decode is an error that keeps the
/// raw body exactly as received.
pub fn interpret_success_body<T>(body: String, outcome: DecodeOutcome<T>) -> (r: Result<T, Error>)
    ensures
        outcome matches DecodeOutcome::Decoded(v) ==> r == Ok::<T, Error>(v),
        outcome matches DecodeOutcome::Failed(m) ==> r == Err::<T, Error>(
            Error::Json { message: m, json: body },
        ),
        r is Ok <==> outcome is Decoded,
{
    match outcome {
        DecodeOutcome::Decoded(v) => Ok(v),
        DecodeOutcome::Failed(message) => Err(Error::Json { message, json: body }),
    }
}

/// Interprets the body of a response whose status announced failure: a
/// decoded remote-service error is reported as such; a body that does not
/// even decode into the error schema is a decode error that keeps the raw
/// body exactly as received.
pub fn interpret_failure_body(body: String, outcome: DecodeOutcome<GitHubError>) -> (r: Error)
    ensures
        outcome matches DecodeOutcome::Decoded(g) ==> r == (Error::GitHub { source: g }),
        outcome matches DecodeOutcome::Failed(m) ==> r == (Error::Json {
            message: m,
            json: body,
        }),
{
    match outcome {
        DecodeOutcome::Decoded(source) => Error::GitHub { source },
        DecodeOutcome::Failed(message) => Error::Json { message, json: body },
    }
}

/// The client configuration: the base target every relative route is
/// resolved against. An explicit value is passed to the handlers; no
/// process-wide default exists.
#[derive(Clone, Debug, PartialEq, Eq)]
pub struct Octocrab {
    pub base_url: String,
}

impl Octocrab {
    /// A client that resolves routes against `base_url`.
    pub fn new(base_url: String) -> (r: Self)
        ensures
            r.base_url == base_url,
    {
        Octocrab { base_url }
    }

    /// Resolves `route` against the base target. A malformed combination
    /// fails here, before anything reaches the transport collaborator.
    pub fn absolute_url(&self, route: &str) -> (r: Result<String, Error>)
        ensures
            r is Ok <==> resolved_url(self.base_url@, route@) is Some,
            r matches Ok(u) ==> (resolved_url(self.base_url@, route@) matches Some(v) && u@ == v),
            r matches Err(e) ==> e is Url,
    {
        match resolve_url(self.base_url.as_str(), route) {
            Ok(u) => Ok(u),
            Err(message) => Err(Error::Url { message }),
        }
    }
}

impl Default for Octocrab {
    /// The conventional public base target.
    fn default() -> (r: Self)
        ensures
            r.base_url@ == "https://api.github.com"@,
    {
        Octocrab { base_url: String::from_str("https://api.github.com") }
    }
}

} // verus!
