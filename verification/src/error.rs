//! The error taxonomy: the closed set of failure kinds a route handler can
//! report, each with its HTTP-status semantics, and the route-level failure
//! type that carries either a recognized kind or an opaque failure.

use vstd::prelude::*;
use crate::response::HttpResponse;

verus! {

/// An underlying cause of a failure, as far as this layer reads it: its
/// textual description, and whether it wraps a further, deeper cause
/// (a chained error) or is a leaf.
#[derive(Clone, Debug, PartialEq, Eq)]
pub struct Cause {
    pub description: String,
    pub has_source: bool,
}

/// The closed taxonomy of application errors. Exactly one variant is active
/// per instance; the status semantics live in the variant, not in the value.
#[derive(Debug)]
pub enum ErrorKind {
    /// Client input rejected by handler logic; status 400.
    BadRequest(String),
    /// Missing or invalid credentials; status 401.
    Unauthorized(String),
    /// A fully formed response the handler built itself; passed through
    /// unchanged, bypassing status and body synthesis.
    AbortRequest(HttpResponse),
    /// An unclassified failure; status 500 when its cause is chained,
    /// status 400 when the cause is a leaf.
    Other(Cause),
    /// An internal failure, always the server's fault; status 500.
    ServerError(Cause),
    /// A payload that could not be (de)serialized; status 422.
    SerializationError(Cause),
}

/// A route-level failure as the dispatch engine hands it over: either an
/// error of the recognized taxonomy, or an opaque failure of which only the
/// textual description can be read.
#[derive(Debug)]
pub enum RouteFailure {
    Recognized(ErrorKind),
    Unrecognized(String),
}

/// The fixed prefix put before the description of a server-side cause.
pub open spec fn prefixed_message(description: Seq<char>) -> Seq<char> {
    "error handling request: "@ + description
}

/// The status code each kind maps to. For `AbortRequest` it is whatever the
/// embedded response carries; for `Other` it depends on whether the cause is
/// chained (server-side, 500) or a leaf (client-caused, 400).
pub open spec fn kind_status(kind: ErrorKind) -> int {
    match kind {
        ErrorKind::BadRequest(_) => 400,
        ErrorKind::Unauthorized(_) => 401,
        ErrorKind::AbortRequest(resp) => resp.status as int,
        ErrorKind::Other(cause) => if cause.has_source { 500 } else { 400 },
        ErrorKind::ServerError(_) => 500,
        ErrorKind::SerializationError(_) => 422,
    }
}

/// The message each kind maps to, for every variant that has one
/// synthesized (`AbortRequest` carries a ready response instead).
pub open spec fn kind_message(kind: ErrorKind) -> Seq<char>
    recommends
        !(kind is AbortRequest),
{
    match kind {
        ErrorKind::BadRequest(msg) => msg@,
        ErrorKind::Unauthorized(msg) => msg@,
        ErrorKind::AbortRequest(_) => Seq::empty(),
        ErrorKind::Other(cause) => if cause.has_source {
            prefixed_message(cause.description@)
        } else {
            cause.description@
        },
        ErrorKind::ServerError(cause) => prefixed_message(cause.description@),
        ErrorKind::SerializationError(cause) => cause.description@,
    }
}

impl ErrorKind {
    /// The read-only projection of a kind back to its status code.
    pub fn status_code(&self) -> (status: u16)
        ensures
            status as int == kind_status(*self),
    {
        match self {
            ErrorKind::BadRequest(_) => 400,
            ErrorKind::Unauthorized(_) => 401,
            ErrorKind::AbortRequest(resp) => resp.status,
            ErrorKind::Other(cause) => if cause.has_source { 500 } else { 400 },
            ErrorKind::ServerError(_) => 500,
            ErrorKind::SerializationError(_) => 422,
        }
    }

    /// The read-only projection of a kind back to its synthesized message;
    /// `None` for `AbortRequest`, which carries a ready response instead.
    pub fn message(&self) -> (msg: Option<String>)
        ensures
            *self is AbortRequest <==> msg is None,
            msg matches Some(m) ==> m@ == kind_message(*self),
    {
        match self {
            ErrorKind::BadRequest(msg) => Some(msg.clone()),
            ErrorKind::Unauthorized(msg) => Some(msg.clone()),
            ErrorKind::AbortRequest(_) => None,
            ErrorKind::Other(cause) => if cause.has_source {
                Some(prefixed(&cause.description))
            } else {
                Some(cause.description.clone())
            },
            ErrorKind::ServerError(cause) => Some(prefixed(&cause.description)),
            ErrorKind::SerializationError(cause) => Some(cause.description.clone()),
        }
    }
}

/// Puts the fixed server-side prefix before a cause's description.
pub fn prefixed(description: &String) -> (msg: String)
    ensures
        msg@ == prefixed_message(description@),
{
    let mut msg = "error handling request: ".to_owned();
    msg.append(description.as_str());
    msg
}

} // verus!
