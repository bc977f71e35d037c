//! The response dispatcher: turns a route-level failure into an HTTP
//! response per the taxonomy's status table, falls back to a fixed response
//! when response building fails, and produces the fixed not-found response
//! for requests no route matched.

use vstd::prelude::*;
use crate::error::{ErrorKind, RouteFailure, kind_message, kind_status, prefixed};
use crate::response::{
    HttpResponse, SerializationFailure, json_body, json_response,
    lemma_json_body_nonempty, respond_or_fallback, valid_status,
};

verus! {

/// What dispatch promises of the response produced for `failure`: an
/// aborting handler's ready response is passed through byte for byte; every
/// other failure gets the status of its kind and the JSON body carrying the
/// message of its kind; an unrecognized failure gets status 500 and a body
/// carrying its own description.
pub open spec fn dispatch_post(failure: RouteFailure, resp: HttpResponse) -> bool {
    match failure {
        RouteFailure::Recognized(kind) => match kind {
            ErrorKind::AbortRequest(ready) => resp.status == ready.status && resp.body@
                == ready.body@,
            _ => resp.status as int == kind_status(kind) && resp.body@ == json_body(
                kind_message(kind),
            ),
        },
        RouteFailure::Unrecognized(description) => resp.status == 500 && resp.body@ == json_body(
            description@,
        ),
    }
}

/// Recovers a typed error from the failure and dispatches on its variant,
/// building the response through the response-building collaborator; an
/// unrecognized failure is reported as a generic server-side error carrying
/// its description. A collaborator failure would be passed on to the caller,
/// though with the present collaborator none occurs.
pub fn handle_casting(failure: RouteFailure) -> (result: Result<HttpResponse, SerializationFailure>)
    ensures
        result matches Ok(resp) && dispatch_post(failure, resp),
{
    let kind = match failure {
        RouteFailure::Recognized(kind) => kind,
        RouteFailure::Unrecognized(description) => {
            return json_response(500, description.as_str());
        },
    };

    match kind {
        ErrorKind::BadRequest(msg) => json_response(400, msg.as_str()),
        ErrorKind::Unauthorized(msg) => json_response(401, msg.as_str()),
        ErrorKind::AbortRequest(ready) => Ok(ready),
        ErrorKind::Other(cause) => {
            if cause.has_source {
                json_response(500, prefixed(&cause.description).as_str())
            } else {
                json_response(400, cause.description.as_str())
            }
        },
        ErrorKind::ServerError(cause) => json_response(
            500,
            prefixed(&cause.description).as_str(),
        ),
        ErrorKind::SerializationError(cause) => json_response(422, cause.description.as_str()),
    }
}

/// The entry point the routing engine calls with a failed request's failure:
/// dispatches on the recovered error kind and never fails itself — if
/// building the preferred response failed, the fixed fallback response is
/// returned, so the client always receives a response with a valid status
/// and a non-empty JSON body.
pub fn error_handler(failure: RouteFailure) -> (resp: HttpResponse)
    ensures
        dispatch_post(failure, resp),
        !(failure matches RouteFailure::Recognized(ErrorKind::AbortRequest(_))) ==> valid_status(
            resp.status as int,
        ) && resp.body@.len() > 0,
{
    let ghost given = failure;
    let result = handle_casting(failure);
    let resp = respond_or_fallback(result);
    proof {
        match given {
            RouteFailure::Recognized(kind) => match kind {
                ErrorKind::AbortRequest(_) => {},
                _ => lemma_json_body_nonempty(kind_message(kind)),
            },
            RouteFailure::Unrecognized(description) => lemma_json_body_nonempty(description@),
        }
    }
    resp
}

/// The entry point for requests that matched no route: always the fixed 404
/// response, built through the same response-building collaborator.
pub fn handle_404() -> (result: Result<HttpResponse, SerializationFailure>)
    ensures
        result matches Ok(resp) && resp.status == 404 && resp.body@ == json_body(
            "No route matched for path."@,
        ),
{
    json_response(404, "No route matched for path.")
}

/// Dispatch is deterministic: its contract pins the response down to the
/// byte, so two responses produced for equal failure values are
/// byte-identical — same status, same body.
pub proof fn lemma_dispatch_idempotent(failure: RouteFailure, r1: HttpResponse, r2: HttpResponse)
    requires
        dispatch_post(failure, r1),
        dispatch_post(failure, r2),
    ensures
        r1.status == r2.status,
        r1.body@ == r2.body@,
{
}

} // verus!
