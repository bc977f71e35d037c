use error_responses::dispatch::{error_handler, handle_404, handle_casting};
use error_responses::error::{Cause, ErrorKind, RouteFailure};
use error_responses::response::HttpResponse;

#[test]
fn bad_request_maps_to_400() {
    let failure = RouteFailure::Recognized(ErrorKind::BadRequest(String::from(
        "missing field: email",
    )));
    let resp = error_handler(failure);
    assert_eq!(resp.status, 400);
    assert_eq!(resp.body, "{\"message\":\"missing field: email\"}");
}

#[test]
fn unauthorized_maps_to_401() {
    let failure = RouteFailure::Recognized(ErrorKind::Unauthorized(String::from("invalid token")));
    let resp = error_handler(failure);
    assert_eq!(resp.status, 401);
    assert_eq!(resp.body, "{\"message\":\"invalid token\"}");
}

#[test]
fn other_with_leaf_cause_maps_to_400() {
    let cause = Cause { description: String::from("invalid UUID"), has_source: false };
    let resp = error_handler(RouteFailure::Recognized(ErrorKind::Other(cause)));
    assert_eq!(resp.status, 400);
    assert_eq!(resp.body, "{\"message\":\"invalid UUID\"}");
}

#[test]
fn other_with_chained_cause_maps_to_500() {
    let cause = Cause {
        description: String::from("failed to open index file"),
        has_source: true,
    };
    let resp = error_handler(RouteFailure::Recognized(ErrorKind::Other(cause)));
    assert_eq!(resp.status, 500);
    assert_eq!(
        resp.body,
        "{\"message\":\"error handling request: failed to open index file\"}"
    );
}

#[test]
fn server_error_maps_to_500_with_prefixed_message() {
    let cause = Cause { description: String::from("index corrupted"), has_source: false };
    let resp = error_handler(RouteFailure::Recognized(ErrorKind::ServerError(cause)));
    assert_eq!(resp.status, 500);
    assert_eq!(resp.body, "{\"message\":\"error handling request: index corrupted\"}");
}

#[test]
fn serialization_error_maps_to_422_with_plain_message() {
    let cause = Cause {
        description: String::from("expected value at line 1 column 2"),
        has_source: true,
    };
    let resp = error_handler(RouteFailure::Recognized(ErrorKind::SerializationError(cause)));
    assert_eq!(resp.status, 422);
    assert_eq!(resp.body, "{\"message\":\"expected value at line 1 column 2\"}");
}

#[test]
fn abort_request_passes_embedded_response_through() {
    let ready = HttpResponse { status: 302, body: String::from("<moved>") };
    let resp = error_handler(RouteFailure::Recognized(ErrorKind::AbortRequest(ready.clone())));
    assert_eq!(resp, ready);
}

#[test]
fn unrecognized_failure_maps_to_500_with_description() {
    let resp = error_handler(RouteFailure::Unrecognized(String::from("disk full")));
    assert_eq!(resp.status, 500);
    assert_eq!(resp.body, "{\"message\":\"disk full\"}");
}

#[test]
fn handle_casting_succeeds_on_every_variant() {
    let failures = vec![
        RouteFailure::Recognized(ErrorKind::BadRequest(String::from("a"))),
        RouteFailure::Recognized(ErrorKind::Unauthorized(String::from("b"))),
        RouteFailure::Recognized(ErrorKind::AbortRequest(HttpResponse {
            status: 204,
            body: String::new(),
        })),
        RouteFailure::Recognized(ErrorKind::Other(Cause {
            description: String::from("c"),
            has_source: false,
        })),
        RouteFailure::Recognized(ErrorKind::ServerError(Cause {
            description: String::from("d"),
            has_source: true,
        })),
        RouteFailure::Recognized(ErrorKind::SerializationError(Cause {
            description: String::from("e"),
            has_source: false,
        })),
        RouteFailure::Unrecognized(String::from("f")),
    ];
    for failure in failures {
        assert!(handle_casting(failure).is_ok());
    }
}

#[test]
fn dispatch_statuses_follow_the_table() {
    let cases: Vec<(RouteFailure, u16)> = vec![
        (RouteFailure::Recognized(ErrorKind::BadRequest(String::from("x"))), 400),
        (RouteFailure::Recognized(ErrorKind::Unauthorized(String::from("x"))), 401),
        (
            RouteFailure::Recognized(ErrorKind::AbortRequest(HttpResponse {
                status: 418,
                body: String::from("{}"),
            })),
            418,
        ),
        (
            RouteFailure::Recognized(ErrorKind::Other(Cause {
                description: String::from("x"),
                has_source: false,
            })),
            400,
        ),
        (
            RouteFailure::Recognized(ErrorKind::Other(Cause {
                description: String::from("x"),
                has_source: true,
            })),
            500,
        ),
        (
            RouteFailure::Recognized(ErrorKind::ServerError(Cause {
                description: String::from("x"),
                has_source: false,
            })),
            500,
        ),
        (
            RouteFailure::Recognized(ErrorKind::SerializationError(Cause {
                description: String::from("x"),
                has_source: true,
            })),
            422,
        ),
        (RouteFailure::Unrecognized(String::from("x")), 500),
    ];
    for (failure, expected) in cases {
        assert_eq!(error_handler(failure).status, expected);
    }
}

#[test]
fn dispatch_twice_yields_byte_identical_responses() {
    let first = error_handler(RouteFailure::Recognized(ErrorKind::Other(Cause {
        description: String::from("invalid UUID"),
        has_source: false,
    })));
    let second = error_handler(RouteFailure::Recognized(ErrorKind::Other(Cause {
        description: String::from("invalid UUID"),
        has_source: false,
    })));
    assert_eq!(first.status, second.status);
    assert_eq!(first.body.as_bytes(), second.body.as_bytes());
}

#[test]
fn handle_404_returns_the_fixed_not_found_response() {
    let resp = handle_404().unwrap();
    assert_eq!(resp.status, 404);
    assert_eq!(resp.body, "{\"message\":\"No route matched for path.\"}");
}

#[test]
fn taxonomy_projections_report_status_and_message() {
    let kind = ErrorKind::BadRequest(String::from("bad"));
    assert_eq!(kind.status_code(), 400);
    assert_eq!(kind.message(), Some(String::from("bad")));

    let kind = ErrorKind::Unauthorized(String::from("who?"));
    assert_eq!(kind.status_code(), 401);
    assert_eq!(kind.message(), Some(String::from("who?")));

    let kind = ErrorKind::AbortRequest(HttpResponse { status: 307, body: String::new() });
    assert_eq!(kind.status_code(), 307);
    assert_eq!(kind.message(), None);

    let kind = ErrorKind::Other(Cause { description: String::from("leaf"), has_source: false });
    assert_eq!(kind.status_code(), 400);
    assert_eq!(kind.message(), Some(String::from("leaf")));

    let kind = ErrorKind::Other(Cause { description: String::from("deep"), has_source: true });
    assert_eq!(kind.status_code(), 500);
    assert_eq!(kind.message(), Some(String::from("error handling request: deep")));

    let kind = ErrorKind::ServerError(Cause {
        description: String::from("boom"),
        has_source: false,
    });
    assert_eq!(kind.status_code(), 500);
    assert_eq!(kind.message(), Some(String::from("error handling request: boom")));

    let kind = ErrorKind::SerializationError(Cause {
        description: String::from("bad json"),
        has_source: true,
    });
    assert_eq!(kind.status_code(), 422);
    assert_eq!(kind.message(), Some(String::from("bad json")));
}
