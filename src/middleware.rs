//! How the webhook endpoint answers failures of the routes behind it.

use vstd::prelude::*;

verus! {

/// Wraps an endpoint so that its failures are logged and answered with a status.
pub struct TracingMiddleware;

/// An endpoint wrapped by `TracingMiddleware`.
pub struct TracingMiddlewareImpl<E> {
    pub ep: E,
}

impl TracingMiddleware {
    pub fn transform<E>(&self, ep: E) -> (r: TracingMiddlewareImpl<E>)
        ensures
            r.ep == ep,
    {
        TracingMiddlewareImpl { ep }
    }
}

/// What went wrong in a route.
#[derive(Clone, Copy, Debug, PartialEq, Eq, Structural)]
pub enum RouteFailure {
    NotFound,
    MethodNotAllowed,
    BadQuery,
    BadPath,
    Other,
}

/// The answer to a failure: a status code, and whether it is logged as an error
/// (else as information).
#[derive(Clone, Copy, Debug, PartialEq, Eq, Structural)]
pub struct FailureResponse {
    pub status: u16,
    pub is_error: bool,
}

/// Client mistakes get their 4xx status and an information line; anything else is a
/// server error, logged as such.
pub fn failure_response(failure: RouteFailure) -> (r: FailureResponse)
    ensures
        r == match failure {
            RouteFailure::NotFound => FailureResponse { status: 404, is_error: false },
            RouteFailure::MethodNotAllowed => FailureResponse { status: 405, is_error: false },
            RouteFailure::BadQuery | RouteFailure::BadPath => FailureResponse { status: 400, is_error: false },
            RouteFailure::Other => FailureResponse { status: 500, is_error: true },
        },
{
    match failure {
        RouteFailure::NotFound => FailureResponse { status: 404, is_error: false },
        RouteFailure::MethodNotAllowed => FailureResponse { status: 405, is_error: false },
        RouteFailure::BadQuery | RouteFailure::BadPath => FailureResponse { status: 400, is_error: false },
        RouteFailure::Other => FailureResponse { status: 500, is_error: true },
    }
}

} // verus!
