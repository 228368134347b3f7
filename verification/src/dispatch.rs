//! The dispatch pipeline: matching a request to one of the three
//! endpoints in a fixed precedence order, planning the backend operation
//! a matched request asks for, wrapping backend results in response
//! envelopes, and the single recovery stage that turns any failure into
//! a structured error response.
//!
//! The backend call between planning and wrapping is outside work; the
//! surrounding process performs it and hands its outcome back in.

use crate::api::{
    normalize_spec, Coord, ExplainResponseBody, Filters, InputQuery, SearchResponseBody,
    StatusResponseBody, StorageStatus,
};
use vstd::prelude::*;
use vstd::string::StringExecFns;

verus! {

/// The three endpoints the gateway serves.
#[derive(Debug, Clone, Copy, PartialEq, Eq, Structural)]
pub enum Route {
    ForwardGeocoder,
    ReverseGeocoder,
    Status,
}

/// The route predicate of the forward-geocode endpoint.
pub open spec fn is_forward_request(method: Seq<char>, path: Seq<char>) -> bool {
    method == "GET"@ && path == "/autocomplete"@
}

/// The route predicate of the reverse-geocode endpoint.
pub open spec fn is_reverse_request(method: Seq<char>, path: Seq<char>) -> bool {
    method == "GET"@ && path == "/reverse"@
}

/// The route predicate of the status endpoint.
pub open spec fn is_status_request(method: Seq<char>, path: Seq<char>) -> bool {
    method == "GET"@ && path == "/status"@
}

/// Which route a request matches, with the predicates evaluated in the
/// fixed precedence order forward, reverse, status; a request matching
/// none is left for the recovery stage.
pub open spec fn match_route_spec(method: Seq<char>, path: Seq<char>) -> Option<Route> {
    if is_forward_request(method, path) {
        Some(Route::ForwardGeocoder)
    } else if is_reverse_request(method, path) {
        Some(Route::ReverseGeocoder)
    } else if is_status_request(method, path) {
        Some(Route::Status)
    } else {
        None
    }
}

/// Whether two texts hold the same characters.
fn str_eq(a: &str, b: &str) -> (r: bool)
    ensures
        r == (a@ == b@),
{
    let a_owned = a.to_owned();
    let b_owned = b.to_owned();
    a_owned == b_owned
}

/// Matches a request's method and path against the three route
/// predicates in their fixed precedence order.
pub fn match_route(method: &str, path: &str) -> (r: Option<Route>)
    ensures
        r == match_route_spec(method@, path@),
{
    if str_eq(method, "GET") {
        if str_eq(path, "/autocomplete") {
            Some(Route::ForwardGeocoder)
        } else if str_eq(path, "/reverse") {
            Some(Route::ReverseGeocoder)
        } else if str_eq(path, "/status") {
            Some(Route::Status)
        } else {
            None
        }
    } else {
        None
    }
}

/// A request-level failure: it fails the one request it belongs to and
/// is always converted to a structured response by the recovery stage,
/// never surfaced as a crash.
#[derive(Debug, Clone, PartialEq)]
pub enum RequestFailure {
    RouteNotFound,
    InvalidQuery { msg: String },
    BackendError { msg: String },
}

/// The structured response the recovery stage produces.
#[derive(Debug, Clone, PartialEq)]
pub struct ErrorResponseBody {
    pub status_code: u16,
    pub message: String,
}

/// The status code owed to each failure: an unmatched route is a 404, a
/// malformed query a 400, a failed backend call a 500.
pub open spec fn failure_status_code(failure: RequestFailure) -> u16 {
    match failure {
        RequestFailure::RouteNotFound => 404,
        RequestFailure::InvalidQuery { .. } => 400,
        RequestFailure::BackendError { .. } => 500,
    }
}

/// The message carried alongside the status code.
pub open spec fn failure_message(failure: RequestFailure) -> Seq<char> {
    match failure {
        RequestFailure::RouteNotFound => "no route matched the request"@,
        RequestFailure::InvalidQuery { msg } => msg@,
        RequestFailure::BackendError { msg } => msg@,
    }
}

/// The recovery stage: the last stage of every route, total over every
/// failure, turning it into the structured response it is owed.
pub fn report_invalid(failure: RequestFailure) -> (r: ErrorResponseBody)
    ensures
        r.status_code == failure_status_code(failure),
        r.message@ == failure_message(failure),
{
    match failure {
        RequestFailure::RouteNotFound => ErrorResponseBody {
            status_code: 404,
            message: String::from_str("no route matched the request"),
        },
        RequestFailure::InvalidQuery { msg } => ErrorResponseBody {
            status_code: 400,
            message: msg,
        },
        RequestFailure::BackendError { msg } => ErrorResponseBody {
            status_code: 500,
            message: msg,
        },
    }
}

/// The backend operation a matched request asks for, with the request's
/// constraints already normalized.
#[derive(Debug, Clone, PartialEq)]
pub enum BackendOp {
    ForwardSearch { q: String, filters: Filters },
    ReverseSearch { coord: Coord, filters: Filters },
    StatusProbe,
}

/// Plans the backend operation for a matched route: a forward geocode
/// carries the free-text query and the normalized filters; a reverse
/// geocode requires a full coordinate pair and carries it with the
/// normalized filters; the status route needs nothing from the query.
/// A reverse geocode without a coordinate is the one malformed input:
/// it fails the request instead of reaching the backend.
pub fn plan_request(route: Route, input: InputQuery) -> (r: Result<BackendOp, RequestFailure>)
    ensures
        route is ForwardGeocoder ==> r is Ok && (r->Ok_0 matches BackendOp::ForwardSearch {
            q,
            filters,
        } && q == input.q && filters == normalize_spec(input)),
        route is ReverseGeocoder && normalize_spec(input).coord is Some ==> r is Ok && (r->Ok_0
            matches BackendOp::ReverseSearch { coord, filters } && coord == normalize_spec(
            input,
        ).coord->0 && filters == normalize_spec(input)),
        route is ReverseGeocoder && normalize_spec(input).coord is None ==> r is Err && (r->Err_0
            matches RequestFailure::InvalidQuery { msg } && msg@
            == "reverse geocoding requires both lat and lon"@),
        route is Status ==> r == Result::<BackendOp, RequestFailure>::Ok(BackendOp::StatusProbe),
{
    match route {
        Route::ForwardGeocoder => {
            let q = input.q.clone();
            let filters = Filters::from(input);
            Ok(BackendOp::ForwardSearch { q, filters })
        },
        Route::ReverseGeocoder => {
            let filters = Filters::from(input);
            match filters.coord {
                Some(coord) => Ok(BackendOp::ReverseSearch { coord, filters }),
                None => Err(RequestFailure::InvalidQuery {
                    msg: String::from_str("reverse geocoding requires both lat and lon"),
                }),
            }
        },
        Route::Status => Ok(BackendOp::StatusProbe),
    }
}

/// Wraps a geocode call's outcome: the documents the backend returned go
/// into a list envelope whose count is their number; a failed call fails
/// the request with the backend's message.
pub fn geocoder_response<D>(outcome: Result<Vec<D>, String>) -> (r: Result<
    SearchResponseBody<D>,
    RequestFailure,
>)
    ensures
        outcome matches Ok(docs) ==> r is Ok && r->Ok_0.docs == docs && r->Ok_0.docs_count
            == docs@.len(),
        outcome matches Err(msg) ==> r is Err && (r->Err_0 matches RequestFailure::BackendError {
            msg: m,
        } && m@ == msg@),
{
    match outcome {
        Ok(docs) => Ok(SearchResponseBody::from(docs)),
        Err(msg) => Err(RequestFailure::BackendError { msg }),
    }
}

/// Wraps an explanation-style geocode outcome: the backend's structured
/// explanation payload goes through unchanged into an explanation
/// envelope; a failed call fails the request with the backend's message.
pub fn explain_response(outcome: Result<serde_json::Value, String>) -> (r: Result<
    ExplainResponseBody,
    RequestFailure,
>)
    ensures
        outcome matches Ok(payload) ==> r is Ok && r->Ok_0.explanation == payload,
        outcome matches Err(msg) ==> r is Err && (r->Err_0 matches RequestFailure::BackendError {
            msg: m,
        } && m@ == msg@),
{
    match outcome {
        Ok(payload) => Ok(ExplainResponseBody::from(payload)),
        Err(msg) => Err(RequestFailure::BackendError { msg }),
    }
}

/// Wraps a status probe's outcome: a reported status goes into a status
/// envelope (whose gateway version is always the gateway's own and never
/// empty); a failed probe fails the request with the backend's message.
pub fn status_response(outcome: Result<StorageStatus, String>) -> (r: Result<
    StatusResponseBody,
    RequestFailure,
>)
    ensures
        outcome matches Ok(status) ==> r is Ok && r->Ok_0.status@ == crate::api::health_label_spec(
            status.health,
        ) && r->Ok_0.elasticsearch_version == status.version && r->Ok_0.bragi_version@
            == crate::api::gateway_version_spec() && r->Ok_0.bragi_version@.len() > 0,
        outcome matches Err(msg) ==> r is Err && (r->Err_0 matches RequestFailure::BackendError {
            msg: m,
        } && m@ == msg@),
{
    match outcome {
        Ok(status) => Ok(StatusResponseBody::from(status)),
        Err(msg) => Err(RequestFailure::BackendError { msg }),
    }
}

} // verus!
