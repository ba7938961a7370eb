//! Routing of the health endpoint's requests and the status each answer
//! carries.

use vstd::prelude::*;
use vstd::string::*;

verus! {

/// The pages the health endpoint serves.
#[derive(Debug, Clone, Copy, PartialEq, Eq)]
pub enum Endpoint {
    /// `GET /health`: the health status as JSON.
    Health,
    /// `GET /ready`: the readiness status as JSON.
    Ready,
    /// `GET /metrics`: Prometheus text.
    Metrics,
    /// `GET /`: an index page.
    Root,
    /// Anything else.
    NotFound,
}

/// The page a request with `method` for `path` is answered with.
pub open spec fn route_of(method: Seq<char>, path: Seq<char>) -> Endpoint {
    if method != "GET"@ {
        Endpoint::NotFound
    } else if path == "/health"@ {
        Endpoint::Health
    } else if path == "/ready"@ {
        Endpoint::Ready
    } else if path == "/metrics"@ {
        Endpoint::Metrics
    } else if path == "/"@ {
        Endpoint::Root
    } else {
        Endpoint::NotFound
    }
}

/// Picks the page for a request: only `GET` of `/health`, `/ready`,
/// `/metrics` and `/` are served.
pub fn route_request(method: &str, path: &str) -> (e: Endpoint)
    ensures
        e == route_of(method@, path@),
{
    let m = String::from_str(method);
    if m != String::from_str("GET") {
        return Endpoint::NotFound;
    }
    let p = String::from_str(path);
    if p == String::from_str("/health") {
        Endpoint::Health
    } else if p == String::from_str("/ready") {
        Endpoint::Ready
    } else if p == String::from_str("/metrics") {
        Endpoint::Metrics
    } else if p == String::from_str("/") {
        Endpoint::Root
    } else {
        Endpoint::NotFound
    }
}

/// The HTTP status of an answer: 404 for an unknown page, 503 for a
/// readiness answer that is not ready, 200 otherwise.
pub fn response_status(endpoint: Endpoint, ready: bool) -> (code: u16)
    ensures
        code == match endpoint {
            Endpoint::NotFound => 404u16,
            Endpoint::Ready => if ready {
                200u16
            } else {
                503u16
            },
            _ => 200u16,
        },
{
    match endpoint {
        Endpoint::NotFound => 404,
        Endpoint::Ready => if ready {
            200
        } else {
            503
        },
        _ => 200,
    }
}

/// The content type of a page; the not-found answer has none.
pub fn content_type(endpoint: Endpoint) -> (t: Option<&'static str>)
    ensures
        match endpoint {
            Endpoint::Health | Endpoint::Ready => t matches Some(s) && s@ == "application/json"@,
            Endpoint::Metrics => t matches Some(s) && s@ == "text/plain; version=0.0.4; charset=utf-8"@,
            Endpoint::Root => t matches Some(s) && s@ == "text/html"@,
            Endpoint::NotFound => t is None,
        },
{
    match endpoint {
        Endpoint::Health | Endpoint::Ready => Some("application/json"),
        Endpoint::Metrics => Some("text/plain; version=0.0.4; charset=utf-8"),
        Endpoint::Root => Some("text/html"),
        Endpoint::NotFound => None,
    }
}

} // verus!
