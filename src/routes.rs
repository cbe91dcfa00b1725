//! The table that sends each request, by method and path, to its handler.

use vstd::prelude::*;
use crate::text::str_eq;

verus! {

/// Path of the greeting endpoint.
pub const HELLO_PATH: &'static str = "/";

/// Path of the health endpoint.
pub const HEALTH_PATH: &'static str = "/api/health";

/// The request methods that the table tells apart.
#[derive(Clone, Copy, Debug, PartialEq, Eq, Structural)]
pub enum Method {
    Get,
    Head,
    Post,
    Put,
    Patch,
    Delete,
    Options,
    Other,
}

/// The handlers that requests can be sent to.
#[derive(Clone, Copy, Debug, PartialEq, Eq, Structural)]
pub enum Route {
    Hello,
    Health,
}

/// Where a request goes: a handler, or one of the two 4xx replies.
#[derive(Clone, Copy, Debug, PartialEq, Eq, Structural)]
pub enum Dispatch {
    /// The path and the method both match a route.
    Handler(Route),
    /// The path is routed, but not for this method (405).
    MethodNotAllowed,
    /// No route has this path (404).
    NotFound,
}

/// The route registered for a path, if any; both routes answer `GET` only.
pub open spec fn route_of_path(path: Seq<char>) -> Option<Route> {
    if path == HELLO_PATH@ {
        Some(Route::Hello)
    } else if path == HEALTH_PATH@ {
        Some(Route::Health)
    } else {
        None
    }
}

/// Where a request with this method and path is dispatched.
pub open spec fn dispatch_spec(method: Method, path: Seq<char>) -> Dispatch {
    match route_of_path(path) {
        Some(r) => if method == Method::Get {
            Dispatch::Handler(r)
        } else {
            Dispatch::MethodNotAllowed
        },
        None => Dispatch::NotFound,
    }
}

/// Decides where a request goes, by its method and its path.
pub fn dispatch(method: Method, path: &str) -> (r: Dispatch)
    ensures
        r == dispatch_spec(method, path@),
{
    let route = if str_eq(path, HELLO_PATH) {
        Some(Route::Hello)
    } else if str_eq(path, HEALTH_PATH) {
        Some(Route::Health)
    } else {
        None
    };
    match route {
        Some(r) => if method == Method::Get {
            Dispatch::Handler(r)
        } else {
            Dispatch::MethodNotAllowed
        },
        None => Dispatch::NotFound,
    }
}

/// The HTTP status of the replies that the table gives itself.
pub fn dispatch_status(d: Dispatch) -> (r: Option<u16>)
    ensures
        r == match d {
            Dispatch::Handler(_) => None,
            Dispatch::MethodNotAllowed => Some(405u16),
            Dispatch::NotFound => Some(404u16),
        },
{
    match d {
        Dispatch::Handler(_) => None,
        Dispatch::MethodNotAllowed => Some(405),
        Dispatch::NotFound => Some(404),
    }
}

} // verus!
