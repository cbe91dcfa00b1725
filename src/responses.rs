//! The JSON bodies of the two endpoints and the status codes they go out with.

use vstd::prelude::*;

verus! {

/// HTTP status of a successful reply.
pub const STATUS_OK: u16 = 200;

/// HTTP status of a reply that reports a server-side failure.
pub const STATUS_INTERNAL_ERROR: u16 = 500;

/// The greeting sent by `GET /`.
pub open spec fn hello_message() -> Seq<char> {
    "Hello World from GroceryNana Backend!"@
}

/// The `status` field of a health report whose liveness query succeeded.
pub open spec fn status_ok() -> Seq<char> {
    "ok"@
}

/// The `status` field of a health report whose liveness query failed.
pub open spec fn status_error() -> Seq<char> {
    "error"@
}

/// The `message` field of a health report whose liveness query succeeded.
pub open spec fn connected_message() -> Seq<char> {
    "Database connected"@
}

/// The `message` field of a health report whose liveness query failed.
pub open spec fn failed_message() -> Seq<char> {
    "Database connection failed"@
}

/// Body of the health endpoint: `{"status": ..., "message": ...}`.
pub struct HealthResponse {
    pub status: String,
    pub message: String,
}

/// Body of the greeting endpoint: `{"message": ...}`.
pub struct HelloResponse {
    pub message: String,
}

/// A reply of one endpoint: its HTTP status and the body to encode as JSON.
pub struct JsonReply<T> {
    pub status: u16,
    pub body: T,
}

/// The health report for one liveness query, given whether it succeeded.
pub open spec fn health_report(db_reachable: bool) -> (u16, Seq<char>, Seq<char>) {
    if db_reachable {
        (STATUS_OK, status_ok(), connected_message())
    } else {
        (STATUS_INTERNAL_ERROR, status_error(), failed_message())
    }
}

/// The reply of `GET /`: the fixed greeting with status 200. It depends on
/// nothing, so every request gets the same reply.
pub fn hello_world() -> (r: JsonReply<HelloResponse>)
    ensures
        r.status == STATUS_OK,
        r.body.message@ == hello_message(),
{
    JsonReply {
        status: STATUS_OK,
        body: HelloResponse { message: String::from_str("Hello World from GroceryNana Backend!") },
    }
}

/// The reply of `GET /api/health`, given whether the liveness query against
/// the database succeeded. A failed query is reported as a well-formed error
/// body with status 500; the cause is not part of the reply.
pub fn health_check(db_reachable: bool) -> (r: JsonReply<HealthResponse>)
    ensures
        (r.status, r.body.status@, r.body.message@) == health_report(db_reachable),
{
    if db_reachable {
        JsonReply {
            status: STATUS_OK,
            body: HealthResponse {
                status: String::from_str("ok"),
                message: String::from_str("Database connected"),
            },
        }
    } else {
        JsonReply {
            status: STATUS_INTERNAL_ERROR,
            body: HealthResponse {
                status: String::from_str("error"),
                message: String::from_str("Database connection failed"),
            },
        }
    }
}

} // verus!
