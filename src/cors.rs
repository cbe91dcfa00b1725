//! The cross-origin policy put in front of every route.

use vstd::prelude::*;

verus! {

/// How long, in seconds, a browser may cache a preflight reply.
pub const PREFLIGHT_MAX_AGE_SECS: usize = 3600;

/// Which cross-origin requests are allowed, and for how long a preflight
/// reply may be cached.
#[derive(Clone, Copy, Debug, PartialEq, Eq, Structural)]
pub struct CorsPolicy {
    pub any_origin: bool,
    pub any_method: bool,
    pub any_header: bool,
    pub max_age_secs: usize,
}

impl CorsPolicy {
    /// The policy of this server: any origin, any method and any header are
    /// allowed, and preflight replies may be cached for an hour.
    pub fn permissive() -> (r: CorsPolicy)
        ensures
            r.any_origin,
            r.any_method,
            r.any_header,
            r.max_age_secs == PREFLIGHT_MAX_AGE_SECS,
    {
        CorsPolicy {
            any_origin: true,
            any_method: true,
            any_header: true,
            max_age_secs: PREFLIGHT_MAX_AGE_SECS,
        }
    }
}

} // verus!
