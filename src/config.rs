//! Where the server listens and which database it opens.

use vstd::prelude::*;

verus! {

/// The database opened when no connection string is configured: a file
/// beside the working directory.
pub const DEFAULT_DATABASE_URL: &'static str = "sqlite:./database.db";

/// The address and port the server listens on, on every interface.
pub const BIND_ADDRESS: &'static str = "0.0.0.0:8080";

/// The connection string to open: the configured one as it is, unchecked,
/// or the default when none is configured.
pub fn database_url(configured: Option<String>) -> (r: String)
    ensures
        r@ == match configured {
            Some(s) => s@,
            None => DEFAULT_DATABASE_URL@,
        },
{
    match configured {
        Some(s) => s,
        None => String::from_str(DEFAULT_DATABASE_URL),
    }
}

/// The address the listener binds.
pub fn bind_address() -> (r: String)
    ensures
        r@ == BIND_ADDRESS@,
{
    String::from_str(BIND_ADDRESS)
}

} // verus!
