//! Settings that the process reads from its environment, with their defaults.
use vstd::prelude::*;

verus! {

/// How long the router waits for each part of a request frame, in milliseconds.
pub const REQUEST_TIMEOUT_MILLIS: u64 = 3000;

/// The address to listen on: the configured one, else `127.0.0.1:6379`.
pub fn host_address(configured: Option<String>) -> (r: String)
    ensures
        r@ == match configured {
            Some(s) => s@,
            None => "127.0.0.1:6379"@,
        },
{
    match configured {
        Some(s) => s,
        None => "127.0.0.1:6379".to_owned(),
    }
}

/// Where the shared database lives: the configured location, else
/// `sqlite:db.sqlite3`.
pub fn database_url(configured: Option<String>) -> (r: String)
    ensures
        r@ == match configured {
            Some(s) => s@,
            None => "sqlite:db.sqlite3"@,
        },
{
    match configured {
        Some(s) => s,
        None => "sqlite:db.sqlite3".to_owned(),
    }
}

} // verus!
