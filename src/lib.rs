use vstd::prelude::*;

pub mod fetch;
pub mod method;
pub mod response;
pub mod upload;

verus! {

/// Every client this library describes accepts TLS certificates that fail
/// validation (self-signed, expired, or issued for another host). This is a
/// deliberate trade-off of the application: the front end talks to servers
/// whose certificates it cannot check.
pub const ACCEPT_INVALID_CERTS: bool = true;

} // verus!
