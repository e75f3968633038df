//! The session claim carried by a signed session cookie. Encoding and
//! decoding the cookie itself is the token collaborator's work; the library
//! holds only the claim value.

use vstd::prelude::*;

verus! {

/// The claim stored in a session cookie: the subject and the expiry
/// timestamp (seconds since the epoch).
#[derive(Debug, Clone, PartialEq)]
pub struct PrivateClaim {
    pub id: String,
    pub exp: i64,
}

impl PrivateClaim {
    /// A claim for `id` expiring at `expires_at`, as computed by the caller
    /// from its clock and the configured time to live.
    pub fn new(id: &str, expires_at: i64) -> (r: PrivateClaim)
        ensures
            r.id@ == id@,
            r.exp == expires_at,
    {
        PrivateClaim { id: String::from_str(id), exp: expires_at }
    }
}

} // verus!
