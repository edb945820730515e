use vstd::prelude::*;

verus! {

/// Creates an endpoint for getting the message of the day.
pub fn get_motd() -> (r: MotdEndpoint) {
    MotdEndpoint
}

/// Message of the day endpoint.
///
/// The server reports no error object here: a failing HTTP status is the failure.
#[derive(Debug, Clone, Copy)]
pub struct MotdEndpoint;

impl MotdEndpoint {
    /// Path of the message of the day, relative to the server.
    pub fn path(&self) -> (r: &'static str)
        ensures
            r@ == "/api/krist/motd"@,
    {
        proof {
            reveal_strlit("/api/krist/motd");
        }
        "/api/krist/motd"
    }
}

} // verus!
