//! What is known of a request once the transport layer has read its headers.

use vstd::prelude::*;

verus! {

/// The identity that a request was authenticated as.
#[derive(Debug, Clone, Copy, PartialEq, Eq, Structural)]
pub struct AuthUser {
    /// The user's id.
    pub id: i32,
    /// The session that the bearer token was bound to.
    pub session_id: u128,
}

/// The client's description of itself.
#[derive(Debug, Clone)]
pub struct RequestMetadata {
    pub user_agent: Option<String>,
}

} // verus!
