//! Outgoing response types of the service's API.

use vstd::prelude::*;

verus! {

/// A structured rejection carrying a human-readable description.
#[derive(Clone, Debug)]
pub struct ErrorResponse {
    pub error_description: String,
}

impl ErrorResponse {
    /// An error response with the given description.
    pub fn error(message: &str) -> (r: ErrorResponse)
        ensures
            r.error_description@ == message@,
    {
        ErrorResponse { error_description: message.to_owned() }
    }
}

/// The token grant a community gives one of its users.
#[derive(Clone, Debug)]
pub struct GrantedTokensResponse {
    pub token: String,
    pub amount: u64,
}

/// The communities related to a user.
#[derive(Clone, Debug)]
pub struct RelatedCommunitiesResponse {
    pub communities: Vec<String>,
}

/// The externally reported view of a subscription: whether the user is
/// currently subscribed, and the bounds of the active period when known.
#[derive(Clone, Copy, Debug, PartialEq, Eq, Structural)]
pub struct SubscriptionCheckResponse {
    pub subscribed: bool,
    pub started_at: Option<u64>,
    pub expires_at: Option<u64>,
}

} // verus!
