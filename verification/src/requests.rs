//! Incoming request types of the service's API.

use vstd::prelude::*;
use crate::types::{Address, Community, SubscriptionTx, TransferFrom};

verus! {

/// Registration of a new community.
#[derive(Clone, Debug)]
pub struct DeclareCommunityRequest {
    pub community: Community,
}

/// Query for the token grant of a community's user.
#[derive(Clone, Debug)]
pub struct GrantedTokensRequest {
    pub user: Address,
    pub community_name: String,
}

/// Request to have a minting transaction signed by the treasury.
#[derive(Clone, Debug)]
pub struct MintingSignatureRequest {
    pub user: Address,
    pub community_name: String,
    pub minting_tx: TransferFrom,
}

/// Query for the communities related to a user.
#[derive(Clone, Copy, Debug)]
pub struct RelatedCommunitiesRequest {
    pub user: Address,
}

/// Query whether a user is subscribed to a community.
#[derive(Clone, Debug)]
pub struct SubscriptionCheckRequest {
    pub user: Address,
    pub community_name: String,
}

/// Subscription request: the dedicated wallet and the pre-signed ticks that
/// will pay the coming periods.
#[derive(Clone, Debug)]
pub struct SubscribeRequest {
    pub user: Address,
    pub community_name: String,
    pub subscription_wallet: Address,
    pub txs: Vec<SubscriptionTx>,
}

} // verus!
