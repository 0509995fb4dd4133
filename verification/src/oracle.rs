//! Community oracle core: the catalogue of known communities, the token
//! grants they give their subscribers, and the approval that a minting
//! transaction must pass before the treasury account signs it.
//!
//! The signing itself uses the ledger's key machinery and lives outside this
//! library; what is verified here is every decision that precedes it.

use vstd::prelude::*;
use crate::responses::{ErrorResponse, GrantedTokensResponse, RelatedCommunitiesResponse};
use crate::types::{addr_eq, str_eq, Address, TransferFrom};

verus! {

/// Tokens granted to a user of a community, absent a per-community setting.
pub const DEFAULT_TOKENS_AMOUNT: u64 = 10_000;

/// What the oracle knows of one community: the ledger token it grants.
#[derive(Clone, Debug)]
pub struct CommunityInfo {
    pub token_id: u16,
    pub token_symbol: String,
}

impl CommunityInfo {
    /// A community grant description.
    pub fn new(token_id: u16, token_symbol: String) -> (r: CommunityInfo)
        ensures
            r.token_id == token_id,
            r.token_symbol == token_symbol,
    {
        CommunityInfo { token_id, token_symbol }
    }
}

/// A community the oracle answers for, keyed by name.
#[derive(Clone, Debug)]
pub struct KnownCommunity {
    pub name: String,
    pub info: CommunityInfo,
}

/// The community oracle: name-keyed community knowledge, the grant size, and
/// the treasury ("genesis") wallet that minting transfers must come from.
#[derive(Debug)]
pub struct CommunityOracle {
    pub known_communities: Vec<KnownCommunity>,
    pub tokens_amount: u64,
    pub genesis_wallet_address: Address,
}

impl CommunityOracle {
    /// An oracle seeded with the built-in test community, granting the
    /// default amount.
    pub fn new(genesis_wallet_address: Address) -> (r: CommunityOracle)
        ensures
            r.known_communities@.len() == 1,
            r.known_communities@[0].name@ == "TestCommunity"@,
            r.known_communities@[0].info.token_id == 0,
            r.known_communities@[0].info.token_symbol@ == "ETH"@,
            r.tokens_amount == DEFAULT_TOKENS_AMOUNT,
            r.genesis_wallet_address == genesis_wallet_address,
    {
        let mut known_communities: Vec<KnownCommunity> = Vec::new();
        known_communities.push(
            KnownCommunity {
                name: "TestCommunity".to_owned(),
                info: CommunityInfo::new(0, "ETH".to_owned()),
            },
        );
        CommunityOracle {
            known_communities,
            tokens_amount: DEFAULT_TOKENS_AMOUNT,
            genesis_wallet_address,
        }
    }

    /// The position of the first known community with this name.
    fn find_known_index(&self, community_name: &str) -> (r: Option<usize>)
        ensures
            r is Some <==> exists|i: int|
                0 <= i < self.known_communities@.len() && self.known_communities@[i].name@
                    == community_name@,
            r matches Some(i) ==> 0 <= i < self.known_communities@.len()
                && self.known_communities@[i as int].name@ == community_name@ && (forall|j: int|
                0 <= j < i ==> self.known_communities@[j].name@ != community_name@),
    {
        let n = self.known_communities.len();
        let mut i: usize = 0;
        while i < n
            invariant
                0 <= i <= n,
                n == self.known_communities@.len(),
                forall|j: int| 0 <= j < i ==> self.known_communities@[j].name@ != community_name@,
            decreases n - i,
        {
            if str_eq(self.known_communities[i].name.as_str(), community_name) {
                return Some(i);
            }
            i = i + 1;
        }
        None
    }

    /// The token grant a user of this community receives: the community's
    /// token and the oracle's grant amount; an unknown community is
    /// rejected.
    pub fn tokens_for_user(&self, community_name: &str) -> (r: Result<
        GrantedTokensResponse,
        ErrorResponse,
    >)
        ensures
            r is Ok <==> exists|i: int|
                0 <= i < self.known_communities@.len() && self.known_communities@[i].name@
                    == community_name@,
            r matches Ok(resp) ==> exists|i: int|
                0 <= i < self.known_communities@.len() && self.known_communities@[i].name@
                    == community_name@ && (forall|j: int|
                    0 <= j < i ==> self.known_communities@[j].name@ != community_name@)
                    && resp.token == self.known_communities@[i].info.token_symbol && resp.amount
                    == self.tokens_amount,
            r matches Err(e) ==> e.error_description@ == "Invalid community"@,
    {
        match self.find_known_index(community_name) {
            Some(i) => Ok(
                GrantedTokensResponse {
                    token: self.known_communities[i].info.token_symbol.clone(),
                    amount: self.tokens_amount,
                },
            ),
            None => Err(ErrorResponse::error("Invalid community")),
        }
    }

    /// A minting transaction is correct when it moves the grant amount from
    /// the oracle's treasury wallet to the requesting user.
    pub fn is_minting_transaction_correct(&self, tx: &TransferFrom, address: &Address) -> (r:
        bool)
        ensures
            r == (tx.from@ == self.genesis_wallet_address@ && tx.to@ == address@ && tx.amount
                == DEFAULT_TOKENS_AMOUNT),
    {
        addr_eq(&tx.from, &self.genesis_wallet_address) && addr_eq(&tx.to, address) && tx.amount
            == DEFAULT_TOKENS_AMOUNT
    }

    /// The approval step before the treasury signs a minting transaction: the
    /// community must be known and the transaction must be a correct grant
    /// to the requesting user. Exactly the requests that pass may be signed.
    pub fn check_minting_request(
        &self,
        community_name: &str,
        minting_tx: &TransferFrom,
        user: &Address,
    ) -> (r: Result<(), ErrorResponse>)
        ensures
            r is Ok <==> (exists|i: int|
                0 <= i < self.known_communities@.len() && self.known_communities@[i].name@
                    == community_name@) && minting_tx.from@ == self.genesis_wallet_address@
                && minting_tx.to@ == user@ && minting_tx.amount == DEFAULT_TOKENS_AMOUNT,
            !(exists|i: int|
                0 <= i < self.known_communities@.len() && self.known_communities@[i].name@
                    == community_name@) ==> (r matches Err(e) && e.error_description@
                == "Invalid community"@),
            (exists|i: int|
                0 <= i < self.known_communities@.len() && self.known_communities@[i].name@
                    == community_name@) && !(minting_tx.from@ == self.genesis_wallet_address@
                && minting_tx.to@ == user@ && minting_tx.amount == DEFAULT_TOKENS_AMOUNT)
                ==> (r matches Err(e) && e.error_description@ == "Incorrect minting tx"@),
    {
        if self.find_known_index(community_name).is_none() {
            return Err(ErrorResponse::error("Invalid community"));
        }
        if !self.is_minting_transaction_correct(minting_tx, user) {
            return Err(ErrorResponse::error("Incorrect minting tx"));
        }
        Ok(())
    }

    /// The communities related to a user; currently the constant built-in
    /// list.
    pub fn related_communities(&self) -> (r: RelatedCommunitiesResponse)
        ensures
            r.communities@.len() == 1,
            r.communities@[0]@ == "TestCommunity"@,
    {
        let mut communities: Vec<String> = Vec::new();
        communities.push("TestCommunity".to_owned());
        RelatedCommunitiesResponse { communities }
    }

    /// The treasury wallet address the oracle mints from.
    pub fn genesis_wallet_address(&self) -> (r: Address)
        ensures
            r == self.genesis_wallet_address,
    {
        self.genesis_wallet_address
    }
}

} // verus!
