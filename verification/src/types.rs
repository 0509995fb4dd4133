//! Data model of the subscription system: ledger addresses, the two-transaction
//! pairing that represents one paid period ("tick"), and the subscription
//! record owned on behalf of one (user, community) pair.

use vstd::prelude::*;

verus! {

/// Fixed-width ledger account identifier, compared by value.
#[derive(Clone, Copy, Debug, PartialEq, Eq, Hash)]
pub struct Address(pub [u8; 20]);

impl View for Address {
    type V = Seq<u8>;

    open spec fn view(&self) -> Seq<u8> {
        self.0@
    }
}

/// Byte-wise equality of two addresses.
pub fn addr_eq(a: &Address, b: &Address) -> (r: bool)
    ensures
        r == (a@ == b@),
{
    let mut i: usize = 0;
    while i < 20
        invariant
            0 <= i <= 20,
            forall|j: int| 0 <= j < i ==> a@[j] == b@[j],
        decreases 20 - i,
    {
        if a.0[i] != b.0[i] {
            assert(a@[i as int] != b@[i as int]);
            return false;
        }
        i = i + 1;
    }
    proof {
        assert(a@ =~= b@);
    }
    true
}

/// Relies on str's equality: two string slices are equal exactly when they
/// hold the same characters.
#[verifier::external_body]
pub(crate) fn str_eq(a: &str, b: &str) -> (r: bool)
    ensures
        r == (a@ == b@),
{
    a == b
}

/// A transfer from the service's treasury-adjacent account into a user's
/// dedicated subscription wallet. `to_nonce` is the nonce the recipient
/// wallet holds when this transfer executes; it is the pairing key that ties
/// the transfer to the burn that must immediately follow it.
#[derive(Clone, Copy, Debug)]
pub struct TransferFrom {
    pub from: Address,
    pub to: Address,
    pub amount: u64,
    pub nonce: u32,
    pub to_nonce: u32,
    pub valid_from: u64,
    pub valid_until: u64,
}

/// An ordinary transfer; used as the "burn" leg that moves the subscription
/// payment out of the subscription wallet to a designated sink address.
#[derive(Clone, Copy, Debug)]
pub struct Transfer {
    pub from: Address,
    pub to: Address,
    pub amount: u64,
    pub nonce: u32,
    pub valid_from: u64,
    pub valid_until: u64,
}

/// One subscription renewal period's payment proof: a transfer into the
/// subscription wallet paired with the burn that consumes it, plus the
/// pre-signed packed signature for the burn leg (an opaque 65-byte signed
/// payload; its authenticity is the ledger's responsibility).
#[derive(Clone, Copy, Debug)]
pub struct SubscriptionTx {
    pub transfer_to_sub: TransferFrom,
    pub burn_tx: Transfer,
    pub burn_tx_eth_signature: [u8; 65],
}

impl SubscriptionTx {
    /// The ledger-epoch timestamp from which this tick can be executed.
    pub fn valid_from(&self) -> (t: u64)
        ensures
            t == self.transfer_to_sub.valid_from,
    {
        self.transfer_to_sub.valid_from
    }

    /// The ledger-epoch timestamp after which this tick is no longer valid.
    pub fn valid_until(&self) -> (t: u64)
        ensures
            t == self.transfer_to_sub.valid_until,
    {
        self.transfer_to_sub.valid_until
    }
}

/// A community a user can subscribe to.
#[derive(Clone, Debug)]
pub struct Community {
    pub name: String,
    pub erc20_token_name: String,
    pub erc20_token_address: Address,
}

/// A subscription of one user to one community: the dedicated subscription
/// wallet and the ordered batch of pre-signed future ticks.
#[derive(Clone, Debug)]
pub struct Subscription {
    pub community_name: String,
    pub subscription_wallet: Address,
    pub pre_signed_txs: Vec<SubscriptionTx>,
}

impl Subscription {
    /// A fresh subscription record with no pre-signed ticks yet.
    pub fn new(community_name: String, subscription_wallet: Address) -> (s: Subscription)
        ensures
            s.community_name == community_name,
            s.subscription_wallet == subscription_wallet,
            s.pre_signed_txs@ == Seq::<SubscriptionTx>::empty(),
    {
        Subscription { community_name, subscription_wallet, pre_signed_txs: Vec::new() }
    }

    /// Appends freshly validated ticks to the pre-signed schedule; historical
    /// ticks are kept for audit.
    pub fn add_subscription_txs(&mut self, new_txs: Vec<SubscriptionTx>)
        ensures
            final(self).community_name == old(self).community_name,
            final(self).subscription_wallet == old(self).subscription_wallet,
            final(self).pre_signed_txs@ == old(self).pre_signed_txs@ + new_txs@,
    {
        let mut new_txs = new_txs;
        self.pre_signed_txs.append(&mut new_txs);
    }
}

/// Execution state of a transaction previously submitted to the ledger.
#[derive(Clone, Copy, Debug)]
pub struct OperationState {
    pub executed: bool,
    pub verified: bool,
}

} // verus!
