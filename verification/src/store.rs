//! In-memory persistence for communities and subscriptions, keyed by
//! community name and by (user address, community name).
//!
//! Lookups resolve to the first matching entry; `declare_community` replaces
//! an existing entry of the same name, so names stay unique when the store
//! is driven through this interface.

use vstd::prelude::*;
use crate::types::{addr_eq, str_eq, Address, Community, Subscription};

verus! {

/// Failure of a store operation.
#[derive(Clone, Copy, Debug, PartialEq, Eq, Structural)]
pub enum MemoryDbError {
    /// No subscription of this user to this community exists.
    UserIsNotSubscribed,
}

/// All subscriptions of one user.
#[derive(Clone, Debug)]
pub struct UserSubscriptions {
    pub address: Address,
    pub subs: Vec<Subscription>,
}

/// The in-memory data store.
#[derive(Debug)]
pub struct MemoryDb {
    pub communities: Vec<Community>,
    pub subscriptions: Vec<UserSubscriptions>,
}

/// Two subscription records carry the same data (their pre-signed schedules
/// are compared element for element).
pub open spec fn sub_equiv(a: Subscription, b: Subscription) -> bool {
    &&& a.community_name == b.community_name
    &&& a.subscription_wallet == b.subscription_wallet
    &&& a.pre_signed_txs@ == b.pre_signed_txs@
}

/// Field-for-field copy of a community record.
fn clone_community(c: &Community) -> (r: Community)
    ensures
        r == *c,
{
    Community {
        name: c.name.clone(),
        erc20_token_name: c.erc20_token_name.clone(),
        erc20_token_address: c.erc20_token_address,
    }
}

/// Field-for-field copy of a subscription record.
fn clone_subscription(s: &Subscription) -> (r: Subscription)
    ensures
        sub_equiv(r, *s),
{
    Subscription {
        community_name: s.community_name.clone(),
        subscription_wallet: s.subscription_wallet,
        pre_signed_txs: s.pre_signed_txs.clone(),
    }
}

impl MemoryDb {
    /// A fresh, empty store.
    pub fn init() -> (db: MemoryDb)
        ensures
            db.communities@.len() == 0,
            db.subscriptions@.len() == 0,
    {
        MemoryDb { communities: Vec::new(), subscriptions: Vec::new() }
    }

    /// The position of the first community with this name.
    fn find_community_index(&self, community_name: &str) -> (r: Option<usize>)
        ensures
            r is Some <==> exists|i: int|
                0 <= i < self.communities@.len() && self.communities@[i].name@
                    == community_name@,
            r matches Some(i) ==> 0 <= i < self.communities@.len()
                && self.communities@[i as int].name@ == community_name@ && (forall|j: int|
                0 <= j < i ==> self.communities@[j].name@ != community_name@),
    {
        let n = self.communities.len();
        let mut i: usize = 0;
        while i < n
            invariant
                0 <= i <= n,
                n == self.communities@.len(),
                forall|j: int| 0 <= j < i ==> self.communities@[j].name@ != community_name@,
            decreases n - i,
        {
            if str_eq(self.communities[i].name.as_str(), community_name) {
                return Some(i);
            }
            i = i + 1;
        }
        None
    }

    /// Registers a community: replaces the first existing entry of the same
    /// name, else appends. Subscriptions are untouched.
    pub fn declare_community(&mut self, community: Community)
        ensures
            final(self).subscriptions == old(self).subscriptions,
            (exists|i: int|
                0 <= i < old(self).communities@.len() && old(self).communities@[i].name@
                    == community.name@) ==> (exists|i: int|
                0 <= i < old(self).communities@.len() && old(self).communities@[i].name@
                    == community.name@ && (forall|j: int|
                    0 <= j < i ==> old(self).communities@[j].name@ != community.name@)
                    && final(self).communities@ == old(self).communities@.update(i, community)),
            !(exists|i: int|
                0 <= i < old(self).communities@.len() && old(self).communities@[i].name@
                    == community.name@) ==> final(self).communities@ == old(self).communities@.push(community),
    {
        match self.find_community_index(community.name.as_str()) {
            Some(i) => {
                self.communities[i] = community;
            },
            None => {
                self.communities.push(community);
            },
        }
    }

    /// Looks up a community by name: the first entry of that name, if any.
    pub fn get_community(&self, community_name: &str) -> (r: Option<Community>)
        ensures
            r is Some <==> exists|i: int|
                0 <= i < self.communities@.len() && self.communities@[i].name@
                    == community_name@,
            r matches Some(c) ==> exists|i: int|
                0 <= i < self.communities@.len() && self.communities@[i].name@
                    == community_name@ && (forall|j: int|
                    0 <= j < i ==> self.communities@[j].name@ != community_name@) && c
                    == self.communities@[i],
    {
        match self.find_community_index(community_name) {
            Some(i) => Some(clone_community(&self.communities[i])),
            None => None,
        }
    }

    /// The position of the first entry holding this user's subscriptions.
    fn find_user_index(&self, address: &Address) -> (r: Option<usize>)
        ensures
            r is Some <==> exists|i: int|
                0 <= i < self.subscriptions@.len() && self.subscriptions@[i].address@
                    == address@,
            r matches Some(i) ==> 0 <= i < self.subscriptions@.len()
                && self.subscriptions@[i as int].address@ == address@ && (forall|j: int|
                0 <= j < i ==> self.subscriptions@[j].address@ != address@),
    {
        let n = self.subscriptions.len();
        let mut i: usize = 0;
        while i < n
            invariant
                0 <= i <= n,
                n == self.subscriptions@.len(),
                forall|j: int| 0 <= j < i ==> self.subscriptions@[j].address@ != address@,
            decreases n - i,
        {
            if addr_eq(&self.subscriptions[i].address, address) {
                return Some(i);
            }
            i = i + 1;
        }
        None
    }

    /// Records a subscription for a user, appending to the user's existing
    /// records or opening a fresh entry for a new user. Communities are
    /// untouched.
    pub fn add_subscription(&mut self, address: Address, subscription: Subscription)
        ensures
            final(self).communities == old(self).communities,
            (exists|i: int|
                0 <= i < old(self).subscriptions@.len() && old(self).subscriptions@[i].address@
                    == address@) ==> (exists|i: int|
                {
                    &&& 0 <= i < old(self).subscriptions@.len()
                    &&& old(self).subscriptions@[i].address@ == address@
                    &&& (forall|j: int|
                        0 <= j < i ==> old(self).subscriptions@[j].address@ != address@)
                    &&& final(self).subscriptions@.len() == old(self).subscriptions@.len()
                    &&& (forall|k: int|
                        0 <= k < old(self).subscriptions@.len() && k != i ==> final(self).subscriptions@[k] == old(self).subscriptions@[k])
                    &&& final(self).subscriptions@[i].address == old(self).subscriptions@[i].address
                    &&& final(self).subscriptions@[i].subs@ == old(self).subscriptions@[i].subs@.push(subscription)
                }),
            !(exists|i: int|
                0 <= i < old(self).subscriptions@.len() && old(self).subscriptions@[i].address@
                    == address@) ==> {
                &&& final(self).subscriptions@.len() == old(self).subscriptions@.len() + 1
                &&& (forall|k: int|
                    0 <= k < old(self).subscriptions@.len() ==> final(self).subscriptions@[k]
                        == old(self).subscriptions@[k])
                &&& final(self).subscriptions@.last().address == address
                &&& final(self).subscriptions@.last().subs@ =~= seq![subscription]
            },
    {
        match self.find_user_index(&address) {
            Some(i) => {
                let mut entry = self.subscriptions.remove(i);
                entry.subs.push(subscription);
                self.subscriptions.insert(i, entry);
                proof {
                    assert(forall|k: int|
                        0 <= k < old(self).subscriptions@.len() && k != i ==> final(self).subscriptions@[k] == old(self).subscriptions@[k]);
                }
            },
            None => {
                self.subscriptions.push(UserSubscriptions { address, subs: vec![subscription] });
            },
        }
    }

    /// All subscription records of one user; empty for an unknown user.
    pub fn get_user_subscriptions(&self, address: &Address) -> (r: Vec<Subscription>)
        ensures
            !(exists|i: int|
                0 <= i < self.subscriptions@.len() && self.subscriptions@[i].address@
                    == address@) ==> r@.len() == 0,
            (exists|i: int|
                0 <= i < self.subscriptions@.len() && self.subscriptions@[i].address@
                    == address@) ==> (exists|i: int|
                {
                    &&& 0 <= i < self.subscriptions@.len()
                    &&& self.subscriptions@[i].address@ == address@
                    &&& (forall|j: int|
                        0 <= j < i ==> self.subscriptions@[j].address@ != address@)
                    &&& r@.len() == self.subscriptions@[i].subs@.len()
                    &&& (forall|k: int|
                        0 <= k < r@.len() ==> sub_equiv(r@[k], self.subscriptions@[i].subs@[k]))
                }),
    {
        match self.find_user_index(address) {
            Some(i) => {
                let subs = &self.subscriptions[i].subs;
                let n = subs.len();
                let mut out: Vec<Subscription> = Vec::new();
                let mut k: usize = 0;
                while k < n
                    invariant
                        0 <= k <= n,
                        n == subs@.len(),
                        out@.len() == k,
                        forall|m: int| 0 <= m < k ==> sub_equiv(out@[m], subs@[m]),
                    decreases n - k,
                {
                    out.push(clone_subscription(&subs[k]));
                    k = k + 1;
                }
                out
            },
            None => Vec::new(),
        }
    }

    /// The position of the first subscription to this community in a user's
    /// records.
    fn find_subscription_index(subs: &Vec<Subscription>, community: &str) -> (r: Option<usize>)
        ensures
            r is Some <==> exists|j: int|
                0 <= j < subs@.len() && subs@[j].community_name@ == community@,
            r matches Some(j) ==> 0 <= j < subs@.len() && subs@[j as int].community_name@
                == community@ && (forall|m: int|
                0 <= m < j ==> subs@[m].community_name@ != community@),
    {
        let n = subs.len();
        let mut j: usize = 0;
        while j < n
            invariant
                0 <= j <= n,
                n == subs@.len(),
                forall|m: int| 0 <= m < j ==> subs@[m].community_name@ != community@,
            decreases n - j,
        {
            if str_eq(subs[j].community_name.as_str(), community) {
                return Some(j);
            }
            j = j + 1;
        }
        None
    }

    /// Looks up one user's subscription to one community: the first matching
    /// record, if any.
    pub fn get_subscription(&self, address: &Address, community: &str) -> (r: Option<
        Subscription,
    >)
        ensures
            r is Some <==> exists|i: int, j: int|
                {
                    &&& 0 <= i < self.subscriptions@.len()
                    &&& self.subscriptions@[i].address@ == address@
                    &&& (forall|m: int|
                        0 <= m < i ==> self.subscriptions@[m].address@ != address@)
                    &&& 0 <= j < self.subscriptions@[i].subs@.len()
                    &&& self.subscriptions@[i].subs@[j].community_name@ == community@
                },
            r matches Some(sub) ==> exists|i: int, j: int|
                {
                    &&& 0 <= i < self.subscriptions@.len()
                    &&& self.subscriptions@[i].address@ == address@
                    &&& (forall|m: int|
                        0 <= m < i ==> self.subscriptions@[m].address@ != address@)
                    &&& 0 <= j < self.subscriptions@[i].subs@.len()
                    &&& self.subscriptions@[i].subs@[j].community_name@ == community@
                    &&& (forall|m: int|
                        0 <= m < j ==> self.subscriptions@[i].subs@[m].community_name@
                            != community@)
                    &&& sub_equiv(sub, self.subscriptions@[i].subs@[j])
                },
    {
        match self.find_user_index(address) {
            Some(i) => {
                match Self::find_subscription_index(&self.subscriptions[i].subs, community) {
                    Some(j) => Some(clone_subscription(&self.subscriptions[i].subs[j])),
                    None => None,
                }
            },
            None => None,
        }
    }

    /// Appends freshly validated pre-signed ticks to one user's subscription
    /// to one community. Fails, changing nothing, when no such subscription
    /// exists.
    pub fn add_subscription_txs(
        &mut self,
        address: &Address,
        community: &str,
        txs: Vec<crate::types::SubscriptionTx>,
    ) -> (r: Result<(), MemoryDbError>)
        ensures
            r is Ok <==> exists|i: int, j: int|
                {
                    &&& 0 <= i < old(self).subscriptions@.len()
                    &&& old(self).subscriptions@[i].address@ == address@
                    &&& (forall|m: int|
                        0 <= m < i ==> old(self).subscriptions@[m].address@ != address@)
                    &&& 0 <= j < old(self).subscriptions@[i].subs@.len()
                    &&& old(self).subscriptions@[i].subs@[j].community_name@ == community@
                },
            r matches Err(e) ==> e == MemoryDbError::UserIsNotSubscribed && *final(self) == *old(self),
            r is Ok ==> final(self).communities == old(self).communities && (exists|
                i: int,
                j: int,
            |
                {
                    &&& 0 <= i < old(self).subscriptions@.len()
                    &&& old(self).subscriptions@[i].address@ == address@
                    &&& (forall|m: int|
                        0 <= m < i ==> old(self).subscriptions@[m].address@ != address@)
                    &&& 0 <= j < old(self).subscriptions@[i].subs@.len()
                    &&& old(self).subscriptions@[i].subs@[j].community_name@ == community@
                    &&& (forall|m: int|
                        0 <= m < j ==> old(self).subscriptions@[i].subs@[m].community_name@
                            != community@)
                    &&& final(self).subscriptions@.len() == old(self).subscriptions@.len()
                    &&& (forall|k: int|
                        0 <= k < old(self).subscriptions@.len() && k != i ==> final(self).subscriptions@[k] == old(self).subscriptions@[k])
                    &&& final(self).subscriptions@[i].address == old(self).subscriptions@[i].address
                    &&& final(self).subscriptions@[i].subs@.len() == old(self).subscriptions@[i].subs@.len()
                    &&& (forall|m: int|
                        0 <= m < old(self).subscriptions@[i].subs@.len() && m != j ==> final(self).subscriptions@[i].subs@[m] == old(self).subscriptions@[i].subs@[m])
                    &&& final(self).subscriptions@[i].subs@[j].community_name == old(self).subscriptions@[i].subs@[j].community_name
                    &&& final(self).subscriptions@[i].subs@[j].subscription_wallet == old(self).subscriptions@[i].subs@[j].subscription_wallet
                    &&& final(self).subscriptions@[i].subs@[j].pre_signed_txs@ == old(self).subscriptions@[i].subs@[j].pre_signed_txs@ + txs@
                }),
    {
        let i = match self.find_user_index(address) {
            Some(i) => i,
            None => {
                return Err(MemoryDbError::UserIsNotSubscribed);
            },
        };
        let j = match Self::find_subscription_index(&self.subscriptions[i].subs, community) {
            Some(j) => j,
            None => {
                return Err(MemoryDbError::UserIsNotSubscribed);
            },
        };
        let mut entry = self.subscriptions.remove(i);
        let mut sub = entry.subs.remove(j);
        sub.add_subscription_txs(txs);
        entry.subs.insert(j, sub);
        self.subscriptions.insert(i, entry);
        Ok(())
    }
}

} // verus!
