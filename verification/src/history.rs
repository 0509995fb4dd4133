//! History reconciler: reconstructs, from the raw transaction history of a
//! subscription wallet, the timestamp of the most recent confirmed tick.
//!
//! A tick is confirmed by a succeeded `TransferFrom` of the subscription
//! price whose recipient-side nonce is immediately followed by a succeeded
//! burn `Transfer` of the same price to the burn address. Nonce adjacency is
//! the pairing key: ledger timestamps are not strictly ordered under
//! concurrent submission, while nonces on one account are strictly
//! sequential.

use vstd::prelude::*;
use crate::types::{addr_eq, Address};

verus! {

/// Kind of a decoded history entry, selected by the raw entry's `txId`.
#[derive(Clone, Copy, Debug, PartialEq, Eq, Structural)]
pub enum EntryKind {
    /// A transfer from the treasury-adjacent account into a wallet.
    TransferFrom,
    /// An ordinary transfer out of a wallet.
    Transfer,
    /// Any other ledger operation; never part of a tick.
    Other,
}

/// One decoded ledger transaction from an address's history. The payload
/// fields are meaningful according to `kind`: a `TransferFrom` carries
/// `to_nonce`, the recipient wallet's nonce at execution; a `Transfer`
/// carries its own account `nonce`. Entries are fetched fresh per query and
/// never cached across calls.
#[derive(Clone, Copy, Debug)]
pub struct HistoryEntry {
    pub kind: EntryKind,
    pub from: Address,
    pub to: Address,
    pub amount: u64,
    pub nonce: u32,
    pub to_nonce: u32,
    pub succeeded: bool,
    pub created_at: u64,
}

/// A succeeded inbound transfer of exactly the subscription price: a
/// candidate first leg of a tick.
pub open spec fn transfer_candidate(e: HistoryEntry, price: u64) -> bool {
    &&& e.kind == EntryKind::TransferFrom
    &&& e.succeeded
    &&& e.amount == price
}

/// A succeeded burn of exactly the subscription price to the burn address:
/// a candidate second leg of a tick.
pub open spec fn burn_candidate(e: HistoryEntry, burn_address: Address, price: u64) -> bool {
    &&& e.kind == EntryKind::Transfer
    &&& e.succeeded
    &&& e.to@ == burn_address@
    &&& e.amount == price
}

/// Whether the history holds a burn candidate whose nonce immediately
/// follows `to_nonce`, i.e. the burn that proves the transfer with that
/// recipient-side nonce was consumed for a subscription period.
pub open spec fn has_matching_burn(
    h: Seq<HistoryEntry>,
    to_nonce: u32,
    burn_address: Address,
    price: u64,
) -> bool {
    exists|j: int|
        0 <= j < h.len() && burn_candidate(h[j], burn_address, price) && h[j].nonce == to_nonce
            + 1
}

/// The entry at index `i` is a confirmed tick: a transfer candidate paired,
/// by nonce adjacency, with some burn candidate anywhere in the history.
pub open spec fn confirmed_at(
    h: Seq<HistoryEntry>,
    i: int,
    burn_address: Address,
    price: u64,
) -> bool {
    &&& 0 <= i < h.len()
    &&& transfer_candidate(h[i], price)
    &&& has_matching_burn(h, h[i].to_nonce, burn_address, price)
}

/// Whether any confirmed tick exists in the history.
pub open spec fn some_confirmed(h: Seq<HistoryEntry>, burn_address: Address, price: u64) -> bool {
    exists|i: int| confirmed_at(h, i, burn_address, price)
}

/// The timestamp of the most recent confirmed tick among the first `k`
/// entries (burns are matched against the whole history).
pub open spec fn best_tick_upto(
    h: Seq<HistoryEntry>,
    k: int,
    burn_address: Address,
    price: u64,
) -> Option<u64>
    decreases k,
{
    if k <= 0 {
        None
    } else {
        let prev = best_tick_upto(h, k - 1, burn_address, price);
        if confirmed_at(h, k - 1, burn_address, price) {
            match prev {
                None => Some(h[k - 1].created_at),
                Some(t) => if h[k - 1].created_at > t {
                    Some(h[k - 1].created_at)
                } else {
                    Some(t)
                },
            }
        } else {
            prev
        }
    }
}

/// The timestamp of the most recent confirmed tick in the whole history, or
/// `None` when the wallet has never had a confirmed tick.
pub open spec fn last_confirmed_tick_spec(
    h: Seq<HistoryEntry>,
    burn_address: Address,
    price: u64,
) -> Option<u64> {
    best_tick_upto(h, h.len() as int, burn_address, price)
}

/// `best_tick_upto` is exactly the maximum `created_at` over the confirmed
/// ticks among the first `k` entries, and is `Some` exactly when one exists.
pub proof fn lemma_best_tick_upto_max(
    h: Seq<HistoryEntry>,
    k: int,
    burn_address: Address,
    price: u64,
)
    requires
        0 <= k <= h.len(),
    ensures
        best_tick_upto(h, k, burn_address, price) is Some <==> exists|i: int|
            0 <= i < k && confirmed_at(h, i, burn_address, price),
        best_tick_upto(h, k, burn_address, price) matches Some(t) ==> (exists|i: int|
            0 <= i < k && confirmed_at(h, i, burn_address, price) && h[i].created_at == t)
            && (forall|j: int|
            0 <= j < k && confirmed_at(h, j, burn_address, price) ==> h[j].created_at <= t),
    decreases k,
{
    if k > 0 {
        lemma_best_tick_upto_max(h, k - 1, burn_address, price);
    }
}

/// Scans the burn candidates for one whose nonce immediately follows
/// `to_nonce`.
fn find_matching_burn(
    history: &Vec<HistoryEntry>,
    to_nonce: u32,
    burn_address: &Address,
    price: u64,
) -> (r: bool)
    ensures
        r == has_matching_burn(history@, to_nonce, *burn_address, price),
{
    let n = history.len();
    let mut j: usize = 0;
    while j < n
        invariant
            0 <= j <= n,
            n == history@.len(),
            forall|m: int|
                0 <= m < j ==> !(burn_candidate(history@[m], *burn_address, price)
                    && history@[m].nonce == to_nonce + 1),
        decreases n - j,
    {
        let e = &history[j];
        if e.succeeded && matches!(e.kind, EntryKind::Transfer) && e.amount == price
            && addr_eq(&e.to, burn_address) && e.nonce as u64 == to_nonce as u64 + 1 {
            return true;
        }
        j = j + 1;
    }
    false
}

/// Reconstructs the timestamp of the most recent confirmed tick on a
/// subscription wallet from its raw (already decoded) transaction history.
///
/// Failed transactions never count as evidence of payment: both legs of a
/// pair must have succeeded. Among the confirmed ticks, the most recent
/// `created_at` wins; ties on the timestamp return that same timestamp, so
/// the result is deterministic over any enumeration order of the history.
/// `None` means the wallet has no confirmed tick at all: never subscribed,
/// or a renewal confirmation still pending.
pub fn last_confirmed_tick(
    history: &Vec<HistoryEntry>,
    burn_address: &Address,
    price: u64,
) -> (r: Option<u64>)
    ensures
        r == last_confirmed_tick_spec(history@, *burn_address, price),
        r is Some <==> some_confirmed(history@, *burn_address, price),
        r matches Some(t) ==> (exists|i: int|
            confirmed_at(history@, i, *burn_address, price) && history@[i].created_at == t)
            && (forall|j: int|
            confirmed_at(history@, j, *burn_address, price) ==> history@[j].created_at <= t),
{
    let n = history.len();
    let mut best: Option<u64> = None;
    let mut i: usize = 0;
    while i < n
        invariant
            0 <= i <= n,
            n == history@.len(),
            best == best_tick_upto(history@, i as int, *burn_address, price),
        decreases n - i,
    {
        let e = &history[i];
        if e.succeeded && matches!(e.kind, EntryKind::TransferFrom) && e.amount == price {
            if find_matching_burn(history, e.to_nonce, burn_address, price) {
                best = match best {
                    None => Some(e.created_at),
                    Some(t) => if e.created_at > t {
                        Some(e.created_at)
                    } else {
                        Some(t)
                    },
                };
            }
        }
        i = i + 1;
    }
    proof {
        lemma_best_tick_upto_max(history@, n as int, *burn_address, price);
        if some_confirmed(history@, *burn_address, price) {
            let i0 = choose|i0: int| confirmed_at(history@, i0, *burn_address, price);
            assert(0 <= i0 < n);
        }
    }
    best
}

} // verus!
