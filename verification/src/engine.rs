//! Subscription state engine: decides, from the timestamp of the last
//! confirmed tick and the ordered batch of not-yet-submitted pre-signed
//! ticks, whether a user is currently subscribed, which pre-signed tick is
//! eligible for automatic resubmission, and the displayed bounds of the
//! active period.

use vstd::prelude::*;
use crate::responses::SubscriptionCheckResponse;
use crate::types::{SubscriptionTx, Transfer, TransferFrom};

verus! {

/// Cost of one subscription period, in ledger token units.
pub const SUBSCRIPTION_COST: u64 = 100;

/// Length of one paid subscription period, in seconds: 31 days, deliberately
/// longer than the 30-day nominal period to give renewal slack against
/// irregular status-check cadence.
pub const SUBSCRIPTION_PERIOD_SECS: u64 = 31 * 86400;

/// A subscription whose last confirmed tick was at `last_tick` is still
/// active at `now` while no more than one period has elapsed since then
/// (the boundary instant itself included).
pub open spec fn subscription_active(now: u64, last_tick: u64) -> bool {
    now <= last_tick + SUBSCRIPTION_PERIOD_SECS
}

/// Whether the subscription last renewed at `last_tick` is still active at `now`.
pub fn check_subscription_status(now: u64, last_tick: u64) -> (active: bool)
    ensures
        active == subscription_active(now, last_tick),
{
    if now <= SUBSCRIPTION_PERIOD_SECS {
        true
    } else {
        last_tick >= now - SUBSCRIPTION_PERIOD_SECS
    }
}

/// A pre-signed tick is eligible for submission at `now` when its validity
/// window `[valid_from, valid_until]` contains `now`.
pub open spec fn tick_eligible(tx: SubscriptionTx, now: u64) -> bool {
    tx.transfer_to_sub.valid_from <= now <= tx.transfer_to_sub.valid_until
}

/// Whether the given pre-signed tick can be sent as the next subscription
/// renewal at `now`.
pub fn is_next_sub_tx(tx: &SubscriptionTx, now: u64) -> (r: bool)
    ensures
        r == tick_eligible(*tx, now),
{
    tx.transfer_to_sub.valid_from <= now && now <= tx.transfer_to_sub.valid_until
}

/// Picks the pre-signed tick eligible for submission at `now`.
///
/// Deterministic tie-break when several windows contain `now`: the earliest
/// `valid_from` wins, and among ticks sharing that `valid_from`, the first
/// in schedule order.
pub fn find_next_tick(txs: &Vec<SubscriptionTx>, now: u64) -> (r: Option<usize>)
    ensures
        r is Some <==> exists|i: int| 0 <= i < txs@.len() && tick_eligible(txs@[i], now),
        r matches Some(i) ==> {
            &&& 0 <= i < txs@.len()
            &&& tick_eligible(txs@[i as int], now)
            &&& forall|j: int|
                0 <= j < txs@.len() && tick_eligible(txs@[j], now)
                    ==> txs@[i as int].transfer_to_sub.valid_from
                    <= txs@[j].transfer_to_sub.valid_from
            &&& forall|j: int|
                0 <= j < i && tick_eligible(txs@[j], now)
                    ==> txs@[j].transfer_to_sub.valid_from
                    > txs@[i as int].transfer_to_sub.valid_from
        },
{
    let n = txs.len();
    let mut found: Option<usize> = None;
    let mut i: usize = 0;
    while i < n
        invariant
            0 <= i <= n,
            n == txs@.len(),
            found is Some <==> exists|k: int| 0 <= k < i && tick_eligible(txs@[k], now),
            found matches Some(b) ==> {
                &&& 0 <= b < i
                &&& tick_eligible(txs@[b as int], now)
                &&& forall|j: int|
                    0 <= j < i && tick_eligible(txs@[j], now)
                        ==> txs@[b as int].transfer_to_sub.valid_from
                        <= txs@[j].transfer_to_sub.valid_from
                &&& forall|j: int|
                    0 <= j < b && tick_eligible(txs@[j], now)
                        ==> txs@[j].transfer_to_sub.valid_from
                        > txs@[b as int].transfer_to_sub.valid_from
            },
        decreases n - i,
    {
        let tx = &txs[i];
        if tx.transfer_to_sub.valid_from <= now && now <= tx.transfer_to_sub.valid_until {
            found = match found {
                None => Some(i),
                Some(b) => if txs[i].transfer_to_sub.valid_from
                    < txs[b].transfer_to_sub.valid_from {
                    Some(i)
                } else {
                    Some(b)
                },
            };
        }
        i = i + 1;
    }
    found
}

/// The four states of a subscription at a status check.
#[derive(Clone, Copy, Debug, PartialEq, Eq, Structural)]
pub enum SubscriptionDecision {
    /// The wallet has no confirmed tick at all: report not subscribed, with
    /// no period bounds.
    NoHistory,
    /// The period opened by the last confirmed tick still covers `now`.
    Active,
    /// The period has lapsed but the pre-signed tick at this index of the
    /// schedule covers `now`: submit it and report the user as
    /// quasi-subscribed while the renewal is in flight.
    LapsedWithEligibleTick { tick_index: usize },
    /// The period has lapsed and no pre-signed tick covers `now`.
    LapsedNoEligibleTick,
}

impl SubscriptionDecision {
    /// Whether this decision reports the user as subscribed (the lapsed state
    /// with an eligible tick counts: the renewal is submitted immediately, and
    /// the user must see no gap across renewal boundaries).
    pub fn subscribed(&self) -> (r: bool)
        ensures
            r == (*self is Active || *self is LapsedWithEligibleTick),
    {
        match self {
            SubscriptionDecision::Active => true,
            SubscriptionDecision::LapsedWithEligibleTick { .. } => true,
            _ => false,
        }
    }
}

/// Decides the subscription state at `now` from the reconciler's result and
/// the pre-signed schedule. Pure: the caller performs the submission that a
/// `LapsedWithEligibleTick` decision calls for.
pub fn decide_subscription(
    last_tick: Option<u64>,
    txs: &Vec<SubscriptionTx>,
    now: u64,
) -> (d: SubscriptionDecision)
    ensures
        last_tick is None <==> d is NoHistory,
        last_tick matches Some(t) && subscription_active(now, t) <==> d is Active,
        d is LapsedWithEligibleTick || d is LapsedNoEligibleTick <==> (last_tick matches Some(t)
            && !subscription_active(now, t)),
        last_tick matches Some(t) && !subscription_active(now, t) ==> {
            &&& (d is LapsedWithEligibleTick <==> exists|i: int|
                0 <= i < txs@.len() && tick_eligible(txs@[i], now))
            &&& d matches SubscriptionDecision::LapsedWithEligibleTick { tick_index } ==> {
                &&& 0 <= tick_index < txs@.len()
                &&& tick_eligible(txs@[tick_index as int], now)
                &&& forall|j: int|
                    0 <= j < txs@.len() && tick_eligible(txs@[j], now)
                        ==> txs@[tick_index as int].transfer_to_sub.valid_from
                        <= txs@[j].transfer_to_sub.valid_from
                &&& forall|j: int|
                    0 <= j < tick_index && tick_eligible(txs@[j], now)
                        ==> txs@[j].transfer_to_sub.valid_from
                        > txs@[tick_index as int].transfer_to_sub.valid_from
            }
        },
{
    match last_tick {
        None => SubscriptionDecision::NoHistory,
        Some(t) => {
            if check_subscription_status(now, t) {
                SubscriptionDecision::Active
            } else {
                match find_next_tick(txs, now) {
                    Some(i) => SubscriptionDecision::LapsedWithEligibleTick { tick_index: i },
                    None => SubscriptionDecision::LapsedNoEligibleTick,
                }
            }
        },
    }
}

/// Relies on chrono::Utc::now: the current instant as a ledger-epoch
/// timestamp in seconds. Nothing is promised of the clock's value; callers
/// must hold for every reading.
#[verifier::external_body]
fn current_timestamp() -> u64 {
    chrono::Utc::now().timestamp() as u64
}

/// Reads the clock and decides the subscription state at that instant: the
/// returned decision relates to the returned timestamp exactly as
/// [`decide_subscription`] relates to its `now` argument, whatever the
/// clock returned. The caller performs the submission that a
/// `LapsedWithEligibleTick` decision calls for, and reports the user as
/// subscribed in the `Active` and `LapsedWithEligibleTick` states.
pub fn is_user_subscribed(last_tick: Option<u64>, txs: &Vec<SubscriptionTx>) -> (r: (
    u64,
    SubscriptionDecision,
))
    ensures
        last_tick is None <==> r.1 is NoHistory,
        last_tick matches Some(t) && subscription_active(r.0, t) <==> r.1 is Active,
        r.1 is LapsedWithEligibleTick || r.1 is LapsedNoEligibleTick <==> (last_tick matches Some(
            t,
        ) && !subscription_active(r.0, t)),
        last_tick matches Some(t) && !subscription_active(r.0, t) ==> {
            &&& (r.1 is LapsedWithEligibleTick <==> exists|i: int|
                0 <= i < txs@.len() && tick_eligible(txs@[i], r.0))
            &&& r.1 matches SubscriptionDecision::LapsedWithEligibleTick { tick_index } ==> {
                &&& 0 <= tick_index < txs@.len()
                &&& tick_eligible(txs@[tick_index as int], r.0)
                &&& forall|j: int|
                    0 <= j < txs@.len() && tick_eligible(txs@[j], r.0)
                        ==> txs@[tick_index as int].transfer_to_sub.valid_from
                        <= txs@[j].transfer_to_sub.valid_from
                &&& forall|j: int|
                    0 <= j < tick_index && tick_eligible(txs@[j], r.0)
                        ==> txs@[j].transfer_to_sub.valid_from
                        > txs@[tick_index as int].transfer_to_sub.valid_from
            }
        },
{
    let now = current_timestamp();
    let d = decide_subscription(last_tick, txs, now);
    (now, d)
}

/// The displayed bounds of the subscription period: it starts with the
/// earliest pre-signed tick and expires one period after the latest one
/// becomes valid (the bounds reflect the full pre-signed schedule, not just
/// the last confirmed tick). Both are `None` for an empty schedule.
pub fn get_subscription_period(txs: &Vec<SubscriptionTx>) -> (r: (Option<u64>, Option<u64>))
    requires
        forall|i: int|
            0 <= i < txs@.len() ==> txs@[i].transfer_to_sub.valid_from + SUBSCRIPTION_PERIOD_SECS
                <= u64::MAX,
    ensures
        r.0 is Some <==> txs@.len() > 0,
        r.1 is Some <==> txs@.len() > 0,
        r.0 matches Some(s) ==> (exists|i: int|
            0 <= i < txs@.len() && txs@[i].transfer_to_sub.valid_from == s) && (forall|j: int|
            0 <= j < txs@.len() ==> s <= txs@[j].transfer_to_sub.valid_from),
        r.1 matches Some(e) ==> (exists|i: int|
            0 <= i < txs@.len() && txs@[i].transfer_to_sub.valid_from + SUBSCRIPTION_PERIOD_SECS
                == e) && (forall|j: int|
            0 <= j < txs@.len() ==> txs@[j].transfer_to_sub.valid_from + SUBSCRIPTION_PERIOD_SECS
                <= e),
{
    let n = txs.len();
    if n == 0 {
        return (None, None);
    }
    let mut min_from: u64 = txs[0].transfer_to_sub.valid_from;
    let mut max_from: u64 = txs[0].transfer_to_sub.valid_from;
    let mut i: usize = 1;
    while i < n
        invariant
            1 <= i <= n,
            n == txs@.len(),
            exists|k: int| 0 <= k < i && txs@[k].transfer_to_sub.valid_from == min_from,
            forall|j: int| 0 <= j < i ==> min_from <= txs@[j].transfer_to_sub.valid_from,
            exists|k: int| 0 <= k < i && txs@[k].transfer_to_sub.valid_from == max_from,
            forall|j: int| 0 <= j < i ==> txs@[j].transfer_to_sub.valid_from <= max_from,
        decreases n - i,
    {
        let f = txs[i].transfer_to_sub.valid_from;
        if f < min_from {
            min_from = f;
        }
        if f > max_from {
            max_from = f;
        }
        i = i + 1;
    }
    assert(exists|k: int|
        0 <= k < n && txs@[k].transfer_to_sub.valid_from + SUBSCRIPTION_PERIOD_SECS == max_from
            + SUBSCRIPTION_PERIOD_SECS);
    (Some(min_from), Some(max_from + SUBSCRIPTION_PERIOD_SECS))
}

/// Builds the externally reported view of a subscription from the decided
/// state: not subscribed and without period bounds when the wallet has no
/// history at all; otherwise subscribed exactly in the active and
/// quasi-subscribed states, with the period bounds of the full pre-signed
/// schedule.
pub fn subscription_check_response(
    d: &SubscriptionDecision,
    txs: &Vec<SubscriptionTx>,
) -> (r: SubscriptionCheckResponse)
    requires
        forall|i: int|
            0 <= i < txs@.len() ==> txs@[i].transfer_to_sub.valid_from + SUBSCRIPTION_PERIOD_SECS
                <= u64::MAX,
    ensures
        r.subscribed == (*d is Active || *d is LapsedWithEligibleTick),
        *d is NoHistory ==> r.started_at is None && r.expires_at is None,
        !(*d is NoHistory) ==> {
            &&& (r.started_at is Some <==> txs@.len() > 0)
            &&& (r.expires_at is Some <==> txs@.len() > 0)
            &&& r.started_at matches Some(s) ==> (exists|i: int|
                0 <= i < txs@.len() && txs@[i].transfer_to_sub.valid_from == s) && (forall|
                j: int,
            |
                0 <= j < txs@.len() ==> s <= txs@[j].transfer_to_sub.valid_from)
            &&& r.expires_at matches Some(e) ==> (exists|i: int|
                0 <= i < txs@.len() && txs@[i].transfer_to_sub.valid_from
                    + SUBSCRIPTION_PERIOD_SECS == e) && (forall|j: int|
                0 <= j < txs@.len() ==> txs@[j].transfer_to_sub.valid_from
                    + SUBSCRIPTION_PERIOD_SECS <= e)
        },
{
    let subscribed = d.subscribed();
    match d {
        SubscriptionDecision::NoHistory => SubscriptionCheckResponse {
            subscribed,
            started_at: None,
            expires_at: None,
        },
        _ => {
            let (started_at, expires_at) = get_subscription_period(txs);
            SubscriptionCheckResponse { subscribed, started_at, expires_at }
        },
    }
}

/// One transaction of a submission batch, as the ledger's RPC interface
/// takes them.
#[derive(Clone, Copy, Debug)]
pub enum LedgerTx {
    TransferFrom(TransferFrom),
    Transfer(Transfer),
}

/// A transaction paired with its optional accompanying packed signature, as
/// submitted to the ledger's RPC interface.
#[derive(Clone, Copy, Debug)]
pub struct TxWithSignature {
    pub tx: LedgerTx,
    pub signature: Option<[u8; 65]>,
}

/// Lays out one tick as the ordered batch the ledger submission interface
/// expects: the transfer into the subscription wallet first (no
/// accompanying signature), then the burn with its pre-signed signature.
pub fn submission_batch(tx: &SubscriptionTx) -> (batch: Vec<TxWithSignature>)
    ensures
        batch@.len() == 2,
        batch@[0].tx matches LedgerTx::TransferFrom(t) && t == tx.transfer_to_sub,
        batch@[0].signature is None,
        batch@[1].tx matches LedgerTx::Transfer(t) && t == tx.burn_tx,
        batch@[1].signature matches Some(s) && s@ == tx.burn_tx_eth_signature@,
{
    let mut batch: Vec<TxWithSignature> = Vec::new();
    batch.push(
        TxWithSignature { tx: LedgerTx::TransferFrom(tx.transfer_to_sub), signature: None },
    );
    batch.push(
        TxWithSignature {
            tx: LedgerTx::Transfer(tx.burn_tx),
            signature: Some(tx.burn_tx_eth_signature),
        },
    );
    batch
}

} // verus!
