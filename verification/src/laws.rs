//! Global guarantees of the engine, stated and proved once over the spec
//! functions that the executable functions' contracts use.

use vstd::prelude::*;
use crate::engine::{subscription_active, tick_eligible, SUBSCRIPTION_PERIOD_SECS};
use crate::history::{
    best_tick_upto, burn_candidate, confirmed_at, has_matching_burn, lemma_best_tick_upto_max,
    last_confirmed_tick_spec, some_confirmed, transfer_candidate, EntryKind, HistoryEntry,
};
use crate::types::{Address, SubscriptionTx};
use crate::validator::tick_matches;

verus! {

broadcast use vstd::seq_lib::group_filter_ensures;

/// Pairing correctness: a history holding a succeeded transfer of the
/// subscription price whose recipient-side nonce is immediately followed by
/// a succeeded burn of the same price to the burn address always reconciles
/// to a confirmed tick, and the reconciled timestamp is never older than
/// that transfer's. When that transfer is the most recent confirmed one, the
/// reconciled timestamp is exactly its own.
pub proof fn lemma_pairing_correctness(
    h: Seq<HistoryEntry>,
    i: int,
    burn_address: Address,
    price: u64,
)
    requires
        confirmed_at(h, i, burn_address, price),
    ensures
        last_confirmed_tick_spec(h, burn_address, price) matches Some(t) && t
            >= h[i].created_at,
        (forall|j: int|
            confirmed_at(h, j, burn_address, price) ==> h[j].created_at <= h[i].created_at)
            ==> last_confirmed_tick_spec(h, burn_address, price) == Some(h[i].created_at),
{
    lemma_best_tick_upto_max(h, h.len() as int, burn_address, price);
}

/// A burn that did not happen in `h` does not start happening when an entry
/// that is no burn candidate is appended, and conversely.
proof fn lemma_push_burn_equiv(
    h: Seq<HistoryEntry>,
    e: HistoryEntry,
    to_nonce: u32,
    burn_address: Address,
    price: u64,
)
    requires
        !burn_candidate(e, burn_address, price),
    ensures
        has_matching_burn(h.push(e), to_nonce, burn_address, price) == has_matching_burn(
            h,
            to_nonce,
            burn_address,
            price,
        ),
{
    let h2 = h.push(e);
    if has_matching_burn(h2, to_nonce, burn_address, price) {
        let j = choose|j: int|
            0 <= j < h2.len() && burn_candidate(h2[j], burn_address, price) && h2[j].nonce
                == to_nonce + 1;
        assert(j < h.len()) by {
            if j == h.len() {
                assert(h2[j] == e);
            }
        }
        assert(h2[j] == h[j]);
        assert(has_matching_burn(h, to_nonce, burn_address, price));
    }
    if has_matching_burn(h, to_nonce, burn_address, price) {
        let j = choose|j: int|
            0 <= j < h.len() && burn_candidate(h[j], burn_address, price) && h[j].nonce
                == to_nonce + 1;
        assert(h2[j] == h[j]);
        assert(has_matching_burn(h2, to_nonce, burn_address, price));
    }
}

/// Appending an entry that can serve as neither leg of a tick leaves every
/// prefix reconciliation unchanged.
proof fn lemma_push_noncandidate_upto(
    h: Seq<HistoryEntry>,
    e: HistoryEntry,
    k: int,
    burn_address: Address,
    price: u64,
)
    requires
        !burn_candidate(e, burn_address, price),
        0 <= k <= h.len(),
    ensures
        best_tick_upto(h.push(e), k, burn_address, price) == best_tick_upto(
            h,
            k,
            burn_address,
            price,
        ),
    decreases k,
{
    let h2 = h.push(e);
    if k > 0 {
        lemma_push_noncandidate_upto(h, e, k - 1, burn_address, price);
        assert(h2[k - 1] == h[k - 1]);
        lemma_push_burn_equiv(h, e, h[k - 1].to_nonce, burn_address, price);
        assert(confirmed_at(h2, k - 1, burn_address, price) == confirmed_at(
            h,
            k - 1,
            burn_address,
            price,
        ));
    }
}

/// Failed-transaction exclusion: a failed ledger entry is never evidence of
/// payment. Appending any entry that did not succeed to a history leaves the
/// reconciled last confirmed tick exactly as it was; in particular a failed
/// transfer is never selected and a failed burn never confirms a transfer.
pub proof fn lemma_failed_entry_ignored(
    h: Seq<HistoryEntry>,
    e: HistoryEntry,
    burn_address: Address,
    price: u64,
)
    requires
        !e.succeeded,
    ensures
        last_confirmed_tick_spec(h.push(e), burn_address, price) == last_confirmed_tick_spec(
            h,
            burn_address,
            price,
        ),
{
    let h2 = h.push(e);
    lemma_push_noncandidate_upto(h, e, h.len() as int, burn_address, price);
    assert(h2[h2.len() - 1] == e);
    assert(!confirmed_at(h2, h2.len() - 1, burn_address, price));
    assert(best_tick_upto(h2, h2.len() as int, burn_address, price) == best_tick_upto(
        h2,
        h.len() as int,
        burn_address,
        price,
    ));
}

/// The entries of a ledger history that actually succeeded.
pub open spec fn succeeded_entry() -> spec_fn(HistoryEntry) -> bool {
    |e: HistoryEntry| e.succeeded
}

/// Every element of a filtered sequence occurs in the sequence itself.
proof fn lemma_filter_is_subset(h: Seq<HistoryEntry>, pred: spec_fn(HistoryEntry) -> bool)
    ensures
        forall|k: int|
            0 <= k < h.filter(pred).len() ==> exists|i: int|
                0 <= i < h.len() && h[i] == #[trigger] h.filter(pred)[k],
    decreases h.len(),
{
    reveal(Seq::filter);
    if h.len() > 0 {
        lemma_filter_is_subset(h.drop_last(), pred);
        let f = h.filter(pred);
        let fd = h.drop_last().filter(pred);
        assert forall|k: int| 0 <= k < f.len() implies exists|i: int|
            0 <= i < h.len() && h[i] == #[trigger] f[k] by {
            if pred(h.last()) && k == f.len() - 1 {
                assert(h[h.len() - 1] == f[k]);
            } else {
                assert(f[k] == fd[k]);
                let i = choose|i: int| 0 <= i < h.drop_last().len() && h.drop_last()[i] == fd[k];
                assert(h[i] == f[k]);
            }
        }
    }
}

/// Failed-transaction exclusion, in full: discarding every failed entry of
/// a history changes nothing about the reconciled last confirmed tick. A
/// pair with a failed leg is never selected, and a failed burn never
/// confirms a transfer; the reconciliation either returns `None` or falls
/// back to a pair whose both legs succeeded.
pub proof fn lemma_failed_entries_ignored(
    h: Seq<HistoryEntry>,
    burn_address: Address,
    price: u64,
)
    ensures
        last_confirmed_tick_spec(h.filter(succeeded_entry()), burn_address, price)
            == last_confirmed_tick_spec(h, burn_address, price),
{
    let pred = succeeded_entry();
    let f = h.filter(pred);
    lemma_filter_is_subset(h, pred);
    lemma_best_tick_upto_max(h, h.len() as int, burn_address, price);
    lemma_best_tick_upto_max(f, f.len() as int, burn_address, price);

    assert forall|n: u32|
        has_matching_burn(f, n, burn_address, price) == has_matching_burn(
            h,
            n,
            burn_address,
            price,
        ) by {
        if has_matching_burn(h, n, burn_address, price) {
            let j = choose|j: int|
                0 <= j < h.len() && burn_candidate(h[j], burn_address, price) && h[j].nonce == n
                    + 1;
            assert(pred(h[j]));
            assert(f.contains(h[j]));
            let k = choose|k: int| 0 <= k < f.len() && f[k] == h[j];
            assert(has_matching_burn(f, n, burn_address, price));
        }
        if has_matching_burn(f, n, burn_address, price) {
            let k = choose|k: int|
                0 <= k < f.len() && burn_candidate(f[k], burn_address, price) && f[k].nonce == n
                    + 1;
            let i = choose|i: int| 0 <= i < h.len() && h[i] == f[k];
            assert(has_matching_burn(h, n, burn_address, price));
        }
    }

    assert forall|i: int| confirmed_at(h, i, burn_address, price) implies some_confirmed(
        f,
        burn_address,
        price,
    ) && exists|k: int|
        confirmed_at(f, k, burn_address, price) && f[k].created_at == h[i].created_at by {
        assert(pred(h[i]));
        assert(f.contains(h[i]));
        let k = choose|k: int| 0 <= k < f.len() && f[k] == h[i];
        assert(confirmed_at(f, k, burn_address, price));
    }
    assert forall|k: int| confirmed_at(f, k, burn_address, price) implies some_confirmed(
        h,
        burn_address,
        price,
    ) && exists|i: int|
        confirmed_at(h, i, burn_address, price) && h[i].created_at == f[k].created_at by {
        let i = choose|i: int| 0 <= i < h.len() && h[i] == f[k];
        assert(confirmed_at(h, i, burn_address, price));
    }

    let rh = last_confirmed_tick_spec(h, burn_address, price);
    let rf = last_confirmed_tick_spec(f, burn_address, price);
    if some_confirmed(h, burn_address, price) {
        let t = rh->Some_0;
        let tf = rf->Some_0;
        assert(tf <= t && t <= tf);
    } else {
        assert(rf is None) by {
            if some_confirmed(f, burn_address, price) {
                let k = choose|k: int| confirmed_at(f, k, burn_address, price);
            }
        }
    }
}

/// Most-recent-wins: whenever two confirmed ticks carry different
/// timestamps, the reconciled timestamp is at least the later of the two; it
/// is never the strictly older one.
pub proof fn lemma_most_recent_wins(
    h: Seq<HistoryEntry>,
    i: int,
    j: int,
    burn_address: Address,
    price: u64,
)
    requires
        confirmed_at(h, i, burn_address, price),
        confirmed_at(h, j, burn_address, price),
        h[i].created_at < h[j].created_at,
    ensures
        last_confirmed_tick_spec(h, burn_address, price) matches Some(t) && t
            >= h[j].created_at && t > h[i].created_at,
        (forall|k: int|
            confirmed_at(h, k, burn_address, price) ==> h[k].created_at <= h[j].created_at)
            ==> last_confirmed_tick_spec(h, burn_address, price) == Some(h[j].created_at),
{
    lemma_best_tick_upto_max(h, h.len() as int, burn_address, price);
}

/// Window boundary: a subscription last renewed at `last_tick` is still
/// active exactly one period later, and no longer active one second after
/// that.
pub proof fn lemma_window_boundary(last_tick: u64)
    requires
        last_tick + SUBSCRIPTION_PERIOD_SECS + 1 <= u64::MAX,
    ensures
        subscription_active((last_tick + SUBSCRIPTION_PERIOD_SECS) as u64, last_tick),
        !subscription_active((last_tick + SUBSCRIPTION_PERIOD_SECS + 1) as u64, last_tick),
{
}

/// Two pre-signed ticks have disjoint validity windows when neither window
/// reaches the other.
pub open spec fn windows_disjoint(a: SubscriptionTx, b: SubscriptionTx) -> bool {
    a.transfer_to_sub.valid_until < b.transfer_to_sub.valid_from
        || b.transfer_to_sub.valid_until < a.transfer_to_sub.valid_from
}

/// Eligible-tick selection: when the pre-signed ticks carry pairwise
/// disjoint validity windows, at most one tick is eligible at any instant,
/// so the tick whose window contains `now` is the unique choice.
pub proof fn lemma_disjoint_windows_unique(txs: Seq<SubscriptionTx>, i: int, now: u64)
    requires
        forall|a: int, b: int|
            0 <= a < txs.len() && 0 <= b < txs.len() && a != b ==> windows_disjoint(
                txs[a],
                txs[b],
            ),
        0 <= i < txs.len(),
        tick_eligible(txs[i], now),
    ensures
        forall|j: int| 0 <= j < txs.len() && j != i ==> !tick_eligible(txs[j], now),
{
    assert forall|j: int| 0 <= j < txs.len() && j != i implies !tick_eligible(
        txs[j],
        now,
    ) by {
        assert(windows_disjoint(txs[i], txs[j]));
    }
}

/// The two ledger entries that one executed tick leaves in the subscription
/// wallet's history: its transfer leg and its burn leg, both succeeded,
/// recorded at the same timestamp.
pub open spec fn executed_tick_history(tx: SubscriptionTx, t: u64) -> Seq<HistoryEntry> {
    seq![
        HistoryEntry {
            kind: EntryKind::TransferFrom,
            from: tx.transfer_to_sub.from,
            to: tx.transfer_to_sub.to,
            amount: tx.transfer_to_sub.amount,
            nonce: tx.transfer_to_sub.nonce,
            to_nonce: tx.transfer_to_sub.to_nonce,
            succeeded: true,
            created_at: t,
        },
        HistoryEntry {
            kind: EntryKind::Transfer,
            from: tx.burn_tx.from,
            to: tx.burn_tx.to,
            amount: tx.burn_tx.amount,
            nonce: tx.burn_tx.nonce,
            to_nonce: 0,
            succeeded: true,
            created_at: t,
        },
    ]
}

/// Round trip: a tick that passes validation and is later executed by the
/// ledger reconciles back to itself — a history holding exactly its two
/// succeeded legs yields the tick's execution timestamp as the last
/// confirmed tick.
pub proof fn lemma_round_trip(
    tx: SubscriptionTx,
    wallet: Address,
    burn_address: Address,
    price: u64,
    t: u64,
)
    requires
        tick_matches(tx, wallet, burn_address, price),
    ensures
        last_confirmed_tick_spec(executed_tick_history(tx, t), burn_address, price) == Some(t),
{
    let h = executed_tick_history(tx, t);
    assert(burn_candidate(h[1], burn_address, price));
    assert(h[1].nonce == h[0].to_nonce + 1);
    assert(has_matching_burn(h, h[0].to_nonce, burn_address, price));
    assert(confirmed_at(h, 0, burn_address, price));
    assert(!transfer_candidate(h[1], price));
    assert(best_tick_upto(h, 0, burn_address, price) is None);
    assert(best_tick_upto(h, 1, burn_address, price) == Some(t));
    assert(best_tick_upto(h, 2, burn_address, price) == Some(t));
}

} // verus!
