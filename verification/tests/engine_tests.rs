use service_provider::engine::{
    check_subscription_status, decide_subscription, find_next_tick, get_subscription_period,
    is_next_sub_tx, is_user_subscribed, submission_batch, subscription_check_response, LedgerTx,
    SubscriptionDecision, SUBSCRIPTION_COST, SUBSCRIPTION_PERIOD_SECS,
};
use service_provider::history::{last_confirmed_tick, EntryKind, HistoryEntry};
use service_provider::types::{Address, SubscriptionTx, Transfer, TransferFrom};
use service_provider::validator::check_subscription_tx;

fn tick_with_window(valid_from: u64, valid_until: u64) -> SubscriptionTx {
    SubscriptionTx {
        transfer_to_sub: TransferFrom {
            from: Address([3; 20]),
            to: Address([1; 20]),
            amount: SUBSCRIPTION_COST,
            nonce: 0,
            to_nonce: 5,
            valid_from,
            valid_until,
        },
        burn_tx: Transfer {
            from: Address([1; 20]),
            to: Address([2; 20]),
            amount: SUBSCRIPTION_COST,
            nonce: 6,
            valid_from,
            valid_until,
        },
        burn_tx_eth_signature: [0; 65],
    }
}

#[test]
fn period_length_is_31_days() {
    assert_eq!(SUBSCRIPTION_PERIOD_SECS, 2_678_400);
}

#[test]
fn active_at_period_boundary_inclusive() {
    let last_tick: u64 = 1_000;
    assert!(check_subscription_status(last_tick + SUBSCRIPTION_PERIOD_SECS, last_tick));
}

#[test]
fn inactive_one_second_past_the_boundary() {
    let last_tick: u64 = 1_000;
    assert!(!check_subscription_status(last_tick + SUBSCRIPTION_PERIOD_SECS + 1, last_tick));
}

#[test]
fn boundary_check_through_the_decision() {
    let last_tick: u64 = 1_000;
    let no_ticks: Vec<SubscriptionTx> = Vec::new();
    let at_boundary =
        decide_subscription(Some(last_tick), &no_ticks, last_tick + SUBSCRIPTION_PERIOD_SECS);
    assert_eq!(at_boundary, SubscriptionDecision::Active);
    assert!(at_boundary.subscribed());
    let past_boundary =
        decide_subscription(Some(last_tick), &no_ticks, last_tick + SUBSCRIPTION_PERIOD_SECS + 1);
    assert_eq!(past_boundary, SubscriptionDecision::LapsedNoEligibleTick);
    assert!(!past_boundary.subscribed());
}

#[test]
fn no_history_means_not_subscribed() {
    let no_ticks: Vec<SubscriptionTx> = Vec::new();
    let d = decide_subscription(None, &no_ticks, 123_456);
    assert_eq!(d, SubscriptionDecision::NoHistory);
    assert!(!d.subscribed());
    let response = subscription_check_response(&d, &no_ticks);
    assert!(!response.subscribed);
    assert_eq!(response.started_at, None);
    assert_eq!(response.expires_at, None);
}

#[test]
fn tick_window_is_inclusive_on_both_ends() {
    let tick = tick_with_window(1_000, 2_000);
    assert!(!is_next_sub_tx(&tick, 999));
    assert!(is_next_sub_tx(&tick, 1_000));
    assert!(is_next_sub_tx(&tick, 1_500));
    assert!(is_next_sub_tx(&tick, 2_000));
    assert!(!is_next_sub_tx(&tick, 2_001));
}

#[test]
fn disjoint_windows_pick_the_covering_tick() {
    let day: u64 = 86_400;
    let ticks = vec![
        tick_with_window(0, day - 1),
        tick_with_window(day, 2 * day - 1),
        tick_with_window(2 * day, 3 * day - 1),
    ];
    assert_eq!(find_next_tick(&ticks, day + 5), Some(1));
    assert_eq!(find_next_tick(&ticks, 3 * day), None);
}

#[test]
fn overlapping_windows_earliest_valid_from_wins() {
    let t0: u64 = 10_000;
    let day: u64 = 86_400;
    let tick_a = tick_with_window(t0, t0 + 2 * day);
    let tick_b = tick_with_window(t0 + day, t0 + 3 * day);
    let query = t0 + day + day / 2;
    let ticks = vec![tick_a, tick_b];
    assert_eq!(find_next_tick(&ticks, query), Some(0));
    // The tie-break is by window, not by position in the schedule.
    let tick_a = tick_with_window(t0, t0 + 2 * day);
    let tick_b = tick_with_window(t0 + day, t0 + 3 * day);
    let reordered = vec![tick_b, tick_a];
    assert_eq!(find_next_tick(&reordered, query), Some(1));
}

#[test]
fn lapsed_with_eligible_tick_is_quasi_subscribed() {
    let last_tick: u64 = 1_000;
    let now = last_tick + SUBSCRIPTION_PERIOD_SECS + 10;
    let ticks = vec![tick_with_window(now - 5, now + 5)];
    let d = decide_subscription(Some(last_tick), &ticks, now);
    assert_eq!(d, SubscriptionDecision::LapsedWithEligibleTick { tick_index: 0 });
    assert!(d.subscribed());
}

#[test]
fn period_bounds_follow_the_whole_schedule() {
    let ticks = vec![tick_with_window(200, 300), tick_with_window(100, 150)];
    let (started_at, expires_at) = get_subscription_period(&ticks);
    assert_eq!(started_at, Some(100));
    assert_eq!(expires_at, Some(200 + SUBSCRIPTION_PERIOD_SECS));
}

#[test]
fn period_of_empty_schedule_is_unknown() {
    let no_ticks: Vec<SubscriptionTx> = Vec::new();
    assert_eq!(get_subscription_period(&no_ticks), (None, None));
}

#[test]
fn submission_batch_orders_transfer_then_signed_burn() {
    let mut tick = tick_with_window(1_000, 2_000);
    tick.burn_tx_eth_signature = [9; 65];
    let batch = submission_batch(&tick);
    assert_eq!(batch.len(), 2);
    match &batch[0].tx {
        LedgerTx::TransferFrom(t) => assert_eq!(t.to.0, [1; 20]),
        LedgerTx::Transfer(_) => panic!("transfer leg must come first"),
    }
    assert!(batch[0].signature.is_none());
    match &batch[1].tx {
        LedgerTx::Transfer(t) => assert_eq!(t.nonce, 6),
        LedgerTx::TransferFrom(_) => panic!("burn leg must come second"),
    }
    assert_eq!(batch[1].signature, Some([9; 65]));
}

#[test]
fn active_subscription_reports_schedule_bounds() {
    let ticks = vec![tick_with_window(200, 300), tick_with_window(100, 150)];
    let response = subscription_check_response(&SubscriptionDecision::Active, &ticks);
    assert!(response.subscribed);
    assert_eq!(response.started_at, Some(100));
    assert_eq!(response.expires_at, Some(200 + SUBSCRIPTION_PERIOD_SECS));
    let lapsed =
        subscription_check_response(&SubscriptionDecision::LapsedNoEligibleTick, &ticks);
    assert!(!lapsed.subscribed);
    assert_eq!(lapsed.started_at, Some(100));
}

#[test]
fn clock_based_check_reports_no_history() {
    let no_ticks: Vec<SubscriptionTx> = Vec::new();
    let (_, d) = is_user_subscribed(None, &no_ticks);
    assert_eq!(d, SubscriptionDecision::NoHistory);
}

#[test]
fn round_trip_submitted_tick_reconciles_to_its_timestamp() {
    let wallet = Address([1; 20]);
    let burn_address = Address([2; 20]);
    let tick = tick_with_window(5_000, 6_000);
    assert_eq!(check_subscription_tx(&tick, &wallet, &burn_address, SUBSCRIPTION_COST), Ok(()));
    let executed_at: u64 = 5_050;
    let history = vec![
        HistoryEntry {
            kind: EntryKind::TransferFrom,
            from: tick.transfer_to_sub.from,
            to: tick.transfer_to_sub.to,
            amount: tick.transfer_to_sub.amount,
            nonce: tick.transfer_to_sub.nonce,
            to_nonce: tick.transfer_to_sub.to_nonce,
            succeeded: true,
            created_at: executed_at,
        },
        HistoryEntry {
            kind: EntryKind::Transfer,
            from: tick.burn_tx.from,
            to: tick.burn_tx.to,
            amount: tick.burn_tx.amount,
            nonce: tick.burn_tx.nonce,
            to_nonce: 0,
            succeeded: true,
            created_at: executed_at,
        },
    ];
    assert_eq!(
        last_confirmed_tick(&history, &burn_address, SUBSCRIPTION_COST),
        Some(executed_at)
    );
}
