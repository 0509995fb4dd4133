use service_provider::history::{last_confirmed_tick, EntryKind, HistoryEntry};
use service_provider::types::Address;

const PRICE: u64 = 100;

fn wallet() -> Address {
    Address([1; 20])
}

fn burn_addr() -> Address {
    Address([2; 20])
}

fn transfer_in(to_nonce: u32, succeeded: bool, created_at: u64) -> HistoryEntry {
    HistoryEntry {
        kind: EntryKind::TransferFrom,
        from: Address([3; 20]),
        to: wallet(),
        amount: PRICE,
        nonce: 0,
        to_nonce,
        succeeded,
        created_at,
    }
}

fn burn_out(nonce: u32, succeeded: bool, created_at: u64) -> HistoryEntry {
    HistoryEntry {
        kind: EntryKind::Transfer,
        from: wallet(),
        to: burn_addr(),
        amount: PRICE,
        nonce,
        to_nonce: 0,
        succeeded,
        created_at,
    }
}

#[test]
fn pairing_by_nonce_adjacency() {
    let history = vec![transfer_in(5, true, 42), burn_out(6, true, 43)];
    assert_eq!(last_confirmed_tick(&history, &burn_addr(), PRICE), Some(42));
}

#[test]
fn empty_history_is_none() {
    let history: Vec<HistoryEntry> = Vec::new();
    assert_eq!(last_confirmed_tick(&history, &burn_addr(), PRICE), None);
}

#[test]
fn unpaired_transfer_is_none() {
    // The burn's nonce is not adjacent to the transfer's recipient nonce.
    let history = vec![transfer_in(5, true, 42), burn_out(7, true, 43)];
    assert_eq!(last_confirmed_tick(&history, &burn_addr(), PRICE), None);
}

#[test]
fn failed_transfer_leg_excluded() {
    let history = vec![transfer_in(5, false, 42), burn_out(6, true, 43)];
    assert_eq!(last_confirmed_tick(&history, &burn_addr(), PRICE), None);
}

#[test]
fn failed_burn_leg_excluded() {
    let history = vec![transfer_in(5, true, 42), burn_out(6, false, 43)];
    assert_eq!(last_confirmed_tick(&history, &burn_addr(), PRICE), None);
}

#[test]
fn failed_pair_falls_back_to_older_valid_pair() {
    let history = vec![
        transfer_in(10, false, 100),
        burn_out(11, false, 101),
        transfer_in(5, true, 42),
        burn_out(6, true, 43),
    ];
    assert_eq!(last_confirmed_tick(&history, &burn_addr(), PRICE), Some(42));
}

#[test]
fn most_recent_pair_wins() {
    let history = vec![
        transfer_in(5, true, 42),
        burn_out(6, true, 43),
        transfer_in(8, true, 90),
        burn_out(9, true, 91),
    ];
    assert_eq!(last_confirmed_tick(&history, &burn_addr(), PRICE), Some(90));
}

#[test]
fn most_recent_wins_regardless_of_order() {
    let history = vec![
        transfer_in(8, true, 90),
        burn_out(9, true, 91),
        transfer_in(5, true, 42),
        burn_out(6, true, 43),
    ];
    assert_eq!(last_confirmed_tick(&history, &burn_addr(), PRICE), Some(90));
}

#[test]
fn wrong_amount_not_a_candidate() {
    let mut t = transfer_in(5, true, 42);
    t.amount = PRICE - 1;
    let history = vec![t, burn_out(6, true, 43)];
    assert_eq!(last_confirmed_tick(&history, &burn_addr(), PRICE), None);
}

#[test]
fn burn_to_wrong_address_not_a_candidate() {
    let mut b = burn_out(6, true, 43);
    b.to = Address([9; 20]);
    let history = vec![transfer_in(5, true, 42), b];
    assert_eq!(last_confirmed_tick(&history, &burn_addr(), PRICE), None);
}

#[test]
fn other_entries_are_ignored() {
    let other = HistoryEntry {
        kind: EntryKind::Other,
        from: wallet(),
        to: burn_addr(),
        amount: PRICE,
        nonce: 6,
        to_nonce: 0,
        succeeded: true,
        created_at: 50,
    };
    let history = vec![transfer_in(5, true, 42), other];
    assert_eq!(last_confirmed_tick(&history, &burn_addr(), PRICE), None);
}
