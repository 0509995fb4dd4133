use service_provider::errors::ValidationError;
use service_provider::types::{Address, SubscriptionTx, Transfer, TransferFrom};
use service_provider::validator::{check_subscription_tx, check_subscription_txs};

const PRICE: u64 = 100;

fn wallet() -> Address {
    Address([1; 20])
}

fn burn_addr() -> Address {
    Address([2; 20])
}

fn good_tick() -> SubscriptionTx {
    SubscriptionTx {
        transfer_to_sub: TransferFrom {
            from: Address([3; 20]),
            to: wallet(),
            amount: PRICE,
            nonce: 17,
            to_nonce: 5,
            valid_from: 1_000,
            valid_until: 2_000,
        },
        burn_tx: Transfer {
            from: wallet(),
            to: burn_addr(),
            amount: PRICE,
            nonce: 6,
            valid_from: 1_000,
            valid_until: 2_000,
        },
        burn_tx_eth_signature: [7; 65],
    }
}

#[test]
fn well_paired_tick_is_accepted() {
    let tick = good_tick();
    assert_eq!(check_subscription_tx(&tick, &wallet(), &burn_addr(), PRICE), Ok(()));
}

#[test]
fn recipient_mismatch() {
    let mut tick = good_tick();
    tick.transfer_to_sub.to = Address([9; 20]);
    assert_eq!(
        check_subscription_tx(&tick, &wallet(), &burn_addr(), PRICE),
        Err(ValidationError::RecipientMismatch)
    );
}

#[test]
fn burn_sender_mismatch() {
    let mut tick = good_tick();
    tick.burn_tx.from = Address([9; 20]);
    assert_eq!(
        check_subscription_tx(&tick, &wallet(), &burn_addr(), PRICE),
        Err(ValidationError::BurnSenderMismatch)
    );
}

#[test]
fn burn_recipient_mismatch() {
    let mut tick = good_tick();
    tick.burn_tx.to = Address([9; 20]);
    assert_eq!(
        check_subscription_tx(&tick, &wallet(), &burn_addr(), PRICE),
        Err(ValidationError::BurnRecipientMismatch)
    );
}

#[test]
fn transfer_amount_off_by_one_unit() {
    let mut tick = good_tick();
    tick.transfer_to_sub.amount = PRICE + 1;
    assert_eq!(
        check_subscription_tx(&tick, &wallet(), &burn_addr(), PRICE),
        Err(ValidationError::AmountMismatch)
    );
}

#[test]
fn burn_amount_off_by_one_unit() {
    let mut tick = good_tick();
    tick.burn_tx.amount = PRICE - 1;
    assert_eq!(
        check_subscription_tx(&tick, &wallet(), &burn_addr(), PRICE),
        Err(ValidationError::AmountMismatch)
    );
}

#[test]
fn nonce_skew_of_two_is_rejected() {
    let mut tick = good_tick();
    tick.burn_tx.nonce = tick.transfer_to_sub.to_nonce + 2;
    assert_eq!(
        check_subscription_tx(&tick, &wallet(), &burn_addr(), PRICE),
        Err(ValidationError::NonceMismatch)
    );
}

#[test]
fn nonce_equal_to_recipient_nonce_is_rejected() {
    let mut tick = good_tick();
    tick.burn_tx.nonce = tick.transfer_to_sub.to_nonce;
    assert_eq!(
        check_subscription_tx(&tick, &wallet(), &burn_addr(), PRICE),
        Err(ValidationError::NonceMismatch)
    );
}

#[test]
fn batch_rejected_with_first_violation() {
    let good = good_tick();
    let mut amount_bad = good_tick();
    amount_bad.burn_tx.amount = PRICE - 1;
    let mut nonce_bad = good_tick();
    nonce_bad.burn_tx.nonce = 9;
    let batch = vec![good, amount_bad, nonce_bad];
    assert_eq!(
        check_subscription_txs(&batch, &wallet(), &burn_addr(), PRICE),
        Err(ValidationError::AmountMismatch)
    );
}

#[test]
fn batch_of_valid_ticks_is_accepted() {
    let batch = vec![good_tick(), good_tick()];
    assert_eq!(check_subscription_txs(&batch, &wallet(), &burn_addr(), PRICE), Ok(()));
    let empty: Vec<SubscriptionTx> = Vec::new();
    assert_eq!(check_subscription_txs(&empty, &wallet(), &burn_addr(), PRICE), Ok(()));
}
