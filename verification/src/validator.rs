//! Tick validator: structural and semantic validation of a submitted
//! transaction pair before it is accepted as a legitimate future commitment.
//!
//! The checks run in a fixed order and fail fast on the first violation.
//! Cryptographic signatures and double submission are deliberately not
//! checked here: both are the ledger's job.

use vstd::prelude::*;
use crate::errors::ValidationError;
use crate::types::{addr_eq, Address, SubscriptionTx};

verus! {

/// A tick is well paired for a given subscription context when the transfer
/// pays the expected wallet, the burn drains that same wallet to the burn
/// address, both legs move exactly the subscription price, and the burn is
/// the immediate next action of the wallet after the transfer lands.
pub open spec fn tick_matches(
    tx: SubscriptionTx,
    wallet: Address,
    burn_address: Address,
    price: u64,
) -> bool {
    &&& tx.transfer_to_sub.to@ == wallet@
    &&& tx.burn_tx.from@ == wallet@
    &&& tx.burn_tx.to@ == burn_address@
    &&& tx.transfer_to_sub.amount == price
    &&& tx.burn_tx.amount == price
    &&& tx.burn_tx.nonce == tx.transfer_to_sub.to_nonce + 1
}

/// The exact outcome of validation, first violation wins.
pub open spec fn spec_validate(
    tx: SubscriptionTx,
    wallet: Address,
    burn_address: Address,
    price: u64,
) -> Result<(), ValidationError> {
    if tx.transfer_to_sub.to@ != wallet@ {
        Err(ValidationError::RecipientMismatch)
    } else if tx.burn_tx.from@ != wallet@ {
        Err(ValidationError::BurnSenderMismatch)
    } else if tx.burn_tx.to@ != burn_address@ {
        Err(ValidationError::BurnRecipientMismatch)
    } else if tx.transfer_to_sub.amount != price {
        Err(ValidationError::AmountMismatch)
    } else if tx.burn_tx.amount != price {
        Err(ValidationError::AmountMismatch)
    } else if tx.burn_tx.nonce != tx.transfer_to_sub.to_nonce + 1 {
        Err(ValidationError::NonceMismatch)
    } else {
        Ok(())
    }
}

/// Validates one submitted tick against the known subscription context:
/// the expected subscription wallet, the designated burn address, and the
/// subscription price. Pure; no side effects.
pub fn check_subscription_tx(
    tx: &SubscriptionTx,
    wallet: &Address,
    burn_address: &Address,
    price: u64,
) -> (r: Result<(), ValidationError>)
    ensures
        r == spec_validate(*tx, *wallet, *burn_address, price),
        r is Ok <==> tick_matches(*tx, *wallet, *burn_address, price),
{
    if !addr_eq(&tx.transfer_to_sub.to, wallet) {
        Err(ValidationError::RecipientMismatch)
    } else if !addr_eq(&tx.burn_tx.from, wallet) {
        Err(ValidationError::BurnSenderMismatch)
    } else if !addr_eq(&tx.burn_tx.to, burn_address) {
        Err(ValidationError::BurnRecipientMismatch)
    } else if tx.transfer_to_sub.amount != price {
        Err(ValidationError::AmountMismatch)
    } else if tx.burn_tx.amount != price {
        Err(ValidationError::AmountMismatch)
    } else if tx.burn_tx.nonce as u64 != tx.transfer_to_sub.to_nonce as u64 + 1 {
        Err(ValidationError::NonceMismatch)
    } else {
        Ok(())
    }
}

/// The outcome of validating a whole batch: either every tick is well paired,
/// or the error of the first offending tick.
pub open spec fn spec_validate_batch(
    txs: Seq<SubscriptionTx>,
    wallet: Address,
    burn_address: Address,
    price: u64,
) -> Result<(), ValidationError>
    decreases txs.len(),
{
    if txs.len() == 0 {
        Ok(())
    } else if spec_validate(txs.first(), wallet, burn_address, price) is Err {
        spec_validate(txs.first(), wallet, burn_address, price)
    } else {
        spec_validate_batch(txs.drop_first(), wallet, burn_address, price)
    }
}

/// Validates every tick of a subscribe request; rejects the whole batch with
/// the first tick's violation, in submission order.
pub fn check_subscription_txs(
    txs: &Vec<SubscriptionTx>,
    wallet: &Address,
    burn_address: &Address,
    price: u64,
) -> (r: Result<(), ValidationError>)
    ensures
        r == spec_validate_batch(txs@, *wallet, *burn_address, price),
        r is Ok <==> forall|i: int|
            0 <= i < txs@.len() ==> tick_matches(txs@[i], *wallet, *burn_address, price),
{
    let n = txs.len();
    let mut i: usize = 0;
    proof {
        assert(txs@.skip(0) =~= txs@);
    }
    while i < n
        invariant
            0 <= i <= n,
            n == txs@.len(),
            forall|j: int| 0 <= j < i ==> tick_matches(txs@[j], *wallet, *burn_address, price),
            spec_validate_batch(txs@, *wallet, *burn_address, price)
                == spec_validate_batch(txs@.skip(i as int), *wallet, *burn_address, price),
        decreases n - i,
    {
        let checked = check_subscription_tx(&txs[i], wallet, burn_address, price);
        proof {
            assert(txs@.skip(i as int).first() == txs@[i as int]);
            assert(txs@.skip(i as int).drop_first() =~= txs@.skip(i as int + 1));
        }
        if let Err(e) = checked {
            return Err(e);
        }
        i = i + 1;
    }
    proof {
        assert(txs@.skip(n as int).len() == 0);
    }
    Ok(())
}

} // verus!
