//! Error taxonomy of the subscription engine.

use vstd::prelude::*;

verus! {

/// Rejection of a submitted tick: always client-caused, never retried,
/// surfaced verbatim to the caller.
#[derive(Clone, Copy, Debug, PartialEq, Eq, Structural)]
pub enum ValidationError {
    /// `transfer_to_sub.to` is not the known subscription wallet.
    RecipientMismatch,
    /// `burn_tx.from` is not the subscription wallet.
    BurnSenderMismatch,
    /// `burn_tx.to` is not the designated burn address.
    BurnRecipientMismatch,
    /// A leg's amount is not the subscription cost.
    AmountMismatch,
    /// `burn_tx.nonce` is not `transfer_to_sub.to_nonce + 1`.
    NonceMismatch,
}

impl ValidationError {
    /// A description of the rejection that names the offending field.
    pub fn description(&self) -> (s: String)
        ensures
            *self is RecipientMismatch ==> s@
                == "transferToSub.to does not match the known subscription wallet"@,
            *self is BurnSenderMismatch ==> s@
                == "burnTx.from is not the subscription wallet"@,
            *self is BurnRecipientMismatch ==> s@
                == "burnTx.to is not the designated burn address"@,
            *self is AmountMismatch ==> s@
                == "amount is not equal to the subscription cost"@,
            *self is NonceMismatch ==> s@
                == "burnTx.nonce is not transferToSub.toNonce + 1"@,
    {
        match self {
            ValidationError::RecipientMismatch => {
                "transferToSub.to does not match the known subscription wallet".to_owned()
            },
            ValidationError::BurnSenderMismatch => {
                "burnTx.from is not the subscription wallet".to_owned()
            },
            ValidationError::BurnRecipientMismatch => {
                "burnTx.to is not the designated burn address".to_owned()
            },
            ValidationError::AmountMismatch => {
                "amount is not equal to the subscription cost".to_owned()
            },
            ValidationError::NonceMismatch => {
                "burnTx.nonce is not transferToSub.toNonce + 1".to_owned()
            },
        }
    }
}

/// Failure while talking to, or interpreting, the ledger node.
#[derive(Clone, Debug)]
pub enum LedgerError {
    /// Network or timeout failure talking to the ledger node; transient and
    /// safe to retry, must not be read as "not subscribed".
    LedgerUnavailable,
    /// The node returned undecodable data; fatal for this request and not
    /// retried automatically.
    MalformedLedgerResponse,
    /// The ledger refused a submitted batch, with the node's reported reason.
    SubmissionRejected(String),
}

} // verus!
