//! Subscription verification and reconciliation engine for a ledger network
//! without a native recurring-payment primitive.
//!
//! A user pre-signs a batch of future-dated transfer pairs ("ticks"); the
//! library validates submitted ticks, reconstructs from the ledger's public
//! transaction history when a subscription was last renewed, and decides
//! whether the user is currently subscribed, lapsed, or due for an automatic
//! resubmission of the next eligible pre-signed tick.

pub mod config;
pub mod decode;
pub mod engine;
pub mod errors;
pub mod history;
pub mod laws;
pub mod oracle;
pub mod requests;
pub mod responses;
pub mod store;
pub mod types;
pub mod validator;
