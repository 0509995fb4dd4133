//! Application configuration: the addresses the service talks to and the
//! burn account that subscription payments are consumed into. Loading from a
//! file or the environment is the surrounding application's job.

use vstd::prelude::*;
use crate::types::Address;

verus! {

/// Configuration of the service provider.
#[derive(Clone, Debug)]
pub struct AppConfig {
    pub app_bind_address: String,
    pub zksync_rest_api_address: String,
    pub zksync_json_rpc_address: String,
    pub community_oracle_address: String,
    pub burn_account_address: Address,
}

} // verus!
