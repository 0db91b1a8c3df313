//! The process-wide configuration the adapters read. It is handed in as
//! plain values so a call can run — and be tested — without ambient state;
//! the surrounding program fills it from its environment per call.

use vstd::prelude::*;

verus! {

/// The environment-sourced values the adapters may need. A `None` field is
/// a per-call failure of the adapter that needs it, never a startup failure.
#[derive(Debug, Clone)]
pub struct EnvConfig {
    pub cloudflare_account_id: Option<String>,
    pub cloudflare_api_token: Option<String>,
    pub cloudflare_gateway_name: Option<String>,
    pub togetherai_api_token: Option<String>,
}

impl EnvConfig {
    /// A configuration with every value absent.
    pub fn new() -> (r: EnvConfig)
        ensures
            r.cloudflare_account_id is None,
            r.cloudflare_api_token is None,
            r.cloudflare_gateway_name is None,
            r.togetherai_api_token is None,
    {
        EnvConfig {
            cloudflare_account_id: None,
            cloudflare_api_token: None,
            cloudflare_gateway_name: None,
            togetherai_api_token: None,
        }
    }
}

} // verus!
