//! The execution context: holds a selected adapter and runs it against a
//! validated input, passing the adapter's result through unchanged.

use vstd::prelude::*;
use crate::config::EnvConfig;
use crate::errors::{CredKey, ProcessError, spec_message};
use crate::factory::Adapter;
use crate::http::Transport;
use crate::models::{InputData, OutputData, OutputErrorData};

verus! {

/// Holds one selected adapter for the length of one request.
pub struct ProcessContext {
    pub strategy: Adapter,
}

impl ProcessContext {
    pub fn new(strategy: Adapter) -> (r: ProcessContext)
        ensures
            r.strategy == strategy,
    {
        ProcessContext { strategy }
    }

    /// Runs the held adapter on the input: a thin pass-through whose result
    /// is the adapter's own, so each adapter's pre-call checks hold here too.
    pub fn execute<T: Transport>(
        &self,
        input: InputData,
        config: &EnvConfig,
        transport: &mut T,
    ) -> (r: Result<OutputData, OutputErrorData>)
        ensures
            (self.strategy is CfFlux || self.strategy is CfSdxl)
                && config.cloudflare_account_id is None ==> (r matches Err(e) && e.error_message@
                == spec_message(ProcessError::MissingCredential(CredKey::CloudflareAccountId))),
            (self.strategy is CfFlux || self.strategy is CfSdxl)
                && config.cloudflare_account_id is Some && config.cloudflare_api_token is None
                ==> (r matches Err(e) && e.error_message@ == spec_message(
                ProcessError::MissingCredential(CredKey::CloudflareApiToken),
            )),
            (self.strategy is CfFlux || self.strategy is CfSdxl)
                && config.cloudflare_account_id is Some && config.cloudflare_api_token is Some
                && config.cloudflare_gateway_name is None ==> (r matches Err(e) && e.error_message@
                == spec_message(ProcessError::MissingCredential(CredKey::CloudflareGatewayName))),
            (self.strategy is CfFlux || self.strategy is CfSdxl) && r is Ok
                ==> config.cloudflare_account_id is Some && config.cloudflare_api_token is Some
                && config.cloudflare_gateway_name is Some,
            self.strategy is TaFlux && (input.steps < 1 || input.steps > 4) ==> (r matches Err(e)
                && e.error_message@ == spec_message(ProcessError::InvalidParameter)),
            self.strategy is TaFlux && 1 <= input.steps <= 4
                && config.togetherai_api_token is None ==> (r matches Err(e) && e.error_message@
                == spec_message(ProcessError::MissingCredential(CredKey::TogetheraiApiToken))),
            self.strategy is TaFlux && r is Ok ==> 1 <= input.steps <= 4
                && config.togetherai_api_token is Some,
            (self.strategy is CfFlux || self.strategy is CfSdxl)
                && config.cloudflare_account_id is Some && config.cloudflare_api_token is Some
                && config.cloudflare_gateway_name is Some ==> (r matches Ok(_) || (r matches Err(e)
                && e.error_message@ != spec_message(
                ProcessError::MissingCredential(CredKey::CloudflareAccountId),
            ) && e.error_message@ != spec_message(
                ProcessError::MissingCredential(CredKey::CloudflareApiToken),
            ) && e.error_message@ != spec_message(
                ProcessError::MissingCredential(CredKey::CloudflareGatewayName),
            ))),
            self.strategy is TaFlux && 1 <= input.steps <= 4 && config.togetherai_api_token is Some
                ==> (r matches Ok(_) || (r matches Err(e) && e.error_message@ != spec_message(
                ProcessError::InvalidParameter,
            ) && e.error_message@ != spec_message(
                ProcessError::MissingCredential(CredKey::TogetheraiApiToken),
            ))),
    {
        match &self.strategy {
            Adapter::CfFlux(p) => p.process(&input, config, transport),
            Adapter::CfSdxl(p) => p.process(&input, config, transport),
            Adapter::TaFlux(p) => p.process(&input, config, transport),
        }
    }
}

} // verus!
