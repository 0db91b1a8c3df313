//! What the two Cloudflare adapters share: the credential checks, the
//! gateway URL shape, and the `{"prompt","num_steps"}` request body.

use vstd::prelude::*;
use crate::config::EnvConfig;
use crate::errors::{CredKey, ProcessError};
use crate::models::InputData;
use crate::ser;

verus! {

use vstd::string::StringSliceAdditionalSpecFns;
use vstd::utf8::encode_utf8;

/// The gateway URL for a Cloudflare-hosted model.
pub open spec fn spec_cf_url(account: Seq<char>, gateway: Seq<char>, model_path: Seq<char>) -> Seq<
    u8,
> {
    "https://gateway.ai.cloudflare.com/v1/".spec_bytes() + encode_utf8(account)
        + "/".spec_bytes() + encode_utf8(gateway) + "/workers-ai/".spec_bytes() + encode_utf8(
        model_path,
    )
}

/// The request body both Cloudflare adapters send.
pub open spec fn spec_cf_body(prompt: Seq<char>, steps: u32) -> Seq<u8> {
    "{\"prompt\":\"".spec_bytes() + ser::spec_escape(encode_utf8(prompt))
        + "\",\"num_steps\":".spec_bytes() + ser::spec_dec(steps as int) + "}".spec_bytes()
}

/// Looks up the three Cloudflare values, failing on the first missing one in
/// the order each is first used.
pub fn cf_credentials(config: &EnvConfig) -> (r: Result<(&String, &String, &String), ProcessError>)
    ensures
        r is Ok <==> config.cloudflare_account_id is Some && config.cloudflare_api_token is Some
            && config.cloudflare_gateway_name is Some,
        r matches Ok((a, t, g)) ==> {
            &&& config.cloudflare_account_id matches Some(x) && x@ == a@
            &&& config.cloudflare_api_token matches Some(x) && x@ == t@
            &&& config.cloudflare_gateway_name matches Some(x) && x@ == g@
        },
        config.cloudflare_account_id is None ==> r == Err::<(&String, &String, &String),
            ProcessError,
        >(ProcessError::MissingCredential(CredKey::CloudflareAccountId)),
        config.cloudflare_account_id is Some && config.cloudflare_api_token is None ==> r == Err::<
            (&String, &String, &String),
            ProcessError,
        >(ProcessError::MissingCredential(CredKey::CloudflareApiToken)),
        config.cloudflare_account_id is Some && config.cloudflare_api_token is Some
            && config.cloudflare_gateway_name is None ==> r == Err::<
            (&String, &String, &String),
            ProcessError,
        >(ProcessError::MissingCredential(CredKey::CloudflareGatewayName)),
{
    let account = match &config.cloudflare_account_id {
        Some(a) => a,
        None => {
            return Err(ProcessError::MissingCredential(CredKey::CloudflareAccountId));
        },
    };
    let token = match &config.cloudflare_api_token {
        Some(t) => t,
        None => {
            return Err(ProcessError::MissingCredential(CredKey::CloudflareApiToken));
        },
    };
    let gateway = match &config.cloudflare_gateway_name {
        Some(g) => g,
        None => {
            return Err(ProcessError::MissingCredential(CredKey::CloudflareGatewayName));
        },
    };
    Ok((account, token, gateway))
}

/// Builds the gateway URL for a Cloudflare-hosted model.
pub fn build_cf_url(account: &str, gateway: &str, model_path: &str) -> (r: Vec<u8>)
    ensures
        r@ == spec_cf_url(account@, gateway@, model_path@),
{
    let mut buf: Vec<u8> = Vec::new();
    ser::append_str(&mut buf, "https://gateway.ai.cloudflare.com/v1/");
    ser::append_str(&mut buf, account);
    ser::append_str(&mut buf, "/");
    ser::append_str(&mut buf, gateway);
    ser::append_str(&mut buf, "/workers-ai/");
    ser::append_str(&mut buf, model_path);
    buf
}

/// Builds the request body both Cloudflare adapters send.
pub fn build_cf_body(input: &InputData) -> (r: Vec<u8>)
    ensures
        r@ == spec_cf_body(input.prompt@, input.steps),
{
    let mut buf: Vec<u8> = Vec::new();
    ser::append_str(&mut buf, "{\"prompt\":\"");
    ser::append_escaped(&mut buf, input.prompt.as_str().as_bytes());
    ser::append_str(&mut buf, "\",\"num_steps\":");
    ser::append_dec(&mut buf, input.steps);
    ser::append_str(&mut buf, "}");
    buf
}

} // verus!
