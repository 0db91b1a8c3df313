//! The Cloudflare Stable-Diffusion-XL-Lightning adapter: the answer's body
//! is the PNG image itself, byte for byte.

use vstd::prelude::*;
use crate::cf;
use crate::config::EnvConfig;
use crate::errors::{CredKey, ProcessError, spec_message};
use crate::http::{HttpRequest, HttpResponse, Transport, TIMEOUT_SECS, spec_status_ok, build_bearer};
use crate::models::{InputData, OutputData, OutputErrorData};
use crate::ser;

verus! {

use vstd::string::StringSliceAdditionalSpecFns;

/// Adapter for the Cloudflare Workers AI Stable-Diffusion-XL-Lightning backend.
#[derive(Debug, Clone)]
pub struct CFSdxlProcessor;

impl CFSdxlProcessor {
    pub fn new() -> CFSdxlProcessor {
        CFSdxlProcessor
    }

    /// Validates one backend answer, whatever it holds: the status class
    /// first, then the `Content-Type`; a good answer's body is handed back
    /// unchanged.
    pub fn decode_response(resp: &HttpResponse) -> (r: Result<OutputData, ProcessError>)
        ensures
            r matches Err(e) ==> !(e is MissingCredential) && !(e is InvalidParameter),
            !spec_status_ok(resp.status) ==> (r matches Err(e) && e
                == ProcessError::UpstreamStatus(resp.status)),
            spec_status_ok(resp.status) && resp.content_type is None ==> (r matches Err(e) && e
                == ProcessError::ContentTypeMissing),
            spec_status_ok(resp.status) && (resp.content_type matches Some(c) && c@
                != "image/png".spec_bytes()) ==> (r matches Err(e) && e
                == ProcessError::ContentTypeMismatch),
            spec_status_ok(resp.status) && (resp.content_type matches Some(c) && c@
                == "image/png".spec_bytes()) ==> (r matches Ok(o) && o.result@ == resp.body@),
    {
        if !(resp.status >= 200 && resp.status < 300) {
            return Err(ProcessError::UpstreamStatus(resp.status));
        }
        let ct = match &resp.content_type {
            Some(c) => c,
            None => {
                return Err(ProcessError::ContentTypeMissing);
            },
        };
        if !ser::bytes_eq(ct.as_slice(), "image/png".as_bytes()) {
            return Err(ProcessError::ContentTypeMismatch);
        }
        Ok(OutputData::new(vstd::slice::slice_to_vec(resp.body.as_slice())))
    }

    /// Runs one full call: credential checks in order of first use, request
    /// construction, one outbound POST, then response validation. Whatever
    /// the transport answers is handled by `decode_response`.
    pub fn process<T: Transport>(
        &self,
        input: &InputData,
        config: &EnvConfig,
        transport: &mut T,
    ) -> (r: Result<OutputData, OutputErrorData>)
        ensures
            config.cloudflare_account_id is None ==> (r matches Err(e) && e.error_message@
                == spec_message(ProcessError::MissingCredential(CredKey::CloudflareAccountId))),
            config.cloudflare_account_id is Some && config.cloudflare_api_token is None ==> (r
                matches Err(e) && e.error_message@ == spec_message(
                ProcessError::MissingCredential(CredKey::CloudflareApiToken),
            )),
            config.cloudflare_account_id is Some && config.cloudflare_api_token is Some
                && config.cloudflare_gateway_name is None ==> (r matches Err(e) && e.error_message@
                == spec_message(ProcessError::MissingCredential(CredKey::CloudflareGatewayName))),
            r is Ok ==> config.cloudflare_account_id is Some && config.cloudflare_api_token is Some
                && config.cloudflare_gateway_name is Some,
            config.cloudflare_account_id is Some && config.cloudflare_api_token is Some
                && config.cloudflare_gateway_name is Some ==> (r matches Ok(_) || (r matches Err(e)
                && e.error_message@ != spec_message(
                ProcessError::MissingCredential(CredKey::CloudflareAccountId),
            ) && e.error_message@ != spec_message(
                ProcessError::MissingCredential(CredKey::CloudflareApiToken),
            ) && e.error_message@ != spec_message(
                ProcessError::MissingCredential(CredKey::CloudflareGatewayName),
            ))),
    {
        let (account, token, gateway) = match cf::cf_credentials(config) {
            Ok(c) => c,
            Err(e) => {
                return Err(e.to_output_error());
            },
        };
        let url = cf::build_cf_url(
            account.as_str(),
            gateway.as_str(),
            "@cf/bytedance/stable-diffusion-xl-lightning",
        );
        let body = cf::build_cf_body(input);
        let auth_header = build_bearer(token.as_str());
        let req = HttpRequest { url, auth_header, body, timeout_secs: TIMEOUT_SECS, accept_json: false };
        let resp = match transport.send(&req) {
            Ok(resp) => resp,
            Err(d) => {
                let pe = ProcessError::TransportFailure(d);
                proof {
                    crate::errors::lemma_post_call_messages_distinct(pe);
                }
                return Err(pe.to_output_error());
            },
        };
        match Self::decode_response(&resp) {
            Ok(o) => Ok(o),
            Err(e) => {
                proof {
                    crate::errors::lemma_post_call_messages_distinct(e);
                }
                Err(e.to_output_error())
            },
        }
    }
}

} // verus!
