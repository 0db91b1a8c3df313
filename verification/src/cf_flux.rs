//! The Cloudflare FLUX-1-schnell adapter: JSON envelope answer whose
//! `result.image` member carries the image as base64.

use vstd::prelude::*;
use crate::b64::{b64_decode, b64_decoding};
use crate::cf;
use crate::config::EnvConfig;
use crate::errors::{CredKey, ProcessError, spec_message};
use crate::http::{HttpRequest, HttpResponse, Transport, TIMEOUT_SECS, spec_status_ok, build_bearer};
use crate::json;
use crate::models::{InputData, OutputData, OutputErrorData};
use crate::ser;

verus! {

use vstd::string::StringSliceAdditionalSpecFns;

/// Encoding any byte sequence as base64, embedding it in the
/// `{"result":{"image":...}}` envelope, extracting and decoding it again
/// yields the original bytes.
pub fn cf_envelope_round_trip(bytes: &Vec<u8>) -> (r: Option<Vec<u8>>)
    ensures
        r matches Some(v) && v@ == bytes@,
{
    let payload = crate::b64::b64_encode(bytes);
    let mut envelope: Vec<u8> = Vec::new();
    ser::append_str(&mut envelope, "{\"result\":{\"image\":\"");
    envelope.extend_from_slice(payload.as_slice());
    ser::append_str(&mut envelope, "\"}}");
    proof {
        json::lemma_cf_envelope_extract(payload@);
        assert(envelope@ == "{\"result\":{\"image\":\"".spec_bytes() + payload@
            + "\"}}".spec_bytes());
    }
    match json::cf_extract(envelope.as_slice()) {
        Some(p) => match b64_decode(&p) {
            Ok(v) => Some(v),
            Err(_) => None,
        },
        None => None,
    }
}

/// Adapter for the Cloudflare Workers AI FLUX-1-schnell backend.
#[derive(Debug, Clone)]
pub struct CFFluxProcessor;

impl CFFluxProcessor {
    pub fn new() -> CFFluxProcessor {
        CFFluxProcessor
    }

    /// Validates and decodes one backend answer, whatever it holds: the
    /// status class first, then the `Content-Type`, then the JSON envelope,
    /// then the base64 payload.
    pub fn decode_response(resp: &HttpResponse) -> (r: Result<OutputData, ProcessError>)
        ensures
            r matches Err(e) ==> !(e is MissingCredential) && !(e is InvalidParameter),
            !spec_status_ok(resp.status) ==> (r matches Err(e) && e
                == ProcessError::UpstreamStatus(resp.status)),
            spec_status_ok(resp.status) && resp.content_type is None ==> (r matches Err(e) && e
                == ProcessError::ContentTypeMissing),
            spec_status_ok(resp.status) && (resp.content_type matches Some(c) && c@
                != "application/json".spec_bytes()) ==> (r matches Err(e) && e
                == ProcessError::ContentTypeMismatch),
            spec_status_ok(resp.status) && (resp.content_type matches Some(c) && c@
                == "application/json".spec_bytes()) ==> match json::spec_cf_extract(resp.body@) {
                None => (r matches Err(e) && e == ProcessError::ParseFailure),
                Some(p) => match b64_decoding(p) {
                    None => (r matches Err(e) && e is DecodeFailure),
                    Some(bytes) => (r matches Ok(o) && o.result@ == bytes),
                },
            },
    {
        if !(resp.status >= 200 && resp.status < 300) {
            return Err(ProcessError::UpstreamStatus(resp.status));
        }
        let ct = match &resp.content_type {
            Some(c) => c,
            None => {
                return Err(ProcessError::ContentTypeMissing);
            },
        };
        if !ser::bytes_eq(ct.as_slice(), "application/json".as_bytes()) {
            return Err(ProcessError::ContentTypeMismatch);
        }
        let payload = match json::cf_extract(resp.body.as_slice()) {
            Some(p) => p,
            None => {
                return Err(ProcessError::ParseFailure);
            },
        };
        match b64_decode(&payload) {
            Ok(bytes) => Ok(OutputData::new(bytes)),
            Err(d) => Err(ProcessError::DecodeFailure(d)),
        }
    }

    /// Runs one full call: credential checks in order of first use, request
    /// construction, one outbound POST, then response decoding. Whatever the
    /// transport answers is handled by `decode_response`.
    pub fn process<T: Transport>(
        &self,
        input: &InputData,
        config: &EnvConfig,
        transport: &mut T,
    ) -> (r: Result<OutputData, OutputErrorData>)
        ensures
            config.cloudflare_account_id is None ==> (r matches Err(e) && e.error_message@
                == spec_message(ProcessError::MissingCredential(CredKey::CloudflareAccountId))),
            config.cloudflare_account_id is Some && config.cloudflare_api_token is None ==> (r
                matches Err(e) && e.error_message@ == spec_message(
                ProcessError::MissingCredential(CredKey::CloudflareApiToken),
            )),
            config.cloudflare_account_id is Some && config.cloudflare_api_token is Some
                && config.cloudflare_gateway_name is None ==> (r matches Err(e) && e.error_message@
                == spec_message(ProcessError::MissingCredential(CredKey::CloudflareGatewayName))),
            r is Ok ==> config.cloudflare_account_id is Some && config.cloudflare_api_token is Some
                && config.cloudflare_gateway_name is Some,
            config.cloudflare_account_id is Some && config.cloudflare_api_token is Some
                && config.cloudflare_gateway_name is Some ==> (r matches Ok(_) || (r matches Err(e)
                && e.error_message@ != spec_message(
                ProcessError::MissingCredential(CredKey::CloudflareAccountId),
            ) && e.error_message@ != spec_message(
                ProcessError::MissingCredential(CredKey::CloudflareApiToken),
            ) && e.error_message@ != spec_message(
                ProcessError::MissingCredential(CredKey::CloudflareGatewayName),
            ))),
    {
        let (account, token, gateway) = match cf::cf_credentials(config) {
            Ok(c) => c,
            Err(e) => {
                return Err(e.to_output_error());
            },
        };
        let url = cf::build_cf_url(
            account.as_str(),
            gateway.as_str(),
            "@cf/black-forest-labs/flux-1-schnell",
        );
        let body = cf::build_cf_body(input);
        let auth_header = build_bearer(token.as_str());
        let req = HttpRequest { url, auth_header, body, timeout_secs: TIMEOUT_SECS, accept_json: false };
        let resp = match transport.send(&req) {
            Ok(resp) => resp,
            Err(d) => {
                let pe = ProcessError::TransportFailure(d);
                proof {
                    crate::errors::lemma_post_call_messages_distinct(pe);
                }
                return Err(pe.to_output_error());
            },
        };
        match Self::decode_response(&resp) {
            Ok(o) => Ok(o),
            Err(e) => {
                proof {
                    crate::errors::lemma_post_call_messages_distinct(e);
                }
                Err(e.to_output_error())
            },
        }
    }
}

} // verus!
