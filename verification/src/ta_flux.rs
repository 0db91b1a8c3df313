//! The Together AI FLUX-1-schnell adapter: a step-count precondition, one
//! bearer credential, and a JSON envelope whose `data[0].b64_json` member
//! carries the image as base64.

use vstd::prelude::*;
use crate::b64::{b64_decode, b64_decoding};
use crate::config::EnvConfig;
use crate::errors::{CredKey, ProcessError, spec_message};
use crate::http::{HttpRequest, HttpResponse, Transport, TIMEOUT_SECS, spec_status_ok, build_bearer};
use crate::json;
use crate::models::{InputData, OutputData, OutputErrorData};
use crate::ser;

verus! {

use vstd::string::StringSliceAdditionalSpecFns;
use vstd::utf8::encode_utf8;

/// Encoding any byte sequence as base64, embedding it in the
/// `{"data":[{"b64_json":...}]}` envelope, extracting and decoding it again
/// yields the original bytes.
pub fn ta_envelope_round_trip(bytes: &Vec<u8>) -> (r: Option<Vec<u8>>)
    ensures
        r matches Some(v) && v@ == bytes@,
{
    let payload = crate::b64::b64_encode(bytes);
    let mut envelope: Vec<u8> = Vec::new();
    ser::append_str(&mut envelope, "{\"data\":[{\"b64_json\":\"");
    envelope.extend_from_slice(payload.as_slice());
    ser::append_str(&mut envelope, "\"}]}");
    proof {
        json::lemma_ta_envelope_extract(payload@);
        assert(envelope@ == "{\"data\":[{\"b64_json\":\"".spec_bytes() + payload@
            + "\"}]}".spec_bytes());
    }
    match json::ta_extract(envelope.as_slice()) {
        Ok(p) => match b64_decode(&p) {
            Ok(v) => Some(v),
            Err(_) => None,
        },
        Err(_) => None,
    }
}

/// Adapter for the Together AI FLUX.1-schnell-Free backend.
#[derive(Debug, Clone)]
pub struct TAFluxProcessor;

/// The request document the Together AI endpoint takes. The guidance value
/// is fixed at 3.5 and appears only in the serialized body.
#[derive(Debug, Clone)]
pub struct FluxRequest {
    pub model: String,
    pub prompt: String,
    pub width: u32,
    pub height: u32,
    pub steps: u32,
    pub n: u32,
    pub response_format: String,
}

impl FluxRequest {
    /// Fills every fixed field of the request document.
    pub fn new(prompt: String, steps: u32) -> (r: FluxRequest)
        ensures
            r.model@ == "black-forest-labs/FLUX.1-schnell-Free"@,
            r.prompt@ == prompt@,
            r.width == 1024,
            r.height == 1024,
            r.steps == steps,
            r.n == 1,
            r.response_format@ == "base64"@,
    {
        FluxRequest {
            model: "black-forest-labs/FLUX.1-schnell-Free".to_owned(),
            prompt,
            width: 1024,
            height: 1024,
            steps,
            n: 1,
            response_format: "base64".to_owned(),
        }
    }
}

/// The serialized request body, field for field in the wire order.
pub open spec fn spec_ta_body(req: FluxRequest) -> Seq<u8> {
    "{\"model\":\"".spec_bytes() + ser::spec_escape(encode_utf8(req.model@))
        + "\",\"prompt\":\"".spec_bytes() + ser::spec_escape(encode_utf8(req.prompt@))
        + "\",\"width\":".spec_bytes() + ser::spec_dec(req.width as int)
        + ",\"height\":".spec_bytes() + ser::spec_dec(req.height as int)
        + ",\"steps\":".spec_bytes() + ser::spec_dec(req.steps as int) + ",\"n\":".spec_bytes()
        + ser::spec_dec(req.n as int) + ",\"response_format\":\"".spec_bytes() + ser::spec_escape(
        encode_utf8(req.response_format@),
    ) + "\",\"guidance\":3.5}".spec_bytes()
}

/// Serializes the request document.
pub fn build_ta_body(req: &FluxRequest) -> (r: Vec<u8>)
    ensures
        r@ == spec_ta_body(*req),
{
    let mut buf: Vec<u8> = Vec::new();
    ser::append_str(&mut buf, "{\"model\":\"");
    ser::append_escaped(&mut buf, req.model.as_str().as_bytes());
    ser::append_str(&mut buf, "\",\"prompt\":\"");
    ser::append_escaped(&mut buf, req.prompt.as_str().as_bytes());
    ser::append_str(&mut buf, "\",\"width\":");
    ser::append_dec(&mut buf, req.width);
    ser::append_str(&mut buf, ",\"height\":");
    ser::append_dec(&mut buf, req.height);
    ser::append_str(&mut buf, ",\"steps\":");
    ser::append_dec(&mut buf, req.steps);
    ser::append_str(&mut buf, ",\"n\":");
    ser::append_dec(&mut buf, req.n);
    ser::append_str(&mut buf, ",\"response_format\":\"");
    ser::append_escaped(&mut buf, req.response_format.as_str().as_bytes());
    ser::append_str(&mut buf, "\",\"guidance\":3.5}");
    buf
}

impl TAFluxProcessor {
    pub fn new() -> TAFluxProcessor {
        TAFluxProcessor
    }

    /// Validates and decodes one backend answer, whatever it holds: the
    /// status class first, then the `Content-Type`, then the JSON envelope,
    /// then the emptiness check, then the base64 payload.
    pub fn decode_response(resp: &HttpResponse) -> (r: Result<OutputData, ProcessError>)
        ensures
            r matches Err(e) ==> !(e is MissingCredential) && !(e is InvalidParameter),
            !spec_status_ok(resp.status) ==> (r matches Err(e) && e
                == ProcessError::UpstreamStatus(resp.status)),
            spec_status_ok(resp.status) && resp.content_type is None ==> (r matches Err(e) && e
                == ProcessError::ContentTypeMissing),
            spec_status_ok(resp.status) && (resp.content_type matches Some(c) && c@
                != "application/json".spec_bytes()) ==> (r matches Err(e) && e
                == ProcessError::ContentTypeMismatch),
            spec_status_ok(resp.status) && (resp.content_type matches Some(c) && c@
                == "application/json".spec_bytes()) ==> match json::spec_ta_extract(resp.body@) {
                None => (r matches Err(e) && e == ProcessError::ParseFailure),
                Some(None) => (r matches Err(e) && e == ProcessError::EmptyResult),
                Some(Some(p)) => match b64_decoding(p) {
                    None => (r matches Err(e) && e is DecodeFailure),
                    Some(bytes) => (r matches Ok(o) && o.result@ == bytes),
                },
            },
    {
        if !(resp.status >= 200 && resp.status < 300) {
            return Err(ProcessError::UpstreamStatus(resp.status));
        }
        let ct = match &resp.content_type {
            Some(c) => c,
            None => {
                return Err(ProcessError::ContentTypeMissing);
            },
        };
        if !ser::bytes_eq(ct.as_slice(), "application/json".as_bytes()) {
            return Err(ProcessError::ContentTypeMismatch);
        }
        let payload = match json::ta_extract(resp.body.as_slice()) {
            Ok(p) => p,
            Err(empty) => {
                if empty {
                    return Err(ProcessError::EmptyResult);
                } else {
                    return Err(ProcessError::ParseFailure);
                }
            },
        };
        match b64_decode(&payload) {
            Ok(bytes) => Ok(OutputData::new(bytes)),
            Err(d) => Err(ProcessError::DecodeFailure(d)),
        }
    }

    /// Runs one full call: the step-count check first — outside `[1, 4]`
    /// nothing is sent — then the credential check, request construction,
    /// one outbound POST, and response decoding.
    pub fn process<T: Transport>(
        &self,
        input: &InputData,
        config: &EnvConfig,
        transport: &mut T,
    ) -> (r: Result<OutputData, OutputErrorData>)
        ensures
            input.steps < 1 || input.steps > 4 ==> (r matches Err(e) && e.error_message@
                == spec_message(ProcessError::InvalidParameter)),
            1 <= input.steps <= 4 && config.togetherai_api_token is None ==> (r matches Err(e)
                && e.error_message@ == spec_message(
                ProcessError::MissingCredential(CredKey::TogetheraiApiToken),
            )),
            r is Ok ==> 1 <= input.steps <= 4 && config.togetherai_api_token is Some,
            1 <= input.steps <= 4 && config.togetherai_api_token is Some ==> (r matches Ok(_) || (r
                matches Err(e) && e.error_message@ != spec_message(ProcessError::InvalidParameter)
                && e.error_message@ != spec_message(
                ProcessError::MissingCredential(CredKey::TogetheraiApiToken),
            ))),
    {
        if input.steps < 1 || input.steps > 4 {
            return Err(ProcessError::InvalidParameter.to_output_error());
        }
        let token = match &config.togetherai_api_token {
            Some(t) => t,
            None => {
                return Err(
                    ProcessError::MissingCredential(CredKey::TogetheraiApiToken).to_output_error(),
                );
            },
        };
        let request = FluxRequest::new(input.prompt.clone(), input.steps);
        let mut url: Vec<u8> = Vec::new();
        ser::append_str(&mut url, "https://api.together.xyz/v1/images/generations");
        let body = build_ta_body(&request);
        let auth_header = build_bearer(token.as_str());
        let req = HttpRequest { url, auth_header, body, timeout_secs: TIMEOUT_SECS, accept_json: true };
        let resp = match transport.send(&req) {
            Ok(resp) => resp,
            Err(d) => {
                let pe = ProcessError::TransportFailure(d);
                proof {
                    crate::errors::lemma_post_call_messages_distinct(pe);
                }
                return Err(pe.to_output_error());
            },
        };
        match Self::decode_response(&resp) {
            Ok(o) => Ok(o),
            Err(e) => {
                proof {
                    crate::errors::lemma_post_call_messages_distinct(e);
                }
                Err(e.to_output_error())
            },
        }
    }
}

} // verus!
