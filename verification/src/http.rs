//! The outbound HTTP exchange as plain values, and the capability through
//! which the surrounding program (or a test stub) performs it.

use vstd::prelude::*;

verus! {

use vstd::string::StringSliceAdditionalSpecFns;

/// Every outbound call is bounded by this timeout, in seconds.
pub const TIMEOUT_SECS: u64 = 30;

/// One outbound HTTPS POST, as plain values: where it goes, the value of its
/// `Authorization` header, its JSON body bytes, and its timeout bound.
#[derive(Debug, Clone)]
pub struct HttpRequest {
    pub url: Vec<u8>,
    pub auth_header: Vec<u8>,
    pub body: Vec<u8>,
    pub timeout_secs: u64,
    /// Whether an `Accept: application/json` header is sent with the request.
    pub accept_json: bool,
}

/// A backend's answer, as plain values: the status code, the `Content-Type`
/// header if one came, and the raw body bytes.
#[derive(Debug, Clone)]
pub struct HttpResponse {
    pub status: u16,
    pub content_type: Option<Vec<u8>>,
    pub body: Vec<u8>,
}

/// The status codes counted as success.
pub open spec fn spec_status_ok(s: u16) -> bool {
    200 <= s < 300
}

/// The `Authorization` header value for a bearer token.
pub open spec fn spec_bearer(token: Seq<char>) -> Seq<u8> {
    "Bearer ".spec_bytes() + vstd::utf8::encode_utf8(token)
}

/// Builds the `Authorization` header value for a bearer token.
pub fn build_bearer(token: &str) -> (r: Vec<u8>)
    ensures
        r@ == spec_bearer(token@),
{
    let mut buf: Vec<u8> = Vec::new();
    crate::ser::append_str(&mut buf, "Bearer ");
    crate::ser::append_str(&mut buf, token);
    buf
}

/// Performs one HTTP POST. The surrounding program implements this with a
/// real client; tests implement it with stubs. Nothing is assumed of the
/// answer: the adapters handle every status, header and body.
pub trait Transport {
    /// Sends the request and hands back the answer, or a description of why
    /// it could not be sent.
    fn send(&mut self, req: &HttpRequest) -> Result<HttpResponse, String>;
}

} // verus!
