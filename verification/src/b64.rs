//! Base64 transport decoding of image payloads, through the base64 crate.

use vstd::prelude::*;

verus! {

use base64::Engine;

/// What base64 decoding (standard alphabet, padded) yields on any byte
/// string: `None` where the input is not valid base64.
pub uninterp spec fn b64_decoding(s: Seq<u8>) -> Option<Seq<u8>>;

/// Relies on base64's `Engine::decode` with the `BASE64_STANDARD` engine:
/// the result depends on the input bytes alone. A failure's description is
/// passed along as text.
#[verifier::external_body]
pub(crate) fn b64_decode(s: &Vec<u8>) -> (r: Result<Vec<u8>, String>)
    ensures
        match r {
            Ok(v) => b64_decoding(s@) == Some(v@),
            Err(_) => b64_decoding(s@) is None,
        },
{
    match base64::prelude::BASE64_STANDARD.decode(s.as_slice()) {
        Ok(v) => Ok(v),
        Err(e) => Err(format!("{}", e)),
    }
}

/// Relies on base64's `Engine::encode` with the `BASE64_STANDARD` engine:
/// decoding its result with the same engine yields the input bytes again,
/// and every output byte is a standard-alphabet character or the padding
/// `=` — in particular never a quote or a backslash.
#[verifier::external_body]
pub(crate) fn b64_encode(b: &Vec<u8>) -> (r: Vec<u8>)
    ensures
        b64_decoding(r@) == Some(b@),
        forall|k: int|
            0 <= k < r@.len() ==> (0x41 <= #[trigger] r@[k] <= 0x5a) || (0x61 <= r@[k] <= 0x7a) || (
            0x30 <= r@[k] <= 0x39) || r@[k] == 0x2b || r@[k] == 0x2f || r@[k] == 0x3d,
{
    base64::prelude::BASE64_STANDARD.encode(b.as_slice()).into_bytes()
}

/// Encoding any byte sequence as base64 and decoding the result yields the
/// original bytes again.
pub fn base64_round_trip(bytes: &Vec<u8>) -> (r: Result<Vec<u8>, String>)
    ensures
        r matches Ok(v) && v@ == bytes@,
{
    let encoded = b64_encode(bytes);
    b64_decode(&encoded)
}

} // verus!
