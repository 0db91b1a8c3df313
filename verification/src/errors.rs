//! The adapter-side failure taxonomy, and its collapse into the uniform
//! human-readable error that callers receive.

use vstd::prelude::*;
use crate::models::OutputErrorData;

verus! {

use vstd::string::StringExecFns;

/// Which required configuration value was missing.
#[derive(Debug, Clone, PartialEq, Eq, Structural)]
pub enum CredKey {
    CloudflareAccountId,
    CloudflareApiToken,
    CloudflareGatewayName,
    TogetheraiApiToken,
}

/// Why one adapter call failed, before the reason is collapsed into the
/// uniform message-carrying error.
#[derive(Debug, Clone)]
pub enum ProcessError {
    /// An adapter-specific precondition on the input failed; no call was made.
    InvalidParameter,
    /// A required environment-sourced value was absent; no call was made.
    MissingCredential(CredKey),
    /// The outbound request could not be sent; carries the transport's description.
    TransportFailure(String),
    /// The backend answered with a status outside the success class.
    UpstreamStatus(u16),
    /// The backend sent no `Content-Type` header.
    ContentTypeMissing,
    /// The backend's `Content-Type` was not the expected one.
    ContentTypeMismatch,
    /// The response body did not parse as the expected envelope.
    ParseFailure,
    /// The payload was not valid base64; carries the decoder's description.
    DecodeFailure(String),
    /// The backend reported success with an empty result list.
    EmptyResult,
}

/// The decimal digit characters of a non-negative integer, most
/// significant first.
pub open spec fn spec_dec_chars(n: int) -> Seq<char>
    decreases n,
{
    if n < 0 {
        Seq::empty()
    } else if n < 10 {
        seq![spec_digit_char(n)]
    } else {
        spec_dec_chars(n / 10) + seq![spec_digit_char(n % 10)]
    }
}

/// The character for one decimal digit.
pub open spec fn spec_digit_char(d: int) -> char {
    if d == 0 {
        '0'
    } else if d == 1 {
        '1'
    } else if d == 2 {
        '2'
    } else if d == 3 {
        '3'
    } else if d == 4 {
        '4'
    } else if d == 5 {
        '5'
    } else if d == 6 {
        '6'
    } else if d == 7 {
        '7'
    } else if d == 8 {
        '8'
    } else {
        '9'
    }
}

/// The message text of each failure.
pub open spec fn spec_message(e: ProcessError) -> Seq<char> {
    match e {
        ProcessError::InvalidParameter => "Invalid steps"@,
        ProcessError::MissingCredential(k) => match k {
            CredKey::CloudflareAccountId => "$CLOUDFLARE_ACCOUNT_ID must be set"@,
            CredKey::CloudflareApiToken => "$CLOUDFLARE_API_TOKEN must be set"@,
            CredKey::CloudflareGatewayName => "$CLOUDFLARE_GATEWAY_NAME must be set"@,
            CredKey::TogetheraiApiToken => "$TOGETHERAI_API_TOKEN must be set"@,
        },
        ProcessError::TransportFailure(d) => "Failed to send request: "@ + d@,
        ProcessError::UpstreamStatus(st) => "Failed to get response: "@ + spec_dec_chars(st as int),
        ProcessError::ContentTypeMissing => "Content type not found"@,
        ProcessError::ContentTypeMismatch => "Invalid content type"@,
        ProcessError::ParseFailure => "Failed to parse response: invalid envelope"@,
        ProcessError::DecodeFailure(d) => "Failed to decode image data: "@ + d@,
        ProcessError::EmptyResult => "Image data not found"@,
    }
}

/// No failure arising after the pre-call checks carries a pre-call message:
/// the transport, status, content-type, parse, decode and emptiness texts
/// all differ from every missing-credential text and from the invalid-steps
/// text.
pub proof fn lemma_post_call_messages_distinct(e: ProcessError)
    requires
        !(e is MissingCredential),
        !(e is InvalidParameter),
    ensures
        spec_message(e) != spec_message(ProcessError::InvalidParameter),
        spec_message(e) != spec_message(
            ProcessError::MissingCredential(CredKey::CloudflareAccountId),
        ),
        spec_message(e) != spec_message(
            ProcessError::MissingCredential(CredKey::CloudflareApiToken),
        ),
        spec_message(e) != spec_message(
            ProcessError::MissingCredential(CredKey::CloudflareGatewayName),
        ),
        spec_message(e) != spec_message(
            ProcessError::MissingCredential(CredKey::TogetheraiApiToken),
        ),
{
    reveal_strlit("Invalid steps");
    reveal_strlit("$CLOUDFLARE_ACCOUNT_ID must be set");
    reveal_strlit("$CLOUDFLARE_API_TOKEN must be set");
    reveal_strlit("$CLOUDFLARE_GATEWAY_NAME must be set");
    reveal_strlit("$TOGETHERAI_API_TOKEN must be set");
    assert("Invalid steps"@.len() == 13 && "Invalid steps"@[0] == 'I');
    assert("$CLOUDFLARE_ACCOUNT_ID must be set"@[0] == '$');
    assert("$CLOUDFLARE_API_TOKEN must be set"@[0] == '$');
    assert("$CLOUDFLARE_GATEWAY_NAME must be set"@[0] == '$');
    assert("$TOGETHERAI_API_TOKEN must be set"@[0] == '$');
    match e {
        ProcessError::TransportFailure(_) => {
            reveal_strlit("Failed to send request: ");
            assert(spec_message(e)[0] == 'F');
        },
        ProcessError::UpstreamStatus(_) => {
            reveal_strlit("Failed to get response: ");
            assert(spec_message(e)[0] == 'F');
        },
        ProcessError::DecodeFailure(_) => {
            reveal_strlit("Failed to decode image data: ");
            assert(spec_message(e)[0] == 'F');
        },
        ProcessError::ParseFailure => {
            reveal_strlit("Failed to parse response: invalid envelope");
            assert(spec_message(e)[0] == 'F');
        },
        ProcessError::ContentTypeMissing => {
            reveal_strlit("Content type not found");
            assert(spec_message(e)[0] == 'C');
        },
        ProcessError::ContentTypeMismatch => {
            reveal_strlit("Invalid content type");
            assert(spec_message(e).len() == 20 && spec_message(e)[0] == 'I');
        },
        ProcessError::EmptyResult => {
            reveal_strlit("Image data not found");
            assert(spec_message(e).len() == 20 && spec_message(e)[0] == 'I');
        },
        _ => {
        },
    }
}

fn digit_str(d: u16) -> (r: &'static str)
    requires
        d < 10,
    ensures
        r@ == seq![spec_digit_char(d as int)],
{
    let r: &'static str = match d {
        0 => "0",
        1 => "1",
        2 => "2",
        3 => "3",
        4 => "4",
        5 => "5",
        6 => "6",
        7 => "7",
        8 => "8",
        _ => "9",
    };
    proof {
        reveal_strlit("0");
        reveal_strlit("1");
        reveal_strlit("2");
        reveal_strlit("3");
        reveal_strlit("4");
        reveal_strlit("5");
        reveal_strlit("6");
        reveal_strlit("7");
        reveal_strlit("8");
        reveal_strlit("9");
        assert(r@ =~= seq![spec_digit_char(d as int)]);
    }
    r
}

/// Appends the decimal rendering of `n` to `s`.
fn append_dec_str(s: &mut String, n: u16)
    ensures
        final(s)@ == old(s)@ + spec_dec_chars(n as int),
    decreases n,
{
    if n < 10 {
        s.append(digit_str(n));
    } else {
        append_dec_str(s, n / 10);
        s.append(digit_str(n % 10));
        proof {
            assert(s@ =~= old(s)@ + spec_dec_chars(n as int));
        }
    }
}

impl ProcessError {
    /// The uniform error that callers receive for this failure.
    pub fn to_output_error(&self) -> (r: OutputErrorData)
        ensures
            r.error_message@ == spec_message(*self),
    {
        let message: String = match self {
            ProcessError::InvalidParameter => "Invalid steps".to_owned(),
            ProcessError::MissingCredential(k) => match k {
                CredKey::CloudflareAccountId => "$CLOUDFLARE_ACCOUNT_ID must be set".to_owned(),
                CredKey::CloudflareApiToken => "$CLOUDFLARE_API_TOKEN must be set".to_owned(),
                CredKey::CloudflareGatewayName => "$CLOUDFLARE_GATEWAY_NAME must be set".to_owned(),
                CredKey::TogetheraiApiToken => "$TOGETHERAI_API_TOKEN must be set".to_owned(),
            },
            ProcessError::TransportFailure(d) => "Failed to send request: ".to_owned().concat(
                d.as_str(),
            ),
            ProcessError::UpstreamStatus(st) => {
                let mut m = "Failed to get response: ".to_owned();
                append_dec_str(&mut m, *st);
                m
            },
            ProcessError::ContentTypeMissing => "Content type not found".to_owned(),
            ProcessError::ContentTypeMismatch => "Invalid content type".to_owned(),
            ProcessError::ParseFailure => "Failed to parse response: invalid envelope".to_owned(),
            ProcessError::DecodeFailure(d) => "Failed to decode image data: ".to_owned().concat(
                d.as_str(),
            ),
            ProcessError::EmptyResult => "Image data not found".to_owned(),
        };
        OutputErrorData::new(message)
    }
}

} // verus!
