//! The authorization value of a handshake or request.

use base64::Engine;
use vstd::prelude::*;
use vstd::string::StringExecFns;

verus! {

/// The standard base64 encoding, with padding, of a byte string.
pub uninterp spec fn base64_standard(bytes: Seq<u8>) -> Seq<char>;

/// A character of the standard base64 alphabet, or the padding sign.
pub open spec fn is_base64_char(c: char) -> bool {
    ('A' <= c && c <= 'Z') || ('a' <= c && c <= 'z') || ('0' <= c && c <= '9') || c == '+' || c
        == '/' || c == '='
}

/// A character that may stand in a header value: the tab, or anything from
/// the space on but the delete character.
pub open spec fn is_header_char(c: char) -> bool {
    c == '\t' || (c as u32 >= 32 && c as u32 != 127)
}

/// Whether a text may stand as a header value.
pub open spec fn is_header_text(text: Seq<char>) -> bool {
    forall|i: int| 0 <= i < text.len() ==> is_header_char(#[trigger] text[i])
}

/// Whether a byte string is short enough for its encoding to fit the
/// address space.
pub open spec fn encodable(bytes: Seq<u8>) -> bool {
    bytes.len() <= usize::MAX / 2
}

/// The text that a credential is encoded from.
pub open spec fn credential_line(password: Seq<char>) -> Seq<char> {
    "admin:"@ + password
}

/// The authorization value for a credential.
pub open spec fn basic_authorization_of(password: Seq<char>) -> Seq<char> {
    "Basic "@ + base64_standard(vstd::utf8::encode_utf8(credential_line(password)))
}

/// `base64::engine::general_purpose::STANDARD.encode`. The contract names the
/// result and claims what the crate documents of it: four characters for
/// every three bytes begun, each of the standard alphabet or the padding sign.
/// The encoder panics where the length of the result overflows `usize`; the
/// `requires` leaves those inputs out.
#[verifier::external_body]
fn base64_encode(input: &[u8]) -> (encoded: String)
    requires
        encodable(input@),
    ensures
        encoded@ == base64_standard(input@),
        encoded@.len() == 4 * ((input@.len() + 2) / 3),
        forall|i: int| 0 <= i < encoded@.len() ==> is_base64_char(#[trigger] encoded@[i]),
{
    base64::engine::general_purpose::STANDARD.encode(input)
}

/// `reqwest::header::HeaderValue::from_str`, asked only whether it accepts:
/// it does where every byte is a tab or at least 32 and not 127, which for
/// UTF-8 text is [`is_header_text`].
#[verifier::external_body]
fn header_value_accepts(text: &str) -> (accepted: bool)
    ensures
        accepted == is_header_text(text@),
{
    reqwest::header::HeaderValue::from_str(text).is_ok()
}

/// Whether a text may stand as a header value.
pub fn header_text_accepted(text: &str) -> (accepted: bool)
    ensures
        accepted == is_header_text(text@),
{
    header_value_accepts(text)
}

/// The encoding of a byte string in standard base64, `None` where it would
/// not fit the address space.
pub fn base64_text(input: &[u8]) -> (encoded: Option<String>)
    ensures
        encoded is Some <==> encodable(input@),
        encoded matches Some(text) ==> {
            &&& text@ == base64_standard(input@)
            &&& text@.len() == 4 * ((input@.len() + 2) / 3)
            &&& forall|i: int| 0 <= i < text@.len() ==> is_base64_char(#[trigger] text@[i])
        },
{
    if input.len() > usize::MAX / 2 {
        None
    } else {
        Some(base64_encode(input))
    }
}

/// Every text that is `Basic `, then base64, may stand as a header value.
pub proof fn lemma_basic_value_is_header_text(encoded: Seq<char>)
    requires
        forall|i: int| 0 <= i < encoded.len() ==> is_base64_char(#[trigger] encoded[i]),
    ensures
        is_header_text("Basic "@ + encoded),
{
    reveal_strlit("Basic ");
    let text = "Basic "@ + encoded;
    assert forall|i: int| 0 <= i < text.len() implies is_header_char(#[trigger] text[i]) by {
        if i >= 6 {
            assert(text[i] == encoded[i - 6]);
            assert(is_base64_char(encoded[i - 6]));
        }
    }
}

/// The value of the authorization header for a credential: `Basic `, then
/// the base64 encoding of `admin:` and the credential. `None` where the
/// credential is too long to encode.
pub fn basic_authorization(password: &str) -> (value: Option<String>)
    ensures
        value is Some <==> encodable(vstd::utf8::encode_utf8(credential_line(password@))),
        value matches Some(text) ==> text@ == basic_authorization_of(password@) && is_header_text(
            text@,
        ),
{
    let mut line = String::from_str("admin:");
    line.append(password);
    let encoded = match base64_text(line.as_str().as_bytes()) {
        Some(encoded) => encoded,
        None => {
            return None;
        },
    };
    let mut value = String::from_str("Basic ");
    value.append(encoded.as_str());
    proof {
        lemma_basic_value_is_header_text(encoded@);
    }
    if header_value_accepts(value.as_str()) {
        Some(value)
    } else {
        None
    }
}

} // verus!
