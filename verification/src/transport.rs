//! The transport encoding of tokens: URL-safe base64 without padding, as the
//! client sends and receives them.

use vstd::prelude::*;

verus! {

/// The URL-safe unpadded base64 text of `bytes`.
pub uninterp spec fn b64_of(bytes: Seq<u8>) -> Seq<char>;

/// What URL-safe unpadded base64 decoding makes of `text`, or `None` when
/// `text` is not a valid encoding.
pub uninterp spec fn b64_decoded(text: Seq<char>) -> Option<Seq<u8>>;

/// Relies on base64's `URL_SAFE_NO_PAD` engine: encoding is a pure function
/// of the bytes, and decoding inverts it.
#[verifier::external_body]
pub fn url_safe_encode(bytes: &[u8]) -> (r: String)
    ensures
        r@ == b64_of(bytes@),
        b64_decoded(r@) == Some(bytes@),
{
    base64::engine::Engine::encode(&base64::engine::general_purpose::URL_SAFE_NO_PAD, bytes)
}

/// Relies on base64's `URL_SAFE_NO_PAD` engine: decoding is a pure function
/// of the text, failing exactly on text that is not a valid encoding.
#[verifier::external_body]
pub fn url_safe_decode(text: &str) -> (r: Option<Vec<u8>>)
    ensures
        match r {
            Some(b) => b64_decoded(text@) == Some(b@),
            None => b64_decoded(text@) is None,
        },
{
    base64::engine::Engine::decode(&base64::engine::general_purpose::URL_SAFE_NO_PAD, text).ok()
}

} // verus!
