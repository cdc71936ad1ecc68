//! The text form of the response body: standard base64 with padding.

use vstd::prelude::*;

verus! {

/// The standard base64 encoding, with `=` padding, of the UTF-8 bytes of a
/// text: what `base64`'s `STANDARD` engine makes of it.
pub uninterp spec fn base64_standard(text: Seq<char>) -> Seq<char>;

/// Calls `base64::Engine::encode` on `base64::engine::general_purpose::STANDARD`
/// with the bytes of `text`.
///
/// Trusted: the result is taken to be a function of the text alone, named
/// `base64_standard`. `encode` panics only where the encoded length does not
/// fit in `usize`, which takes more bytes than a `str` can hold.
#[verifier::external_body]
fn encode_standard(text: &str) -> (encoded: String)
    ensures
        encoded@ == base64_standard(text@),
{
    base64::Engine::encode(&base64::engine::general_purpose::STANDARD, text)
}

/// Encodes the JSON text of an output record as the response body.
pub fn encode_body(json: &str) -> (body: String)
    ensures
        body@ == base64_standard(json@),
{
    encode_standard(json)
}

} // verus!
