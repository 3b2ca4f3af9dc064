//! Trusted access to the `base64` crate (standard alphabet, with padding).

use base64::engine::general_purpose::STANDARD;
use base64::Engine;
use vstd::prelude::*;

verus! {

/// The text that `STANDARD.encode` makes of the bytes (RFC 4648, standard
/// alphabet, padded).
pub uninterp spec fn base64_standard_encoding(bytes: Seq<u8>) -> Seq<char>;

/// What `STANDARD.decode` makes of the text: the bytes, or `None` where it
/// reports an error.
pub uninterp spec fn base64_standard_decoding(text: Seq<char>) -> Option<Seq<u8>>;

/// Calls `STANDARD.encode`. Claimed: the result is `base64_standard_encoding`
/// of the bytes, and `STANDARD.decode` gives the bytes back from it (the
/// canonical padded encoding that the crate documents is the one that its
/// decoder reads).
#[verifier::external_body]
pub(crate) fn base64_encode(bytes: &Vec<u8>) -> (text: String)
    ensures
        text@ == base64_standard_encoding(bytes@),
        base64_standard_decoding(text@) == Some(bytes@),
{
    STANDARD.encode(bytes)
}

/// Calls `STANDARD.decode`, turning its error into `None`. Claimed: the result
/// is `base64_standard_decoding` of the text.
#[verifier::external_body]
pub(crate) fn base64_decode(text: &String) -> (bytes: Option<Vec<u8>>)
    ensures
        match bytes {
            Some(b) => base64_standard_decoding(text@) == Some(b@),
            None => base64_standard_decoding(text@) is None,
        },
{
    STANDARD.decode(text).ok()
}

} // verus!
