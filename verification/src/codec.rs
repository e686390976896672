//! Byte/text codecs the flow runs through: base64 and UTF-8.

use vstd::prelude::*;
use vstd::utf8::{decode_utf8, valid_utf8};

verus! {

/// What base64 decoding yields on a text: the decoded bytes, or nothing
/// when the text is not well-formed base64.  Fixed by the encoding alone.
pub uninterp spec fn b64_of(text: Seq<char>) -> Option<Seq<u8>>;

/// Relies on base64::decode (the standard alphabet, padded): decodes the
/// text, failing exactly on malformed input.
#[verifier::external_body]
pub(crate) fn b64_decode(text: &str) -> (r: Option<Vec<u8>>)
    ensures
        r is Some <==> b64_of(text@) is Some,
        r is Some ==> r->0@ == b64_of(text@)->0,
{
    #[allow(deprecated)]
    base64::decode(text).ok()
}

/// Relies on String::from_utf8: the bytes are decoded exactly when they
/// are valid UTF-8; this wrapper defaults the failure case to the empty
/// string, as the login flow requires.
#[verifier::external_body]
pub(crate) fn utf8_or_empty(bytes: Vec<u8>) -> (r: String)
    ensures
        valid_utf8(bytes@) ==> r@ == decode_utf8(bytes@),
        !valid_utf8(bytes@) ==> r@ == Seq::<char>::empty(),
{
    String::from_utf8(bytes).unwrap_or_default()
}

/// What lossy UTF-8 decoding yields on a byte string: fixed by the bytes
/// alone (invalid sequences become replacement characters).
pub uninterp spec fn lossy_of(bytes: Seq<u8>) -> Seq<char>;

/// Relies on String::from_utf8_lossy: valid UTF-8 comes back unchanged,
/// anything else is a function of the bytes alone.
#[verifier::external_body]
pub(crate) fn lossy_string(bytes: &[u8]) -> (r: String)
    ensures
        r@ == lossy_of(bytes@),
        valid_utf8(bytes@) ==> r@ == decode_utf8(bytes@),
{
    String::from_utf8_lossy(bytes).to_string()
}

} // verus!
