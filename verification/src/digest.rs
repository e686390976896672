//! Checksums and their hex rendering.
//!
//! The digests themselves come from outside crates and are only named here;
//! the hex rendering of a byte string is specified exactly.

use vstd::prelude::*;
use sha1::Digest;

verus! {

/// The MD5 digest of a byte string.  Its value is fixed by the algorithm
/// and is not restated here; contracts speak of it by this name.
pub uninterp spec fn md5_of(data: Seq<u8>) -> Seq<u8>;

/// The SHA-1 digest of a byte string, named as `md5_of` is.
pub uninterp spec fn sha1_of(data: Seq<u8>) -> Seq<u8>;

/// Relies on md5::compute: the 16-byte digest of the input alone.
#[verifier::external_body]
pub(crate) fn md5_bytes(data: &[u8]) -> (r: Vec<u8>)
    ensures
        r@ == md5_of(data@),
        r@.len() == 16,
{
    md5::compute(data).0.to_vec()
}

/// Relies on sha1::Sha1 (the Digest trait): the 20-byte digest of the
/// input alone.
#[verifier::external_body]
pub(crate) fn sha1_bytes(data: &[u8]) -> (r: Vec<u8>)
    ensures
        r@ == sha1_of(data@),
        r@.len() == 20,
{
    sha1::Sha1::digest(data).to_vec()
}

/// The lower-case hex digit of a value below sixteen.
pub open spec fn spec_hex_digit(n: int) -> char {
    if n == 0 { '0' } else if n == 1 { '1' } else if n == 2 { '2' }
    else if n == 3 { '3' } else if n == 4 { '4' } else if n == 5 { '5' }
    else if n == 6 { '6' } else if n == 7 { '7' } else if n == 8 { '8' }
    else if n == 9 { '9' } else if n == 10 { 'a' } else if n == 11 { 'b' }
    else if n == 12 { 'c' } else if n == 13 { 'd' } else if n == 14 { 'e' }
    else { 'f' }
}

/// The lower-case hex rendering of a byte string, two digits per byte.
pub open spec fn spec_hex(data: Seq<u8>) -> Seq<char>
    decreases data.len(),
{
    if data.len() == 0 {
        Seq::empty()
    } else {
        seq![
            spec_hex_digit(data.first() as int / 16),
            spec_hex_digit(data.first() as int % 16),
        ] + spec_hex(data.drop_first())
    }
}

/// Relies on hex::encode: the lower-case hex rendering of the input,
/// high nibble first.
#[verifier::external_body]
pub(crate) fn hex_encode(data: &[u8]) -> (r: String)
    ensures
        r@ == spec_hex(data@),
{
    hex::encode(data)
}

} // verus!
