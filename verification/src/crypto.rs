//! Password transport: ephemeral RSA keypairs and ciphertext decryption,
//! plus the stripping of a PEM text down to its body.

use vstd::prelude::*;
use rsa::pkcs8::{DecodePrivateKey, EncodePrivateKey, EncodePublicKey};
use crate::strutil::push_char;

verus! {

/// What RSA decryption yields for a PEM-encoded private key and a
/// ciphertext: the plaintext, or nothing when the key text is malformed
/// or the ciphertext does not match.  Fixed by the two arguments alone.
pub uninterp spec fn rsa_decrypt_of(key_pem: Seq<char>, cipher: Seq<u8>) -> Option<Seq<u8>>;

/// Relies on rsa::RsaPrivateKey::from_pkcs8_pem followed by
/// RsaPrivateKey::decrypt with the PKCS#1 v1.5 padding scheme: both are
/// functions of the key text and the ciphertext alone.
#[verifier::external_body]
pub(crate) fn rsa_decrypt(key_pem: &str, cipher: &[u8]) -> (r: Option<Vec<u8>>)
    ensures
        r is Some <==> rsa_decrypt_of(key_pem@, cipher@) is Some,
        r is Some ==> r->0@ == rsa_decrypt_of(key_pem@, cipher@)->0,
{
    let key = match rsa::RsaPrivateKey::from_pkcs8_pem(key_pem) {
        Ok(k) => k,
        Err(_) => return None,
    };
    key.decrypt(rsa::Pkcs1v15Encrypt, cipher).ok()
}

/// Relies on rsa::RsaPrivateKey::new and the PKCS#8 / SPKI PEM encoders:
/// a fresh keypair as two PEM texts, private first.  The material is
/// random, so nothing is stated of the texts.
#[verifier::external_body]
pub(crate) fn generate_key_pair(bits: usize) -> (r: Option<(String, String)>)
{
    let key = match rsa::RsaPrivateKey::new(&mut rand::rngs::OsRng, bits) {
        Ok(k) => k,
        Err(_) => return None,
    };
    let pri = key.to_pkcs8_pem(rsa::pkcs8::LineEnding::LF).ok()?.as_str().to_string();
    let pb = rsa::RsaPublicKey::from(&key).to_public_key_pem(rsa::pkcs8::LineEnding::LF).ok()?;
    Some((pri, pb))
}

/// Scanner state while walking a PEM text line by line.
pub enum PemMode {
    /// At the first character of a line.
    LineStart,
    /// Inside a line that is kept.
    Keep,
    /// Inside a marker line, dropped whole.
    Skip,
}

/// The text that remains of `s` from position `i` on: marker lines
/// (those whose first character is `-`) are dropped whole, and spaces,
/// carriage returns and line feeds are dropped everywhere.
pub open spec fn strip_from(s: Seq<char>, i: int, mode: PemMode) -> Seq<char>
    decreases s.len() - i,
{
    if i < 0 || i >= s.len() {
        Seq::empty()
    } else {
        let c = s[i];
        if c == '\n' {
            strip_from(s, i + 1, PemMode::LineStart)
        } else {
            match mode {
                PemMode::LineStart => {
                    if c == '-' {
                        strip_from(s, i + 1, PemMode::Skip)
                    } else if c == ' ' || c == '\r' {
                        strip_from(s, i + 1, PemMode::Keep)
                    } else {
                        seq![c] + strip_from(s, i + 1, PemMode::Keep)
                    }
                },
                PemMode::Keep => {
                    if c == ' ' || c == '\r' {
                        strip_from(s, i + 1, PemMode::Keep)
                    } else {
                        seq![c] + strip_from(s, i + 1, PemMode::Keep)
                    }
                },
                PemMode::Skip => strip_from(s, i + 1, PemMode::Skip),
            }
        }
    }
}

/// The body of a PEM text: its envelope lines and all whitespace removed.
pub open spec fn spec_pem_body(s: Seq<char>) -> Seq<char> {
    strip_from(s, 0, PemMode::LineStart)
}

/// Strips a PEM text down to the base64 body handed to the client:
/// the `-----BEGIN ...-----` and `-----END ...-----` lines are dropped,
/// and so is every space, carriage return and line feed.
pub fn pem_body(s: &str) -> (r: String)
    ensures
        r@ == spec_pem_body(s@),
{
    let n = s.unicode_len();
    let mut out = String::new();
    let mut mode = PemMode::LineStart;
    let mut i: usize = 0;
    while i < n
        invariant
            n == s@.len(),
            i <= n,
            spec_pem_body(s@) =~= out@ + strip_from(s@, i as int, mode),
        decreases n - i,
    {
        let c = s.get_char(i);
        if c == '\n' {
            mode = PemMode::LineStart;
        } else {
            match mode {
                PemMode::LineStart => {
                    if c == '-' {
                        mode = PemMode::Skip;
                    } else {
                        if c != ' ' && c != '\r' {
                            push_char(&mut out, c);
                        }
                        mode = PemMode::Keep;
                    }
                },
                PemMode::Keep => {
                    if c != ' ' && c != '\r' {
                        push_char(&mut out, c);
                    }
                },
                PemMode::Skip => {},
            }
        }
        i = i + 1;
    }
    assert(out@ =~= spec_pem_body(s@));
    out
}

} // verus!
