//! Credential encoding for the solar-inverter cloud login.
//!
//! The provider's login endpoint expects a composite credential string built
//! as `lowercase-hex(MD5(password)) + "." + base64(SHA-256(password))`. The
//! two digests come from outside crates behind trusted wrappers; the hex
//! rendering and the final assembly are verified here.

use vstd::prelude::*;
use vstd::string::StringSliceAdditionalSpecFns;
use crate::strutil::digit_char;
use crate::strutil::digit_str;

verus! {

/// The 16-byte MD5 digest of a byte sequence.
pub uninterp spec fn md5_of(data: Seq<u8>) -> Seq<u8>;

/// The 32-byte SHA-256 digest of a byte sequence.
pub uninterp spec fn sha256_of(data: Seq<u8>) -> Seq<u8>;

/// The standard (padded) base64 encoding of a byte sequence.
pub uninterp spec fn base64_of(data: Seq<u8>) -> Seq<char>;

/// Relies on `md5::compute`: the MD5 digest is 16 bytes and depends on the
/// input bytes alone.
#[verifier::external_body]
fn md5_digest(data: &[u8]) -> (r: Vec<u8>)
    ensures
        r@ == md5_of(data@),
        r@.len() == 16,
{
    md5::compute(data).0.to_vec()
}

/// Relies on `sha2::Sha256` (through the `Digest` trait): the SHA-256 digest
/// is 32 bytes and depends on the input bytes alone.
#[verifier::external_body]
fn sha256_digest(data: &[u8]) -> (r: Vec<u8>)
    ensures
        r@ == sha256_of(data@),
        r@.len() == 32,
{
    <sha2::Sha256 as sha2::Digest>::digest(data).to_vec()
}

/// Relies on the `base64` crate's `STANDARD` engine: the encoding depends on
/// the input bytes alone, and an empty input encodes to the empty string.
#[verifier::external_body]
fn base64_encode(data: &Vec<u8>) -> (r: String)
    ensures
        r@ == base64_of(data@),
        data@.len() == 0 ==> r@.len() == 0,
{
    base64::Engine::encode(&base64::engine::general_purpose::STANDARD, data.as_slice())
}

/// The lower-case hex rendering of a byte sequence: two digits per byte,
/// high nibble first.
pub open spec fn hex_seq(data: Seq<u8>) -> Seq<char>
    decreases data.len(),
{
    if data.len() == 0 {
        Seq::<char>::empty()
    } else {
        hex_seq(data.drop_last()) + seq![
            digit_char(data.last() as int / 16),
            digit_char(data.last() as int % 16),
        ]
    }
}

/// Render a byte sequence as lower-case hex, two digits per byte.
pub fn to_lower_hex(data: &Vec<u8>) -> (r: String)
    ensures
        r@ == hex_seq(data@),
{
    let mut out = String::new();
    let mut i: usize = 0;
    while i < data.len()
        invariant
            i <= data@.len(),
            out@ == hex_seq(data@.take(i as int)),
        decreases data@.len() - i,
    {
        let b = data[i];
        out.append(digit_str(b / 16));
        out.append(digit_str(b % 16));
        proof {
            assert(data@.take(i + 1).drop_last() =~= data@.take(i as int));
            assert(data@.take(i + 1).last() == data@[i as int]);
        }
        i = i + 1;
    }
    proof {
        assert(data@.take(data@.len() as int) =~= data@);
    }
    out
}

/// The composite credential string the provider's login step expects:
/// lower-case hex of the MD5 digest, a dot, then base64 of the SHA-256
/// digest, all over the password's UTF-8 bytes.
pub open spec fn spec_encode_password(password: Seq<u8>) -> Seq<char> {
    hex_seq(md5_of(password)) + seq!['.'] + base64_of(sha256_of(password))
}

/// Build the composite login credential for a password, bit for bit as the
/// provider requires: `hex(MD5(password)) + "." + base64(SHA256(password))`.
pub fn encode_password(password: &str) -> (r: String)
    ensures
        r@ == spec_encode_password(password.spec_bytes()),
{
    let bytes = password.as_bytes();
    let md5d = md5_digest(bytes);
    let mut out = to_lower_hex(&md5d);
    proof {
        reveal_strlit(".");
    }
    out.append(".");
    let shad = sha256_digest(bytes);
    let b64 = base64_encode(&shad);
    out.append(b64.as_str());
    out
}

/// The encoding is deterministic: equal password bytes always yield the same
/// composite credential, byte for byte.
pub proof fn lemma_encode_password_deterministic(a: Seq<u8>, b: Seq<u8>)
    requires
        a == b,
    ensures
        spec_encode_password(a) == spec_encode_password(b),
{
}

} // verus!
