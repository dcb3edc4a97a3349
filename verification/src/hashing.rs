//! Integrity hashing: a SHA-256 digest rendered as a lower-case hexadecimal
//! string, for the post-download corruption check. The digest is computed by
//! the `sha2` crate and the rendering by the `hex` crate, each behind one
//! trusted wrapper; everything said about the rendering is exact.
use vstd::prelude::*;
use crate::strutil::spec_hex_digit_char;

verus! {

/// The SHA-256 digest of `data`, a function of the input bytes alone.
pub uninterp spec fn sha256_of(data: Seq<u8>) -> Seq<u8>;

/// The lower-case hexadecimal rendering of bytes: two digits per byte, high
/// nibble first.
pub open spec fn spec_hex_of_bytes(b: Seq<u8>) -> Seq<char> {
    Seq::new(
        2 * b.len(),
        |i: int|
            if i % 2 == 0 {
                spec_hex_digit_char(b[i / 2] as int / 16)
            } else {
                spec_hex_digit_char(b[i / 2] as int % 16)
            },
    )
}

/// Relies on `sha2::Sha256` through the `Digest` trait (`new`, `update`,
/// `finalize`): the digest depends on the input bytes alone and is 32 bytes
/// long.
#[verifier::external_body]
fn sha256_digest(data: &[u8]) -> (r: Vec<u8>)
    ensures
        r@ == sha256_of(data@),
        r@.len() == 32,
{
    let mut hasher = <sha2::Sha256 as sha2::Digest>::new();
    sha2::Digest::update(&mut hasher, data);
    sha2::Digest::finalize(hasher).to_vec()
}

/// Relies on `hex::encode`: each input byte becomes exactly two lower-case
/// hexadecimal digits, high nibble first.
#[verifier::external_body]
fn hex_encode(data: &[u8]) -> (r: String)
    ensures
        r@ == spec_hex_of_bytes(data@),
{
    hex::encode(data)
}

/// The SHA-256 digest of `data` as a 64-digit lower-case hexadecimal string,
/// the form reported to the user for comparison against a published hash.
pub fn sha256_hex(data: &Vec<u8>) -> (r: String)
    ensures
        r@ == spec_hex_of_bytes(sha256_of(data@)),
        r@.len() == 64,
{
    let digest = sha256_digest(data.as_slice());
    hex_encode(digest.as_slice())
}

} // verus!
