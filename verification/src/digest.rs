//! SHA-256 of a text, as the ledger writes it: 64 lower-case hexadecimal digits.

use crate::encoding::{lower_hex, to_lower_hex};
use sha2::{Digest, Sha256};
use vstd::prelude::*;
use vstd::utf8::encode_utf8;

verus! {

/// The SHA-256 digest of `bytes`. Nothing is known of it here but what
/// [`sha256_of`] says: it is what the `sha2` crate computes, and it is 32
/// bytes long.
pub uninterp spec fn sha256(bytes: Seq<u8>) -> Seq<u8>;

/// The digest of `text`'s UTF-8 bytes, in lower-case hexadecimal.
pub open spec fn hex_digest(text: Seq<char>) -> Seq<char> {
    lower_hex(sha256(encode_utf8(text)))
}

/// Calls `sha2::Sha256::digest`, which hashes the whole input in one step.
///
/// Trusted: the 32 bytes returned are the SHA-256 digest of `bytes`, a
/// function of the input alone.
#[verifier::external_body]
fn sha256_of(bytes: &[u8]) -> (digest: Vec<u8>)
    ensures
        digest@ == sha256(bytes@),
        digest@.len() == 32,
{
    Sha256::digest(bytes).to_vec()
}

/// Hashes `text` and renders the digest as 64 hexadecimal digits.
pub fn hex_digest_of(text: &str) -> (out: String)
    ensures
        out@ == hex_digest(text@),
        out@.len() == 64,
{
    let digest = sha256_of(text.as_bytes());
    to_lower_hex(digest.as_slice())
}

} // verus!
