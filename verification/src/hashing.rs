//! Content hashing: a SHA-256 digest of the raw file bytes, rendered as
//! lowercase hex for identity and deduplication.

use vstd::prelude::*;

use sha2::Digest;

use crate::hex::hex_of;

verus! {

/// The SHA-256 digest of a byte sequence; a pure function of the bytes.
pub uninterp spec fn sha256_of(b: Seq<u8>) -> Seq<u8>;

/// The lowercase hex text of the SHA-256 digest of `b`.
pub open spec fn hash_text(b: Seq<u8>) -> Seq<char> {
    hex_of(sha256_of(b))
}

/// Relies on sha2's `Sha256` through the `Digest` trait: the digest is a
/// pure function of the input bytes alone and is 32 bytes long.
#[verifier::external_body]
fn sha256_digest(b: &Vec<u8>) -> (r: Vec<u8>)
    ensures
        r@ == sha256_of(b@),
        r@.len() == 32,
{
    sha2::Sha256::digest(b.as_slice()).as_slice().to_vec()
}

/// Hash the raw file bytes: 64 characters of lowercase hex SHA-256.
pub fn hash_bytes(b: &Vec<u8>) -> (r: String)
    ensures
        r@ == hash_text(b@),
        r@.len() == 64,
{
    let d = sha256_digest(b);
    crate::hex::bytes_to_hex(&d)
}

/// Hashing is deterministic and content-addressed: identical bytes give
/// an identical hash string, whatever paths they came from.
pub proof fn lemma_hash_deterministic(b1: Seq<u8>, b2: Seq<u8>)
    requires
        b1 == b2,
    ensures
        hash_text(b1) == hash_text(b2),
{
}

} // verus!
