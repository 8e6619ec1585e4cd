//! Content hashing: SHA-256 digests and their lowercase hex encoding.

use sha2::Digest;
use vstd::prelude::*;

use crate::strutil::spec_hex_char;

verus! {

/// SHA-256 digest of a byte sequence. The outside crate computes it; it
/// depends on the bytes alone.
pub uninterp spec fn spec_sha256(data: Seq<u8>) -> Seq<u8>;

/// Lowercase hex encoding: two digits per byte, high nibble first.
pub open spec fn spec_hex_of(b: Seq<u8>) -> Seq<char>
    decreases b.len(),
{
    if b.len() == 0 {
        Seq::empty()
    } else {
        spec_hex_of(b.drop_last()) + seq![
            spec_hex_char(b.last() as int / 16),
            spec_hex_char(b.last() as int % 16),
        ]
    }
}

/// The hex encoding is twice as long as its input.
pub proof fn lemma_hex_of_len(b: Seq<u8>)
    ensures
        spec_hex_of(b).len() == 2 * b.len(),
    decreases b.len(),
{
    if b.len() > 0 {
        lemma_hex_of_len(b.drop_last());
    }
}

/// Relies on sha2::Sha256 (Digest::new, update, finalize): the digest is 32
/// bytes and depends on the input bytes alone.
#[verifier::external_body]
fn sha256_digest(data: &[u8]) -> (r: Vec<u8>)
    ensures
        r@ == spec_sha256(data@),
        r@.len() == 32,
{
    let mut hasher = sha2::Sha256::new();
    hasher.update(data);
    hasher.finalize().to_vec()
}

/// Relies on hex::encode: two lowercase hex digits per input byte, high
/// nibble first, in input order.
#[verifier::external_body]
fn hex_encode(data: &[u8]) -> (r: String)
    ensures
        r@ == spec_hex_of(data@),
{
    hex::encode(data)
}

/// Result of hashing a frame: the lowercase hex encoding of its SHA-256
/// digest.
#[derive(Debug, Clone)]
pub struct AtomicHashResult {
    pub sha256_hex: String,
}

/// Hashes a byte slice into the hex form of its SHA-256 digest.
pub fn hash_bytes(data: &[u8]) -> (r: AtomicHashResult)
    ensures
        r.sha256_hex@ == spec_hex_of(spec_sha256(data@)),
        r.sha256_hex@.len() == 64,
{
    let digest = sha256_digest(data);
    let sha256_hex = hex_encode(digest.as_slice());
    proof {
        lemma_hex_of_len(spec_sha256(data@));
    }
    AtomicHashResult { sha256_hex }
}

/// Hashes a whole frame buffer into the hex form of its SHA-256 digest.
pub fn hash_frame_bytes(frame_bytes: Vec<u8>) -> (r: AtomicHashResult)
    ensures
        r.sha256_hex@ == spec_hex_of(spec_sha256(frame_bytes@)),
        r.sha256_hex@.len() == 64,
{
    hash_bytes(frame_bytes.as_slice())
}

} // verus!
