//! Content digests of blobs.

use vstd::prelude::*;

verus! {

/// The 256-bit BLAKE2b hash of `data`, as `sp_io::hashing::blake2_256` computes it.
pub uninterp spec fn blake2_256(data: Seq<u8>) -> Seq<u8>;

/// Calls `sp_io::hashing::blake2_256`. The hash is a function of the bytes alone,
/// which the contract names; nothing else is claimed of it.
#[verifier::external_body]
fn hash_blake2_256(data: &[u8]) -> (out: [u8; 32])
    ensures
        out@ == blake2_256(data@),
{
    sp_io::hashing::blake2_256(data)
}

/// The digest stored beside a blob.
pub fn content_digest(blob: &Vec<u8>) -> (digest: [u8; 32])
    ensures
        digest@ == blake2_256(blob@),
{
    hash_blake2_256(blob.as_slice())
}

} // verus!
