//! SHA-256 digests of byte strings.

use vstd::prelude::*;

verus! {

/// The SHA-256 digest of `data`, as 32 bytes.
pub uninterp spec fn sha256(data: Seq<u8>) -> Seq<u8>;

/// Hashes `data` with `anchor_lang::solana_program::hash::hash` and hands the
/// digest out as bytes. The contract claims only that the result is the
/// SHA-256 digest of the input; nothing about the digest's value is proved.
#[verifier::external_body]
pub(crate) fn hash_bytes(data: &[u8]) -> (digest: [u8; 32])
    ensures
        digest@ == sha256(data@),
{
    anchor_lang::solana_program::hash::hash(data).to_bytes()
}

/// Digest of the bytes held in `data`.
pub fn digest_of(data: &Vec<u8>) -> (digest: [u8; 32])
    ensures
        digest@ == sha256(data@),
{
    hash_bytes(data.as_slice())
}

} // verus!
