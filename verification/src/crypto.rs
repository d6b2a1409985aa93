//! Keys and commitments derived from an auction's context, and the sanity
//! test that every commitment passes before it is stored.
//!
//! The test is cheap and shows nothing of the encryption itself: it turns away
//! values that cannot be the output of one.

use vstd::prelude::*;
use vstd::bytes::{spec_u128_to_le_bytes, spec_u64_to_le_bytes, u128_to_le_bytes, u64_to_le_bytes};
use crate::bytes::{
    all_zero, append_bytes, bytes32_eq, count_zero_bytes, is_zero32, zero_count, Identity,
};
use crate::codec::{i64_to_le_bytes, spec_i64_to_le_bytes};
use crate::digest::{hash_bytes, sha256};
use crate::error::ShadowProtocolError;

verus! {

/// Domain tag of bid encryption keys: the ASCII text `shadow_bid_encryption_v1`.
pub const ENCRYPTION_KEY_TAG: [u8; 24] = [
    115, 104, 97, 100, 111, 119, 95, 98, 105, 100, 95, 101, 110, 99, 114, 121, 112, 116, 105,
    111, 110, 95, 118, 49,
];

/// Domain tag of auction public keys: the ASCII text `shadow_auction_pubkey_v1`.
pub const AUCTION_KEY_TAG: [u8; 24] = [
    115, 104, 97, 100, 111, 119, 95, 97, 117, 99, 116, 105, 111, 110, 95, 112, 117, 98, 107,
    101, 121, 95, 118, 49,
];

/// Domain tag of computation checks: the ASCII text `shadow_mpc_verification_v1`.
pub const VERIFICATION_TAG: [u8; 26] = [
    115, 104, 97, 100, 111, 119, 95, 109, 112, 99, 95, 118, 101, 114, 105, 102, 105, 99, 97,
    116, 105, 111, 110, 95, 118, 49,
];

/// Domain tag of bid commitments: the ASCII text `shadow_bid_commitment_v1`.
pub const COMMITMENT_TAG: [u8; 24] = [
    115, 104, 97, 100, 111, 119, 95, 98, 105, 100, 95, 99, 111, 109, 109, 105, 116, 109, 101,
    110, 116, 95, 118, 49,
];

/// Domain tag of encryption contexts: the ASCII text `shadow_auction_encryption_context_v1`.
pub const CONTEXT_TAG: [u8; 36] = [
    115, 104, 97, 100, 111, 119, 95, 97, 117, 99, 116, 105, 111, 110, 95, 101, 110, 99, 114,
    121, 112, 116, 105, 111, 110, 95, 99, 111, 110, 116, 101, 120, 116, 95, 118, 49,
];

/// Fewest non-zero bytes a 32-byte ciphertext may have, put the other way
/// round: a ciphertext with this many zero bytes or more is turned away.
pub const ZERO_BYTE_LIMIT: usize = 16;

/// The bytes hashed into the encryption key of a bid.
pub open spec fn encryption_key_preimage(
    auction_id: u64,
    bidder: Seq<u8>,
    auction_creator: Seq<u8>,
    nonce: u128,
) -> Seq<u8> {
    ENCRYPTION_KEY_TAG@ + spec_u64_to_le_bytes(auction_id) + bidder + auction_creator
        + spec_u128_to_le_bytes(nonce)
}

/// The bytes hashed into the public key of an auction.
pub open spec fn auction_key_preimage(auction_id: u64, creator: Seq<u8>, start_time: i64) -> Seq<
    u8,
> {
    AUCTION_KEY_TAG@ + spec_u64_to_le_bytes(auction_id) + creator + spec_i64_to_le_bytes(
        start_time,
    )
}

/// The bytes hashed to check a computation result against its auction.
pub open spec fn verification_preimage(
    computation_result: Seq<u8>,
    auction_id: u64,
    bid_count: u64,
    end_time: i64,
) -> Seq<u8> {
    VERIFICATION_TAG@ + spec_u64_to_le_bytes(auction_id) + spec_u64_to_le_bytes(bid_count)
        + spec_i64_to_le_bytes(end_time) + computation_result
}

/// The bytes hashed into the commitment to a bid.
pub open spec fn commitment_preimage(
    bidder: Seq<u8>,
    amount: u64,
    nonce: u128,
    auction_id: u64,
) -> Seq<u8> {
    COMMITMENT_TAG@ + bidder + spec_u64_to_le_bytes(amount) + spec_u128_to_le_bytes(nonce)
        + spec_u64_to_le_bytes(auction_id)
}

/// The bytes hashed into the encryption context of an auction.
pub open spec fn context_preimage(auction_id: u64, creator: Seq<u8>, nonce: u128) -> Seq<u8> {
    CONTEXT_TAG@ + spec_u64_to_le_bytes(auction_id) + creator + spec_u128_to_le_bytes(nonce)
}

/// Whether a commitment passes the sanity test: the nonce is not 0, the
/// public key is not all zero, and fewer than half of the ciphertext's bytes
/// are zero.
pub open spec fn commitment_is_sane(
    encrypted_data: Seq<u8>,
    public_key: Seq<u8>,
    nonce: u128,
) -> bool {
    &&& nonce > 0
    &&& !all_zero(public_key)
    &&& !all_zero(encrypted_data)
    &&& zero_count(encrypted_data, 32) < ZERO_BYTE_LIMIT
}

/// Whether the reserve price of an auction passes the sanity test, given the
/// hash of the auction's encryption context: the ciphertext is not all zero,
/// the nonce is not 0, and the ciphertext does not begin with the first
/// eight bytes of the context hash.
pub open spec fn reserve_is_sane(
    reserve_price_encrypted: Seq<u8>,
    reserve_price_nonce: u128,
    context_hash: Seq<u8>,
) -> bool {
    &&& !all_zero(reserve_price_encrypted)
    &&& reserve_price_nonce > 0
    &&& reserve_price_encrypted.subrange(0, 8) != context_hash.subrange(0, 8)
}

/// Whether the first eight bytes of two 32-byte values are the same.
pub fn same_prefix8(a: &[u8; 32], b: &[u8; 32]) -> (same: bool)
    ensures
        same == (a@.subrange(0, 8) == b@.subrange(0, 8)),
{
    let mut same: bool = true;
    let mut i: usize = 0;
    while i < 8
        invariant
            i <= 8,
            same == (forall|j: int| 0 <= j < i ==> a@[j] == b@[j]),
        decreases 8 - i,
    {
        if a[i] != b[i] {
            same = false;
        }
        i += 1;
    }
    proof {
        if same {
            assert(a@.subrange(0, 8) =~= b@.subrange(0, 8));
        } else {
            let j = choose|j: int| 0 <= j < 8 && a@[j] != b@[j];
            assert(a@.subrange(0, 8)[j] != b@.subrange(0, 8)[j]);
        }
    }
    same
}

/// Holds the reserve price of an auction against the hash of the auction's
/// encryption context.
pub fn check_reserve_encryption(
    reserve_price_encrypted: &[u8; 32],
    reserve_price_nonce: u128,
    context_hash: &[u8; 32],
) -> (result: Result<(), ShadowProtocolError>)
    ensures
        reserve_is_sane(reserve_price_encrypted@, reserve_price_nonce, context_hash@) ==> result
            == Ok::<(), ShadowProtocolError>(()),
        !reserve_is_sane(reserve_price_encrypted@, reserve_price_nonce, context_hash@) ==> result
            == Err::<(), ShadowProtocolError>(ShadowProtocolError::InvalidEncryption),
{
    if is_zero32(reserve_price_encrypted) {
        return Err(ShadowProtocolError::InvalidEncryption);
    }
    if reserve_price_nonce == 0 {
        return Err(ShadowProtocolError::InvalidEncryption);
    }
    if same_prefix8(reserve_price_encrypted, context_hash) {
        return Err(ShadowProtocolError::InvalidEncryption);
    }
    Ok(())
}

/// Key derivation and sanity checks for bids and auctions.
pub struct CryptoUtils;

impl CryptoUtils {
    /// Derives the encryption key of a bid from the auction, the bidder, the
    /// auction's creator and the bid's nonce.
    pub fn derive_encryption_key(
        auction_id: u64,
        bidder: Identity,
        auction_creator: Identity,
        nonce: u128,
    ) -> (result: Result<[u8; 32], ShadowProtocolError>)
        ensures
            result is Ok,
            result->Ok_0@ == sha256(
                encryption_key_preimage(auction_id, bidder@, auction_creator@, nonce),
            ),
    {
        let mut data: Vec<u8> = Vec::new();
        append_bytes(&mut data, ENCRYPTION_KEY_TAG.as_slice());
        append_bytes(&mut data, u64_to_le_bytes(auction_id).as_slice());
        append_bytes(&mut data, bidder.as_slice());
        append_bytes(&mut data, auction_creator.as_slice());
        append_bytes(&mut data, u128_to_le_bytes(nonce).as_slice());
        assert(data@ == encryption_key_preimage(auction_id, bidder@, auction_creator@, nonce));
        Ok(hash_bytes(data.as_slice()))
    }

    /// Whether `provided_key` is the encryption key derived from the context.
    pub fn verify_encryption_key(
        provided_key: [u8; 32],
        auction_id: u64,
        bidder: Identity,
        auction_creator: Identity,
        nonce: u128,
    ) -> (result: Result<bool, ShadowProtocolError>)
        ensures
            result == Ok::<bool, ShadowProtocolError>(
                provided_key@ == sha256(
                    encryption_key_preimage(auction_id, bidder@, auction_creator@, nonce),
                ),
            ),
    {
        match Self::derive_encryption_key(auction_id, bidder, auction_creator, nonce) {
            Ok(expected_key) => Ok(bytes32_eq(&provided_key, &expected_key)),
            Err(e) => Err(e),
        }
    }

    /// Derives the public key under which an auction's bids are computed on.
    pub fn derive_auction_public_key(auction_id: u64, creator: Identity, start_time: i64) -> (result:
        Result<[u8; 32], ShadowProtocolError>)
        ensures
            result is Ok,
            result->Ok_0@ == sha256(auction_key_preimage(auction_id, creator@, start_time)),
    {
        let mut data: Vec<u8> = Vec::new();
        append_bytes(&mut data, AUCTION_KEY_TAG.as_slice());
        append_bytes(&mut data, u64_to_le_bytes(auction_id).as_slice());
        append_bytes(&mut data, creator.as_slice());
        append_bytes(&mut data, i64_to_le_bytes(start_time).as_slice());
        assert(data@ == auction_key_preimage(auction_id, creator@, start_time));
        Ok(hash_bytes(data.as_slice()))
    }

    /// The sanity test for a bid's commitment: rejects a zero nonce, an
    /// all-zero public key, and a ciphertext of which half the bytes or more
    /// are zero. The minimum bid plays no part: the amount is sealed.
    pub fn validate_encrypted_bid(
        encrypted_data: &[u8; 32],
        public_key: &[u8; 32],
        nonce: u128,
        minimum_bid: u64,
    ) -> (result: Result<(), ShadowProtocolError>)
        ensures
            commitment_is_sane(encrypted_data@, public_key@, nonce) ==> result == Ok::<
                (),
                ShadowProtocolError,
            >(()),
            !commitment_is_sane(encrypted_data@, public_key@, nonce) ==> result == Err::<
                (),
                ShadowProtocolError,
            >(ShadowProtocolError::InvalidEncryption),
    {
        if nonce == 0 {
            return Err(ShadowProtocolError::InvalidEncryption);
        }
        if is_zero32(public_key) {
            return Err(ShadowProtocolError::InvalidEncryption);
        }
        if is_zero32(encrypted_data) {
            return Err(ShadowProtocolError::InvalidEncryption);
        }
        let zero_bytes: usize = count_zero_bytes(encrypted_data);
        if zero_bytes >= ZERO_BYTE_LIMIT {
            return Err(ShadowProtocolError::InvalidEncryption);
        }
        Ok(())
    }

    /// Whether `expected_hash` is the digest that ties `computation_result`
    /// to the auction's id, bid count and end time.
    pub fn verify_mpc_computation(
        computation_result: &[u8],
        auction_id: u64,
        bid_count: u64,
        end_time: i64,
        expected_hash: [u8; 32],
    ) -> (result: Result<bool, ShadowProtocolError>)
        ensures
            result == Ok::<bool, ShadowProtocolError>(
                expected_hash@ == sha256(
                    verification_preimage(computation_result@, auction_id, bid_count, end_time),
                ),
            ),
    {
        let mut verification_data: Vec<u8> = Vec::new();
        append_bytes(&mut verification_data, VERIFICATION_TAG.as_slice());
        append_bytes(&mut verification_data, u64_to_le_bytes(auction_id).as_slice());
        append_bytes(&mut verification_data, u64_to_le_bytes(bid_count).as_slice());
        append_bytes(&mut verification_data, i64_to_le_bytes(end_time).as_slice());
        append_bytes(&mut verification_data, computation_result);
        assert(verification_data@ == verification_preimage(
            computation_result@,
            auction_id,
            bid_count,
            end_time,
        ));
        let computed_hash: [u8; 32] = hash_bytes(verification_data.as_slice());
        Ok(bytes32_eq(&computed_hash, &expected_hash))
    }

    /// Derives the commitment to a bid of `amount` by `bidder`.
    pub fn generate_bid_commitment(bidder: Identity, amount: u64, nonce: u128, auction_id: u64) -> (result:
        Result<[u8; 32], ShadowProtocolError>)
        ensures
            result is Ok,
            result->Ok_0@ == sha256(commitment_preimage(bidder@, amount, nonce, auction_id)),
    {
        let mut data: Vec<u8> = Vec::new();
        append_bytes(&mut data, COMMITMENT_TAG.as_slice());
        append_bytes(&mut data, bidder.as_slice());
        append_bytes(&mut data, u64_to_le_bytes(amount).as_slice());
        append_bytes(&mut data, u128_to_le_bytes(nonce).as_slice());
        append_bytes(&mut data, u64_to_le_bytes(auction_id).as_slice());
        assert(data@ == commitment_preimage(bidder@, amount, nonce, auction_id));
        Ok(hash_bytes(data.as_slice()))
    }

    /// The sanity test for an auction's sealed reserve price: rejects an
    /// all-zero ciphertext, a zero nonce, and a ciphertext that begins with
    /// the first eight bytes of the hash of the auction's encryption context,
    /// which would be the context itself and no encryption of anything.
    pub fn validate_auction_encryption(
        reserve_price_encrypted: &[u8; 32],
        reserve_price_nonce: u128,
        creator: Identity,
        auction_id: u64,
    ) -> (result: Result<(), ShadowProtocolError>)
        ensures
            ({
                let context_hash = sha256(
                    sha256(context_preimage(auction_id, creator@, reserve_price_nonce)),
                );
                &&& reserve_is_sane(reserve_price_encrypted@, reserve_price_nonce, context_hash)
                    ==> result == Ok::<(), ShadowProtocolError>(())
                &&& !reserve_is_sane(reserve_price_encrypted@, reserve_price_nonce, context_hash)
                    ==> result == Err::<(), ShadowProtocolError>(
                    ShadowProtocolError::InvalidEncryption,
                )
            }),
    {
        let expected_context: [u8; 32] = Self::derive_auction_encryption_context(
            auction_id,
            creator,
            reserve_price_nonce,
        );
        let context_hash: [u8; 32] = Self::hash_encryption_context(&expected_context);
        check_reserve_encryption(reserve_price_encrypted, reserve_price_nonce, &context_hash)
    }

    /// Derives the encryption context of an auction.
    pub fn derive_auction_encryption_context(auction_id: u64, creator: Identity, nonce: u128) -> (context:
        [u8; 32])
        ensures
            context@ == sha256(context_preimage(auction_id, creator@, nonce)),
    {
        let mut data: Vec<u8> = Vec::new();
        append_bytes(&mut data, CONTEXT_TAG.as_slice());
        append_bytes(&mut data, u64_to_le_bytes(auction_id).as_slice());
        append_bytes(&mut data, creator.as_slice());
        append_bytes(&mut data, u128_to_le_bytes(nonce).as_slice());
        assert(data@ == context_preimage(auction_id, creator@, nonce));
        hash_bytes(data.as_slice())
    }

    /// Hashes an encryption context.
    pub fn hash_encryption_context(context: &[u8; 32]) -> (hash: [u8; 32])
        ensures
            hash@ == sha256(context@),
    {
        hash_bytes(context.as_slice())
    }
}

} // verus!
