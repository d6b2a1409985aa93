//! The commitment codec: request ids and settlement hashes derived from an
//! auction's fields, and the parser of computation results.
//!
//! Every digest is SHA-256 over a domain tag followed by the fields in a fixed
//! order, integers in little-endian form.

use vstd::prelude::*;
use vstd::bytes::{
    spec_u64_from_le_bytes, spec_u64_to_le_bytes, u64_from_le_bytes, u64_to_le_bytes,
};
use vstd::slice::slice_subrange;
use crate::bytes::{append_bytes, Identity};
use crate::digest::{hash_bytes, sha256};
use crate::error::ShadowProtocolError;

verus! {

/// Domain tag of request ids: the ASCII text `shadow_mpc_computation`.
pub const COMPUTATION_TAG: [u8; 22] = [
    115, 104, 97, 100, 111, 119, 95, 109, 112, 99, 95, 99, 111, 109, 112, 117, 116, 97, 116,
    105, 111, 110,
];

/// Domain tag of settlement hashes: the ASCII text `shadow_settlement_verification`.
pub const SETTLEMENT_TAG: [u8; 30] = [
    115, 104, 97, 100, 111, 119, 95, 115, 101, 116, 116, 108, 101, 109, 101, 110, 116, 95, 118,
    101, 114, 105, 102, 105, 99, 97, 116, 105, 111, 110,
];

/// Length in bytes of a computation result's fixed layout: a 32-byte winner,
/// an 8-byte little-endian amount and a 32-byte verification hash.
pub const RESULT_LEN: usize = 72;

/// The eight bytes of a signed 64-bit time, little-endian, in two's complement.
pub open spec fn spec_i64_to_le_bytes(t: i64) -> Seq<u8> {
    spec_u64_to_le_bytes(t as u64)
}

/// Encodes a signed 64-bit time as eight little-endian bytes.
pub fn i64_to_le_bytes(t: i64) -> (bytes: Vec<u8>)
    ensures
        bytes@ == spec_i64_to_le_bytes(t),
        bytes@.len() == 8,
{
    u64_to_le_bytes(t as u64)
}

/// The bytes that are hashed into the request id of an auction.
pub open spec fn computation_id_preimage(auction_id: u64, end_time: i64) -> Seq<u8> {
    COMPUTATION_TAG@ + spec_u64_to_le_bytes(auction_id) + spec_i64_to_le_bytes(end_time)
}

/// The bytes that are hashed into the verification hash of a settlement.
pub open spec fn settlement_hash_preimage(
    auction_id: u64,
    winner: Seq<u8>,
    winning_amount: u64,
    bid_count: u64,
    end_time: i64,
) -> Seq<u8> {
    SETTLEMENT_TAG@ + spec_u64_to_le_bytes(auction_id) + winner + spec_u64_to_le_bytes(
        winning_amount,
    ) + spec_u64_to_le_bytes(bid_count) + spec_i64_to_le_bytes(end_time)
}

/// Derives the id of the computation request of an auction from its id and
/// end time. The id binds a request to both, so that a result cannot be
/// replayed against another auction or another end time.
pub fn generate_computation_id(auction_id: u64, end_time: i64) -> (id: [u8; 32])
    ensures
        id@ == sha256(computation_id_preimage(auction_id, end_time)),
{
    let mut data: Vec<u8> = Vec::new();
    append_bytes(&mut data, COMPUTATION_TAG.as_slice());
    append_bytes(&mut data, u64_to_le_bytes(auction_id).as_slice());
    append_bytes(&mut data, i64_to_le_bytes(end_time).as_slice());
    assert(data@ == computation_id_preimage(auction_id, end_time));
    hash_bytes(data.as_slice())
}

/// Derives the verification hash of a settlement from the auction's fields
/// and the winner and amount that a result names.
pub fn compute_settlement_hash(
    auction_id: u64,
    winner: Identity,
    winning_amount: u64,
    bid_count: u64,
    end_time: i64,
) -> (hash: [u8; 32])
    ensures
        hash@ == sha256(
            settlement_hash_preimage(auction_id, winner@, winning_amount, bid_count, end_time),
        ),
{
    let mut data: Vec<u8> = Vec::new();
    append_bytes(&mut data, SETTLEMENT_TAG.as_slice());
    append_bytes(&mut data, u64_to_le_bytes(auction_id).as_slice());
    append_bytes(&mut data, winner.as_slice());
    append_bytes(&mut data, u64_to_le_bytes(winning_amount).as_slice());
    append_bytes(&mut data, u64_to_le_bytes(bid_count).as_slice());
    append_bytes(&mut data, i64_to_le_bytes(end_time).as_slice());
    assert(data@ == settlement_hash_preimage(
        auction_id,
        winner@,
        winning_amount,
        bid_count,
        end_time,
    ));
    hash_bytes(data.as_slice())
}

/// What a computation reports: the winner, the amount the winner pays, and
/// the hash that ties both to the auction.
#[derive(Clone, Copy, Debug, PartialEq, Eq)]
pub struct ArciumMpcResult {
    pub winner: Identity,
    pub winning_amount: u64,
    pub verification_hash: [u8; 32],
}

/// The fixed layout of a computation result: winner, amount, hash.
pub open spec fn result_layout(winner: Seq<u8>, winning_amount: u64, hash: Seq<u8>) -> Seq<u8> {
    winner + spec_u64_to_le_bytes(winning_amount) + hash
}

/// Whether `parsed` holds the fields found at the fixed offsets of `buffer`.
pub open spec fn holds_fields_of(parsed: ArciumMpcResult, buffer: Seq<u8>) -> bool {
    &&& parsed.winner@ == buffer.subrange(0, 32)
    &&& parsed.winning_amount == spec_u64_from_le_bytes(buffer.subrange(32, 40))
    &&& parsed.verification_hash@ == buffer.subrange(40, 72)
}

/// Copies the 32 bytes of `src` that start at `start`.
pub(crate) fn copy32(src: &[u8], start: usize) -> (out: [u8; 32])
    requires
        start + 32 <= src@.len(),
    ensures
        out@ == src@.subrange(start as int, start + 32),
{
    let mut out: [u8; 32] = [0u8; 32];
    let len: usize = src.len();
    let mut i: usize = 0;
    while i < 32
        invariant
            i <= 32,
            len == src@.len(),
            start + 32 <= len,
            forall|j: int| 0 <= j < i ==> out@[j] == src@[start + j],
        decreases 32 - i,
    {
        out[i] = src[start + i];
        i += 1;
    }
    assert(out@ =~= src@.subrange(start as int, start + 32));
    out
}

/// Parses a computation result. A buffer shorter than the fixed layout is
/// rejected with `MalformedResult`; otherwise the three fields are read at
/// their fixed offsets and bytes beyond the layout are ignored.
pub fn parse_arcium_result(result: &[u8]) -> (parsed: Result<ArciumMpcResult, ShadowProtocolError>)
    ensures
        result@.len() < RESULT_LEN ==> parsed == Err::<ArciumMpcResult, ShadowProtocolError>(
            ShadowProtocolError::MalformedResult,
        ),
        result@.len() >= RESULT_LEN ==> parsed is Ok && holds_fields_of(parsed->Ok_0, result@),
{
    if result.len() < RESULT_LEN {
        return Err(ShadowProtocolError::MalformedResult);
    }
    let winner: [u8; 32] = copy32(result, 0);
    let winning_amount: u64 = u64_from_le_bytes(slice_subrange(result, 32, 40));
    let verification_hash: [u8; 32] = copy32(result, 40);
    Ok(ArciumMpcResult { winner, winning_amount, verification_hash })
}

/// Parsing gives back exactly what the layout holds: whatever fields were
/// laid out, and whatever bytes follow them, a result that holds the
/// buffer's fields holds those very fields.
pub proof fn lemma_parse_round_trip(
    winner: Identity,
    winning_amount: u64,
    hash: [u8; 32],
    trailing: Seq<u8>,
    parsed: ArciumMpcResult,
)
    requires
        holds_fields_of(parsed, result_layout(winner@, winning_amount, hash@) + trailing),
    ensures
        parsed.winner == winner,
        parsed.winning_amount == winning_amount,
        parsed.verification_hash == hash,
        parsed == (ArciumMpcResult { winner, winning_amount, verification_hash: hash }),
{
    vstd::bytes::lemma_auto_spec_u64_to_from_le_bytes();
    let amount_bytes = spec_u64_to_le_bytes(winning_amount);
    let buffer = result_layout(winner@, winning_amount, hash@) + trailing;
    assert(buffer.subrange(0, 32) =~= winner@);
    assert(buffer.subrange(32, 40) =~= amount_bytes);
    assert(buffer.subrange(40, 72) =~= hash@);
    assert(parsed.winner =~= winner);
    assert(parsed.verification_hash =~= hash);
}

/// The layout is 72 bytes long.
pub proof fn lemma_result_layout_len(winner: Identity, winning_amount: u64, hash: [u8; 32])
    ensures
        result_layout(winner@, winning_amount, hash@).len() == RESULT_LEN,
{
    vstd::bytes::lemma_auto_spec_u64_to_from_le_bytes();
}

/// Two times with the same encoding are the same time.
pub proof fn lemma_i64_le_bytes_injective(a: i64, b: i64)
    requires
        spec_i64_to_le_bytes(a) == spec_i64_to_le_bytes(b),
    ensures
        a == b,
{
    vstd::bytes::lemma_auto_spec_u64_to_from_le_bytes();
    let x: u64 = a as u64;
    let y: u64 = b as u64;
    assert(spec_u64_from_le_bytes(spec_u64_to_le_bytes(x)) == x);
    assert(spec_u64_from_le_bytes(spec_u64_to_le_bytes(y)) == y);
    assert(x == y);
    assert(a as u64 == b as u64 ==> a == b) by (bit_vector);
}

/// A request id is a function of the auction id and the end time: two ids
/// derived from the same pair are the same id.
pub proof fn lemma_computation_id_deterministic(
    auction_id: u64,
    end_time: i64,
    first: [u8; 32],
    second: [u8; 32],
)
    ensures
        first@ == sha256(computation_id_preimage(auction_id, end_time)) && second@ == sha256(
            computation_id_preimage(auction_id, end_time),
        ) ==> first == second,
{
    if first@ == second@ {
        assert(first =~= second);
    }
}

/// A settlement hash is a function of its five inputs: two hashes derived
/// from the same inputs are the same hash.
pub proof fn lemma_settlement_hash_deterministic(
    auction_id: u64,
    winner: Identity,
    winning_amount: u64,
    bid_count: u64,
    end_time: i64,
    first: [u8; 32],
    second: [u8; 32],
)
    ensures
        first@ == sha256(
            settlement_hash_preimage(auction_id, winner@, winning_amount, bid_count, end_time),
        ) && second@ == sha256(
            settlement_hash_preimage(auction_id, winner@, winning_amount, bid_count, end_time),
        ) ==> first == second,
{
    if first@ == second@ {
        assert(first =~= second);
    }
}

/// No two request ids are derived from the same bytes unless auction id and
/// end time agree: the encoding that is hashed loses nothing.
pub proof fn lemma_computation_id_preimage_injective(
    auction_id: u64,
    end_time: i64,
    other_auction_id: u64,
    other_end_time: i64,
)
    requires
        computation_id_preimage(auction_id, end_time) == computation_id_preimage(
            other_auction_id,
            other_end_time,
        ),
    ensures
        auction_id == other_auction_id,
        end_time == other_end_time,
{
    vstd::bytes::lemma_auto_spec_u64_to_from_le_bytes();
    let p = computation_id_preimage(auction_id, end_time);
    let q = computation_id_preimage(other_auction_id, other_end_time);
    assert(p.subrange(22, 30) =~= spec_u64_to_le_bytes(auction_id));
    assert(q.subrange(22, 30) =~= spec_u64_to_le_bytes(other_auction_id));
    assert(p.subrange(30, 38) =~= spec_i64_to_le_bytes(end_time));
    assert(q.subrange(30, 38) =~= spec_i64_to_le_bytes(other_end_time));
    assert(spec_u64_from_le_bytes(spec_u64_to_le_bytes(auction_id)) == auction_id);
    assert(spec_u64_from_le_bytes(spec_u64_to_le_bytes(other_auction_id)) == other_auction_id);
    lemma_i64_le_bytes_injective(end_time, other_end_time);
}

/// The bytes hashed into a settlement hash determine all five inputs: a
/// change to any one of them changes what is hashed. Two different inputs can
/// therefore share a hash only where SHA-256 itself collides.
pub proof fn lemma_settlement_preimage_injective(
    auction_id: u64,
    winner: Identity,
    winning_amount: u64,
    bid_count: u64,
    end_time: i64,
    other_auction_id: u64,
    other_winner: Identity,
    other_winning_amount: u64,
    other_bid_count: u64,
    other_end_time: i64,
)
    requires
        settlement_hash_preimage(auction_id, winner@, winning_amount, bid_count, end_time)
            == settlement_hash_preimage(
            other_auction_id,
            other_winner@,
            other_winning_amount,
            other_bid_count,
            other_end_time,
        ),
    ensures
        auction_id == other_auction_id,
        winner == other_winner,
        winning_amount == other_winning_amount,
        bid_count == other_bid_count,
        end_time == other_end_time,
{
    vstd::bytes::lemma_auto_spec_u64_to_from_le_bytes();
    let p = settlement_hash_preimage(auction_id, winner@, winning_amount, bid_count, end_time);
    let q = settlement_hash_preimage(
        other_auction_id,
        other_winner@,
        other_winning_amount,
        other_bid_count,
        other_end_time,
    );
    assert(p.subrange(30, 38) =~= spec_u64_to_le_bytes(auction_id));
    assert(q.subrange(30, 38) =~= spec_u64_to_le_bytes(other_auction_id));
    assert(p.subrange(38, 70) =~= winner@);
    assert(q.subrange(38, 70) =~= other_winner@);
    assert(p.subrange(70, 78) =~= spec_u64_to_le_bytes(winning_amount));
    assert(q.subrange(70, 78) =~= spec_u64_to_le_bytes(other_winning_amount));
    assert(p.subrange(78, 86) =~= spec_u64_to_le_bytes(bid_count));
    assert(q.subrange(78, 86) =~= spec_u64_to_le_bytes(other_bid_count));
    assert(p.subrange(86, 94) =~= spec_i64_to_le_bytes(end_time));
    assert(q.subrange(86, 94) =~= spec_i64_to_le_bytes(other_end_time));
    assert(spec_u64_from_le_bytes(spec_u64_to_le_bytes(auction_id)) == auction_id);
    assert(spec_u64_from_le_bytes(spec_u64_to_le_bytes(other_auction_id)) == other_auction_id);
    assert(spec_u64_from_le_bytes(spec_u64_to_le_bytes(winning_amount)) == winning_amount);
    assert(spec_u64_from_le_bytes(spec_u64_to_le_bytes(other_winning_amount))
        == other_winning_amount);
    assert(spec_u64_from_le_bytes(spec_u64_to_le_bytes(bid_count)) == bid_count);
    assert(spec_u64_from_le_bytes(spec_u64_to_le_bytes(other_bid_count)) == other_bid_count);
    assert(winner =~= other_winner);
    lemma_i64_le_bytes_injective(end_time, other_end_time);
}

} // verus!
