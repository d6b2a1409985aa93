//! The two halves of a computation round trip: queueing a request and
//! accepting its result. They share no state but the auction record; the
//! request id, re-derived from the record, ties a result to its request.

use vstd::prelude::*;
use vstd::bytes::spec_u64_from_le_bytes;
use crate::bytes::{bytes32_eq, Identity};
use crate::codec::{
    compute_settlement_hash, computation_id_preimage, generate_computation_id, holds_fields_of,
    parse_arcium_result, settlement_hash_preimage, ArciumMpcResult, RESULT_LEN,
};
use crate::digest::sha256;
use crate::error::ShadowProtocolError;
use crate::state::{AuctionAccount, AuctionStatus, ProtocolState, MAX_BIDS_PER_AUCTION};

verus! {

/// One sealed bid as handed to the computation.
#[derive(Clone, Copy, Debug, PartialEq, Eq)]
pub struct EncryptedBidData {
    pub bidder: Identity,
    pub encrypted_amount: [u8; 32],
    pub nonce: [u8; 16],
    pub public_key: [u8; 32],
}

/// Emitted when a computation request is queued.
#[derive(Clone, Copy, Debug, PartialEq, Eq)]
pub struct MpcComputationQueued {
    pub auction_id: u64,
    pub computation_id: [u8; 32],
    pub bids_count: u32,
    pub mxe_cluster: Identity,
    pub gas_limit: u64,
    pub queued_at: i64,
}

/// Emitted when a computation's result is accepted.
#[derive(Clone, Copy, Debug, PartialEq, Eq)]
pub struct MpcComputationVerified {
    pub auction_id: u64,
    pub winner: Identity,
    pub winning_amount: u64,
    pub verification_hash: [u8; 32],
    pub verified_at: i64,
}

/// Why `queue_mpc_computation` rejects a call, or `None` where it accepts
/// it. `supplied` is the number of bids handed in.
pub open spec fn queue_rejection(
    auction: AuctionAccount,
    protocol: ProtocolState,
    auction_id: u64,
    bids_count: u32,
    supplied: nat,
    now: i64,
) -> Option<ShadowProtocolError> {
    if protocol.paused {
        Some(ShadowProtocolError::ProtocolPaused)
    } else if !(auction.status == AuctionStatus::Ended || (auction.status == AuctionStatus::Active
        && now >= auction.end_time)) {
        Some(ShadowProtocolError::InvalidAuctionStatus)
    } else if auction.mpc_computation_id is Some {
        Some(ShadowProtocolError::InvalidAuctionStatus)
    } else if auction.auction_id != auction_id {
        Some(ShadowProtocolError::InvalidAuctionId)
    } else if supplied != bids_count {
        Some(ShadowProtocolError::InvalidBidCount)
    } else if bids_count > MAX_BIDS_PER_AUCTION {
        Some(ShadowProtocolError::TooManyBids)
    } else {
        None
    }
}

/// The end time that a queued request is bound to: the time of queueing
/// where queueing itself ends the auction, the recorded end time otherwise.
pub open spec fn bound_end_time(auction: AuctionAccount, now: i64) -> i64 {
    if auction.status == AuctionStatus::Active {
        now
    } else {
        auction.end_time
    }
}

/// The record after a request with id `computation_id` was queued at `now`.
pub open spec fn queued_record(
    auction: AuctionAccount,
    computation_id: [u8; 32],
    mxe_cluster: Identity,
    gas_limit: u64,
    now: i64,
) -> AuctionAccount {
    AuctionAccount {
        mpc_computation_id: Some(computation_id),
        mxe_cluster: Some(mxe_cluster),
        computation_gas_limit: gas_limit,
        computation_queued_at: Some(now),
        status: AuctionStatus::Ended,
        end_time: bound_end_time(auction, now),
        ..auction
    }
}

/// Checks the guards of `queue_mpc_computation` without touching the record.
pub fn check_queue_guards(
    auction: &AuctionAccount,
    protocol: &ProtocolState,
    auction_id: u64,
    bids_count: u32,
    supplied: usize,
    now: i64,
) -> (result: Result<(), ShadowProtocolError>)
    ensures
        queue_rejection(*auction, *protocol, auction_id, bids_count, supplied as nat, now)
            == (match result {
            Ok(_) => None,
            Err(e) => Some(e),
        }),
{
    if protocol.paused {
        return Err(ShadowProtocolError::ProtocolPaused);
    }
    if !(auction.status == AuctionStatus::Ended || (auction.status == AuctionStatus::Active && now
        >= auction.end_time)) {
        return Err(ShadowProtocolError::InvalidAuctionStatus);
    }
    if auction.mpc_computation_id.is_some() {
        return Err(ShadowProtocolError::InvalidAuctionStatus);
    }
    if auction.auction_id != auction_id {
        return Err(ShadowProtocolError::InvalidAuctionId);
    }
    if supplied as u64 != bids_count as u64 {
        return Err(ShadowProtocolError::InvalidBidCount);
    }
    if bids_count > MAX_BIDS_PER_AUCTION {
        return Err(ShadowProtocolError::TooManyBids);
    }
    Ok(())
}

/// Writes a queued request into the record and builds the event that
/// announces it. An `Active` auction ends here, at `now`. The auction must
/// be one that can become `Ended`.
pub fn store_computation_request(
    auction: &mut AuctionAccount,
    computation_id: [u8; 32],
    bids_count: u32,
    mxe_cluster: Identity,
    gas_limit: u64,
    now: i64,
) -> (event: MpcComputationQueued)
    requires
        old(auction).status.may_become(AuctionStatus::Ended),
    ensures
        *final(auction) == queued_record(*old(auction), computation_id, mxe_cluster, gas_limit, now),
        event == (MpcComputationQueued {
            auction_id: old(auction).auction_id,
            computation_id,
            bids_count,
            mxe_cluster,
            gas_limit,
            queued_at: now,
        }),
{
    if auction.status == AuctionStatus::Active {
        auction.end_time = now;
    }
    auction.advance_to(AuctionStatus::Ended);
    auction.mpc_computation_id = Some(computation_id);
    auction.mxe_cluster = Some(mxe_cluster);
    auction.computation_gas_limit = gas_limit;
    auction.computation_queued_at = Some(now);
    MpcComputationQueued {
        auction_id: auction.auction_id,
        computation_id,
        bids_count,
        mxe_cluster,
        gas_limit,
        queued_at: now,
    }
}

/// Queues the computation that finds an auction's winner. Allowed on an
/// `Ended` auction, or on an `Active` one whose end time has passed, which
/// then ends at `now`; never while a request is already on record. The
/// request id is derived from the auction id and the end time as recorded
/// after the call, so that the id re-derived when the result arrives is the
/// id announced here.
pub fn queue_mpc_computation(
    auction: &mut AuctionAccount,
    protocol: &ProtocolState,
    auction_id: u64,
    bids_count: u32,
    encrypted_bids: Vec<EncryptedBidData>,
    encrypted_reserve_price: [u8; 32],
    mxe_cluster: Identity,
    gas_limit: u64,
    now: i64,
) -> (result: Result<MpcComputationQueued, ShadowProtocolError>)
    ensures
        queue_rejection(
            *old(auction),
            *protocol,
            auction_id,
            bids_count,
            encrypted_bids@.len(),
            now,
        ) == (match result {
            Ok(_) => None,
            Err(e) => Some(e),
        }),
        result is Err ==> *final(auction) == *old(auction),
        result is Ok ==> result->Ok_0.computation_id@ == sha256(
            computation_id_preimage(auction_id, bound_end_time(*old(auction), now)),
        ),
        result is Ok ==> *final(auction) == queued_record(
            *old(auction),
            result->Ok_0.computation_id,
            mxe_cluster,
            gas_limit,
            now,
        ),
        result is Ok ==> result->Ok_0 == (MpcComputationQueued {
            auction_id,
            computation_id: result->Ok_0.computation_id,
            bids_count,
            mxe_cluster,
            gas_limit,
            queued_at: now,
        }),
        result is Ok ==> final(auction).mpc_computation_id->0@ == sha256(
            computation_id_preimage(final(auction).auction_id, final(auction).end_time),
        ),
        old(auction).status.may_become(final(auction).status),
        old(auction).well_formed() ==> final(auction).well_formed(),
{
    match check_queue_guards(auction, protocol, auction_id, bids_count, encrypted_bids.len(), now) {
        Err(e) => {
            return Err(e);
        },
        Ok(_) => {},
    }
    let end_time: i64 = if auction.status == AuctionStatus::Active {
        now
    } else {
        auction.end_time
    };
    let computation_id: [u8; 32] = generate_computation_id(auction_id, end_time);
    Ok(store_computation_request(auction, computation_id, bids_count, mxe_cluster, gas_limit, now))
}

/// Why a result is turned away before it is read, or `None` where it may be
/// read. `expected_id` is the request id derived from the record.
pub open spec fn callback_guard_rejection(
    auction: AuctionAccount,
    protocol: ProtocolState,
    authority: Identity,
    computation_id: Seq<u8>,
    expected_id: Seq<u8>,
) -> Option<ShadowProtocolError> {
    if protocol.paused {
        Some(ShadowProtocolError::ProtocolPaused)
    } else if authority != protocol.authority {
        Some(ShadowProtocolError::Unauthorized)
    } else if auction.status != AuctionStatus::Ended {
        Some(ShadowProtocolError::InvalidAuctionStatus)
    } else if auction.settlement_authorized {
        Some(ShadowProtocolError::AuctionAlreadySettled)
    } else if computation_id != expected_id {
        Some(ShadowProtocolError::UnknownComputation)
    } else {
        None
    }
}

/// Why a result that was read is turned away, or `None` where it is
/// accepted. `expected_hash` is the settlement hash derived from the record
/// and the result's winner and amount.
pub open spec fn result_rejection(
    minimum_bid: u64,
    winning_amount: u64,
    verification_hash: Seq<u8>,
    expected_hash: Seq<u8>,
) -> Option<ShadowProtocolError> {
    if verification_hash != expected_hash {
        Some(ShadowProtocolError::VerificationFailed)
    } else if winning_amount == 0 || winning_amount < minimum_bid {
        Some(ShadowProtocolError::BidTooLow)
    } else {
        None
    }
}

/// The record after `parsed` was accepted at `now`: winner, amount and hash
/// are on record and settlement is authorized.
pub open spec fn authorized_record(
    auction: AuctionAccount,
    parsed: ArciumMpcResult,
    now: i64,
) -> AuctionAccount {
    AuctionAccount {
        winner: Some(parsed.winner),
        winning_amount: parsed.winning_amount,
        mpc_verification_hash: Some(parsed.verification_hash),
        settlement_authorized: true,
        settled_at: Some(now),
        ..auction
    }
}

/// Why `arcium_callback` rejects a call, or `None` where it accepts it. The
/// guards come first, then the buffer's length, then its hash, then its
/// amount.
pub open spec fn callback_rejection(
    auction: AuctionAccount,
    protocol: ProtocolState,
    authority: Identity,
    computation_id: Seq<u8>,
    result: Seq<u8>,
) -> Option<ShadowProtocolError> {
    let expected_id = sha256(computation_id_preimage(auction.auction_id, auction.end_time));
    let guard = callback_guard_rejection(auction, protocol, authority, computation_id, expected_id);
    if guard is Some {
        guard
    } else if result.len() < RESULT_LEN {
        Some(ShadowProtocolError::MalformedResult)
    } else {
        let winning_amount = spec_u64_from_le_bytes(result.subrange(32, 40));
        result_rejection(
            auction.minimum_bid,
            winning_amount,
            result.subrange(40, 72),
            sha256(
                settlement_hash_preimage(
                    auction.auction_id,
                    result.subrange(0, 32),
                    winning_amount,
                    auction.bid_count,
                    auction.end_time,
                ),
            ),
        )
    }
}

/// Checks the guards that come before a result is read.
pub fn check_callback_guards(
    auction: &AuctionAccount,
    protocol: &ProtocolState,
    authority: &Identity,
    computation_id: &[u8; 32],
    expected_id: &[u8; 32],
) -> (result: Result<(), ShadowProtocolError>)
    ensures
        callback_guard_rejection(*auction, *protocol, *authority, computation_id@, expected_id@)
            == (match result {
            Ok(_) => None,
            Err(e) => Some(e),
        }),
{
    if protocol.paused {
        return Err(ShadowProtocolError::ProtocolPaused);
    }
    if !bytes32_eq(authority, &protocol.authority) {
        return Err(ShadowProtocolError::Unauthorized);
    }
    if auction.status != AuctionStatus::Ended {
        return Err(ShadowProtocolError::InvalidAuctionStatus);
    }
    if auction.settlement_authorized {
        return Err(ShadowProtocolError::AuctionAlreadySettled);
    }
    if !bytes32_eq(computation_id, expected_id) {
        return Err(ShadowProtocolError::UnknownComputation);
    }
    Ok(())
}

/// Holds a parsed result against the hash expected of it and the auction's
/// minimum bid; where both are met, records the result and authorizes
/// settlement. No value moves here.
pub fn accept_result(
    auction: &mut AuctionAccount,
    parsed: ArciumMpcResult,
    expected_hash: &[u8; 32],
    now: i64,
) -> (result: Result<(), ShadowProtocolError>)
    ensures
        result_rejection(
            old(auction).minimum_bid,
            parsed.winning_amount,
            parsed.verification_hash@,
            expected_hash@,
        ) == (match result {
            Ok(_) => None,
            Err(e) => Some(e),
        }),
        result is Err ==> *final(auction) == *old(auction),
        result is Ok ==> *final(auction) == authorized_record(*old(auction), parsed, now),
        old(auction).well_formed() ==> final(auction).well_formed(),
{
    if !bytes32_eq(&parsed.verification_hash, expected_hash) {
        return Err(ShadowProtocolError::VerificationFailed);
    }
    if parsed.winning_amount == 0 || parsed.winning_amount < auction.minimum_bid {
        return Err(ShadowProtocolError::BidTooLow);
    }
    auction.winner = Some(parsed.winner);
    auction.winning_amount = parsed.winning_amount;
    auction.mpc_verification_hash = Some(parsed.verification_hash);
    auction.settlement_authorized = true;
    auction.settled_at = Some(now);
    Ok(())
}

/// The record after a malformed result was delivered: the auction is
/// `Cancelled`, so that it does not wait for ever for a result that will not
/// come.
pub open spec fn cancelled_record(auction: AuctionAccount) -> AuctionAccount {
    AuctionAccount { status: AuctionStatus::Cancelled, ..auction }
}

/// Accepts the result of an auction's computation. Only the protocol
/// authority may deliver it, only to an `Ended` auction that is not yet
/// authorized, and only under the request id derived from the record. The
/// result must carry the settlement hash derived from the record and from the
/// winner and amount it names, and an amount of at least the minimum bid.
/// An accepted result is recorded and authorizes settlement; the event
/// handed back repeats what was recorded.
///
/// A result that passes the guards but is shorter than its layout cancels
/// the auction, and the call fails with `MalformedResult`. Every other
/// rejection leaves the record as it was.
pub fn arcium_callback(
    auction: &mut AuctionAccount,
    protocol: &ProtocolState,
    authority: Identity,
    computation_id: [u8; 32],
    result: Vec<u8>,
    now: i64,
) -> (outcome: Result<MpcComputationVerified, ShadowProtocolError>)
    ensures
        callback_rejection(*old(auction), *protocol, authority, computation_id@, result@)
            == (match outcome {
            Ok(_) => None,
            Err(e) => Some(e),
        }),
        outcome is Err && outcome->Err_0 != ShadowProtocolError::MalformedResult ==> *final(auction)
            == *old(auction),
        outcome is Err && outcome->Err_0 == ShadowProtocolError::MalformedResult ==> *final(auction)
            == cancelled_record(*old(auction)),
        outcome is Ok ==> exists|parsed: ArciumMpcResult|
            holds_fields_of(parsed, result@) && *final(auction) == #[trigger] authorized_record(
                *old(auction),
                parsed,
                now,
            ),
        outcome is Ok ==> final(auction).settlement_authorized && final(auction).winning_amount
            >= old(auction).minimum_bid && final(auction).winning_amount > 0,
        outcome is Ok ==> Some(outcome->Ok_0.winner) == final(auction).winner && Some(
            outcome->Ok_0.verification_hash,
        ) == final(auction).mpc_verification_hash && outcome->Ok_0 == (MpcComputationVerified {
            auction_id: old(auction).auction_id,
            winner: outcome->Ok_0.winner,
            winning_amount: final(auction).winning_amount,
            verification_hash: outcome->Ok_0.verification_hash,
            verified_at: now,
        }),
        old(auction).status.may_become(final(auction).status),
        old(auction).well_formed() ==> final(auction).well_formed(),
{
    let expected_id: [u8; 32] = generate_computation_id(auction.auction_id, auction.end_time);
    match check_callback_guards(auction, protocol, &authority, &computation_id, &expected_id) {
        Err(e) => {
            return Err(e);
        },
        Ok(_) => {},
    }
    let parsed: ArciumMpcResult = match parse_arcium_result(result.as_slice()) {
        Err(e) => {
            auction.advance_to(AuctionStatus::Cancelled);
            return Err(e);
        },
        Ok(parsed) => parsed,
    };
    let expected_hash: [u8; 32] = compute_settlement_hash(
        auction.auction_id,
        parsed.winner,
        parsed.winning_amount,
        auction.bid_count,
        auction.end_time,
    );
    match accept_result(auction, parsed, &expected_hash, now) {
        Err(e) => Err(e),
        Ok(_) => Ok(
            MpcComputationVerified {
                auction_id: auction.auction_id,
                winner: parsed.winner,
                winning_amount: parsed.winning_amount,
                verification_hash: parsed.verification_hash,
                verified_at: now,
            },
        ),
    }
}

/// A request queued is a request recognised: after `queue_mpc_computation`
/// has accepted a call, the id it announced passes the id guard of
/// `arcium_callback` on the resulting record, for the protocol authority and
/// with the protocol running.
pub proof fn lemma_queued_id_is_recognised(
    auction: AuctionAccount,
    protocol: ProtocolState,
    computation_id: [u8; 32],
    mxe_cluster: Identity,
    gas_limit: u64,
    now: i64,
)
    requires
        !protocol.paused,
        !auction.settlement_authorized,
    ensures
        ({
            let queued = queued_record(auction, computation_id, mxe_cluster, gas_limit, now);
            computation_id@ == sha256(
                computation_id_preimage(auction.auction_id, bound_end_time(auction, now)),
            ) ==> callback_guard_rejection(
                queued,
                protocol,
                protocol.authority,
                computation_id@,
                sha256(computation_id_preimage(queued.auction_id, queued.end_time)),
            ) is None
        }),
{
}

/// An id derived for another auction or another end time is turned away as
/// `UnknownComputation`, unless SHA-256 maps both to one digest: with the
/// other guards met, a result passes the id guard only under the digest of
/// the record's own id and end time.
pub proof fn lemma_callback_id_is_bound(
    auction: AuctionAccount,
    protocol: ProtocolState,
    authority: Identity,
    computation_id: [u8; 32],
    result: Seq<u8>,
)
    requires
        callback_rejection(auction, protocol, authority, computation_id@, result) is None,
    ensures
        computation_id@ == sha256(computation_id_preimage(auction.auction_id, auction.end_time)),
        authority == protocol.authority,
        auction.status == AuctionStatus::Ended,
        !auction.settlement_authorized,
        !protocol.paused,
        result.len() >= RESULT_LEN,
        spec_u64_from_le_bytes(result.subrange(32, 40)) >= auction.minimum_bid,
        spec_u64_from_le_bytes(result.subrange(32, 40)) > 0,
        result.subrange(40, 72) == sha256(
            settlement_hash_preimage(
                auction.auction_id,
                result.subrange(0, 32),
                spec_u64_from_le_bytes(result.subrange(32, 40)),
                auction.bid_count,
                auction.end_time,
            ),
        ),
{
}

} // verus!
