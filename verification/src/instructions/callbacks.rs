//! Starting the computations of the secure-computation network and taking
//! in what they report, for sealed-bid auctions, Dutch auctions and batches.
//!
//! A report is a byte buffer with fields at fixed offsets, and only the
//! protocol authority may deliver one. A report too short for its fields
//! ends the record's life: an auction becomes `Cancelled`, a batch `Failed`,
//! and the call still fails, so that the caller learns of it.

use vstd::prelude::*;
use vstd::bytes::{spec_u64_from_le_bytes, u64_from_le_bytes};
use vstd::slice::slice_subrange;
use crate::bytes::{bytes32_eq, Identity};
use crate::codec::{holds_fields_of, parse_arcium_result, ArciumMpcResult, RESULT_LEN};
use crate::error::ShadowProtocolError;
use crate::instructions::arcium_callback::cancelled_record;
use crate::state::{
    AuctionAccount, AuctionSettled, AuctionStatus, BatchSettled, BatchSettlement, BatchStatus,
    ProtocolState,
};

verus! {

/// Fewest bytes of a batch report: the count of settled auctions.
pub const BATCH_REPORT_LEN: usize = 8;

/// Why a computation may not start on an auction, or `None` where it may.
pub open spec fn computation_rejection(
    auction: AuctionAccount,
    protocol: ProtocolState,
) -> Option<ShadowProtocolError> {
    if protocol.paused {
        Some(ShadowProtocolError::ProtocolPaused)
    } else if auction.status != AuctionStatus::Ended {
        Some(ShadowProtocolError::InvalidAuctionStatus)
    } else {
        None
    }
}

/// Whether the sealed-bid computation may start: the protocol runs and the
/// auction is `Ended`.
pub fn sealed_bid_auction(
    auction: &AuctionAccount,
    protocol: &ProtocolState,
    auction_id: u64,
    computation_offset: u64,
) -> (result: Result<(), ShadowProtocolError>)
    ensures
        computation_rejection(*auction, *protocol) == (match result {
            Ok(_) => None,
            Err(e) => Some(e),
        }),
{
    if protocol.paused {
        return Err(ShadowProtocolError::ProtocolPaused);
    }
    if auction.status != AuctionStatus::Ended {
        return Err(ShadowProtocolError::InvalidAuctionStatus);
    }
    Ok(())
}

/// Why a report on an auction is not looked at, or `None` where it is: the
/// protocol must run, the protocol authority must deliver the report, and
/// the auction must be `Ended`.
pub open spec fn report_rejection(
    auction: AuctionAccount,
    protocol: ProtocolState,
    authority: Identity,
) -> Option<ShadowProtocolError> {
    if protocol.paused {
        Some(ShadowProtocolError::ProtocolPaused)
    } else if authority != protocol.authority {
        Some(ShadowProtocolError::Unauthorized)
    } else if auction.status != AuctionStatus::Ended {
        Some(ShadowProtocolError::InvalidAuctionStatus)
    } else {
        None
    }
}

/// Checks the guards that come before a report on an auction is looked at.
pub fn check_report_guards(
    auction: &AuctionAccount,
    protocol: &ProtocolState,
    authority: &Identity,
) -> (result: Result<(), ShadowProtocolError>)
    ensures
        report_rejection(*auction, *protocol, *authority) == (match result {
            Ok(_) => None,
            Err(e) => Some(e),
        }),
{
    if protocol.paused {
        return Err(ShadowProtocolError::ProtocolPaused);
    }
    if !bytes32_eq(authority, &protocol.authority) {
        return Err(ShadowProtocolError::Unauthorized);
    }
    if auction.status != AuctionStatus::Ended {
        return Err(ShadowProtocolError::InvalidAuctionStatus);
    }
    Ok(())
}

/// The record settled at `now` with the winner and amount of `parsed`.
pub open spec fn settled_by_report(
    auction: AuctionAccount,
    parsed: ArciumMpcResult,
    now: i64,
) -> AuctionAccount {
    AuctionAccount {
        winner: Some(parsed.winner),
        winning_amount: parsed.winning_amount,
        status: AuctionStatus::Settled,
        settled_at: Some(now),
        ..auction
    }
}

/// Writes the winner and amount of a report into the record and marks it
/// `Settled`.
pub(crate) fn settle_by_report(
    auction: &mut AuctionAccount,
    parsed: ArciumMpcResult,
    now: i64,
) -> (event: AuctionSettled)
    requires
        old(auction).status.may_become(AuctionStatus::Settled),
    ensures
        *final(auction) == settled_by_report(*old(auction), parsed, now),
        event == (AuctionSettled {
            auction_id: old(auction).auction_id,
            winner: Some(parsed.winner),
            winning_amount: parsed.winning_amount,
            settled_at: now,
        }),
{
    auction.winner = Some(parsed.winner);
    auction.winning_amount = parsed.winning_amount;
    auction.advance_to(AuctionStatus::Settled);
    auction.settled_at = Some(now);
    AuctionSettled {
        auction_id: auction.auction_id,
        winner: Some(parsed.winner),
        winning_amount: parsed.winning_amount,
        settled_at: now,
    }
}

/// Takes in what the sealed-bid computation reports for an `Ended` auction.
/// A report that holds the fixed layout names the winner and the amount, and
/// the auction becomes `Settled`. A shorter report makes the auction
/// `Cancelled` and fails with `MalformedResult`. While the protocol is
/// paused, from anyone but the protocol authority, or on an auction that is
/// not `Ended`, the call fails and nothing changes.
pub fn sealed_bid_auction_callback(
    auction: &mut AuctionAccount,
    protocol: &ProtocolState,
    authority: Identity,
    result_data: Vec<u8>,
    now: i64,
) -> (result: Result<AuctionSettled, ShadowProtocolError>)
    ensures
        report_rejection(*old(auction), *protocol, authority) is Some ==> result == Err::<
            AuctionSettled,
            ShadowProtocolError,
        >(report_rejection(*old(auction), *protocol, authority)->0) && *final(auction) == *old(
            auction,
        ),
        report_rejection(*old(auction), *protocol, authority) is None && result_data@.len()
            < RESULT_LEN ==> result == Err::<AuctionSettled, ShadowProtocolError>(
            ShadowProtocolError::MalformedResult,
        ) && *final(auction) == cancelled_record(*old(auction)),
        report_rejection(*old(auction), *protocol, authority) is None && result_data@.len()
            >= RESULT_LEN ==> result is Ok && exists|parsed: ArciumMpcResult|
            holds_fields_of(parsed, result_data@) && *final(auction) == #[trigger] settled_by_report(
                *old(auction),
                parsed,
                now,
            ) && result->Ok_0 == (AuctionSettled {
                auction_id: old(auction).auction_id,
                winner: Some(parsed.winner),
                winning_amount: parsed.winning_amount,
                settled_at: now,
            }),
        old(auction).status.may_become(final(auction).status),
        old(auction).well_formed() ==> final(auction).well_formed(),
{
    match check_report_guards(auction, protocol, &authority) {
        Err(e) => {
            return Err(e);
        },
        Ok(_) => {},
    }
    match parse_arcium_result(result_data.as_slice()) {
        Err(e) => {
            auction.advance_to(AuctionStatus::Cancelled);
            Err(e)
        },
        Ok(parsed) => {
            let event = settle_by_report(auction, parsed, now);
            assert(*auction == settled_by_report(*old(auction), parsed, now));
            Ok(event)
        },
    }
}

/// Whether the Dutch computation may start: the protocol runs.
pub fn dutch_auction(
    auction: &AuctionAccount,
    protocol: &ProtocolState,
    auction_id: u64,
    computation_offset: u64,
) -> (result: Result<(), ShadowProtocolError>)
    ensures
        protocol.paused ==> result == Err::<(), ShadowProtocolError>(
            ShadowProtocolError::ProtocolPaused,
        ),
        !protocol.paused ==> result == Ok::<(), ShadowProtocolError>(()),
{
    if protocol.paused {
        return Err(ShadowProtocolError::ProtocolPaused);
    }
    Ok(())
}

/// Takes in what the Dutch computation reports for an `Ended` auction. A
/// report that holds the fixed layout names the winner and the amount, and
/// the auction becomes `Settled`. A shorter report makes the auction
/// `Cancelled` and fails with `MalformedResult`. While the protocol is
/// paused, from anyone but the protocol authority, or on an auction that is
/// not `Ended`, the call fails and nothing changes.
pub fn dutch_auction_callback(
    auction: &mut AuctionAccount,
    protocol: &ProtocolState,
    authority: Identity,
    result_data: Vec<u8>,
    now: i64,
) -> (result: Result<(), ShadowProtocolError>)
    ensures
        report_rejection(*old(auction), *protocol, authority) is Some ==> result == Err::<
            (),
            ShadowProtocolError,
        >(report_rejection(*old(auction), *protocol, authority)->0) && *final(auction) == *old(
            auction,
        ),
        report_rejection(*old(auction), *protocol, authority) is None && result_data@.len()
            < RESULT_LEN ==> result == Err::<(), ShadowProtocolError>(
            ShadowProtocolError::MalformedResult,
        ) && *final(auction) == cancelled_record(*old(auction)),
        report_rejection(*old(auction), *protocol, authority) is None && result_data@.len()
            >= RESULT_LEN ==> result is Ok && exists|parsed: ArciumMpcResult|
            holds_fields_of(parsed, result_data@) && *final(auction) == #[trigger] settled_by_report(
                *old(auction),
                parsed,
                now,
            ),
        old(auction).status.may_become(final(auction).status),
        old(auction).well_formed() ==> final(auction).well_formed(),
{
    match check_report_guards(auction, protocol, &authority) {
        Err(e) => {
            return Err(e);
        },
        Ok(_) => {},
    }
    match parse_arcium_result(result_data.as_slice()) {
        Err(e) => {
            auction.advance_to(AuctionStatus::Cancelled);
            Err(e)
        },
        Ok(parsed) => {
            let _ = settle_by_report(auction, parsed, now);
            assert(*auction == settled_by_report(*old(auction), parsed, now));
            Ok(())
        },
    }
}

/// Why the batch computation may not start, or `None` where it may.
pub open spec fn batch_start_rejection(
    batch: BatchSettlement,
    protocol: ProtocolState,
) -> Option<ShadowProtocolError> {
    if protocol.paused {
        Some(ShadowProtocolError::ProtocolPaused)
    } else if batch.status != BatchStatus::Created {
        Some(ShadowProtocolError::InvalidAuctionStatus)
    } else {
        None
    }
}

/// Whether the batch computation may start: the protocol runs and the batch
/// is `Created`.
pub fn batch_settlement(
    batch: &BatchSettlement,
    protocol: &ProtocolState,
    batch_id: u64,
    computation_offset: u64,
) -> (result: Result<(), ShadowProtocolError>)
    ensures
        batch_start_rejection(*batch, *protocol) == (match result {
            Ok(_) => None,
            Err(e) => Some(e),
        }),
{
    if protocol.paused {
        return Err(ShadowProtocolError::ProtocolPaused);
    }
    if batch.status != BatchStatus::Created {
        return Err(ShadowProtocolError::InvalidAuctionStatus);
    }
    Ok(())
}

/// Why a batch report is not looked at, or `None` where it is: the protocol
/// must run, the protocol authority must deliver the report, and the batch
/// must not be `Settled` or `Failed` already.
pub open spec fn batch_report_rejection(
    batch: BatchSettlement,
    protocol: ProtocolState,
    authority: Identity,
) -> Option<ShadowProtocolError> {
    if protocol.paused {
        Some(ShadowProtocolError::ProtocolPaused)
    } else if authority != protocol.authority {
        Some(ShadowProtocolError::Unauthorized)
    } else if batch.status.is_terminal() {
        Some(ShadowProtocolError::InvalidAuctionStatus)
    } else {
        None
    }
}

/// Takes in what the batch computation reports. A report of eight bytes or
/// more carries the count of settled auctions, and the batch becomes
/// `Settled`. A shorter report makes the batch `Failed` and fails with
/// `MalformedResult`. A batch that is `Settled` or `Failed` stays as it is,
/// and so does any batch while the protocol is paused or where anyone but
/// the protocol authority delivers the report.
pub fn batch_settlement_callback(
    batch: &mut BatchSettlement,
    protocol: &ProtocolState,
    authority: Identity,
    result_data: Vec<u8>,
    now: i64,
) -> (result: Result<BatchSettled, ShadowProtocolError>)
    ensures
        batch_report_rejection(*old(batch), *protocol, authority) is Some ==> result == Err::<
            BatchSettled,
            ShadowProtocolError,
        >(batch_report_rejection(*old(batch), *protocol, authority)->0) && *final(batch) == *old(
            batch,
        ),
        batch_report_rejection(*old(batch), *protocol, authority) is None && result_data@.len()
            < BATCH_REPORT_LEN ==> result == Err::<BatchSettled, ShadowProtocolError>(
            ShadowProtocolError::MalformedResult,
        ) && *final(batch) == (BatchSettlement { status: BatchStatus::Failed, ..*old(batch) }),
        batch_report_rejection(*old(batch), *protocol, authority) is None && result_data@.len()
            >= BATCH_REPORT_LEN ==> result == Ok::<BatchSettled, ShadowProtocolError>(
            BatchSettled {
                batch_id: old(batch).batch_id,
                settled_count: spec_u64_from_le_bytes(result_data@.subrange(0, 8)),
                settled_at: now,
            },
        ) && *final(batch) == (BatchSettlement {
            status: BatchStatus::Settled,
            settled_at: Some(now),
            ..*old(batch)
        }),
        old(batch).status.may_become(final(batch).status),
        old(batch).well_formed() ==> final(batch).well_formed(),
{
    if protocol.paused {
        return Err(ShadowProtocolError::ProtocolPaused);
    }
    if !bytes32_eq(&authority, &protocol.authority) {
        return Err(ShadowProtocolError::Unauthorized);
    }
    if batch.status == BatchStatus::Settled || batch.status == BatchStatus::Failed {
        return Err(ShadowProtocolError::InvalidAuctionStatus);
    }
    if result_data.len() < BATCH_REPORT_LEN {
        batch.advance_to(BatchStatus::Failed);
        return Err(ShadowProtocolError::MalformedResult);
    }
    let settled_count: u64 = u64_from_le_bytes(slice_subrange(result_data.as_slice(), 0, 8));
    batch.advance_to(BatchStatus::Settled);
    batch.settled_at = Some(now);
    Ok(BatchSettled { batch_id: batch.batch_id, settled_count, settled_at: now })
}

} // verus!
