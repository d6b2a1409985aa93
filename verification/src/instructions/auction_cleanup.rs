//! Cleaning up after auctions that are settled or long over, so that their
//! storage can be reclaimed.

use vstd::prelude::*;
use crate::bytes::{bytes32_eq, Identity};
use crate::error::ShadowProtocolError;
use crate::state::{AuctionAccount, AuctionStatus, ProtocolState};

verus! {

/// Seconds that must pass after an auction's end before an auction that was
/// not settled may be cleaned up: 24 hours.
pub const CLEANUP_GRACE_PERIOD: i64 = 24 * 60 * 60;

/// Most auctions or bids one cleanup call may name.
pub const MAX_CLEANUP_BATCH_SIZE: usize = 5;

/// A record of one batch cleanup.
#[derive(Clone, Debug, PartialEq, Eq)]
pub struct CleanupBatch {
    pub creator: Identity,
    pub auction_ids: Vec<u64>,
    pub processed_at: i64,
    pub bump: u8,
}

/// What the caller of a cleanup has to do with the escrow vault.
#[derive(Clone, Copy, Debug, PartialEq, Eq)]
pub struct CleanupActions {
    /// Amount to move from the vault back to the auction's creator; 0 for none.
    pub refund_to_creator: u64,
    /// Whether to close the vault, which was found empty.
    pub close_vault: bool,
}

/// Whether the grace period after the auction's end has passed at `now`.
pub open spec fn grace_period_over(auction: AuctionAccount, now: i64) -> bool {
    now >= auction.end_time + CLEANUP_GRACE_PERIOD
}

/// Decides `grace_period_over`. An end so late that its grace period ends
/// beyond the last representable time is never over.
pub fn is_expired(auction: &AuctionAccount, now: i64) -> (expired: bool)
    ensures
        expired == grace_period_over(*auction, now),
{
    match auction.end_time.checked_add(CLEANUP_GRACE_PERIOD) {
        Some(deadline) => now >= deadline,
        None => false,
    }
}

/// Why `cleanup_expired_auction` rejects a call, or `None` where it accepts it.
pub open spec fn cleanup_rejection(
    auction: AuctionAccount,
    protocol: ProtocolState,
    auction_id: u64,
    now: i64,
) -> Option<ShadowProtocolError> {
    if protocol.paused {
        Some(ShadowProtocolError::ProtocolPaused)
    } else if auction.auction_id != auction_id {
        Some(ShadowProtocolError::InvalidAuctionId)
    } else if auction.status != AuctionStatus::Settled && !grace_period_over(auction, now) {
        Some(ShadowProtocolError::AuctionNotEnded)
    } else {
        None
    }
}

/// What a cleanup does with a vault that holds `vault_amount`: an auction
/// that was never settled has what is left in escrow returned to its
/// creator, and an empty vault is closed.
pub open spec fn cleanup_actions(auction: AuctionAccount, vault_amount: u64) -> CleanupActions {
    CleanupActions {
        refund_to_creator: if auction.status != AuctionStatus::Settled {
            vault_amount
        } else {
            0
        },
        close_vault: vault_amount == 0,
    }
}

/// Cleans up an auction that is `Settled`, or whose grace period is over
/// whatever became of it. The auction becomes `Cancelled`; the result says
/// what to do with the escrow vault, which holds `vault_amount`.
pub fn cleanup_expired_auction(
    auction: &mut AuctionAccount,
    protocol: &ProtocolState,
    auction_id: u64,
    vault_amount: u64,
    now: i64,
) -> (result: Result<CleanupActions, ShadowProtocolError>)
    ensures
        cleanup_rejection(*old(auction), *protocol, auction_id, now) == (match result {
            Ok(_) => None,
            Err(e) => Some(e),
        }),
        result is Err ==> *final(auction) == *old(auction),
        result is Ok ==> *final(auction) == (AuctionAccount {
            status: AuctionStatus::Cancelled,
            ..*old(auction)
        }),
        result is Ok ==> result->Ok_0 == cleanup_actions(*old(auction), vault_amount),
        old(auction).status.may_become(final(auction).status),
        old(auction).well_formed() ==> final(auction).well_formed(),
{
    if protocol.paused {
        return Err(ShadowProtocolError::ProtocolPaused);
    }
    if auction.auction_id != auction_id {
        return Err(ShadowProtocolError::InvalidAuctionId);
    }
    let is_settled: bool = auction.status == AuctionStatus::Settled;
    let expired: bool = is_expired(auction, now);
    if !(is_settled || expired) {
        return Err(ShadowProtocolError::AuctionNotEnded);
    }
    let refund_to_creator: u64 = if !is_settled {
        vault_amount
    } else {
        0
    };
    let close_vault: bool = vault_amount == 0;
    auction.advance_to(AuctionStatus::Cancelled);
    Ok(CleanupActions { refund_to_creator, close_vault })
}

/// Why `cleanup_expired_bids` rejects a call, or `None` where it accepts it.
pub open spec fn bid_cleanup_rejection(
    auction: AuctionAccount,
    protocol: ProtocolState,
    auction_id: u64,
    named: nat,
    now: i64,
) -> Option<ShadowProtocolError> {
    if protocol.paused {
        Some(ShadowProtocolError::ProtocolPaused)
    } else if auction.auction_id != auction_id {
        Some(ShadowProtocolError::InvalidAuctionId)
    } else if named > MAX_CLEANUP_BATCH_SIZE {
        Some(ShadowProtocolError::InvalidBatchSize)
    } else if auction.status != AuctionStatus::Settled && auction.status
        != AuctionStatus::Cancelled && !grace_period_over(auction, now) {
        Some(ShadowProtocolError::AuctionNotEnded)
    } else {
        None
    }
}

/// Whether the bids named by `bid_indices` may be cleaned up: at most five
/// at a time, of an auction that is `Settled` or `Cancelled` or whose grace
/// period is over.
pub fn cleanup_expired_bids(
    auction: &AuctionAccount,
    protocol: &ProtocolState,
    auction_id: u64,
    bid_indices: Vec<u64>,
    now: i64,
) -> (result: Result<(), ShadowProtocolError>)
    ensures
        bid_cleanup_rejection(*auction, *protocol, auction_id, bid_indices@.len(), now)
            == (match result {
            Ok(_) => None,
            Err(e) => Some(e),
        }),
{
    if protocol.paused {
        return Err(ShadowProtocolError::ProtocolPaused);
    }
    if auction.auction_id != auction_id {
        return Err(ShadowProtocolError::InvalidAuctionId);
    }
    if bid_indices.len() > MAX_CLEANUP_BATCH_SIZE {
        return Err(ShadowProtocolError::InvalidBatchSize);
    }
    let is_cleanup_eligible: bool = auction.status == AuctionStatus::Settled || auction.status
        == AuctionStatus::Cancelled || is_expired(auction, now);
    if !is_cleanup_eligible {
        return Err(ShadowProtocolError::AuctionNotEnded);
    }
    Ok(())
}

/// Opens the record of a batch cleanup over one to five auctions.
pub fn batch_cleanup_auctions(
    protocol: &ProtocolState,
    cleaner: Identity,
    auction_ids: Vec<u64>,
    now: i64,
    bump: u8,
) -> (result: Result<CleanupBatch, ShadowProtocolError>)
    ensures
        protocol.paused ==> result == Err::<CleanupBatch, ShadowProtocolError>(
            ShadowProtocolError::ProtocolPaused,
        ),
        !protocol.paused && !(0 < auction_ids@.len() <= MAX_CLEANUP_BATCH_SIZE) ==> result
            == Err::<CleanupBatch, ShadowProtocolError>(ShadowProtocolError::InvalidBatchSize),
        !protocol.paused && 0 < auction_ids@.len() <= MAX_CLEANUP_BATCH_SIZE ==> result == Ok::<
            CleanupBatch,
            ShadowProtocolError,
        >(CleanupBatch { creator: cleaner, auction_ids, processed_at: now, bump }),
{
    if protocol.paused {
        return Err(ShadowProtocolError::ProtocolPaused);
    }
    if auction_ids.len() > MAX_CLEANUP_BATCH_SIZE {
        return Err(ShadowProtocolError::InvalidBatchSize);
    }
    if auction_ids.len() == 0 {
        return Err(ShadowProtocolError::InvalidBatchSize);
    }
    Ok(CleanupBatch { creator: cleaner, auction_ids, processed_at: now, bump })
}

/// Whether `authority` may reclaim storage: only the protocol authority may.
pub fn reclaim_storage(protocol: &ProtocolState, authority: Identity) -> (result: Result<
    (),
    ShadowProtocolError,
>)
    ensures
        authority == protocol.authority ==> result == Ok::<(), ShadowProtocolError>(()),
        authority != protocol.authority ==> result == Err::<(), ShadowProtocolError>(
            ShadowProtocolError::Unauthorized,
        ),
{
    if !bytes32_eq(&authority, &protocol.authority) {
        return Err(ShadowProtocolError::Unauthorized);
    }
    Ok(())
}

} // verus!
