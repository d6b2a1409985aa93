//! Creating auctions.

use vstd::prelude::*;
use crate::bytes::Identity;
use crate::error::ShadowProtocolError;
use crate::state::{AuctionAccount, AuctionStatus, AuctionType, ProtocolState};

verus! {

/// Why an auction cannot be created, or `None` where it can: the protocol
/// must run, and the auction must end after it starts, at a time that a
/// signed 64-bit number of seconds can hold.
pub open spec fn creation_rejection(
    protocol: ProtocolState,
    duration: u64,
    now: i64,
) -> Option<ShadowProtocolError> {
    if protocol.paused {
        Some(ShadowProtocolError::ProtocolPaused)
    } else if duration == 0 {
        Some(ShadowProtocolError::InvalidDuration)
    } else if now + duration > i64::MAX {
        Some(ShadowProtocolError::ArithmeticOverflow)
    } else {
        None
    }
}

/// The record of an auction created at `now`: `Active` from `now` until
/// `now + duration`, with no bids, no computation and no winner.
pub open spec fn new_auction(
    auction_id: u64,
    creator: Identity,
    asset_mint: Identity,
    asset_amount: u64,
    auction_type: AuctionType,
    minimum_bid: u64,
    reserve_price_encrypted: [u8; 32],
    reserve_price_nonce: u128,
    starting_price: u64,
    price_decrease_rate: u64,
    minimum_price_floor: u64,
    duration: u64,
    now: i64,
    bump: u8,
) -> AuctionAccount {
    AuctionAccount {
        auction_id,
        creator,
        asset_mint,
        asset_amount,
        auction_type,
        minimum_bid,
        reserve_price_encrypted,
        reserve_price_nonce,
        starting_price,
        price_decrease_rate,
        minimum_price_floor,
        start_time: now,
        end_time: (now + duration) as i64,
        created_at: now,
        status: AuctionStatus::Active,
        bid_count: 0,
        mpc_computation_id: None,
        mxe_cluster: None,
        computation_gas_limit: 0,
        computation_queued_at: None,
        winner: None,
        winning_amount: 0,
        mpc_verification_hash: None,
        settlement_authorized: false,
        settled_at: None,
        bump,
    }
}

/// The time at which an auction that starts at `now` and runs for
/// `duration` seconds ends, where that time can be held.
pub fn end_time_for(duration: u64, now: i64) -> (end_time: Option<i64>)
    ensures
        now + duration > i64::MAX ==> end_time is None,
        now + duration <= i64::MAX ==> end_time == Some((now + duration) as i64),
{
    let sum: i128 = now as i128 + duration as i128;
    if sum > i64::MAX as i128 {
        None
    } else {
        Some(sum as i64)
    }
}

/// Creates a sealed-bid auction that is `Active` from `now` on.
pub fn create_sealed_auction(
    protocol: &ProtocolState,
    auction_id: u64,
    creator: Identity,
    asset_mint: Identity,
    asset_amount: u64,
    duration: u64,
    minimum_bid: u64,
    reserve_price_encrypted: [u8; 32],
    reserve_price_nonce: u128,
    now: i64,
    bump: u8,
) -> (result: Result<AuctionAccount, ShadowProtocolError>)
    ensures
        creation_rejection(*protocol, duration, now) == (match result {
            Ok(_) => None,
            Err(e) => Some(e),
        }),
        result is Ok ==> result->Ok_0 == new_auction(
            auction_id,
            creator,
            asset_mint,
            asset_amount,
            AuctionType::SealedBid,
            minimum_bid,
            reserve_price_encrypted,
            reserve_price_nonce,
            0,
            0,
            0,
            duration,
            now,
            bump,
        ),
        result is Ok ==> result->Ok_0.well_formed(),
{
    if protocol.paused {
        return Err(ShadowProtocolError::ProtocolPaused);
    }
    if duration == 0 {
        return Err(ShadowProtocolError::InvalidDuration);
    }
    let end_time: i64 = match end_time_for(duration, now) {
        Some(end_time) => end_time,
        None => {
            return Err(ShadowProtocolError::ArithmeticOverflow);
        },
    };
    Ok(
        AuctionAccount {
            auction_id,
            creator,
            asset_mint,
            asset_amount,
            auction_type: AuctionType::SealedBid,
            minimum_bid,
            reserve_price_encrypted,
            reserve_price_nonce,
            starting_price: 0,
            price_decrease_rate: 0,
            minimum_price_floor: 0,
            start_time: now,
            end_time,
            created_at: now,
            status: AuctionStatus::Active,
            bid_count: 0,
            mpc_computation_id: None,
            mxe_cluster: None,
            computation_gas_limit: 0,
            computation_queued_at: None,
            winner: None,
            winning_amount: 0,
            mpc_verification_hash: None,
            settlement_authorized: false,
            settled_at: None,
            bump,
        },
    )
}

/// Creates a Dutch auction that is `Active` from `now` on. Its price starts
/// at `starting_price`, falls by `price_decrease_rate` each second and stops
/// at `minimum_price_floor`, which is also its minimum bid.
pub fn create_dutch_auction(
    protocol: &ProtocolState,
    auction_id: u64,
    creator: Identity,
    asset_mint: Identity,
    asset_amount: u64,
    starting_price: u64,
    price_decrease_rate: u64,
    minimum_price_floor: u64,
    duration: u64,
    reserve_price_encrypted: [u8; 32],
    reserve_price_nonce: u128,
    now: i64,
    bump: u8,
) -> (result: Result<AuctionAccount, ShadowProtocolError>)
    ensures
        creation_rejection(*protocol, duration, now) == (match result {
            Ok(_) => None,
            Err(e) => Some(e),
        }),
        result is Ok ==> result->Ok_0 == new_auction(
            auction_id,
            creator,
            asset_mint,
            asset_amount,
            AuctionType::Dutch,
            minimum_price_floor,
            reserve_price_encrypted,
            reserve_price_nonce,
            starting_price,
            price_decrease_rate,
            minimum_price_floor,
            duration,
            now,
            bump,
        ),
        result is Ok ==> result->Ok_0.well_formed(),
{
    if protocol.paused {
        return Err(ShadowProtocolError::ProtocolPaused);
    }
    if duration == 0 {
        return Err(ShadowProtocolError::InvalidDuration);
    }
    let end_time: i64 = match end_time_for(duration, now) {
        Some(end_time) => end_time,
        None => {
            return Err(ShadowProtocolError::ArithmeticOverflow);
        },
    };
    Ok(
        AuctionAccount {
            auction_id,
            creator,
            asset_mint,
            asset_amount,
            auction_type: AuctionType::Dutch,
            minimum_bid: minimum_price_floor,
            reserve_price_encrypted,
            reserve_price_nonce,
            starting_price,
            price_decrease_rate,
            minimum_price_floor,
            start_time: now,
            end_time,
            created_at: now,
            status: AuctionStatus::Active,
            bid_count: 0,
            mpc_computation_id: None,
            mxe_cluster: None,
            computation_gas_limit: 0,
            computation_queued_at: None,
            winner: None,
            winning_amount: 0,
            mpc_verification_hash: None,
            settlement_authorized: false,
            settled_at: None,
            bump,
        },
    )
}

} // verus!
