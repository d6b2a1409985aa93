//! Taking bids: sealed commitments for sealed-bid auctions, open bids
//! against the falling price for Dutch auctions.

use vstd::prelude::*;
use crate::bytes::{all_zero, is_zero32, Identity};
use crate::crypto::{commitment_is_sane, CryptoUtils};
use crate::error::ShadowProtocolError;
use crate::pricing::{decayed_price, price_at};
use crate::state::{
    AuctionAccount, AuctionStatus, AuctionType, BidCommitment, ProtocolState,
    MAX_BIDS_PER_AUCTION,
};

verus! {

/// Why an auction takes no bid of kind `auction_type` at `now`, or `None`
/// where it takes one: the protocol must run, the bid must name the auction,
/// and the auction must be of that kind, `Active`, started and not yet over.
pub open spec fn bidding_rejection(
    auction: AuctionAccount,
    protocol: ProtocolState,
    auction_id: u64,
    auction_type: AuctionType,
    now: i64,
) -> Option<ShadowProtocolError> {
    if protocol.paused {
        Some(ShadowProtocolError::ProtocolPaused)
    } else if auction.auction_id != auction_id {
        Some(ShadowProtocolError::InvalidAuctionId)
    } else if auction.status != AuctionStatus::Active || auction.auction_type != auction_type {
        Some(ShadowProtocolError::InvalidAuctionStatus)
    } else if now < auction.start_time || now >= auction.end_time {
        Some(ShadowProtocolError::InvalidAuctionStatus)
    } else {
        None
    }
}

/// Checks the guards that every bid passes, without touching the record.
pub fn check_bidding_open(
    auction: &AuctionAccount,
    protocol: &ProtocolState,
    auction_id: u64,
    auction_type: AuctionType,
    now: i64,
) -> (result: Result<(), ShadowProtocolError>)
    ensures
        bidding_rejection(*auction, *protocol, auction_id, auction_type, now) == (match result {
            Ok(_) => None,
            Err(e) => Some(e),
        }),
{
    if protocol.paused {
        return Err(ShadowProtocolError::ProtocolPaused);
    }
    if auction.auction_id != auction_id {
        return Err(ShadowProtocolError::InvalidAuctionId);
    }
    if auction.status != AuctionStatus::Active || auction.auction_type != auction_type {
        return Err(ShadowProtocolError::InvalidAuctionStatus);
    }
    if now < auction.start_time || now >= auction.end_time {
        return Err(ShadowProtocolError::InvalidAuctionStatus);
    }
    Ok(())
}

/// Why `submit_encrypted_bid` rejects a call, or `None` where it accepts it.
pub open spec fn sealed_bid_rejection(
    auction: AuctionAccount,
    protocol: ProtocolState,
    auction_id: u64,
    bid_amount_encrypted: Seq<u8>,
    public_key: Seq<u8>,
    nonce: u128,
    now: i64,
) -> Option<ShadowProtocolError> {
    let closed = bidding_rejection(auction, protocol, auction_id, AuctionType::SealedBid, now);
    if closed is Some {
        closed
    } else if auction.bid_count >= MAX_BIDS_PER_AUCTION {
        Some(ShadowProtocolError::TooManyBids)
    } else if !commitment_is_sane(bid_amount_encrypted, public_key, nonce) {
        Some(ShadowProtocolError::InvalidEncryption)
    } else {
        None
    }
}

/// Takes a sealed bid on an `Active` sealed-bid auction before its end. The
/// commitment must pass the sanity test, and the auction must have room for
/// one more bid. An accepted bid is counted on the record and handed back as
/// it is to be stored.
pub fn submit_encrypted_bid(
    auction: &mut AuctionAccount,
    protocol: &ProtocolState,
    bidder: Identity,
    auction_id: u64,
    bid_amount_encrypted: [u8; 32],
    public_key: [u8; 32],
    nonce: u128,
    collateral_amount: u64,
    computation_offset: u64,
    now: i64,
) -> (result: Result<BidCommitment, ShadowProtocolError>)
    ensures
        sealed_bid_rejection(
            *old(auction),
            *protocol,
            auction_id,
            bid_amount_encrypted@,
            public_key@,
            nonce,
            now,
        ) == (match result {
            Ok(_) => None,
            Err(e) => Some(e),
        }),
        result is Err ==> *final(auction) == *old(auction),
        result is Ok ==> *final(auction) == (AuctionAccount {
            bid_count: (old(auction).bid_count + 1) as u64,
            ..*old(auction)
        }),
        result is Ok ==> result->Ok_0 == (BidCommitment {
            bidder,
            encrypted_amount: bid_amount_encrypted,
            nonce,
            public_key,
        }),
        result is Ok ==> result->Ok_0.well_formed(),
        final(auction).bid_count <= MAX_BIDS_PER_AUCTION || final(auction).bid_count == old(
            auction,
        ).bid_count,
        old(auction).status.may_become(final(auction).status),
        old(auction).well_formed() ==> final(auction).well_formed(),
{
    match check_bidding_open(auction, protocol, auction_id, AuctionType::SealedBid, now) {
        Err(e) => {
            return Err(e);
        },
        Ok(_) => {},
    }
    if auction.bid_count >= MAX_BIDS_PER_AUCTION as u64 {
        return Err(ShadowProtocolError::TooManyBids);
    }
    match CryptoUtils::validate_encrypted_bid(
        &bid_amount_encrypted,
        &public_key,
        nonce,
        auction.minimum_bid,
    ) {
        Err(e) => {
            return Err(e);
        },
        Ok(_) => {},
    }
    auction.bid_count = auction.bid_count + 1;
    Ok(BidCommitment { bidder, encrypted_amount: bid_amount_encrypted, nonce, public_key })
}

/// The price of a Dutch auction at `now`, which is not before its start.
pub open spec fn price_now(auction: AuctionAccount, now: i64) -> u64 {
    decayed_price(
        auction.starting_price,
        auction.price_decrease_rate,
        auction.minimum_price_floor,
        (now - auction.start_time) as u64,
    )
}

/// Why `submit_dutch_bid` rejects a call, or `None` where it accepts it.
pub open spec fn dutch_bid_rejection(
    auction: AuctionAccount,
    protocol: ProtocolState,
    bidder: Identity,
    auction_id: u64,
    bid_amount: u64,
    now: i64,
) -> Option<ShadowProtocolError> {
    let closed = bidding_rejection(auction, protocol, auction_id, AuctionType::Dutch, now);
    if closed is Some {
        closed
    } else if all_zero(bidder@) {
        Some(ShadowProtocolError::InvalidWinnerDetermination)
    } else if bid_amount < price_now(auction, now) {
        Some(ShadowProtocolError::BidTooLow)
    } else {
        None
    }
}

/// Takes a bid on an `Active` Dutch auction before its end. The first bid
/// that is at least the price at `now` wins: the bidder is recorded as the
/// winner at that price, not at what they bid, and the auction is `Ended`.
/// The result is the price. A lower bid is rejected with `BidTooLow` and
/// changes nothing.
pub fn submit_dutch_bid(
    auction: &mut AuctionAccount,
    protocol: &ProtocolState,
    bidder: Identity,
    auction_id: u64,
    bid_amount: u64,
    collateral_amount: u64,
    now: i64,
) -> (result: Result<u64, ShadowProtocolError>)
    ensures
        dutch_bid_rejection(*old(auction), *protocol, bidder, auction_id, bid_amount, now)
            == (match result {
            Ok(_) => None,
            Err(e) => Some(e),
        }),
        result is Err ==> *final(auction) == *old(auction),
        result is Ok ==> result->Ok_0 == price_now(*old(auction), now),
        result is Ok ==> *final(auction) == (AuctionAccount {
            winner: Some(bidder),
            winning_amount: price_now(*old(auction), now),
            status: AuctionStatus::Ended,
            bid_count: if old(auction).bid_count < u64::MAX {
                (old(auction).bid_count + 1) as u64
            } else {
                old(auction).bid_count
            },
            ..*old(auction)
        }),
        result is Ok ==> result->Ok_0 <= bid_amount && result->Ok_0 >= old(
            auction,
        ).minimum_price_floor,
        old(auction).status.may_become(final(auction).status),
        old(auction).well_formed() ==> final(auction).well_formed(),
{
    match check_bidding_open(auction, protocol, auction_id, AuctionType::Dutch, now) {
        Err(e) => {
            return Err(e);
        },
        Ok(_) => {},
    }
    if is_zero32(&bidder) {
        return Err(ShadowProtocolError::InvalidWinnerDetermination);
    }
    let elapsed: u64 = (now as i128 - auction.start_time as i128) as u64;
    let price: u64 = price_at(
        auction.starting_price,
        auction.price_decrease_rate,
        auction.minimum_price_floor,
        elapsed,
    );
    if bid_amount < price {
        return Err(ShadowProtocolError::BidTooLow);
    }
    auction.winner = Some(bidder);
    auction.winning_amount = price;
    auction.advance_to(AuctionStatus::Ended);
    auction.bid_count = auction.bid_count.saturating_add(1);
    Ok(price)
}

} // verus!
