//! The operations on auction and batch records. Each one checks every guard
//! before it writes anything, so a rejected call leaves the record as it
//! was. The one exception is a malformed report of a computation: it ends
//! the life of the record it was delivered for.

use vstd::prelude::*;
use crate::bytes::Identity;
use crate::state::{AuctionAccount, AuctionType, BatchSettlement, ProtocolState};

pub mod arcium_callback;
pub mod auction_cleanup;
pub mod auction_management;
pub mod bidding;
pub mod callbacks;
pub mod settlement;

verus! {

/// While the protocol is paused nothing happens to any auction or batch:
/// creating, bidding, ending, queueing, taking in results, authorizing,
/// settling and cleaning up are all rejected, whatever else holds.
pub proof fn lemma_paused_protocol_rejects_all(
    auction: AuctionAccount,
    batch: BatchSettlement,
    protocol: ProtocolState,
    caller: Identity,
    auction_id: u64,
    auction_type: AuctionType,
    amount: u64,
    vault_amount: u64,
    bids_count: u32,
    supplied: nat,
    nonce: u128,
    duration: u64,
    computation_id: Seq<u8>,
    buffer: Seq<u8>,
    key: Seq<u8>,
    now: i64,
)
    requires
        protocol.paused,
    ensures
        auction_management::creation_rejection(protocol, duration, now) is Some,
        bidding::bidding_rejection(auction, protocol, auction_id, auction_type, now) is Some,
        bidding::sealed_bid_rejection(auction, protocol, auction_id, buffer, key, nonce, now)
            is Some,
        bidding::dutch_bid_rejection(auction, protocol, caller, auction_id, amount, now) is Some,
        settlement::ending_rejection(auction, protocol, auction_id, now) is Some,
        arcium_callback::queue_rejection(auction, protocol, auction_id, bids_count, supplied, now)
            is Some,
        arcium_callback::callback_rejection(auction, protocol, caller, computation_id, buffer)
            is Some,
        callbacks::computation_rejection(auction, protocol) is Some,
        callbacks::report_rejection(auction, protocol, caller) is Some,
        callbacks::batch_start_rejection(batch, protocol) is Some,
        callbacks::batch_report_rejection(batch, protocol, caller) is Some,
        settlement::authorization_rejection(auction, protocol, caller, auction_id) is Some,
        settlement::settlement_rejection(auction, protocol, auction_id, caller, amount, vault_amount)
            is Some,
        auction_cleanup::cleanup_rejection(auction, protocol, auction_id, now) is Some,
        auction_cleanup::bid_cleanup_rejection(auction, protocol, auction_id, supplied, now)
            is Some,
{
}

} // verus!
