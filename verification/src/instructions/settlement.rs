//! Authorizing and executing settlement, ending an auction, opening a batch.

use vstd::prelude::*;
use crate::bytes::{all_zero, bytes32_eq, is_zero32, option_is, Identity};
use crate::codec::ArciumMpcResult;
use crate::error::ShadowProtocolError;
use crate::instructions::arcium_callback::{authorized_record, result_rejection};
use crate::state::{
    AuctionAccount, AuctionSettled, AuctionStatus, BatchSettlement, BatchSettlementCreated,
    BatchStatus, ProtocolState, FEE_DENOMINATOR, MAX_BATCH_SIZE,
};

verus! {

/// Why `authorize_settlement` rejects a call, or `None` where it accepts it.
pub open spec fn authorization_rejection(
    auction: AuctionAccount,
    protocol: ProtocolState,
    authority: Identity,
    auction_id: u64,
) -> Option<ShadowProtocolError> {
    if protocol.paused {
        Some(ShadowProtocolError::ProtocolPaused)
    } else if auction.auction_id != auction_id {
        Some(ShadowProtocolError::InvalidAuctionId)
    } else if authority != protocol.authority {
        Some(ShadowProtocolError::Unauthorized)
    } else if auction.status != AuctionStatus::Ended {
        Some(ShadowProtocolError::InvalidAuctionStatus)
    } else if auction.settlement_authorized {
        Some(ShadowProtocolError::AuctionAlreadySettled)
    } else {
        None
    }
}

/// Records a verification hash on an ended auction and authorizes its
/// settlement. Only the protocol authority may do so, and only once.
pub fn authorize_settlement(
    auction: &mut AuctionAccount,
    protocol: &ProtocolState,
    authority: Identity,
    auction_id: u64,
    mpc_verification_hash: [u8; 32],
) -> (result: Result<(), ShadowProtocolError>)
    ensures
        authorization_rejection(*old(auction), *protocol, authority, auction_id) == (match result {
            Ok(_) => None,
            Err(e) => Some(e),
        }),
        result is Err ==> *final(auction) == *old(auction),
        result is Ok ==> *final(auction) == (AuctionAccount {
            mpc_verification_hash: Some(mpc_verification_hash),
            settlement_authorized: true,
            ..*old(auction)
        }),
        old(auction).status.may_become(final(auction).status),
        old(auction).well_formed() ==> final(auction).well_formed(),
{
    if protocol.paused {
        return Err(ShadowProtocolError::ProtocolPaused);
    }
    if auction.auction_id != auction_id {
        return Err(ShadowProtocolError::InvalidAuctionId);
    }
    if !bytes32_eq(&authority, &protocol.authority) {
        return Err(ShadowProtocolError::Unauthorized);
    }
    if auction.status != AuctionStatus::Ended {
        return Err(ShadowProtocolError::InvalidAuctionStatus);
    }
    if auction.settlement_authorized {
        return Err(ShadowProtocolError::AuctionAlreadySettled);
    }
    auction.mpc_verification_hash = Some(mpc_verification_hash);
    auction.settlement_authorized = true;
    Ok(())
}

/// Why `settle_auction` rejects a call, or `None` where it accepts it.
pub open spec fn ending_rejection(
    auction: AuctionAccount,
    protocol: ProtocolState,
    auction_id: u64,
    now: i64,
) -> Option<ShadowProtocolError> {
    if auction.auction_id != auction_id {
        Some(ShadowProtocolError::InvalidAuctionId)
    } else if auction.status != AuctionStatus::Active && auction.status != AuctionStatus::Ended {
        Some(ShadowProtocolError::InvalidAuctionStatus)
    } else if now < auction.end_time {
        Some(ShadowProtocolError::AuctionNotEnded)
    } else if protocol.paused {
        Some(ShadowProtocolError::ProtocolPaused)
    } else {
        None
    }
}

/// Marks an auction whose end time has passed as `Ended`, which opens it to
/// the computation that finds its winner.
pub fn settle_auction(
    auction: &mut AuctionAccount,
    protocol: &ProtocolState,
    auction_id: u64,
    now: i64,
) -> (result: Result<(), ShadowProtocolError>)
    ensures
        ending_rejection(*old(auction), *protocol, auction_id, now) == (match result {
            Ok(_) => None,
            Err(e) => Some(e),
        }),
        result is Err ==> *final(auction) == *old(auction),
        result is Ok ==> *final(auction) == (AuctionAccount {
            status: AuctionStatus::Ended,
            ..*old(auction)
        }),
        old(auction).status.may_become(final(auction).status),
        old(auction).well_formed() ==> final(auction).well_formed(),
{
    if auction.auction_id != auction_id {
        return Err(ShadowProtocolError::InvalidAuctionId);
    }
    if auction.status != AuctionStatus::Active && auction.status != AuctionStatus::Ended {
        return Err(ShadowProtocolError::InvalidAuctionStatus);
    }
    if now < auction.end_time {
        return Err(ShadowProtocolError::AuctionNotEnded);
    }
    if protocol.paused {
        return Err(ShadowProtocolError::ProtocolPaused);
    }
    auction.advance_to(AuctionStatus::Ended);
    Ok(())
}

/// The batch that `batch_settle` opens for `auction_ids`.
pub open spec fn opened_batch(
    creator: Identity,
    auction_ids: Seq<u64>,
    now: i64,
    bump: u8,
    batch: BatchSettlement,
) -> bool {
    &&& batch.batch_id == now as u64
    &&& batch.creator == creator
    &&& batch.auction_ids@ == auction_ids
    &&& batch.status == BatchStatus::Settling
    &&& batch.created_at == now
    &&& batch.settled_at is None
    &&& batch.bump == bump
}

/// Opens a batch over `auction_ids` and moves it straight to `Settling`. The
/// batch takes the current time as its id. An empty list, or one longer than
/// the cap, is rejected with `InvalidBatchSize`.
pub fn batch_settle(
    protocol: &ProtocolState,
    creator: Identity,
    auction_ids: Vec<u64>,
    now: i64,
    bump: u8,
) -> (result: Result<(BatchSettlement, BatchSettlementCreated), ShadowProtocolError>)
    ensures
        protocol.paused ==> result == Err::<
            (BatchSettlement, BatchSettlementCreated),
            ShadowProtocolError,
        >(ShadowProtocolError::ProtocolPaused),
        !protocol.paused && !(0 < auction_ids@.len() <= MAX_BATCH_SIZE) ==> result == Err::<
            (BatchSettlement, BatchSettlementCreated),
            ShadowProtocolError,
        >(ShadowProtocolError::InvalidBatchSize),
        !protocol.paused && 0 < auction_ids@.len() <= MAX_BATCH_SIZE ==> result is Ok,
        result is Ok ==> opened_batch(creator, auction_ids@, now, bump, result->Ok_0.0),
        result is Ok ==> result->Ok_0.0.well_formed(),
        result is Ok ==> result->Ok_0.1 == (BatchSettlementCreated {
            batch_id: now as u64,
            creator,
            auction_count: auction_ids@.len() as u64,
        }),
{
    if protocol.paused {
        return Err(ShadowProtocolError::ProtocolPaused);
    }
    let count: usize = auction_ids.len();
    if count == 0 || count > MAX_BATCH_SIZE {
        return Err(ShadowProtocolError::InvalidBatchSize);
    }
    let batch_id: u64 = now as u64;
    let event = BatchSettlementCreated { batch_id, creator, auction_count: count as u64 };
    let batch = BatchSettlement {
        batch_id,
        creator,
        auction_ids,
        status: BatchStatus::Settling,
        created_at: now,
        settled_at: None,
        bump,
    };
    Ok((batch, event))
}

/// The value movements of one settlement. They form one unit: the caller
/// performs all three or none.
#[derive(Clone, Copy, Debug, PartialEq, Eq)]
pub struct SettlementTransfers {
    /// From the escrow vault to the winner.
    pub asset_amount: u64,
    /// From the winner to the auction's creator: the winning amount less the fee.
    pub creator_payment: u64,
    /// From the winner to the protocol's fee recipient. Zero means no transfer.
    pub protocol_fee: u64,
    /// The event to emit once the movements are done.
    pub event: AuctionSettled,
}

/// The protocol's fee on `amount` at `fee_rate` basis points, rounded down.
pub open spec fn fee_on(amount: u64, fee_rate: u16) -> int {
    (amount * fee_rate) / (FEE_DENOMINATOR as int)
}

/// Why `execute_settlement` rejects a call, or `None` where it accepts it.
/// The guards are listed in the order in which they are checked.
pub open spec fn settlement_rejection(
    auction: AuctionAccount,
    protocol: ProtocolState,
    auction_id: u64,
    winner: Identity,
    winning_amount: u64,
    vault_amount: u64,
) -> Option<ShadowProtocolError> {
    if auction.auction_id != auction_id {
        Some(ShadowProtocolError::InvalidAuctionId)
    } else if protocol.paused {
        Some(ShadowProtocolError::ProtocolPaused)
    } else if !auction.settlement_authorized {
        Some(ShadowProtocolError::SettlementNotAuthorized)
    } else if auction.mpc_verification_hash is None {
        Some(ShadowProtocolError::VerificationFailed)
    } else if auction.status != AuctionStatus::Ended {
        Some(ShadowProtocolError::InvalidAuctionStatus)
    } else if auction.winner != Some(winner) {
        Some(ShadowProtocolError::InvalidWinnerDetermination)
    } else if auction.winning_amount != winning_amount {
        Some(ShadowProtocolError::InvalidAssetAmount)
    } else if winning_amount == 0 {
        Some(ShadowProtocolError::InvalidAssetAmount)
    } else if vault_amount < auction.asset_amount {
        Some(ShadowProtocolError::InvalidAssetAmount)
    } else if all_zero(winner@) {
        Some(ShadowProtocolError::InvalidWinnerDetermination)
    } else if winning_amount * protocol.protocol_fee > u64::MAX {
        Some(ShadowProtocolError::ArithmeticOverflow)
    } else if fee_on(winning_amount, protocol.protocol_fee) > winning_amount {
        Some(ShadowProtocolError::ArithmeticOverflow)
    } else {
        None
    }
}

/// The record after a settlement executed at time `now`.
pub open spec fn settled_record(auction: AuctionAccount, now: i64) -> AuctionAccount {
    AuctionAccount { status: AuctionStatus::Settled, settled_at: Some(now), ..auction }
}

/// What an accepted settlement moves and emits.
pub open spec fn settlement_transfers(
    auction: AuctionAccount,
    protocol: ProtocolState,
    now: i64,
) -> SettlementTransfers {
    SettlementTransfers {
        asset_amount: auction.asset_amount,
        creator_payment: (auction.winning_amount - fee_on(
            auction.winning_amount,
            protocol.protocol_fee,
        )) as u64,
        protocol_fee: fee_on(auction.winning_amount, protocol.protocol_fee) as u64,
        event: AuctionSettled {
            auction_id: auction.auction_id,
            winner: auction.winner,
            winning_amount: auction.winning_amount,
            settled_at: now,
        },
    }
}

/// Settles an authorized auction: checks that the caller names the winner and
/// amount on record, computes the fee, and marks the record `Settled`. The
/// result lists the movements of value that make up the settlement;
/// `vault_amount` is what the escrow vault holds and `now` the current time.
pub fn execute_settlement(
    auction: &mut AuctionAccount,
    protocol: &ProtocolState,
    auction_id: u64,
    winner: Identity,
    winning_amount: u64,
    vault_amount: u64,
    now: i64,
) -> (result: Result<SettlementTransfers, ShadowProtocolError>)
    ensures
        settlement_rejection(
            *old(auction),
            *protocol,
            auction_id,
            winner,
            winning_amount,
            vault_amount,
        ) == (match result {
            Ok(_) => None,
            Err(e) => Some(e),
        }),
        result is Err ==> *final(auction) == *old(auction),
        result is Ok ==> *final(auction) == settled_record(*old(auction), now),
        result is Ok ==> result->Ok_0 == settlement_transfers(*old(auction), *protocol, now),
        result is Ok ==> result->Ok_0.creator_payment + result->Ok_0.protocol_fee
            == winning_amount,
        old(auction).status.may_become(final(auction).status),
        old(auction).well_formed() ==> final(auction).well_formed(),
{
    if auction.auction_id != auction_id {
        return Err(ShadowProtocolError::InvalidAuctionId);
    }
    if protocol.paused {
        return Err(ShadowProtocolError::ProtocolPaused);
    }
    if !auction.settlement_authorized {
        return Err(ShadowProtocolError::SettlementNotAuthorized);
    }
    if auction.mpc_verification_hash.is_none() {
        return Err(ShadowProtocolError::VerificationFailed);
    }
    if auction.status != AuctionStatus::Ended {
        return Err(ShadowProtocolError::InvalidAuctionStatus);
    }
    if !option_is(&auction.winner, &winner) {
        return Err(ShadowProtocolError::InvalidWinnerDetermination);
    }
    if auction.winning_amount != winning_amount {
        return Err(ShadowProtocolError::InvalidAssetAmount);
    }
    if winning_amount == 0 {
        return Err(ShadowProtocolError::InvalidAssetAmount);
    }
    if vault_amount < auction.asset_amount {
        return Err(ShadowProtocolError::InvalidAssetAmount);
    }
    if is_zero32(&winner) {
        return Err(ShadowProtocolError::InvalidWinnerDetermination);
    }
    let fee_rate: u64 = protocol.protocol_fee as u64;
    let scaled: u64 = match winning_amount.checked_mul(fee_rate) {
        Some(product) => product,
        None => {
            return Err(ShadowProtocolError::ArithmeticOverflow);
        },
    };
    let fee_amount: u64 = scaled / FEE_DENOMINATOR;
    let transfer_amount: u64 = match winning_amount.checked_sub(fee_amount) {
        Some(rest) => rest,
        None => {
            return Err(ShadowProtocolError::ArithmeticOverflow);
        },
    };
    let transfers = SettlementTransfers {
        asset_amount: auction.asset_amount,
        creator_payment: transfer_amount,
        protocol_fee: fee_amount,
        event: AuctionSettled {
            auction_id: auction.auction_id,
            winner: auction.winner,
            winning_amount: auction.winning_amount,
            settled_at: now,
        },
    };
    auction.advance_to(AuctionStatus::Settled);
    auction.settled_at = Some(now);
    Ok(transfers)
}

/// A settled auction cannot be settled again: once `execute_settlement` has
/// accepted a call, every later call on the resulting record is rejected,
/// whoever makes it and whatever it names, so no value moves twice. With the
/// right auction id and the protocol running, the rejection is
/// `InvalidAuctionStatus`.
pub proof fn lemma_settlement_happens_once(
    auction: AuctionAccount,
    protocol: ProtocolState,
    auction_id: u64,
    winner: Identity,
    winning_amount: u64,
    vault_amount: u64,
    now: i64,
    later_protocol: ProtocolState,
    later_auction_id: u64,
    later_winner: Identity,
    later_winning_amount: u64,
    later_vault_amount: u64,
)
    requires
        settlement_rejection(auction, protocol, auction_id, winner, winning_amount, vault_amount)
            is None,
    ensures
        settlement_rejection(
            settled_record(auction, now),
            later_protocol,
            later_auction_id,
            later_winner,
            later_winning_amount,
            later_vault_amount,
        ) is Some,
        later_auction_id == auction.auction_id && !later_protocol.paused ==> settlement_rejection(
            settled_record(auction, now),
            later_protocol,
            later_auction_id,
            later_winner,
            later_winning_amount,
            later_vault_amount,
        ) == Some(ShadowProtocolError::InvalidAuctionStatus),
{
}

/// A result that was accepted can be settled: on the record that
/// `arcium_callback` leaves behind, `execute_settlement` accepts the winner
/// and the amount of the result, provided the protocol runs, the winner is
/// not the zero identity, the vault holds the asset, and the fee rate is at
/// most 100% and gives a product that fits 64 bits. No other winner and no
/// other amount is accepted.
pub proof fn lemma_accepted_result_can_be_settled(
    auction: AuctionAccount,
    protocol: ProtocolState,
    parsed: ArciumMpcResult,
    expected_hash: Seq<u8>,
    vault_amount: u64,
    now: i64,
    other_winner: Identity,
    other_amount: u64,
)
    requires
        auction.status == AuctionStatus::Ended,
        result_rejection(
            auction.minimum_bid,
            parsed.winning_amount,
            parsed.verification_hash@,
            expected_hash,
        ) is None,
        !protocol.paused,
        !all_zero(parsed.winner@),
        vault_amount >= auction.asset_amount,
        protocol.protocol_fee <= FEE_DENOMINATOR,
        parsed.winning_amount * protocol.protocol_fee <= u64::MAX,
    ensures
        settlement_rejection(
            authorized_record(auction, parsed, now),
            protocol,
            auction.auction_id,
            parsed.winner,
            parsed.winning_amount,
            vault_amount,
        ) is None,
        other_winner != parsed.winner || other_amount != parsed.winning_amount
            ==> settlement_rejection(
            authorized_record(auction, parsed, now),
            protocol,
            auction.auction_id,
            other_winner,
            other_amount,
            vault_amount,
        ) is Some,
{
    let amount = parsed.winning_amount;
    let rate = protocol.protocol_fee;
    assert(amount * rate <= amount * 10_000) by (nonlinear_arith)
        requires
            0 <= amount,
            0 <= rate <= 10_000,
    ;
    assert((amount * rate) / 10_000 <= amount);
}

/// Whatever the caller names, a record that is not `Ended` is never settled.
pub proof fn lemma_settlement_needs_ended(
    auction: AuctionAccount,
    protocol: ProtocolState,
    auction_id: u64,
    winner: Identity,
    winning_amount: u64,
    vault_amount: u64,
)
    requires
        auction.status != AuctionStatus::Ended,
    ensures
        settlement_rejection(auction, protocol, auction_id, winner, winning_amount, vault_amount)
            is Some,
{
}

} // verus!
