//! The records the protocol keeps, their invariants, and the events it emits.

use vstd::prelude::*;
use crate::bytes::Identity;
use crate::crypto::commitment_is_sane;

verus! {

/// Most bids one auction's computation can take.
pub const MAX_BIDS_PER_AUCTION: u32 = 64;

/// Most auctions one batch can hold.
pub const MAX_BATCH_SIZE: usize = 10;

/// Basis points in a whole: a fee rate of 10 000 is 100%.
pub const FEE_DENOMINATOR: u64 = 10_000;

/// Where an auction stands in its life.
#[derive(Clone, Copy, Debug, PartialEq, Eq, Structural)]
pub enum AuctionStatus {
    Created,
    Active,
    Ended,
    Settled,
    Cancelled,
}

impl AuctionStatus {
    /// Position in the forward order `Created`, `Active`, `Ended`, `Settled`,
    /// `Cancelled`.
    pub open spec fn rank(self) -> nat {
        match self {
            AuctionStatus::Created => 0,
            AuctionStatus::Active => 1,
            AuctionStatus::Ended => 2,
            AuctionStatus::Settled => 3,
            AuctionStatus::Cancelled => 4,
        }
    }

    /// The transition table: whether a record in status `self` may next be
    /// in status `next`. A status may always stay as it is; `Active` follows
    /// `Created`, `Ended` follows `Active`, `Settled` follows `Ended`, and
    /// `Cancelled` can follow any status.
    pub open spec fn may_become(self, next: AuctionStatus) -> bool {
        ||| self == next
        ||| next == AuctionStatus::Cancelled
        ||| (self == AuctionStatus::Created && next == AuctionStatus::Active)
        ||| (self == AuctionStatus::Active && next == AuctionStatus::Ended)
        ||| (self == AuctionStatus::Ended && next == AuctionStatus::Settled)
    }

    /// Decides the transition table.
    pub fn can_become(self, next: AuctionStatus) -> (allowed: bool)
        ensures
            allowed == self.may_become(next),
    {
        self == next || next == AuctionStatus::Cancelled || (self == AuctionStatus::Created && next
            == AuctionStatus::Active) || (self == AuctionStatus::Active && next
            == AuctionStatus::Ended) || (self == AuctionStatus::Ended && next
            == AuctionStatus::Settled)
    }

    /// An allowed transition never moves backwards, and nothing but
    /// `Cancelled` follows `Cancelled`.
    pub proof fn lemma_forward_only(self, next: AuctionStatus)
        requires
            self.may_become(next),
        ensures
            self.rank() <= next.rank(),
            self == AuctionStatus::Cancelled ==> next == AuctionStatus::Cancelled,
    {
    }
}

/// How an auction finds its price.
#[derive(Clone, Copy, Debug, PartialEq, Eq, Structural)]
pub enum AuctionType {
    SealedBid,
    Dutch,
}

/// One auction: identity, economic terms, timing, and the fields that the
/// computation and settlement steps fill in.
#[derive(Clone, Copy, Debug, PartialEq, Eq)]
pub struct AuctionAccount {
    pub auction_id: u64,
    pub creator: Identity,
    pub asset_mint: Identity,
    pub asset_amount: u64,
    pub auction_type: AuctionType,
    pub minimum_bid: u64,
    pub reserve_price_encrypted: [u8; 32],
    pub reserve_price_nonce: u128,
    /// Dutch auctions: the price at `start_time`.
    pub starting_price: u64,
    /// Dutch auctions: how much the price falls each second.
    pub price_decrease_rate: u64,
    /// Dutch auctions: the price never falls below this.
    pub minimum_price_floor: u64,
    pub start_time: i64,
    pub end_time: i64,
    pub created_at: i64,
    pub status: AuctionStatus,
    pub bid_count: u64,
    pub mpc_computation_id: Option<[u8; 32]>,
    pub mxe_cluster: Option<Identity>,
    pub computation_gas_limit: u64,
    pub computation_queued_at: Option<i64>,
    pub winner: Option<Identity>,
    pub winning_amount: u64,
    pub mpc_verification_hash: Option<[u8; 32]>,
    pub settlement_authorized: bool,
    pub settled_at: Option<i64>,
    pub bump: u8,
}

impl AuctionAccount {
    /// The record's invariant: the auction ends after it starts, a winning
    /// amount is on record only together with a winner, and settlement is
    /// authorized only with a verification hash on record.
    pub open spec fn well_formed(self) -> bool {
        &&& self.end_time > self.start_time
        &&& (self.winner is None ==> self.winning_amount == 0)
        &&& (self.settlement_authorized ==> self.mpc_verification_hash is Some)
    }

    /// Moves the record to status `next`. Every operation changes the status
    /// here and nowhere else, so that each change is held against the
    /// transition table.
    pub(crate) fn advance_to(&mut self, next: AuctionStatus)
        requires
            old(self).status.may_become(next),
        ensures
            *final(self) == (AuctionAccount { status: next, ..*old(self) }),
    {
        self.status = next;
    }
}

/// A bid as it is stored: who made it, and the sealed amount with what is
/// needed to open it inside the computation.
#[derive(Clone, Copy, Debug, PartialEq, Eq)]
pub struct BidCommitment {
    pub bidder: Identity,
    pub encrypted_amount: [u8; 32],
    pub nonce: u128,
    pub public_key: [u8; 32],
}

impl BidCommitment {
    /// The commitment's invariant: its nonce is not 0, its public key is not
    /// all zero, and fewer than half the bytes of its sealed amount are zero.
    pub open spec fn well_formed(self) -> bool {
        commitment_is_sane(self.encrypted_amount@, self.public_key@, self.nonce)
    }
}

/// The protocol's configuration, read by every operation.
#[derive(Clone, Copy, Debug, PartialEq, Eq)]
pub struct ProtocolState {
    pub authority: Identity,
    pub pending_authority: Option<Identity>,
    /// Fee rate in basis points.
    pub protocol_fee: u16,
    pub fee_recipient: Identity,
    pub paused: bool,
    pub bump: u8,
}

/// Where a batch stands in its life.
#[derive(Clone, Copy, Debug, PartialEq, Eq, Structural)]
pub enum BatchStatus {
    Created,
    Settling,
    Settled,
    Failed,
}

impl BatchStatus {
    /// `Settled` and `Failed` end a batch's life.
    pub open spec fn is_terminal(self) -> bool {
        self == BatchStatus::Settled || self == BatchStatus::Failed
    }

    /// The transition table of batches: a status may stay as it is,
    /// `Settling` follows `Created`, and `Settled` or `Failed` follows either
    /// of them. Nothing follows `Settled` or `Failed`.
    pub open spec fn may_become(self, next: BatchStatus) -> bool {
        ||| self == next
        ||| (self == BatchStatus::Created && next == BatchStatus::Settling)
        ||| (!self.is_terminal() && next.is_terminal())
    }
}

/// Several auctions settled through one computation.
#[derive(Clone, Debug, PartialEq, Eq)]
pub struct BatchSettlement {
    pub batch_id: u64,
    pub creator: Identity,
    pub auction_ids: Vec<u64>,
    pub status: BatchStatus,
    pub created_at: i64,
    pub settled_at: Option<i64>,
    pub bump: u8,
}

impl BatchSettlement {
    /// The batch's invariant: it names at least one auction and no more than
    /// the cap.
    pub open spec fn well_formed(self) -> bool {
        0 < self.auction_ids@.len() <= MAX_BATCH_SIZE
    }

    /// Moves the batch to status `next`, held against the transition table.
    pub(crate) fn advance_to(&mut self, next: BatchStatus)
        requires
            old(self).status.may_become(next),
        ensures
            final(self).status == next,
            final(self).batch_id == old(self).batch_id,
            final(self).creator == old(self).creator,
            final(self).auction_ids == old(self).auction_ids,
            final(self).created_at == old(self).created_at,
            final(self).settled_at == old(self).settled_at,
            final(self).bump == old(self).bump,
    {
        self.status = next;
    }
}

/// Emitted when an auction's status becomes `Settled`.
#[derive(Clone, Copy, Debug, PartialEq, Eq)]
pub struct AuctionSettled {
    pub auction_id: u64,
    pub winner: Option<Identity>,
    pub winning_amount: u64,
    pub settled_at: i64,
}

/// Emitted when a batch is accepted.
#[derive(Clone, Copy, Debug, PartialEq, Eq)]
pub struct BatchSettlementCreated {
    pub batch_id: u64,
    pub creator: Identity,
    pub auction_count: u64,
}

/// Emitted when a batch's computation reports back.
#[derive(Clone, Copy, Debug, PartialEq, Eq)]
pub struct BatchSettled {
    pub batch_id: u64,
    pub settled_count: u64,
    pub settled_at: i64,
}

} // verus!
