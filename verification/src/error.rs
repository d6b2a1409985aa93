//! The named rejections of the protocol.

use vstd::prelude::*;

verus! {

/// Why an operation was rejected. Every rejection is local to the one call
/// that produced it and leaves stored state as it was, unless the operation's
/// contract says otherwise.
#[derive(Clone, Copy, Debug, PartialEq, Eq, Structural)]
pub enum ShadowProtocolError {
    /// The protocol is paused.
    ProtocolPaused,
    /// The auction or batch is not in a state that allows the operation.
    InvalidAuctionStatus,
    /// The auction id supplied does not name the record supplied.
    InvalidAuctionId,
    /// The computation id does not belong to the record's pending request.
    UnknownComputation,
    /// The number of bids supplied differs from the number declared.
    InvalidBidCount,
    /// More bids than one computation can take.
    TooManyBids,
    /// A batch is empty or larger than its cap.
    InvalidBatchSize,
    /// A commitment failed the sanity test.
    InvalidEncryption,
    /// A result buffer is shorter than its fixed layout.
    MalformedResult,
    /// A verification hash does not match the value derived from the record.
    VerificationFailed,
    /// A winning amount or bid is zero or below what the auction asks.
    BidTooLow,
    /// Settlement was already authorized.
    AuctionAlreadySettled,
    /// Settlement was not authorized.
    SettlementNotAuthorized,
    /// The winner supplied is not the winner on record.
    InvalidWinnerDetermination,
    /// An amount supplied is not the amount on record, or is not usable.
    InvalidAssetAmount,
    /// An exact result does not fit its integer type.
    ArithmeticOverflow,
    /// The caller is not the protocol authority.
    Unauthorized,
    /// The auction's end, or its grace period, has not passed.
    AuctionNotEnded,
    /// An auction would not end after it starts.
    InvalidDuration,
}

} // verus!
