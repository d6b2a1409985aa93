//! The pricing engines: the sealed-bid auction with its second-price rule,
//! the Dutch auction with its falling price, and the batch statistics.
//!
//! Each engine is a function of its arguments alone and walks every slot of
//! its fixed-size input, however many of them are in use.

use vstd::prelude::*;
use crate::error::ShadowProtocolError;

verus! {

/// Number of result slots of the batch engine.
pub const MAX_BATCH_RESULTS: usize = 32;

/// A bid as the computation sees it.
#[derive(Clone, Copy, Debug, PartialEq, Eq)]
pub struct EncryptedBid {
    pub amount: u64,
    pub bidder_id: u128,
    pub timestamp: u64,
    pub nonce: u128,
}

/// The terms of an auction that the engines read.
#[derive(Clone, Copy, Debug, PartialEq, Eq)]
pub struct AuctionParams {
    pub auction_id: u64,
    pub minimum_bid: u64,
    pub reserve_price: u64,
    pub auction_type: u8,
}

/// What the sealed-bid engine found.
#[derive(Clone, Copy, Debug, PartialEq, Eq)]
pub struct SettlementResult {
    /// Slot of the winning bid; 0 where there is no winner.
    pub winner_id: u128,
    /// What the winner pays; 0 where there is no winner.
    pub winning_amount: u64,
    /// The highest valid bid besides the winner's; 0 where there is none.
    pub second_highest: u64,
    /// Whether the amount paid is at least the reserve price.
    pub reserve_met: bool,
    pub timestamp: u64,
}

/// Whether slot `i` holds a valid bid: the slot is in use, and the bid is
/// positive and at least both the minimum bid and the reserve price.
pub open spec fn bid_is_valid(
    bids: Seq<u64>,
    bid_count: u64,
    params: AuctionParams,
    i: int,
) -> bool {
    &&& 0 <= i < bids.len()
    &&& i < bid_count
    &&& bids[i] > 0
    &&& bids[i] >= params.minimum_bid
    &&& bids[i] >= params.reserve_price
}

/// Whether slot `w` wins among the first `n` slots: its bid is valid, no
/// valid bid among them is higher, and every valid bid before it is lower.
pub open spec fn wins_among(
    bids: Seq<u64>,
    bid_count: u64,
    params: AuctionParams,
    n: int,
    w: int,
) -> bool {
    &&& w < n
    &&& bid_is_valid(bids, bid_count, params, w)
    &&& forall|j: int|
        0 <= j < n && #[trigger] bid_is_valid(bids, bid_count, params, j) ==> bids[j] <= bids[w]
    &&& forall|j: int|
        0 <= j < w && #[trigger] bid_is_valid(bids, bid_count, params, j) ==> bids[j] < bids[w]
}

/// Whether `second` is the highest valid bid among the first `n` slots
/// besides slot `w`, or 0 where slot `w` holds the only valid bid.
pub open spec fn runner_up_among(
    bids: Seq<u64>,
    bid_count: u64,
    params: AuctionParams,
    n: int,
    w: int,
    second: u64,
) -> bool {
    &&& forall|j: int|
        0 <= j < n && j != w && #[trigger] bid_is_valid(bids, bid_count, params, j) ==> bids[j]
            <= second
    &&& second > 0 ==> exists|j: int|
        0 <= j < n && j != w && #[trigger] bid_is_valid(bids, bid_count, params, j) && bids[j]
            == second
}

/// What the winner pays. Settlement type 0 is first-price: the winner pays
/// the winning bid. Every other type is second-price: the winner pays the
/// runner-up's bid, or the winning bid where there is no runner-up.
pub open spec fn clearing_price(highest: u64, second: u64, settlement_type: u8) -> u64 {
    if settlement_type == 0 {
        highest
    } else if second > 0 {
        second
    } else {
        highest
    }
}

/// The result reported where no slot holds a valid bid.
pub open spec fn no_winner(params: AuctionParams) -> SettlementResult {
    SettlementResult {
        winner_id: 0,
        winning_amount: 0,
        second_highest: 0,
        reserve_met: params.reserve_price == 0,
        timestamp: 0,
    }
}

/// Whether `result` is the outcome of the sealed-bid auction over `bids`.
pub open spec fn is_sealed_bid_outcome(
    bids: Seq<u64>,
    bid_count: u64,
    params: AuctionParams,
    settlement_type: u8,
    result: SettlementResult,
) -> bool {
    if exists|i: int| bid_is_valid(bids, bid_count, params, i) {
        let w = result.winner_id as int;
        &&& wins_among(bids, bid_count, params, bids.len() as int, w)
        &&& runner_up_among(bids, bid_count, params, bids.len() as int, w, result.second_highest)
        &&& result.winning_amount == clearing_price(
            bids[w],
            result.second_highest,
            settlement_type,
        )
        &&& result.reserve_met == (result.winning_amount >= params.reserve_price)
        &&& result.timestamp == 0
    } else {
        result == no_winner(params)
    }
}

/// What one pass over the bid slots finds.
#[derive(Clone, Copy, Debug, PartialEq, Eq)]
pub struct BidScan {
    /// Whether any slot holds a valid bid.
    pub found: bool,
    /// Slot of the winning bid; 0 where none is valid.
    pub winner: usize,
    /// The winning bid; 0 where none is valid.
    pub highest: u64,
    /// The highest valid bid besides the winner's; 0 where there is none.
    pub second_highest: u64,
}

/// Whether `scan` is what a pass over `bids` finds.
pub open spec fn is_scan_of(
    bids: Seq<u64>,
    bid_count: u64,
    params: AuctionParams,
    scan: BidScan,
) -> bool {
    if exists|i: int| bid_is_valid(bids, bid_count, params, i) {
        &&& scan.found
        &&& wins_among(bids, bid_count, params, bids.len() as int, scan.winner as int)
        &&& scan.highest == bids[scan.winner as int]
        &&& runner_up_among(
            bids,
            bid_count,
            params,
            bids.len() as int,
            scan.winner as int,
            scan.second_highest,
        )
    } else {
        scan == (BidScan { found: false, winner: 0, highest: 0, second_highest: 0 })
    }
}

/// Walks every slot of `bids` once and keeps the highest valid bid and the
/// runner-up: a valid bid above the highest so far takes its place and makes
/// it the runner-up; a valid bid above the runner-up, but not above the
/// highest, becomes the runner-up.
pub fn scan_bids(bids: &[u64], bid_count: u64, params: &AuctionParams) -> (scan: BidScan)
    ensures
        is_scan_of(bids@, bid_count, *params, scan),
{
    let slots: usize = bids.len();
    let mut highest_bid: u64 = 0;
    let mut second_highest: u64 = 0;
    let mut winner: usize = 0;
    let mut found_valid_bid: bool = false;
    let mut i: usize = 0;
    while i < slots
        invariant
            i <= slots,
            bids@.len() == slots,
            found_valid_bid == (exists|j: int|
                0 <= j < i && #[trigger] bid_is_valid(bids@, bid_count, *params, j)),
            found_valid_bid ==> wins_among(bids@, bid_count, *params, i as int, winner as int)
                && highest_bid == bids@[winner as int] && runner_up_among(
                bids@,
                bid_count,
                *params,
                i as int,
                winner as int,
                second_highest,
            ),
            !found_valid_bid ==> highest_bid == 0 && second_highest == 0 && winner == 0,
        decreases slots - i,
    {
        let bid_amount: u64 = bids[i];
        let is_valid_bid: bool = (i as u64) < bid_count && bid_amount > 0 && bid_amount
            >= params.minimum_bid && bid_amount >= params.reserve_price;
        assert(is_valid_bid == bid_is_valid(bids@, bid_count, *params, i as int));
        let ghost old_winner: int = winner as int;
        let ghost old_found: bool = found_valid_bid;
        if is_valid_bid && bid_amount > highest_bid {
            second_highest = highest_bid;
            highest_bid = bid_amount;
            winner = i;
            found_valid_bid = true;
            proof {
                if old_found {
                    assert(bid_is_valid(bids@, bid_count, *params, old_winner));
                    assert(old_winner != i && bids@[old_winner] == second_highest);
                }
            }
        } else if is_valid_bid && bid_amount > second_highest {
            second_highest = bid_amount;
            assert(bid_is_valid(bids@, bid_count, *params, i as int) && i as int != winner as int
                && bids@[i as int] == second_highest);
        } else if is_valid_bid {
            assert(found_valid_bid);
        }
        proof {
            if found_valid_bid && second_highest > 0 {
                let j = choose|j: int|
                    0 <= j < i + 1 && j != winner as int && #[trigger] bid_is_valid(
                        bids@,
                        bid_count,
                        *params,
                        j,
                    ) && bids@[j] == second_highest;
                assert(0 <= j < i + 1);
            }
        }
        i += 1;
    }
    if !found_valid_bid {
        assert(!exists|j: int| bid_is_valid(bids@, bid_count, *params, j));
    }
    BidScan { found: found_valid_bid, winner, highest: highest_bid, second_highest }
}

/// What a pass finds is unique: two scans of the same bids are the same scan.
pub proof fn lemma_scan_is_unique(
    bids: Seq<u64>,
    bid_count: u64,
    params: AuctionParams,
    first: BidScan,
    second: BidScan,
)
    requires
        is_scan_of(bids, bid_count, params, first),
        is_scan_of(bids, bid_count, params, second),
    ensures
        first == second,
{
    if exists|i: int| bid_is_valid(bids, bid_count, params, i) {
        let n = bids.len() as int;
        let w1 = first.winner as int;
        let w2 = second.winner as int;
        assert(bid_is_valid(bids, bid_count, params, w1));
        assert(bid_is_valid(bids, bid_count, params, w2));
        assert(bids[w1] == bids[w2]);
        assert(w1 == w2);
        if first.second_highest > 0 {
            let j = choose|j: int|
                0 <= j < n && j != w1 && #[trigger] bid_is_valid(bids, bid_count, params, j)
                    && bids[j] == first.second_highest;
            assert(bids[j] <= second.second_highest);
        }
        if second.second_highest > 0 {
            let j = choose|j: int|
                0 <= j < n && j != w2 && #[trigger] bid_is_valid(bids, bid_count, params, j)
                    && bids[j] == second.second_highest;
            assert(bids[j] <= first.second_highest);
        }
    }
}

/// Picks what the winner pays; see `clearing_price`.
pub fn settle_price(highest: u64, second: u64, settlement_type: u8) -> (price: u64)
    ensures
        price == clearing_price(highest, second, settlement_type),
{
    if settlement_type == 0 {
        highest
    } else if second > 0 {
        second
    } else {
        highest
    }
}

/// Runs a sealed-bid auction over 64 bid slots of which the first
/// `bid_count` are in use. The highest valid bid wins, the earliest slot
/// among equals. Under second-price settlement the winner pays the highest
/// valid bid besides their own, or their own bid where it is the only valid
/// one. Where no bid is valid, winner and amount are 0.
pub fn sealed_bid_auction(
    bids: [u64; 64],
    bid_count: u64,
    auction_params: AuctionParams,
    settlement_type: u8,
) -> (result: SettlementResult)
    ensures
        is_sealed_bid_outcome(bids@, bid_count, auction_params, settlement_type, result),
{
    let scan: BidScan = scan_bids(bids.as_slice(), bid_count, &auction_params);
    if !scan.found {
        return SettlementResult {
            winner_id: 0,
            winning_amount: 0,
            second_highest: 0,
            reserve_met: auction_params.reserve_price == 0,
            timestamp: 0,
        };
    }
    let winning_amount: u64 = settle_price(scan.highest, scan.second_highest, settlement_type);
    SettlementResult {
        winner_id: scan.winner as u128,
        winning_amount,
        second_highest: scan.second_highest,
        reserve_met: winning_amount >= auction_params.reserve_price,
        timestamp: 0,
    }
}

/// The sealed-bid outcome is unique: two results that both are the
/// outcome over the same bids are the same result.
pub proof fn lemma_sealed_bid_outcome_is_unique(
    bids: Seq<u64>,
    bid_count: u64,
    params: AuctionParams,
    settlement_type: u8,
    first: SettlementResult,
    second: SettlementResult,
)
    requires
        is_sealed_bid_outcome(bids, bid_count, params, settlement_type, first),
        is_sealed_bid_outcome(bids, bid_count, params, settlement_type, second),
    ensures
        first == second,
{
    if exists|i: int| bid_is_valid(bids, bid_count, params, i) {
        let n = bids.len() as int;
        let w1 = first.winner_id as int;
        let w2 = second.winner_id as int;
        assert(bid_is_valid(bids, bid_count, params, w1));
        assert(bid_is_valid(bids, bid_count, params, w2));
        assert(bids[w1] == bids[w2]);
        assert(w1 == w2);
        if first.second_highest > 0 {
            let j = choose|j: int|
                0 <= j < n && j != w1 && #[trigger] bid_is_valid(bids, bid_count, params, j)
                    && bids[j] == first.second_highest;
            assert(bids[j] <= second.second_highest);
        }
        if second.second_highest > 0 {
            let j = choose|j: int|
                0 <= j < n && j != w2 && #[trigger] bid_is_valid(bids, bid_count, params, j)
                    && bids[j] == second.second_highest;
            assert(bids[j] <= first.second_highest);
        }
        assert(first.second_highest == second.second_highest);
    }
}

/// The winner holds the highest valid bid, and the earliest slot among those
/// that hold it: no valid bid is higher than the winner's, and a valid bid as
/// high as the winner's sits in a later slot, or is the winner's own.
pub proof fn lemma_winner_is_first_highest(
    bids: Seq<u64>,
    bid_count: u64,
    params: AuctionParams,
    settlement_type: u8,
    result: SettlementResult,
    other: int,
)
    requires
        is_sealed_bid_outcome(bids, bid_count, params, settlement_type, result),
        bid_is_valid(bids, bid_count, params, other),
    ensures
        bid_is_valid(bids, bid_count, params, result.winner_id as int),
        bids[other] <= bids[result.winner_id as int],
        bids[other] == bids[result.winner_id as int] ==> result.winner_id <= other,
{
}

/// The winner never pays more than they bid, whatever the settlement type.
/// Where theirs is the only valid bid, they pay exactly that bid.
pub proof fn lemma_clearing_price_at_most_own_bid(
    bids: Seq<u64>,
    bid_count: u64,
    params: AuctionParams,
    settlement_type: u8,
    result: SettlementResult,
)
    requires
        is_sealed_bid_outcome(bids, bid_count, params, settlement_type, result),
        exists|i: int| bid_is_valid(bids, bid_count, params, i),
    ensures
        result.winning_amount <= bids[result.winner_id as int],
        result.winning_amount > 0,
        result.winning_amount >= params.minimum_bid,
        result.reserve_met,
        (forall|j: int| #[trigger]
            bid_is_valid(bids, bid_count, params, j) ==> j == result.winner_id) ==> result.winning_amount
            == bids[result.winner_id as int] && result.second_highest == 0,
{
    let n = bids.len() as int;
    let w = result.winner_id as int;
    if result.second_highest > 0 {
        let j = choose|j: int|
            0 <= j < n && j != w && #[trigger] bid_is_valid(bids, bid_count, params, j) && bids[j]
                == result.second_highest;
        assert(bids[j] <= bids[w]);
    }
}

/// The price of a Dutch auction `elapsed` seconds after its start: the
/// starting price less `decrease_rate` for each second, but never less than
/// `floor`.
pub open spec fn decayed_price(
    starting_price: u64,
    decrease_rate: u64,
    floor: u64,
    elapsed: u64,
) -> u64 {
    if starting_price - decrease_rate * elapsed > floor {
        (starting_price - decrease_rate * elapsed) as u64
    } else {
        floor
    }
}

/// Computes the price of a Dutch auction. A decrease too large for 64 bits
/// is larger than any starting price and gives the floor.
pub fn price_at(starting_price: u64, decrease_rate: u64, floor: u64, elapsed: u64) -> (price: u64)
    ensures
        price == decayed_price(starting_price, decrease_rate, floor, elapsed),
{
    let decayed: u64 = match decrease_rate.checked_mul(elapsed) {
        Some(price_decrease) => starting_price.saturating_sub(price_decrease),
        None => 0,
    };
    if decayed > floor {
        decayed
    } else {
        floor
    }
}

/// The price of a Dutch auction never rises as time passes.
pub proof fn lemma_price_never_rises(
    starting_price: u64,
    decrease_rate: u64,
    floor: u64,
    earlier: u64,
    later: u64,
)
    requires
        earlier <= later,
    ensures
        decayed_price(starting_price, decrease_rate, floor, later) <= decayed_price(
            starting_price,
            decrease_rate,
            floor,
            earlier,
        ),
{
    assert(decrease_rate * earlier <= decrease_rate * later) by (nonlinear_arith)
        requires
            earlier <= later,
            0 <= decrease_rate,
    ;
}

/// The price of a Dutch auction is never below the floor, and never above
/// the higher of starting price and floor.
pub proof fn lemma_price_at_least_floor(
    starting_price: u64,
    decrease_rate: u64,
    floor: u64,
    elapsed: u64,
)
    ensures
        decayed_price(starting_price, decrease_rate, floor, elapsed) >= floor,
        decayed_price(starting_price, decrease_rate, floor, elapsed) <= starting_price
            || decayed_price(starting_price, decrease_rate, floor, elapsed) == floor,
{
    assert(0 <= decrease_rate * elapsed) by (nonlinear_arith)
        requires
            0 <= decrease_rate,
            0 <= elapsed,
    ;
}

/// Whether a bid window is open at `current_time`: the start has come and
/// the end has not passed.
pub fn verify_auction_timing(start_time: u64, end_time: u64, current_time: u64) -> (open: bool)
    ensures
        open == (start_time <= current_time <= end_time),
{
    let started: bool = current_time >= start_time;
    let not_ended: bool = current_time <= end_time;
    started && not_ended
}

/// The price of a Dutch auction without a floor: it falls to 0.
pub fn calculate_dutch_price(starting_price: u64, decrease_rate: u64, elapsed_time: u64) -> (price:
    u64)
    ensures
        price == decayed_price(starting_price, decrease_rate, 0, elapsed_time),
{
    price_at(starting_price, decrease_rate, 0, elapsed_time)
}

/// Whether a bid is at least both the minimum bid and the reserve price.
pub fn validate_bid(bid_amount: u64, minimum_bid: u64, reserve_price: u64) -> (valid: bool)
    ensures
        valid == (bid_amount >= minimum_bid && bid_amount >= reserve_price),
{
    bid_amount >= minimum_bid && bid_amount >= reserve_price
}

/// Whether a Dutch auction at `current_price` accepts a bid: the bid is at
/// least the current price and the reserve price, and the bidder is not the
/// zero identity.
pub open spec fn dutch_bid_accepted(
    current_price: u64,
    bid_amount: u64,
    reserve_price: u64,
    bidder_id: u128,
) -> bool {
    bid_amount >= current_price && bid_amount >= reserve_price && bidder_id != 0
}

/// Holds a bid against the current price of a Dutch auction. An accepted
/// bidder wins at the current price, not at what they bid. The result is
/// (accepted, price paid, winner), with price and winner 0 on refusal.
pub fn dutch_auction(current_price: u64, bid_amount: u64, reserve_price: u64, bidder_id: u128) -> (result:
    (bool, u64, u128))
    ensures
        dutch_bid_accepted(current_price, bid_amount, reserve_price, bidder_id) ==> result == (
            true,
            current_price,
            bidder_id,
        ),
        !dutch_bid_accepted(current_price, bid_amount, reserve_price, bidder_id) ==> result == (
            false,
            0u64,
            0u128,
        ),
{
    let meets_current_price: bool = bid_amount >= current_price;
    let meets_reserve: bool = bid_amount >= reserve_price;
    let bid_accepted: bool = meets_current_price && meets_reserve && bidder_id != 0;
    let final_price: u64 = if bid_accepted {
        current_price
    } else {
        0
    };
    let winner: u128 = if bid_accepted {
        bidder_id
    } else {
        0
    };
    (bid_accepted, final_price, winner)
}

/// A bid of exactly the current price is accepted, from any bidder but the
/// zero identity, where the price is not below the reserve.
pub proof fn lemma_bid_at_price_is_accepted(current_price: u64, reserve_price: u64, bidder_id: u128)
    requires
        bidder_id != 0,
        current_price >= reserve_price,
    ensures
        dutch_bid_accepted(current_price, current_price, reserve_price, bidder_id),
{
}

/// Number of slots of a batch that are in use: the declared size, capped at
/// the number of slots there are.
pub open spec fn batch_len(batch_size: u8) -> int {
    if batch_size < MAX_BATCH_RESULTS {
        batch_size as int
    } else {
        MAX_BATCH_RESULTS as int
    }
}

/// Number of positive amounts among the first `n` results.
pub open spec fn successes_among(results: Seq<u64>, n: int) -> int
    decreases n,
{
    if n <= 0 {
        0
    } else {
        successes_among(results, n - 1) + if results[n - 1] > 0 {
            1int
        } else {
            0int
        }
    }
}

/// Sum of the first `n` results.
pub open spec fn volume_among(results: Seq<u64>, n: int) -> int
    decreases n,
{
    if n <= 0 {
        0
    } else {
        volume_among(results, n - 1) + results[n - 1]
    }
}

/// Successes are counted among the results looked at, and a sum of amounts
/// only grows.
pub proof fn lemma_batch_bounds(results: Seq<u64>, n: int)
    requires
        0 <= n,
    ensures
        0 <= successes_among(results, n) <= n,
        0 <= volume_among(results, n),
    decreases n,
{
    if n > 0 {
        lemma_batch_bounds(results, n - 1);
    }
}

/// Sums up a batch: of the first `batch_size` of 32 results, how many are
/// settled (amount above 0), how many failed, and the volume settled. A
/// volume beyond 64 bits is reported as `ArithmeticOverflow`.
pub fn batch_settlement(auction_results: [u64; 32], batch_size: u8) -> (result: Result<
    (u8, u8, u64),
    ShadowProtocolError,
>)
    ensures
        volume_among(auction_results@, batch_len(batch_size)) > u64::MAX ==> result == Err::<
            (u8, u8, u64),
            ShadowProtocolError,
        >(ShadowProtocolError::ArithmeticOverflow),
        volume_among(auction_results@, batch_len(batch_size)) <= u64::MAX ==> result == Ok::<
            (u8, u8, u64),
            ShadowProtocolError,
        >(
            (
                successes_among(auction_results@, batch_len(batch_size)) as u8,
                (batch_len(batch_size) - successes_among(auction_results@, batch_len(batch_size))) as u8,
                volume_among(auction_results@, batch_len(batch_size)) as u64,
            ),
        ),
{
    let mut successful_settlements: u8 = 0;
    let mut failed_settlements: u8 = 0;
    let mut total_volume: u64 = 0;
    let mut overflowed: bool = false;
    let mut i: usize = 0;
    while i < MAX_BATCH_RESULTS
        invariant
            i <= MAX_BATCH_RESULTS,
            auction_results@.len() == MAX_BATCH_RESULTS,
            successful_settlements == successes_among(
                auction_results@,
                if i < batch_len(batch_size) {
                    i as int
                } else {
                    batch_len(batch_size)
                },
            ),
            successful_settlements + failed_settlements == (if i < batch_len(batch_size) {
                i as int
            } else {
                batch_len(batch_size)
            }),
            !overflowed ==> total_volume == volume_among(
                auction_results@,
                if i < batch_len(batch_size) {
                    i as int
                } else {
                    batch_len(batch_size)
                },
            ),
            overflowed ==> volume_among(
                auction_results@,
                if i < batch_len(batch_size) {
                    i as int
                } else {
                    batch_len(batch_size)
                },
            ) > u64::MAX,
        decreases MAX_BATCH_RESULTS - i,
    {
        if i < batch_size as usize {
            let volume: u64 = auction_results[i];
            proof {
                lemma_batch_bounds(auction_results@, i as int);
            }
            if volume > 0 {
                successful_settlements += 1;
                match total_volume.checked_add(volume) {
                    Some(sum) => {
                        total_volume = sum;
                    },
                    None => {
                        overflowed = true;
                    },
                }
            } else {
                failed_settlements += 1;
            }
        }
        i += 1;
    }
    if overflowed {
        Err(ShadowProtocolError::ArithmeticOverflow)
    } else {
        Ok((successful_settlements, failed_settlements, total_volume))
    }
}

} // verus!
