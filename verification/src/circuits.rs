//! The computations that run on bids once they are opened inside the
//! secure-computation network: a sealed-bid auction over five bids, a Dutch
//! auction, and the settlement of a batch. Here they take and give plain
//! values; opening the inputs and sealing the outputs is the caller's part.

use vstd::prelude::*;
use crate::pricing::{
    bid_is_valid, clearing_price, decayed_price, is_scan_of, lemma_scan_is_unique, price_at,
    scan_bids, settle_price, AuctionParams, BidScan,
};

verus! {

/// Number of bids the sealed-bid computation takes.
pub const CIRCUIT_BIDS: usize = 5;

/// Number of auctions the batch computation takes.
pub const CIRCUIT_BATCH: usize = 10;

/// What the batch computation knows of one auction.
#[derive(Clone, Copy, Debug, PartialEq, Eq)]
pub struct AuctionBatchData {
    pub auction_id: u64,
    pub reserve_price: u64,
    pub bid_count: u64,
    pub highest_bid: u64,
    pub second_highest_bid: u64,
    pub winner_id: u128,
}

/// The terms under which the five bids are held against each other: all
/// five slots are in use, there is no minimum bid, and a bid below the
/// reserve price does not count.
pub open spec fn circuit_params(auction_id: u64, reserve_price: u64) -> AuctionParams {
    AuctionParams { auction_id, minimum_bid: 0, reserve_price, auction_type: 0 }
}

/// What the sealed-bid computation reports for a given scan of the bids:
/// the winner's id, the second price, and whether it meets the reserve.
pub open spec fn sealed_bid_report(
    scan: BidScan,
    bidders: Seq<u128>,
    reserve_price: u64,
) -> (u128, u64, bool) {
    if scan.found {
        (
            bidders[scan.winner as int],
            clearing_price(scan.highest, scan.second_highest, 1),
            clearing_price(scan.highest, scan.second_highest, 1) >= reserve_price,
        )
    } else {
        (0u128, 0u64, reserve_price == 0)
    }
}

/// Whether `report` is the outcome of the sealed-bid computation over the
/// five `amounts` and their `bidders`.
pub open spec fn is_sealed_bid_report(
    amounts: Seq<u64>,
    bidders: Seq<u128>,
    auction_id: u64,
    reserve_price: u64,
    report: (u128, u64, bool),
) -> bool {
    exists|scan: BidScan| #[trigger]
        is_scan_of(amounts, CIRCUIT_BIDS as u64, circuit_params(auction_id, reserve_price), scan)
            && report == sealed_bid_report(scan, bidders, reserve_price)
}

/// Runs a second-price sealed-bid auction over five bids. A bid counts where
/// it is positive and at least the reserve price. The highest bid that counts
/// wins, the earliest among equals, and pays the highest other bid that
/// counts, or its own where no other does. The result is (winner, amount
/// paid, reserve met); winner and amount are 0 where no bid counts.
pub fn process_sealed_bid_auction(
    auction_id: u64,
    reserve_price: u64,
    bid1_amount: u64,
    bid1_bidder: u128,
    bid2_amount: u64,
    bid2_bidder: u128,
    bid3_amount: u64,
    bid3_bidder: u128,
    bid4_amount: u64,
    bid4_bidder: u128,
    bid5_amount: u64,
    bid5_bidder: u128,
) -> (report: (u128, u64, bool))
    ensures
        is_sealed_bid_report(
            seq![bid1_amount, bid2_amount, bid3_amount, bid4_amount, bid5_amount],
            seq![bid1_bidder, bid2_bidder, bid3_bidder, bid4_bidder, bid5_bidder],
            auction_id,
            reserve_price,
            report,
        ),
{
    let amounts: [u64; 5] = [bid1_amount, bid2_amount, bid3_amount, bid4_amount, bid5_amount];
    let bidders: [u128; 5] = [bid1_bidder, bid2_bidder, bid3_bidder, bid4_bidder, bid5_bidder];
    let params = AuctionParams { auction_id, minimum_bid: 0, reserve_price, auction_type: 0 };
    assert(amounts@ =~= seq![bid1_amount, bid2_amount, bid3_amount, bid4_amount, bid5_amount]);
    assert(bidders@ =~= seq![bid1_bidder, bid2_bidder, bid3_bidder, bid4_bidder, bid5_bidder]);
    let scan: BidScan = scan_bids(amounts.as_slice(), CIRCUIT_BIDS as u64, &params);
    assert(is_scan_of(
        seq![bid1_amount, bid2_amount, bid3_amount, bid4_amount, bid5_amount],
        CIRCUIT_BIDS as u64,
        circuit_params(auction_id, reserve_price),
        scan,
    ));
    if !scan.found {
        return (0, 0, reserve_price == 0);
    }
    assert(bid_is_valid(amounts@, CIRCUIT_BIDS as u64, params, scan.winner as int));
    let winning_amount: u64 = settle_price(scan.highest, scan.second_highest, 1);
    (bidders[scan.winner], winning_amount, winning_amount >= reserve_price)
}

/// The report of the five-bid auction is unique: two reports that both are
/// the outcome over the same bids and bidders are the same report.
pub proof fn lemma_sealed_bid_report_is_unique(
    amounts: Seq<u64>,
    bidders: Seq<u128>,
    auction_id: u64,
    reserve_price: u64,
    first: (u128, u64, bool),
    second: (u128, u64, bool),
)
    requires
        is_sealed_bid_report(amounts, bidders, auction_id, reserve_price, first),
        is_sealed_bid_report(amounts, bidders, auction_id, reserve_price, second),
    ensures
        first == second,
{
    let params = circuit_params(auction_id, reserve_price);
    let scan1 = choose|scan: BidScan| #[trigger]
        is_scan_of(amounts, CIRCUIT_BIDS as u64, params, scan) && first == sealed_bid_report(
            scan,
            bidders,
            reserve_price,
        );
    let scan2 = choose|scan: BidScan| #[trigger]
        is_scan_of(amounts, CIRCUIT_BIDS as u64, params, scan) && second == sealed_bid_report(
            scan,
            bidders,
            reserve_price,
        );
    lemma_scan_is_unique(amounts, CIRCUIT_BIDS as u64, params, scan1, scan2);
}

/// Whether slot `w` of the five bids is the one that `report` names as the
/// winner, seen from a bid in slot `other` that counts: the winner's bid
/// counts, is no lower than the other, sits in no later slot where both are
/// equal, and is no lower than what the winner pays.
pub open spec fn report_names(
    amounts: Seq<u64>,
    bidders: Seq<u128>,
    auction_id: u64,
    reserve_price: u64,
    report: (u128, u64, bool),
    other: int,
    w: int,
) -> bool {
    &&& bid_is_valid(amounts, CIRCUIT_BIDS as u64, circuit_params(auction_id, reserve_price), w)
    &&& report.0 == bidders[w]
    &&& report.1 <= amounts[w]
    &&& amounts[other] <= amounts[w]
    &&& amounts[other] == amounts[w] ==> w <= other
}

/// In the five-bid auction the highest bid that counts wins, the earliest
/// among equals, and the winner pays no more than they bid and no less than
/// the reserve price.
pub proof fn lemma_sealed_bid_report_is_fair(
    amounts: Seq<u64>,
    bidders: Seq<u128>,
    auction_id: u64,
    reserve_price: u64,
    report: (u128, u64, bool),
    other: int,
)
    requires
        is_sealed_bid_report(amounts, bidders, auction_id, reserve_price, report),
        bid_is_valid(amounts, CIRCUIT_BIDS as u64, circuit_params(auction_id, reserve_price), other),
    ensures
        report.2,
        reserve_price <= report.1,
        exists|w: int| #[trigger]
            report_names(amounts, bidders, auction_id, reserve_price, report, other, w),
{
    let params = circuit_params(auction_id, reserve_price);
    let scan = choose|scan: BidScan| #[trigger]
        is_scan_of(amounts, CIRCUIT_BIDS as u64, params, scan) && report == sealed_bid_report(
            scan,
            bidders,
            reserve_price,
        );
    let w = scan.winner as int;
    assert(bid_is_valid(amounts, CIRCUIT_BIDS as u64, params, w));
    if scan.second_highest > 0 {
        let j = choose|j: int|
            0 <= j < amounts.len() && j != w && #[trigger] bid_is_valid(
                amounts,
                CIRCUIT_BIDS as u64,
                params,
                j,
            ) && amounts[j] == scan.second_highest;
        assert(amounts[j] <= amounts[w]);
    }
    assert(report_names(amounts, bidders, auction_id, reserve_price, report, other, w));
}

/// Whether a bid is well formed: a positive amount from a bidder other than
/// the zero identity.
pub fn verify_bid_encryption(bid_amount: u64, bidder_id: u128, auction_id: u64) -> (valid: bool)
    ensures
        valid == (bid_amount > 0 && bidder_id > 0),
{
    bid_amount > 0 && bidder_id > 0
}

/// The price of a Dutch auction `elapsed_time` seconds after its start.
pub fn calculate_dutch_price(
    starting_price: u64,
    decrease_rate: u64,
    minimum_floor: u64,
    elapsed_time: u64,
) -> (price: u64)
    ensures
        price == decayed_price(starting_price, decrease_rate, minimum_floor, elapsed_time),
{
    price_at(starting_price, decrease_rate, minimum_floor, elapsed_time)
}

/// Whether a Dutch auction whose price stands at `price` is won by a bid.
pub open spec fn dutch_auction_won(price: u64, bid_price: u64, bidder_id: u128) -> bool {
    bid_price >= price && bidder_id != 0
}

/// Holds one bid against a Dutch auction's price at `elapsed_time`. The bid
/// wins where it is at least that price and the bidder is not the zero
/// identity; the winner pays the price, not the bid. The result is (winner,
/// price paid, won), with winner and price 0 where the bid does not win.
pub fn process_dutch_auction(
    auction_id: u64,
    starting_price: u64,
    current_price: u64,
    price_decrease_rate: u64,
    minimum_floor: u64,
    elapsed_time: u64,
    bid_price: u64,
    bidder_id: u128,
) -> (result: (u128, u64, bool))
    ensures
        ({
            let price = decayed_price(
                starting_price,
                price_decrease_rate,
                minimum_floor,
                elapsed_time,
            );
            result == if dutch_auction_won(price, bid_price, bidder_id) {
                (bidder_id, price, true)
            } else {
                (0u128, 0u64, false)
            }
        }),
{
    let final_price: u64 = price_at(
        starting_price,
        price_decrease_rate,
        minimum_floor,
        elapsed_time,
    );
    let auction_won: bool = bid_price >= final_price && bidder_id > 0;
    if auction_won {
        (bidder_id, final_price, true)
    } else {
        (0, 0, false)
    }
}

/// A bid of exactly the current price wins a Dutch auction, whoever makes it
/// but the zero identity.
pub proof fn lemma_bid_at_price_wins(
    starting_price: u64,
    price_decrease_rate: u64,
    minimum_floor: u64,
    elapsed_time: u64,
    bidder_id: u128,
)
    requires
        bidder_id != 0,
    ensures
        dutch_auction_won(
            decayed_price(starting_price, price_decrease_rate, minimum_floor, elapsed_time),
            decayed_price(starting_price, price_decrease_rate, minimum_floor, elapsed_time),
            bidder_id,
        ),
{
}

/// What the batch computation reports for one auction: the winner, the
/// second price (or the highest bid where there is no second), and whether
/// that price meets the reserve.
pub open spec fn batch_entry(auction: AuctionBatchData) -> (u128, u64, bool) {
    (
        auction.winner_id,
        clearing_price(auction.highest_bid, auction.second_highest_bid, 1),
        clearing_price(auction.highest_bid, auction.second_highest_bid, 1)
            >= auction.reserve_price,
    )
}

/// Settles a batch of up to ten auctions: each of the first `batch_size`
/// slots gets its entry, every other slot (0, 0, false).
pub fn process_batch_settlement(batch_data: [AuctionBatchData; 10], batch_size: u64) -> (results: [(
    u128,
    u64,
    bool,
); 10])
    ensures
        forall|i: int|
            0 <= i < CIRCUIT_BATCH ==> #[trigger] results@[i] == if i < batch_size {
                batch_entry(batch_data@[i])
            } else {
                (0u128, 0u64, false)
            },
{
    let mut results: [(u128, u64, bool); 10] = [(0u128, 0u64, false);10];
    let mut i: usize = 0;
    while i < CIRCUIT_BATCH
        invariant
            i <= CIRCUIT_BATCH,
            forall|j: int|
                0 <= j < i ==> #[trigger] results@[j] == if j < batch_size {
                    batch_entry(batch_data@[j])
                } else {
                    (0u128, 0u64, false)
                },
            forall|j: int| i <= j < CIRCUIT_BATCH ==> #[trigger] results@[j] == (0u128, 0u64, false),
        decreases CIRCUIT_BATCH - i,
    {
        if (i as u64) < batch_size {
            let auction: AuctionBatchData = batch_data[i];
            let winning_amount: u64 = settle_price(
                auction.highest_bid,
                auction.second_highest_bid,
                1,
            );
            let met_reserve: bool = winning_amount >= auction.reserve_price;
            results[i] = (auction.winner_id, winning_amount, met_reserve);
        }
        i += 1;
    }
    results
}

/// Whether each of the first `expected_count` of ten hashes is non-zero.
pub fn validate_batch_integrity(auction_hashes: [u64; 10], expected_count: u64) -> (valid: bool)
    ensures
        valid == (forall|i: int|
            0 <= i < CIRCUIT_BATCH && i < expected_count ==> #[trigger] auction_hashes@[i] != 0),
{
    let mut valid: bool = true;
    let mut i: usize = 0;
    while i < CIRCUIT_BATCH
        invariant
            i <= CIRCUIT_BATCH,
            valid == (forall|j: int|
                0 <= j < i && j < expected_count ==> #[trigger] auction_hashes@[j] != 0),
        decreases CIRCUIT_BATCH - i,
    {
        if (i as u64) < expected_count {
            if auction_hashes[i] == 0 {
                valid = false;
            }
        }
        i += 1;
    }
    valid
}

} // verus!
