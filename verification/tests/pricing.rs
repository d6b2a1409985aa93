use shadow_protocol::error::ShadowProtocolError;
use shadow_protocol::pricing::{
    batch_settlement, calculate_dutch_price, dutch_auction, price_at, scan_bids,
    sealed_bid_auction, settle_price, validate_bid, verify_auction_timing, AuctionParams, BidScan,
    SettlementResult,
};

fn params(minimum_bid: u64, reserve_price: u64) -> AuctionParams {
    AuctionParams { auction_id: 1, minimum_bid, reserve_price, auction_type: 0 }
}

fn slots(bids: &[u64]) -> [u64; 64] {
    let mut out = [0u64; 64];
    for (i, bid) in bids.iter().enumerate() {
        out[i] = *bid;
    }
    out
}

fn results(amounts: &[u64]) -> [u64; 32] {
    let mut out = [0u64; 32];
    for (i, amount) in amounts.iter().enumerate() {
        out[i] = *amount;
    }
    out
}

#[test]
fn sealed_bid_scenario_second_price() {
    let result = sealed_bid_auction(slots(&[200, 180, 50]), 3, params(100, 150), 1);
    assert_eq!(
        result,
        SettlementResult {
            winner_id: 0,
            winning_amount: 180,
            second_highest: 180,
            reserve_met: true,
            timestamp: 0,
        }
    );
}

#[test]
fn sealed_bid_first_price_pays_own_bid() {
    let result = sealed_bid_auction(slots(&[200, 180, 50]), 3, params(100, 150), 0);
    assert_eq!(result.winner_id, 0);
    assert_eq!(result.winning_amount, 200);
    assert_eq!(result.second_highest, 180);
    assert!(result.reserve_met);
}

#[test]
fn sealed_bid_single_valid_bid_pays_itself() {
    let result = sealed_bid_auction(slots(&[50, 0, 300, 120]), 4, params(100, 200), 1);
    assert_eq!(
        result,
        SettlementResult {
            winner_id: 2,
            winning_amount: 300,
            second_highest: 0,
            reserve_met: true,
            timestamp: 0,
        }
    );
}

#[test]
fn sealed_bid_tie_goes_to_first_slot() {
    let result = sealed_bid_auction(slots(&[10, 500, 500, 499]), 4, params(1, 1), 1);
    assert_eq!(result.winner_id, 1);
    assert_eq!(result.winning_amount, 500);
    assert_eq!(result.second_highest, 500);
}

#[test]
fn sealed_bid_later_maximum_demotes_earlier() {
    let result = sealed_bid_auction(slots(&[100, 300, 200, 400]), 4, params(1, 1), 1);
    assert_eq!(result.winner_id, 3);
    assert_eq!(result.winning_amount, 300);
    assert_eq!(result.second_highest, 300);
}

#[test]
fn sealed_bid_ignores_slots_beyond_count() {
    let result = sealed_bid_auction(slots(&[200, 180, 900]), 2, params(100, 150), 1);
    assert_eq!(result.winner_id, 0);
    assert_eq!(result.winning_amount, 180);
}

#[test]
fn sealed_bid_bid_equal_to_minimum_is_valid() {
    let result = sealed_bid_auction(slots(&[100]), 1, params(100, 100), 1);
    assert_eq!(result.winner_id, 0);
    assert_eq!(result.winning_amount, 100);
    assert!(result.reserve_met);
}

#[test]
fn sealed_bid_no_valid_bid_is_no_winner() {
    let result = sealed_bid_auction(slots(&[50, 99, 0]), 3, params(100, 150), 1);
    assert_eq!(
        result,
        SettlementResult {
            winner_id: 0,
            winning_amount: 0,
            second_highest: 0,
            reserve_met: false,
            timestamp: 0,
        }
    );
}

#[test]
fn sealed_bid_no_bids_at_all() {
    let result = sealed_bid_auction([0u64; 64], 0, params(0, 0), 1);
    assert_eq!(result.winner_id, 0);
    assert_eq!(result.winning_amount, 0);
    assert!(result.reserve_met);
}

#[test]
fn sealed_bid_uses_all_64_slots() {
    let mut bids = [1u64; 64];
    bids[63] = 77;
    bids[10] = 60;
    let result = sealed_bid_auction(bids, 64, params(1, 1), 1);
    assert_eq!(result.winner_id, 63);
    assert_eq!(result.winning_amount, 60);
    let result = sealed_bid_auction(bids, 1000, params(1, 1), 1);
    assert_eq!(result.winner_id, 63);
}

#[test]
fn clearing_price_never_exceeds_winning_bid() {
    let cases: [&[u64]; 5] =
        [&[5, 9, 7], &[9, 9, 9], &[1], &[3, 2, 1, 8, 8, 4], &[0, 0, 12, 11]];
    for bids in cases.iter() {
        for settlement_type in 0..3u8 {
            let full = slots(bids);
            let result = sealed_bid_auction(full, bids.len() as u64, params(1, 1), settlement_type);
            assert!(result.winning_amount <= full[result.winner_id as usize]);
            assert!(result.winning_amount > 0);
        }
    }
}

#[test]
fn scan_reports_winner_and_runner_up() {
    let scan = scan_bids(&[4, 8, 6, 8], 4, &params(1, 5));
    assert_eq!(scan, BidScan { found: true, winner: 1, highest: 8, second_highest: 8 });
    let scan = scan_bids(&[4, 3], 2, &params(1, 5));
    assert_eq!(scan, BidScan { found: false, winner: 0, highest: 0, second_highest: 0 });
    let scan = scan_bids(&[], 2, &params(1, 5));
    assert!(!scan.found);
}

#[test]
fn settle_price_by_type() {
    assert_eq!(settle_price(200, 180, 0), 200);
    assert_eq!(settle_price(200, 180, 1), 180);
    assert_eq!(settle_price(200, 0, 1), 200);
    assert_eq!(settle_price(200, 180, 255), 180);
}

#[test]
fn dutch_price_scenario() {
    assert_eq!(price_at(1000, 10, 100, 50), 500);
    assert_eq!(dutch_auction(500, 500, 0, 42), (true, 500, 42));
}

#[test]
fn dutch_price_stops_at_floor() {
    assert_eq!(price_at(1000, 10, 100, 0), 1000);
    assert_eq!(price_at(1000, 10, 100, 89), 110);
    assert_eq!(price_at(1000, 10, 100, 90), 100);
    assert_eq!(price_at(1000, 10, 100, 91), 100);
    assert_eq!(price_at(1000, 10, 100, 100), 100);
    assert_eq!(price_at(1000, 10, 100, u64::MAX), 100);
    assert_eq!(price_at(1000, u64::MAX, 100, 2), 100);
    assert_eq!(price_at(50, 1, 100, 0), 100);
}

#[test]
fn dutch_price_never_rises() {
    let mut last = u64::MAX;
    for t in 0..200u64 {
        let price = price_at(1000, 7, 13, t);
        assert!(price <= last);
        assert!(price >= 13);
        last = price;
    }
}

#[test]
fn dutch_price_without_floor_reaches_zero() {
    assert_eq!(calculate_dutch_price(1000, 10, 50), 500);
    assert_eq!(calculate_dutch_price(1000, 10, 100), 0);
    assert_eq!(calculate_dutch_price(1000, 10, 101), 0);
    assert_eq!(calculate_dutch_price(1000, u64::MAX, u64::MAX), 0);
}

#[test]
fn dutch_bid_pays_price_not_bid() {
    assert_eq!(dutch_auction(500, 900, 400, 7), (true, 500, 7));
}

#[test]
fn dutch_bid_refused() {
    assert_eq!(dutch_auction(500, 499, 0, 7), (false, 0, 0));
    assert_eq!(dutch_auction(500, 600, 601, 7), (false, 0, 0));
    assert_eq!(dutch_auction(500, 600, 0, 0), (false, 0, 0));
}

#[test]
fn batch_scenario() {
    assert_eq!(batch_settlement(results(&[50, 0, 30]), 3), Ok((2, 1, 80)));
}

#[test]
fn batch_counts_only_declared_slots() {
    assert_eq!(batch_settlement(results(&[50, 0, 30, 99]), 2), Ok((1, 1, 50)));
    assert_eq!(batch_settlement(results(&[50, 0, 30]), 0), Ok((0, 0, 0)));
    assert_eq!(batch_settlement([1u64; 32], 32), Ok((32, 0, 32)));
    assert_eq!(batch_settlement([1u64; 32], 255), Ok((32, 0, 32)));
    assert_eq!(batch_settlement([0u64; 32], 32), Ok((0, 32, 0)));
}

#[test]
fn batch_volume_overflow_is_reported() {
    assert_eq!(
        batch_settlement(results(&[u64::MAX, 1]), 2),
        Err(ShadowProtocolError::ArithmeticOverflow)
    );
    assert_eq!(batch_settlement(results(&[u64::MAX, 1]), 1), Ok((1, 0, u64::MAX)));
    assert_eq!(batch_settlement(results(&[u64::MAX - 1, 1, 0]), 3), Ok((2, 1, u64::MAX)));
    assert_eq!(
        batch_settlement(results(&[u64::MAX, 1, 0, 5]), 4),
        Err(ShadowProtocolError::ArithmeticOverflow)
    );
}

#[test]
fn timing_window_is_closed_interval() {
    assert!(verify_auction_timing(10, 20, 10));
    assert!(verify_auction_timing(10, 20, 20));
    assert!(verify_auction_timing(10, 20, 15));
    assert!(!verify_auction_timing(10, 20, 9));
    assert!(!verify_auction_timing(10, 20, 21));
}

#[test]
fn bid_validation() {
    assert!(validate_bid(150, 100, 150));
    assert!(!validate_bid(149, 100, 150));
    assert!(!validate_bid(99, 100, 50));
}
