use shadow_protocol::circuits::{
    calculate_dutch_price, process_batch_settlement, process_dutch_auction,
    process_sealed_bid_auction, validate_batch_integrity, verify_bid_encryption,
    AuctionBatchData,
};

fn entry(reserve_price: u64, highest_bid: u64, second_highest_bid: u64, winner_id: u128) -> AuctionBatchData {
    AuctionBatchData {
        auction_id: 1,
        reserve_price,
        bid_count: 2,
        highest_bid,
        second_highest_bid,
        winner_id,
    }
}

#[test]
fn five_bid_auction_pays_second_price() {
    let report = process_sealed_bid_auction(1, 150, 200, 11, 180, 12, 50, 13, 0, 14, 0, 15);
    assert_eq!(report, (11, 180, true));
}

#[test]
fn five_bid_auction_winner_in_last_slot() {
    let report = process_sealed_bid_auction(1, 10, 20, 11, 30, 12, 40, 13, 50, 14, 60, 15);
    assert_eq!(report, (15, 50, true));
}

#[test]
fn five_bid_auction_single_bid_pays_itself() {
    let report = process_sealed_bid_auction(1, 100, 0, 11, 0, 12, 500, 13, 0, 14, 0, 15);
    assert_eq!(report, (13, 500, true));
}

#[test]
fn five_bid_auction_tie_goes_to_first() {
    let report = process_sealed_bid_auction(1, 1, 70, 11, 90, 12, 90, 13, 0, 14, 0, 15);
    assert_eq!(report, (12, 90, true));
}

#[test]
fn five_bid_auction_bids_below_reserve_do_not_count() {
    let report = process_sealed_bid_auction(1, 100, 200, 11, 90, 12, 80, 13, 0, 14, 0, 15);
    assert_eq!(report, (11, 200, true));
    let report = process_sealed_bid_auction(1, 100, 20, 11, 90, 12, 80, 13, 0, 14, 0, 15);
    assert_eq!(report, (0, 0, false));
}

#[test]
fn five_bid_auction_without_bids() {
    assert_eq!(process_sealed_bid_auction(1, 100, 0, 1, 0, 2, 0, 3, 0, 4, 0, 5), (0, 0, false));
    assert_eq!(process_sealed_bid_auction(1, 0, 0, 1, 0, 2, 0, 3, 0, 4, 0, 5), (0, 0, true));
}

#[test]
fn bid_encryption_needs_amount_and_bidder() {
    assert!(verify_bid_encryption(1, 1, 9));
    assert!(!verify_bid_encryption(0, 1, 9));
    assert!(!verify_bid_encryption(1, 0, 9));
}

#[test]
fn circuit_dutch_price_scenario() {
    assert_eq!(calculate_dutch_price(1000, 10, 100, 50), 500);
    assert_eq!(calculate_dutch_price(1000, 10, 100, 1000), 100);
}

#[test]
fn dutch_bid_at_price_wins() {
    assert_eq!(process_dutch_auction(1, 1000, 0, 10, 100, 50, 500, 42), (42, 500, true));
}

#[test]
fn dutch_bid_above_price_pays_price() {
    assert_eq!(process_dutch_auction(1, 1000, 777, 10, 100, 50, 900, 42), (42, 500, true));
}

#[test]
fn dutch_bid_below_price_or_from_no_one_loses() {
    assert_eq!(process_dutch_auction(1, 1000, 0, 10, 100, 50, 499, 42), (0, 0, false));
    assert_eq!(process_dutch_auction(1, 1000, 0, 10, 100, 50, 500, 0), (0, 0, false));
}

#[test]
fn batch_entries_follow_second_price() {
    let mut data = [entry(0, 0, 0, 0); 10];
    data[0] = entry(150, 200, 180, 7);
    data[1] = entry(150, 200, 0, 8);
    data[2] = entry(150, 120, 100, 9);
    data[3] = entry(1, 500, 400, 10);
    let results = process_batch_settlement(data, 3);
    assert_eq!(results[0], (7, 180, true));
    assert_eq!(results[1], (8, 200, true));
    assert_eq!(results[2], (9, 100, false));
    for i in 3..10 {
        assert_eq!(results[i], (0, 0, false));
    }
}

#[test]
fn batch_size_beyond_slots_takes_all_ten() {
    let data = [entry(5, 9, 7, 3); 10];
    let results = process_batch_settlement(data, 1000);
    for i in 0..10 {
        assert_eq!(results[i], (3, 7, true));
    }
}

#[test]
fn batch_integrity_checks_declared_hashes() {
    let mut hashes = [5u64; 10];
    assert!(validate_batch_integrity(hashes, 10));
    hashes[4] = 0;
    assert!(!validate_batch_integrity(hashes, 10));
    assert!(!validate_batch_integrity(hashes, 5));
    assert!(validate_batch_integrity(hashes, 4));
    assert!(validate_batch_integrity([0u64; 10], 0));
    assert!(!validate_batch_integrity(hashes, u64::MAX));
}
