use shadow_protocol::codec::{compute_settlement_hash, generate_computation_id};
use shadow_protocol::error::ShadowProtocolError;
use shadow_protocol::instructions::arcium_callback::{
    accept_result, arcium_callback, check_callback_guards, check_queue_guards,
    queue_mpc_computation, store_computation_request, EncryptedBidData, MpcComputationQueued,
    MpcComputationVerified,
};
use shadow_protocol::instructions::auction_management::{
    create_dutch_auction, create_sealed_auction, end_time_for,
};
use shadow_protocol::instructions::bidding::{
    check_bidding_open, submit_dutch_bid, submit_encrypted_bid,
};
use shadow_protocol::codec::ArciumMpcResult;
use shadow_protocol::state::{
    AuctionAccount, AuctionStatus, AuctionType, BidCommitment, ProtocolState,
};

const AUTHORITY: [u8; 32] = [1u8; 32];
const CREATOR: [u8; 32] = [2u8; 32];
const MINT: [u8; 32] = [3u8; 32];
const BIDDER: [u8; 32] = [4u8; 32];
const CLUSTER: [u8; 32] = [5u8; 32];
const STRANGER: [u8; 32] = [6u8; 32];

fn protocol() -> ProtocolState {
    ProtocolState {
        authority: AUTHORITY,
        pending_authority: None,
        protocol_fee: 250,
        fee_recipient: [8u8; 32],
        paused: false,
        bump: 255,
    }
}

fn paused() -> ProtocolState {
    ProtocolState { paused: true, ..protocol() }
}

fn blob() -> [u8; 32] {
    let mut out = [0u8; 32];
    for i in 0..32 {
        out[i] = 5 * i as u8 + 1;
    }
    out
}

/// A sealed-bid auction with id 1, minimum bid 100, open from 1000 to 2000.
fn sealed() -> AuctionAccount {
    create_sealed_auction(&protocol(), 1, CREATOR, MINT, 10, 1000, 100, blob(), 7, 1000, 254)
        .unwrap()
}

/// A Dutch auction with id 2: price 1000 at time 1000, falling by 10 a
/// second to 100, open until 2000.
fn dutch() -> AuctionAccount {
    create_dutch_auction(
        &protocol(),
        2,
        CREATOR,
        MINT,
        10,
        1000,
        10,
        100,
        1000,
        blob(),
        7,
        1000,
        254,
    )
    .unwrap()
}

fn bids(n: usize) -> Vec<EncryptedBidData> {
    vec![
        EncryptedBidData {
            bidder: BIDDER,
            encrypted_amount: blob(),
            nonce: [1u8; 16],
            public_key: [9u8; 32],
        };
        n
    ]
}

fn report(winner: [u8; 32], amount: u64, hash: [u8; 32]) -> Vec<u8> {
    let mut buffer = Vec::new();
    buffer.extend_from_slice(&winner);
    buffer.extend_from_slice(&amount.to_le_bytes());
    buffer.extend_from_slice(&hash);
    buffer
}

/// The sealed auction with two bids, ended and queued at time 2500.
fn queued() -> (AuctionAccount, MpcComputationQueued) {
    let mut auction = sealed();
    submit_encrypted_bid(&mut auction, &protocol(), BIDDER, 1, blob(), [9u8; 32], 1, 0, 0, 1500)
        .unwrap();
    submit_encrypted_bid(&mut auction, &protocol(), STRANGER, 1, blob(), [9u8; 32], 2, 0, 0, 1600)
        .unwrap();
    let event =
        queue_mpc_computation(&mut auction, &protocol(), 1, 2, bids(2), blob(), CLUSTER, 5000, 2500)
            .unwrap();
    (auction, event)
}

fn honest_report(auction: &AuctionAccount, winner: [u8; 32], amount: u64) -> Vec<u8> {
    let hash = compute_settlement_hash(
        auction.auction_id,
        winner,
        amount,
        auction.bid_count,
        auction.end_time,
    );
    report(winner, amount, hash)
}

#[test]
fn created_sealed_auction_is_active() {
    let auction = sealed();
    assert_eq!(
        auction,
        AuctionAccount {
            auction_id: 1,
            creator: CREATOR,
            asset_mint: MINT,
            asset_amount: 10,
            auction_type: AuctionType::SealedBid,
            minimum_bid: 100,
            reserve_price_encrypted: blob(),
            reserve_price_nonce: 7,
            starting_price: 0,
            price_decrease_rate: 0,
            minimum_price_floor: 0,
            start_time: 1000,
            end_time: 2000,
            created_at: 1000,
            status: AuctionStatus::Active,
            bid_count: 0,
            mpc_computation_id: None,
            mxe_cluster: None,
            computation_gas_limit: 0,
            computation_queued_at: None,
            winner: None,
            winning_amount: 0,
            mpc_verification_hash: None,
            settlement_authorized: false,
            settled_at: None,
            bump: 254,
        }
    );
}

#[test]
fn created_dutch_auction_keeps_its_terms() {
    let auction = dutch();
    assert_eq!(auction.auction_type, AuctionType::Dutch);
    assert_eq!(auction.status, AuctionStatus::Active);
    assert_eq!(auction.starting_price, 1000);
    assert_eq!(auction.price_decrease_rate, 10);
    assert_eq!(auction.minimum_price_floor, 100);
    assert_eq!(auction.minimum_bid, 100);
    assert_eq!((auction.start_time, auction.end_time), (1000, 2000));
}

#[test]
fn creation_rejected_while_paused() {
    assert_eq!(
        create_sealed_auction(&paused(), 1, CREATOR, MINT, 10, 1000, 100, blob(), 7, 1000, 254),
        Err(ShadowProtocolError::ProtocolPaused)
    );
    assert_eq!(
        create_dutch_auction(&paused(), 2, CREATOR, MINT, 10, 1000, 10, 100, 1000, blob(), 7, 1000, 1),
        Err(ShadowProtocolError::ProtocolPaused)
    );
}

#[test]
fn creation_rejects_zero_duration() {
    assert_eq!(
        create_sealed_auction(&protocol(), 1, CREATOR, MINT, 10, 0, 100, blob(), 7, 1000, 254),
        Err(ShadowProtocolError::InvalidDuration)
    );
}

#[test]
fn creation_rejects_end_beyond_time() {
    assert_eq!(
        create_sealed_auction(&protocol(), 1, CREATOR, MINT, 10, u64::MAX, 100, blob(), 7, 1000, 1),
        Err(ShadowProtocolError::ArithmeticOverflow)
    );
    assert_eq!(
        create_dutch_auction(&protocol(), 2, CREATOR, MINT, 10, 5, 1, 1, 1, blob(), 7, i64::MAX, 1),
        Err(ShadowProtocolError::ArithmeticOverflow)
    );
    assert_eq!(end_time_for(u64::MAX, 0), None);
    assert_eq!(end_time_for(i64::MAX as u64 + 5, -10), Some(i64::MAX - 5));
    assert_eq!(end_time_for(1, i64::MAX - 1), Some(i64::MAX));
}

#[test]
fn sealed_bid_is_counted_and_returned() {
    let mut auction = sealed();
    let stored =
        submit_encrypted_bid(&mut auction, &protocol(), BIDDER, 1, blob(), [9u8; 32], 11, 0, 0, 1500);
    assert_eq!(
        stored,
        Ok(BidCommitment {
            bidder: BIDDER,
            encrypted_amount: blob(),
            nonce: 11,
            public_key: [9u8; 32],
        })
    );
    assert_eq!(auction, AuctionAccount { bid_count: 1, ..sealed() });
}

#[test]
fn sealed_bid_rejections_leave_record_alone() {
    let cases: Vec<(ProtocolState, u64, [u8; 32], [u8; 32], u128, i64, ShadowProtocolError)> = vec![
        (paused(), 1, blob(), [9u8; 32], 1, 1500, ShadowProtocolError::ProtocolPaused),
        (protocol(), 9, blob(), [9u8; 32], 1, 1500, ShadowProtocolError::InvalidAuctionId),
        (protocol(), 1, blob(), [9u8; 32], 1, 2000, ShadowProtocolError::InvalidAuctionStatus),
        (protocol(), 1, blob(), [9u8; 32], 1, 999, ShadowProtocolError::InvalidAuctionStatus),
        (protocol(), 1, blob(), [9u8; 32], 0, 1500, ShadowProtocolError::InvalidEncryption),
        (protocol(), 1, blob(), [0u8; 32], 1, 1500, ShadowProtocolError::InvalidEncryption),
        (protocol(), 1, [0u8; 32], [9u8; 32], 1, 1500, ShadowProtocolError::InvalidEncryption),
    ];
    for (state, id, amount, key, nonce, now, expected) in cases {
        let mut auction = sealed();
        assert_eq!(
            submit_encrypted_bid(&mut auction, &state, BIDDER, id, amount, key, nonce, 0, 0, now),
            Err(expected)
        );
        assert_eq!(auction, sealed());
    }
}

#[test]
fn sealed_bid_on_last_second_is_taken() {
    let mut auction = sealed();
    assert!(
        submit_encrypted_bid(&mut auction, &protocol(), BIDDER, 1, blob(), [9u8; 32], 1, 0, 0, 1999)
            .is_ok()
    );
    assert!(
        submit_encrypted_bid(&mut auction, &protocol(), BIDDER, 1, blob(), [9u8; 32], 1, 0, 0, 1000)
            .is_ok()
    );
}

#[test]
fn sealed_bid_needs_active_sealed_auction() {
    let mut ended = AuctionAccount { status: AuctionStatus::Ended, ..sealed() };
    assert_eq!(
        submit_encrypted_bid(&mut ended, &protocol(), BIDDER, 1, blob(), [9u8; 32], 1, 0, 0, 1500),
        Err(ShadowProtocolError::InvalidAuctionStatus)
    );
    let mut other_kind = dutch();
    assert_eq!(
        submit_encrypted_bid(&mut other_kind, &protocol(), BIDDER, 2, blob(), [9u8; 32], 1, 0, 0, 1500),
        Err(ShadowProtocolError::InvalidAuctionStatus)
    );
    assert_eq!(
        check_bidding_open(&sealed(), &protocol(), 1, AuctionType::Dutch, 1500),
        Err(ShadowProtocolError::InvalidAuctionStatus)
    );
    assert_eq!(check_bidding_open(&sealed(), &protocol(), 1, AuctionType::SealedBid, 1500), Ok(()));
}

#[test]
fn sealed_bids_stop_at_the_maximum() {
    let mut auction = AuctionAccount { bid_count: 63, ..sealed() };
    assert!(
        submit_encrypted_bid(&mut auction, &protocol(), BIDDER, 1, blob(), [9u8; 32], 1, 0, 0, 1500)
            .is_ok()
    );
    assert_eq!(auction.bid_count, 64);
    assert_eq!(
        submit_encrypted_bid(&mut auction, &protocol(), BIDDER, 1, blob(), [9u8; 32], 1, 0, 0, 1500),
        Err(ShadowProtocolError::TooManyBids)
    );
    assert_eq!(auction.bid_count, 64);
}

#[test]
fn dutch_bid_at_price_wins_at_price() {
    let mut auction = dutch();
    assert_eq!(submit_dutch_bid(&mut auction, &protocol(), BIDDER, 2, 500, 0, 1050), Ok(500));
    assert_eq!(
        auction,
        AuctionAccount {
            winner: Some(BIDDER),
            winning_amount: 500,
            status: AuctionStatus::Ended,
            bid_count: 1,
            ..dutch()
        }
    );
}

#[test]
fn submitted_dutch_bid_above_price_pays_price() {
    let mut auction = dutch();
    assert_eq!(submit_dutch_bid(&mut auction, &protocol(), BIDDER, 2, 5000, 0, 1001), Ok(990));
    assert_eq!(auction.winning_amount, 990);
    assert_eq!(auction.winner, Some(BIDDER));
}

#[test]
fn dutch_bid_below_price_changes_nothing() {
    let mut auction = dutch();
    assert_eq!(
        submit_dutch_bid(&mut auction, &protocol(), BIDDER, 2, 499, 0, 1050),
        Err(ShadowProtocolError::BidTooLow)
    );
    assert_eq!(auction, dutch());
}

#[test]
fn dutch_bid_other_rejections() {
    let mut auction = dutch();
    assert_eq!(
        submit_dutch_bid(&mut auction, &protocol(), [0u8; 32], 2, 5000, 0, 1050),
        Err(ShadowProtocolError::InvalidWinnerDetermination)
    );
    assert_eq!(
        submit_dutch_bid(&mut auction, &paused(), BIDDER, 2, 5000, 0, 1050),
        Err(ShadowProtocolError::ProtocolPaused)
    );
    assert_eq!(
        submit_dutch_bid(&mut auction, &protocol(), BIDDER, 3, 5000, 0, 1050),
        Err(ShadowProtocolError::InvalidAuctionId)
    );
    assert_eq!(
        submit_dutch_bid(&mut auction, &protocol(), BIDDER, 2, 5000, 0, 2000),
        Err(ShadowProtocolError::InvalidAuctionStatus)
    );
    assert_eq!(auction, dutch());
    let mut sealed_auction = sealed();
    assert_eq!(
        submit_dutch_bid(&mut sealed_auction, &protocol(), BIDDER, 1, 5000, 0, 1050),
        Err(ShadowProtocolError::InvalidAuctionStatus)
    );
}

#[test]
fn second_dutch_bid_finds_auction_ended() {
    let mut auction = dutch();
    submit_dutch_bid(&mut auction, &protocol(), BIDDER, 2, 1000, 0, 1000).unwrap();
    let after_first = auction;
    assert_eq!(
        submit_dutch_bid(&mut auction, &protocol(), STRANGER, 2, 1000, 0, 1001),
        Err(ShadowProtocolError::InvalidAuctionStatus)
    );
    assert_eq!(auction, after_first);
}

#[test]
fn queue_ends_an_active_auction_at_now() {
    let (auction, event) = queued();
    let id = generate_computation_id(1, 2500);
    assert_eq!(
        event,
        MpcComputationQueued {
            auction_id: 1,
            computation_id: id,
            bids_count: 2,
            mxe_cluster: CLUSTER,
            gas_limit: 5000,
            queued_at: 2500,
        }
    );
    assert_eq!(
        auction,
        AuctionAccount {
            bid_count: 2,
            status: AuctionStatus::Ended,
            end_time: 2500,
            mpc_computation_id: Some(id),
            mxe_cluster: Some(CLUSTER),
            computation_gas_limit: 5000,
            computation_queued_at: Some(2500),
            ..sealed()
        }
    );
}

#[test]
fn queue_on_ended_auction_keeps_end_time() {
    let mut auction = AuctionAccount { status: AuctionStatus::Ended, ..sealed() };
    let event =
        queue_mpc_computation(&mut auction, &protocol(), 1, 0, bids(0), blob(), CLUSTER, 1, 1200)
            .unwrap();
    assert_eq!(event.computation_id, generate_computation_id(1, 2000));
    assert_eq!(auction.end_time, 2000);
    assert_eq!(auction.status, AuctionStatus::Ended);
    assert_eq!(auction.computation_queued_at, Some(1200));
}

#[test]
fn queue_rejections_leave_record_alone() {
    let cases: Vec<(ProtocolState, u64, u32, usize, i64, ShadowProtocolError)> = vec![
        (paused(), 1, 2, 2, 2500, ShadowProtocolError::ProtocolPaused),
        (protocol(), 1, 2, 2, 1999, ShadowProtocolError::InvalidAuctionStatus),
        (protocol(), 8, 2, 2, 2500, ShadowProtocolError::InvalidAuctionId),
        (protocol(), 1, 2, 3, 2500, ShadowProtocolError::InvalidBidCount),
        (protocol(), 1, 65, 65, 2500, ShadowProtocolError::TooManyBids),
    ];
    for (state, id, declared, supplied, now, expected) in cases {
        let mut auction = sealed();
        assert_eq!(
            queue_mpc_computation(
                &mut auction,
                &state,
                id,
                declared,
                bids(supplied),
                blob(),
                CLUSTER,
                5000,
                now
            ),
            Err(expected)
        );
        assert_eq!(auction, sealed());
        assert_eq!(check_queue_guards(&sealed(), &state, id, declared, supplied, now), Err(expected));
    }
}

#[test]
fn queue_takes_the_maximum_number_of_bids() {
    let mut auction = sealed();
    assert!(
        queue_mpc_computation(&mut auction, &protocol(), 1, 64, bids(64), blob(), CLUSTER, 1, 2000)
            .is_ok()
    );
}

#[test]
fn queue_rejects_second_request() {
    let (mut auction, _) = queued();
    let before = auction;
    assert_eq!(
        queue_mpc_computation(&mut auction, &protocol(), 1, 2, bids(2), blob(), CLUSTER, 1, 2600),
        Err(ShadowProtocolError::InvalidAuctionStatus)
    );
    assert_eq!(auction, before);
}

#[test]
fn queue_rejects_settled_and_cancelled() {
    for status in [AuctionStatus::Created, AuctionStatus::Settled, AuctionStatus::Cancelled] {
        let mut auction = AuctionAccount { status, ..sealed() };
        assert_eq!(
            queue_mpc_computation(&mut auction, &protocol(), 1, 0, bids(0), blob(), CLUSTER, 1, 9000),
            Err(ShadowProtocolError::InvalidAuctionStatus)
        );
    }
}

#[test]
fn stored_request_is_written_as_given() {
    let mut auction = sealed();
    let event = store_computation_request(&mut auction, [7u8; 32], 3, CLUSTER, 9, 2222);
    assert_eq!(event.computation_id, [7u8; 32]);
    assert_eq!(event.bids_count, 3);
    assert_eq!(auction.mpc_computation_id, Some([7u8; 32]));
    assert_eq!(auction.end_time, 2222);
    assert_eq!(auction.status, AuctionStatus::Ended);
}

#[test]
fn callback_accepts_honest_report() {
    let (mut auction, event) = queued();
    let before = auction;
    let buffer = honest_report(&auction, BIDDER, 180);
    let hash = compute_settlement_hash(1, BIDDER, 180, 2, 2500);
    assert_eq!(
        arcium_callback(&mut auction, &protocol(), AUTHORITY, event.computation_id, buffer, 2600),
        Ok(MpcComputationVerified {
            auction_id: 1,
            winner: BIDDER,
            winning_amount: 180,
            verification_hash: hash,
            verified_at: 2600,
        })
    );
    assert_eq!(
        auction,
        AuctionAccount {
            winner: Some(BIDDER),
            winning_amount: 180,
            mpc_verification_hash: Some(hash),
            settlement_authorized: true,
            settled_at: Some(2600),
            ..before
        }
    );
    assert_eq!(auction.status, AuctionStatus::Ended);
}

#[test]
fn callback_accepts_amount_equal_to_minimum() {
    let (mut auction, event) = queued();
    let buffer = honest_report(&auction, BIDDER, 100);
    let verified =
        arcium_callback(&mut auction, &protocol(), AUTHORITY, event.computation_id, buffer, 2600);
    assert_eq!(verified.map(|e| e.winning_amount), Ok(100));
}

#[test]
fn callback_rejections_leave_record_alone() {
    let (auction, event) = queued();
    let honest = honest_report(&auction, BIDDER, 180);
    let mut forged = honest.clone();
    forged[32] = 181;
    let mut stale_hash = honest.clone();
    stale_hash[71] ^= 1;
    let other_id = generate_computation_id(1, 2000);
    let cases: Vec<(ProtocolState, [u8; 32], [u8; 32], Vec<u8>, ShadowProtocolError)> = vec![
        (paused(), AUTHORITY, event.computation_id, honest.clone(), ShadowProtocolError::ProtocolPaused),
        (protocol(), STRANGER, event.computation_id, honest.clone(), ShadowProtocolError::Unauthorized),
        (protocol(), AUTHORITY, other_id, honest.clone(), ShadowProtocolError::UnknownComputation),
        (protocol(), AUTHORITY, [0u8; 32], honest.clone(), ShadowProtocolError::UnknownComputation),
        (protocol(), AUTHORITY, event.computation_id, forged, ShadowProtocolError::VerificationFailed),
        (protocol(), AUTHORITY, event.computation_id, stale_hash, ShadowProtocolError::VerificationFailed),
        (protocol(), AUTHORITY, event.computation_id, honest_report(&auction, BIDDER, 99), ShadowProtocolError::BidTooLow),
        (protocol(), AUTHORITY, event.computation_id, honest_report(&auction, BIDDER, 0), ShadowProtocolError::BidTooLow),
    ];
    for (state, caller, id, buffer, expected) in cases {
        let mut record = auction;
        assert_eq!(arcium_callback(&mut record, &state, caller, id, buffer, 2600), Err(expected));
        assert_eq!(record, auction);
    }
}

#[test]
fn malformed_result_cancels_auction() {
    let (auction, event) = queued();
    let honest = honest_report(&auction, BIDDER, 180);
    for buffer in [honest[..71].to_vec(), Vec::new()] {
        let mut record = auction;
        assert_eq!(
            arcium_callback(&mut record, &protocol(), AUTHORITY, event.computation_id, buffer, 2600),
            Err(ShadowProtocolError::MalformedResult)
        );
        assert_eq!(record, AuctionAccount { status: AuctionStatus::Cancelled, ..auction });
    }
}

#[test]
fn malformed_result_from_stranger_changes_nothing() {
    let (auction, event) = queued();
    let mut record = auction;
    assert_eq!(
        arcium_callback(&mut record, &protocol(), STRANGER, event.computation_id, Vec::new(), 2600),
        Err(ShadowProtocolError::Unauthorized)
    );
    assert_eq!(
        arcium_callback(&mut record, &protocol(), AUTHORITY, [0u8; 32], Vec::new(), 2600),
        Err(ShadowProtocolError::UnknownComputation)
    );
    assert_eq!(record, auction);
}

#[test]
fn callback_needs_ended_auction() {
    let active = sealed();
    let id = generate_computation_id(1, 2000);
    let buffer = honest_report(&active, BIDDER, 180);
    for status in [
        AuctionStatus::Created,
        AuctionStatus::Active,
        AuctionStatus::Settled,
        AuctionStatus::Cancelled,
    ] {
        let mut auction = AuctionAccount { status, ..active };
        assert_eq!(
            arcium_callback(&mut auction, &protocol(), AUTHORITY, id, buffer.clone(), 2600),
            Err(ShadowProtocolError::InvalidAuctionStatus)
        );
    }
}

#[test]
fn callback_is_accepted_once() {
    let (mut auction, event) = queued();
    let buffer = honest_report(&auction, BIDDER, 180);
    arcium_callback(&mut auction, &protocol(), AUTHORITY, event.computation_id, buffer.clone(), 2600)
        .unwrap();
    let after_first = auction;
    assert_eq!(
        arcium_callback(&mut auction, &protocol(), AUTHORITY, event.computation_id, buffer, 2700),
        Err(ShadowProtocolError::AuctionAlreadySettled)
    );
    assert_eq!(auction, after_first);
}

#[test]
fn callback_report_for_other_auction_is_refused() {
    let (mut auction, event) = queued();
    let other = AuctionAccount { auction_id: 77, ..auction };
    let buffer = honest_report(&other, BIDDER, 180);
    assert_eq!(
        arcium_callback(&mut auction, &protocol(), AUTHORITY, event.computation_id, buffer, 2600),
        Err(ShadowProtocolError::VerificationFailed)
    );
}

#[test]
fn callback_guards_on_given_ids() {
    let (auction, _) = queued();
    let id = [3u8; 32];
    assert_eq!(check_callback_guards(&auction, &protocol(), &AUTHORITY, &id, &id), Ok(()));
    assert_eq!(
        check_callback_guards(&auction, &protocol(), &AUTHORITY, &id, &[4u8; 32]),
        Err(ShadowProtocolError::UnknownComputation)
    );
    assert_eq!(
        check_callback_guards(&auction, &protocol(), &STRANGER, &id, &id),
        Err(ShadowProtocolError::Unauthorized)
    );
}

#[test]
fn result_is_held_against_given_hash() {
    let (auction, _) = queued();
    let parsed =
        ArciumMpcResult { winner: BIDDER, winning_amount: 180, verification_hash: [7u8; 32] };
    let mut record = auction;
    assert_eq!(accept_result(&mut record, parsed, &[7u8; 32], 2600), Ok(()));
    assert_eq!(record.winner, Some(BIDDER));
    assert_eq!(record.winning_amount, 180);
    assert_eq!(record.mpc_verification_hash, Some([7u8; 32]));
    assert!(record.settlement_authorized);
    let mut record = auction;
    assert_eq!(
        accept_result(&mut record, parsed, &[8u8; 32], 2600),
        Err(ShadowProtocolError::VerificationFailed)
    );
    assert_eq!(record, auction);
    let low = ArciumMpcResult { winning_amount: 99, ..parsed };
    assert_eq!(
        accept_result(&mut record, low, &[7u8; 32], 2600),
        Err(ShadowProtocolError::BidTooLow)
    );
    assert_eq!(record, auction);
}
