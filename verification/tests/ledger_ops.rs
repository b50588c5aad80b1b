//! End-to-end exercises of the ledger operations: creation, bidding,
//! settlement and the privileged status mutation, with the host context
//! (time, entropy, block) driven explicitly.

use auction_ledger::ledger::Module;
use auction_ledger::AuctionError;
use auction_ledger::AuctionStatus;

const ITEM: [u8; 16] = [7u8; 16];

fn listed_ledger(end_time: Option<u64>) -> (Module, [u8; 16]) {
    let mut ledger = Module::new();
    let id = ledger
        .create_auction(1, ITEM, 0, 100, 10, end_time)
        .expect("creation with sound parameters succeeds");
    (ledger, id)
}

#[test]
fn default_status_is_not_started() {
    assert_eq!(AuctionStatus::default(), AuctionStatus::NotStarted);
}

#[test]
fn create_stores_a_fresh_record() {
    let (ledger, id) = listed_ledger(Some(50));
    let rec = ledger.record(&id).expect("the record is stored");
    assert_eq!(rec.record_id, id);
    assert_eq!(rec.item_id, ITEM);
    assert_eq!(rec.begin_time, 0);
    assert_eq!(rec.end_time, Some(50));
    assert_eq!(rec.start_price, 100);
    assert_eq!(rec.current_price, 0);
    assert_eq!(rec.bid_range, 10);
    assert_eq!(rec.status, AuctionStatus::NotStarted);
    assert_eq!(rec.item_receiver, None);
    assert_eq!(rec.item_seller, 1);
}

#[test]
fn create_rejects_zero_bid_range() {
    let mut ledger = Module::new();
    let r = ledger.create_auction(1, ITEM, 0, 100, 0, None);
    assert_eq!(r, Err(AuctionError::InvalidParameter));
}

#[test]
fn relisting_a_listed_item_fails() {
    let (mut ledger, id) = listed_ledger(Some(50));
    let r = ledger.create_auction(2, ITEM, 0, 200, 5, None);
    assert_eq!(r, Err(AuctionError::AlreadyListed));
    // the stored record is the first listing, untouched
    let rec = ledger.record(&id).expect("first record kept");
    assert_eq!(rec.item_seller, 1);
    assert_eq!(rec.start_price, 100);
}

#[test]
fn record_ids_differ_across_creations() {
    let mut ledger = Module::new();
    let id_a = ledger
        .create_auction(1, [1u8; 16], 0, 100, 10, None)
        .expect("first creation succeeds");
    let id_b = ledger
        .create_auction(1, [2u8; 16], 0, 100, 10, None)
        .expect("second creation succeeds");
    assert_ne!(id_a, id_b);
    assert!(ledger.record(&id_a).is_some());
    assert!(ledger.record(&id_b).is_some());
}

#[test]
fn id_derivation_replays_deterministically() {
    let mut first = Module::new();
    let mut second = Module::new();
    first.set_block_context(99, 3);
    second.set_block_context(99, 3);
    assert_eq!(first.random_value(5), second.random_value(5));
    // a different submitter, seed or block changes the identifier
    assert_ne!(first.random_value(5), first.random_value(6));
    second.set_block_context(100, 3);
    assert_ne!(first.random_value(5), second.random_value(5));
}

#[test]
fn bid_on_missing_record_fails() {
    let mut ledger = Module::new();
    let r = ledger.place_bid(2, [9u8; 16], 115);
    assert_eq!(r, Err(AuctionError::RecordNotFound));
}

#[test]
fn seller_cannot_bid() {
    let (mut ledger, id) = listed_ledger(Some(50));
    let r = ledger.place_bid(1, id, 115);
    assert_eq!(r, Err(AuctionError::SelfBidForbidden));
    let rec = ledger.record(&id).expect("record kept");
    assert_eq!(rec.current_price, 0);
    assert_eq!(rec.item_receiver, None);
    assert_eq!(rec.status, AuctionStatus::NotStarted);
}

#[test]
fn bid_before_the_window_opens_fails() {
    let mut ledger = Module::new();
    let id = ledger
        .create_auction(1, ITEM, 30, 100, 10, Some(50))
        .expect("creation succeeds");
    let r = ledger.place_bid(2, id, 115);
    assert_eq!(r, Err(AuctionError::AuctionNotStarted));
    ledger.set_time(30);
    assert_eq!(ledger.place_bid(2, id, 115), Ok(()));
}

#[test]
fn bid_on_paused_record_fails() {
    let (mut ledger, id) = listed_ledger(Some(50));
    assert_eq!(
        ledger.change_auction_status(1, id, AuctionStatus::Paused),
        Ok(())
    );
    let r = ledger.place_bid(2, id, 115);
    assert_eq!(r, Err(AuctionError::NotBiddable));
}

#[test]
fn low_bid_fails_and_changes_nothing() {
    let (mut ledger, id) = listed_ledger(Some(50));
    // below start_price + bid_range
    assert_eq!(ledger.place_bid(2, id, 109), Err(AuctionError::BidTooLow));
    let rec = ledger.record(&id).expect("record kept");
    assert_eq!(rec.current_price, 0);
    assert_eq!(rec.item_receiver, None);
    // after one accepted bid, below current_price + bid_range
    assert_eq!(ledger.place_bid(2, id, 115), Ok(()));
    assert_eq!(ledger.place_bid(3, id, 124), Err(AuctionError::BidTooLow));
    let rec = ledger.record(&id).expect("record kept");
    assert_eq!(rec.current_price, 115);
    assert_eq!(rec.item_receiver, Some(2));
}

#[test]
fn increasing_bids_keep_last_amount_and_bidder() {
    let (mut ledger, id) = listed_ledger(Some(50));
    assert_eq!(ledger.place_bid(2, id, 115), Ok(()));
    assert_eq!(ledger.place_bid(3, id, 130), Ok(()));
    assert_eq!(ledger.place_bid(4, id, 145), Ok(()));
    let rec = ledger.record(&id).expect("record kept");
    assert_eq!(rec.current_price, 145);
    assert_eq!(rec.item_receiver, Some(4));
    assert_eq!(rec.status, AuctionStatus::Started);
}

#[test]
fn late_bid_settles_instead_of_bidding() {
    // with an accepted bid the late settlement is Sold
    let (mut ledger, id) = listed_ledger(Some(50));
    assert_eq!(ledger.place_bid(2, id, 115), Ok(()));
    ledger.set_time(60);
    assert_eq!(ledger.place_bid(3, id, 200), Ok(()));
    let rec = ledger.record(&id).expect("record kept");
    assert_eq!(rec.status, AuctionStatus::Sold);
    assert_eq!(rec.current_price, 115);
    assert_eq!(rec.item_receiver, Some(2));
    // without any accepted bid the late settlement is Unsold
    let (mut ledger, id) = listed_ledger(Some(50));
    ledger.set_time(60);
    assert_eq!(ledger.place_bid(3, id, 200), Ok(()));
    let rec = ledger.record(&id).expect("record kept");
    assert_eq!(rec.status, AuctionStatus::Unsold);
    assert_eq!(rec.current_price, 0);
    assert_eq!(rec.item_receiver, None);
}

#[test]
fn scenario_bid_then_settle_after_close_is_sold() {
    let (mut ledger, id) = listed_ledger(Some(50));
    assert_eq!(ledger.place_bid(2, id, 115), Ok(()));
    let rec = ledger.record(&id).expect("record kept");
    assert_eq!(rec.current_price, 115);
    assert_eq!(rec.status, AuctionStatus::Started);
    ledger.set_time(51);
    assert_eq!(ledger.settle(ITEM), Ok(()));
    let rec = ledger.record(&id).expect("record kept");
    assert_eq!(rec.status, AuctionStatus::Sold);
    assert_eq!(rec.item_receiver, Some(2));
}

#[test]
fn scenario_no_bids_settles_unsold() {
    let (mut ledger, id) = listed_ledger(Some(50));
    ledger.set_time(51);
    assert_eq!(ledger.settle(ITEM), Ok(()));
    let rec = ledger.record(&id).expect("record kept");
    assert_eq!(rec.status, AuctionStatus::Unsold);
    assert_eq!(rec.item_receiver, None);
}

#[test]
fn settle_is_idempotent() {
    let (mut ledger, id) = listed_ledger(Some(50));
    ledger.place_bid(2, id, 115).expect("bid accepted");
    ledger.set_time(60);
    assert_eq!(ledger.settle(ITEM), Ok(()));
    let first = ledger.record(&id).expect("record kept").status;
    assert_eq!(first, AuctionStatus::Sold);
    assert_eq!(ledger.settle(ITEM), Ok(()));
    let second = ledger.record(&id).expect("record kept").status;
    assert_eq!(second, first);
    assert_eq!(
        ledger.record(&id).expect("record kept").current_price,
        115
    );
}

#[test]
fn terminal_record_rejects_bids() {
    let (mut ledger, id) = listed_ledger(Some(50));
    ledger.place_bid(2, id, 115).expect("bid accepted");
    ledger.set_time(60);
    ledger.settle(ITEM).expect("settlement succeeds");
    assert_eq!(
        ledger.record(&id).expect("record kept").status,
        AuctionStatus::Sold
    );
    assert_eq!(ledger.place_bid(3, id, 500), Err(AuctionError::NotBiddable));
    assert_eq!(ledger.place_bid(1, id, 500), Err(AuctionError::SelfBidForbidden));
    assert_eq!(ledger.record(&id).expect("record kept").current_price, 115);
}

#[test]
fn settle_of_unlisted_item_fails() {
    let mut ledger = Module::new();
    assert_eq!(ledger.settle(ITEM), Err(AuctionError::RecordNotFound));
}

#[test]
fn open_ended_record_settles_sold_at_once() {
    let (mut ledger, id) = listed_ledger(None);
    assert_eq!(ledger.settle(ITEM), Ok(()));
    let rec = ledger.record(&id).expect("record kept");
    assert_eq!(rec.status, AuctionStatus::Sold);
}

#[test]
fn status_mutation_by_non_seller_fails() {
    let (mut ledger, id) = listed_ledger(Some(50));
    let r = ledger.change_auction_status(2, id, AuctionStatus::Paused);
    assert_eq!(r, Err(AuctionError::Unauthorized));
    let rec = ledger.record(&id).expect("record kept");
    assert_eq!(rec.status, AuctionStatus::NotStarted);
}

#[test]
fn status_mutation_on_missing_record_fails() {
    let mut ledger = Module::new();
    let r = ledger.change_auction_status(1, [9u8; 16], AuctionStatus::Paused);
    assert_eq!(r, Err(AuctionError::RecordNotFound));
}

#[test]
fn seller_pauses_and_resumes() {
    let (mut ledger, id) = listed_ledger(Some(50));
    ledger.place_bid(2, id, 115).expect("bid accepted");
    assert_eq!(
        ledger.change_auction_status(1, id, AuctionStatus::Paused),
        Ok(())
    );
    assert_eq!(
        ledger.record(&id).expect("record kept").status,
        AuctionStatus::Paused
    );
    assert_eq!(
        ledger.change_auction_status(1, id, AuctionStatus::Started),
        Ok(())
    );
    assert_eq!(
        ledger.record(&id).expect("record kept").status,
        AuctionStatus::Started
    );
}

#[test]
fn derived_indices_resolve_the_listing() {
    let (ledger, id) = listed_ledger(Some(50));
    assert_eq!(ledger.auction_item_record(&ITEM), Some(1));
    assert_eq!(ledger.record_id(1, &ITEM), Some(id));
    // the wrong seller resolves nothing, and an unlisted item resolves nothing
    assert_eq!(ledger.record_id(2, &ITEM), None);
    assert_eq!(ledger.auction_item_record(&[9u8; 16]), None);
    assert_eq!(ledger.record_id(1, &[9u8; 16]), None);
}

#[test]
fn clock_is_what_the_host_set() {
    let mut ledger = Module::new();
    assert_eq!(ledger.get_current_time(), 0);
    ledger.set_time(42);
    assert_eq!(ledger.get_current_time(), 42);
}
