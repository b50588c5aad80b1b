//! Laws of the ledger: properties that hold across operations, stated over
//! the spec-level transition functions of [`crate::model`] and proved once
//! and for all. The executable operations promise exactly those transition
//! functions, so each law carries over to every run of the ledger.

use vstd::prelude::*;

use crate::model::bid_min;
use crate::model::bid_next;
use crate::model::bid_result;
use crate::model::create_result;
use crate::model::has_item;
use crate::model::has_record;
use crate::model::is_expired;
use crate::model::item_index;
use crate::model::lemma_item_index_unique;
use crate::model::lemma_record_index_unique;
use crate::model::lemma_update_wf;
use crate::model::record_index;
use crate::model::records_wf;
use crate::model::settle_next;
use crate::model::settle_result;
use crate::types::AuctionError;
use crate::types::AuctionRecord;
use crate::types::AuctionStatus;
use crate::types::is_terminal;
use crate::types::record_wf;

verus! {

/// While an item's record is stored — in particular while it is still
/// non-terminal — a second creation for the same item fails with
/// `AlreadyListed`, whatever identifier the creation would take.
pub proof fn lemma_second_listing_rejected(
    s: Seq<AuctionRecord>,
    item_id: Seq<u8>,
    bid_range: u64,
    rid: Seq<u8>,
    i: int,
)
    requires
        0 <= i < s.len(),
        s[i].item_id@ == item_id,
        bid_range > 0,
    ensures
        create_result(s, item_id, bid_range, rid) == Err::<(), AuctionError>(
            AuctionError::AlreadyListed,
        ),
{
    assert(has_item(s, item_id));
}

/// A bid below the required increment over the current price fails with
/// `BidTooLow` and leaves every record — price and receiver included —
/// unchanged.
pub proof fn lemma_low_bid_rejected(
    s: Seq<AuctionRecord>,
    now: u64,
    bidder: u64,
    rid: Seq<u8>,
    amount: u64,
)
    requires
        has_record(s, rid),
        ({
            let r = s[record_index(s, rid)];
            &&& bidder != r.item_seller
            &&& r.status == AuctionStatus::NotStarted || r.status == AuctionStatus::Started
            &&& r.begin_time <= now
            &&& !is_expired(r, now)
            &&& (amount as int) < bid_min(r)
        }),
    ensures
        bid_result(s, now, bidder, rid, amount) == Err::<(), AuctionError>(AuctionError::BidTooLow),
        bid_next(s, now, bidder, rid, amount) == s,
{
}

/// A creation that succeeds used a record identifier that no stored record
/// held, so the identifiers of a well-formed store stay pairwise distinct
/// for the lifetime of the ledger.
pub proof fn lemma_created_identifier_was_free(
    s: Seq<AuctionRecord>,
    item_id: Seq<u8>,
    bid_range: u64,
    rid: Seq<u8>,
)
    requires
        create_result(s, item_id, bid_range, rid) == Ok::<(), AuctionError>(()),
    ensures
        !has_record(s, rid),
        !has_item(s, item_id),
        bid_range > 0,
{
}

/// Prices never move down: across a bid every stored record keeps at least
/// its old current price, whatever the verdict.
pub proof fn lemma_bid_keeps_prices_monotone(
    s: Seq<AuctionRecord>,
    now: u64,
    bidder: u64,
    rid: Seq<u8>,
    amount: u64,
)
    requires
        records_wf(s),
    ensures
        ({
            let s1 = bid_next(s, now, bidder, rid, amount);
            &&& s1.len() == s.len()
            &&& forall|i: int|
                0 <= i < s.len() ==> #[trigger] s1[i].current_price >= s[i].current_price
        }),
{
    let s1 = bid_next(s, now, bidder, rid, amount);
    if bid_result(s, now, bidder, rid, amount) is Ok {
        let k = record_index(s, rid);
        let r = s[k];
        assert(record_wf(r));
        if !is_expired(r, now) {
            assert((amount as int) >= bid_min(r));
        }
    }
}

/// The store after the bids of `bids` — each a bidder and an amount — have
/// been placed one after another on the record `rid`, all at time `now`.
pub open spec fn apply_bids(
    s: Seq<AuctionRecord>,
    now: u64,
    rid: Seq<u8>,
    bids: Seq<(u64, u64)>,
) -> Seq<AuctionRecord>
    decreases bids.len(),
{
    if bids.len() == 0 {
        s
    } else {
        apply_bids(bid_next(s, now, bids[0].0, rid, bids[0].1), now, rid, bids.drop_first())
    }
}

/// Every bid of `bids` is accepted in turn: at its turn the verdict is
/// success and the record's close has not passed, so the bid raises the
/// price rather than settling the record late.
pub open spec fn all_accepted(
    s: Seq<AuctionRecord>,
    now: u64,
    rid: Seq<u8>,
    bids: Seq<(u64, u64)>,
) -> bool
    decreases bids.len(),
{
    bids.len() == 0 || {
        &&& bid_result(s, now, bids[0].0, rid, bids[0].1) == Ok::<(), AuctionError>(())
        &&& !is_expired(s[record_index(s, rid)], now)
        &&& all_accepted(bid_next(s, now, bids[0].0, rid, bids[0].1), now, rid, bids.drop_first())
    }
}

/// After a sequence of accepted bids — each necessarily raising the price
/// by at least the record's increment — the record's current price is the
/// last accepted amount and the receiver is the last bidder.
pub proof fn lemma_accepted_bids_take_effect(
    s: Seq<AuctionRecord>,
    now: u64,
    rid: Seq<u8>,
    bids: Seq<(u64, u64)>,
)
    requires
        records_wf(s),
        all_accepted(s, now, rid, bids),
        bids.len() > 0,
    ensures
        ({
            let s2 = apply_bids(s, now, rid, bids);
            &&& records_wf(s2)
            &&& has_record(s2, rid)
            &&& s2[record_index(s2, rid)].current_price == bids.last().1
            &&& s2[record_index(s2, rid)].item_receiver == Some(bids.last().0)
        }),
    decreases bids.len(),
{
    let bidder = bids[0].0;
    let amount = bids[0].1;
    let i = record_index(s, rid);
    let r = s[i];
    let s1 = bid_next(s, now, bidder, rid, amount);
    let r1 = s1[i];
    assert(record_wf(r));
    assert(r1 == (AuctionRecord {
        current_price: amount,
        item_receiver: Some(bidder),
        status: if r.status == AuctionStatus::NotStarted {
            AuctionStatus::Started
        } else {
            r.status
        },
        ..r
    }));
    assert(record_wf(r1));
    lemma_update_wf(s, i, r1);
    assert(s1 == s.update(i, r1));
    lemma_record_index_unique(s1, rid, i);
    if bids.len() == 1 {
        assert(apply_bids(s, now, rid, bids) == s1);
    } else {
        lemma_accepted_bids_take_effect(s1, now, rid, bids.drop_first());
        assert(bids.drop_first().last() == bids.last());
    }
}

/// Terminal records take no further bids: a bid on a `Sold` or `Unsold`
/// record always fails — as a self-bid when the bidder is the seller, else
/// as not biddable — and changes nothing.
pub proof fn lemma_terminal_record_rejects_bids(
    s: Seq<AuctionRecord>,
    now: u64,
    bidder: u64,
    rid: Seq<u8>,
    amount: u64,
)
    requires
        has_record(s, rid),
        is_terminal(s[record_index(s, rid)].status),
    ensures
        bid_result(s, now, bidder, rid, amount) == Err::<(), AuctionError>(
            if bidder == s[record_index(s, rid)].item_seller {
                AuctionError::SelfBidForbidden
            } else {
                AuctionError::NotBiddable
            },
        ),
        bid_next(s, now, bidder, rid, amount) == s,
{
}

/// Settling is idempotent: one settlement leaves the record terminal, and
/// a later settlement of the same item — at the same or any other time —
/// succeeds again, finds the same terminal status, and changes nothing.
pub proof fn lemma_settle_idempotent(
    s: Seq<AuctionRecord>,
    now: u64,
    later: u64,
    iid: Seq<u8>,
)
    requires
        records_wf(s),
        has_item(s, iid),
    ensures
        ({
            let s1 = settle_next(s, now, iid);
            &&& records_wf(s1)
            &&& has_item(s1, iid)
            &&& is_terminal(s1[item_index(s1, iid)].status)
            &&& settle_result(s1, iid) == Ok::<(), AuctionError>(())
            &&& settle_next(s1, later, iid) == s1
        }),
{
    let i = item_index(s, iid);
    let r = s[i];
    let s1 = settle_next(s, now, iid);
    if is_terminal(r.status) {
        assert(s1 == s);
        assert(item_index(s1, iid) == i);
    } else {
        let r1 = s1[i];
        assert(record_wf(r));
        assert(record_wf(r1));
        lemma_update_wf(s, i, r1);
        assert(s1 == s.update(i, r1));
        lemma_item_index_unique(s1, iid, i);
        assert(is_terminal(r1.status));
    }
}

} // verus!
