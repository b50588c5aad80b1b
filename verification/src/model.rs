//! Mathematical model of the ledger: lookups over the stored sequence of
//! records, well-formedness of the whole store, and one pair of spec
//! functions per operation — the verdict it returns and the store it leaves
//! behind. The executable operations promise exactly these outcomes.

use vstd::prelude::*;

use crate::types::AuctionError;
use crate::types::AuctionRecord;
use crate::types::AuctionStatus;
use crate::types::is_terminal;
use crate::types::record_wf;

verus! {

/// Some stored record carries this record identifier.
pub open spec fn has_record(s: Seq<AuctionRecord>, rid: Seq<u8>) -> bool {
    exists|i: int| 0 <= i < s.len() && #[trigger] s[i].record_id@ == rid
}

/// Position of the record with this record identifier (unique under
/// [`records_wf`]).
pub open spec fn record_index(s: Seq<AuctionRecord>, rid: Seq<u8>) -> int {
    choose|i: int| 0 <= i < s.len() && #[trigger] s[i].record_id@ == rid
}

/// Some stored record lists this item.
pub open spec fn has_item(s: Seq<AuctionRecord>, iid: Seq<u8>) -> bool {
    exists|i: int| 0 <= i < s.len() && #[trigger] s[i].item_id@ == iid
}

/// Position of the record listing this item (unique under [`records_wf`]).
pub open spec fn item_index(s: Seq<AuctionRecord>, iid: Seq<u8>) -> int {
    choose|i: int| 0 <= i < s.len() && #[trigger] s[i].item_id@ == iid
}

/// Well-formedness of the whole store: record identifiers are pairwise
/// distinct, each item is listed at most once, and every record is
/// well formed on its own.
pub open spec fn records_wf(s: Seq<AuctionRecord>) -> bool {
    &&& (forall|i: int, j: int|
        0 <= i < j < s.len() ==> #[trigger] s[i].record_id@ != #[trigger] s[j].record_id@)
    &&& (forall|i: int, j: int|
        0 <= i < j < s.len() ==> #[trigger] s[i].item_id@ != #[trigger] s[j].item_id@)
    &&& (forall|i: int| 0 <= i < s.len() ==> record_wf(#[trigger] s[i]))
}

/// Under [`records_wf`] a record identifier resolves to one position only.
pub proof fn lemma_record_index_unique(s: Seq<AuctionRecord>, rid: Seq<u8>, i: int)
    requires
        records_wf(s),
        0 <= i < s.len(),
        s[i].record_id@ == rid,
    ensures
        has_record(s, rid),
        record_index(s, rid) == i,
{
    assert(has_record(s, rid));
    let j = record_index(s, rid);
    if j != i {
        if j < i {
            assert(s[j].record_id@ != s[i].record_id@);
        } else {
            assert(s[i].record_id@ != s[j].record_id@);
        }
    }
}

/// Under [`records_wf`] an item identifier resolves to one position only.
pub proof fn lemma_item_index_unique(s: Seq<AuctionRecord>, iid: Seq<u8>, i: int)
    requires
        records_wf(s),
        0 <= i < s.len(),
        s[i].item_id@ == iid,
    ensures
        has_item(s, iid),
        item_index(s, iid) == i,
{
    assert(has_item(s, iid));
    let j = item_index(s, iid);
    if j != i {
        if j < i {
            assert(s[j].item_id@ != s[i].item_id@);
        } else {
            assert(s[i].item_id@ != s[j].item_id@);
        }
    }
}

/// Appending a record whose identifiers are unused keeps the store
/// well formed.
pub proof fn lemma_push_wf(s: Seq<AuctionRecord>, r: AuctionRecord)
    requires
        records_wf(s),
        !has_record(s, r.record_id@),
        !has_item(s, r.item_id@),
        record_wf(r),
    ensures
        records_wf(s.push(r)),
{
    let s2 = s.push(r);
    assert forall|i: int, j: int| 0 <= i < j < s2.len() implies #[trigger] s2[i].record_id@
        != #[trigger] s2[j].record_id@ by {
        if j == s.len() {
            assert(s[i].record_id@ != r.record_id@);
        }
    }
    assert forall|i: int, j: int| 0 <= i < j < s2.len() implies #[trigger] s2[i].item_id@
        != #[trigger] s2[j].item_id@ by {
        if j == s.len() {
            assert(s[i].item_id@ != r.item_id@);
        }
    }
    assert forall|i: int| 0 <= i < s2.len() implies record_wf(#[trigger] s2[i]) by {
        if i < s.len() {
            assert(record_wf(s[i]));
        }
    }
}

/// Replacing a record by one with the same identifiers keeps the store
/// well formed, provided the replacement is itself well formed.
pub proof fn lemma_update_wf(s: Seq<AuctionRecord>, i: int, r: AuctionRecord)
    requires
        records_wf(s),
        0 <= i < s.len(),
        r.record_id@ == s[i].record_id@,
        r.item_id@ == s[i].item_id@,
        record_wf(r),
    ensures
        records_wf(s.update(i, r)),
{
    let s2 = s.update(i, r);
    assert forall|a: int, b: int| 0 <= a < b < s2.len() implies #[trigger] s2[a].record_id@
        != #[trigger] s2[b].record_id@ by {
        assert(s[a].record_id@ != s[b].record_id@);
    }
    assert forall|a: int, b: int| 0 <= a < b < s2.len() implies #[trigger] s2[a].item_id@
        != #[trigger] s2[b].item_id@ by {
        assert(s[a].item_id@ != s[b].item_id@);
    }
    assert forall|a: int| 0 <= a < s2.len() implies record_wf(#[trigger] s2[a]) by {
        assert(a == i || record_wf(s[a]));
    }
}

/// The record a fresh listing stores.
pub open spec fn fresh_record(
    rid: [u8; 16],
    item_id: [u8; 16],
    seller: u64,
    begin_time: u64,
    end_time: Option<u64>,
    start_price: u64,
    bid_range: u64,
) -> AuctionRecord {
    AuctionRecord {
        record_id: rid,
        item_id: item_id,
        begin_time: begin_time,
        end_time: end_time,
        start_price: start_price,
        current_price: 0,
        bid_range: bid_range,
        status: AuctionStatus::NotStarted,
        item_receiver: None,
        item_seller: seller,
    }
}

/// Verdict of a creation: a zero increment is unusable, an item with a
/// stored record cannot be listed again, and a derived identifier that
/// collides with a stored record is rejected rather than overwriting it.
pub open spec fn create_result(
    s: Seq<AuctionRecord>,
    item_id: Seq<u8>,
    bid_range: u64,
    rid: Seq<u8>,
) -> Result<(), AuctionError> {
    if bid_range == 0 {
        Err(AuctionError::InvalidParameter)
    } else if has_item(s, item_id) {
        Err(AuctionError::AlreadyListed)
    } else if has_record(s, rid) {
        Err(AuctionError::InvalidParameter)
    } else {
        Ok(())
    }
}

/// Least amount the next bid must reach: one increment above the current
/// price, or above the opening price while no bid has been accepted.
pub open spec fn bid_min(r: AuctionRecord) -> int {
    if r.item_receiver is Some {
        r.current_price + r.bid_range
    } else {
        r.start_price + r.bid_range
    }
}

/// The record has a fixed close that lies strictly in the past.
pub open spec fn is_expired(r: AuctionRecord, now: u64) -> bool {
    r.end_time is Some && r.end_time->0 < now
}

/// Terminal status an expired record settles to: `Sold` exactly when a bid
/// was accepted.
pub open spec fn expiry_status(r: AuctionRecord) -> AuctionStatus {
    if r.item_receiver is Some {
        AuctionStatus::Sold
    } else {
        AuctionStatus::Unsold
    }
}

/// Verdict of a bid. A bid on an expired but still biddable record is not
/// a failure: it settles the record as a side effect (see [`bid_next`]) and
/// reports success, since a failure must leave the ledger untouched.
pub open spec fn bid_result(
    s: Seq<AuctionRecord>,
    now: u64,
    bidder: u64,
    rid: Seq<u8>,
    amount: u64,
) -> Result<(), AuctionError> {
    if !has_record(s, rid) {
        Err(AuctionError::RecordNotFound)
    } else {
        let r = s[record_index(s, rid)];
        if bidder == r.item_seller {
            Err(AuctionError::SelfBidForbidden)
        } else if !(r.status == AuctionStatus::NotStarted || r.status == AuctionStatus::Started) {
            Err(AuctionError::NotBiddable)
        } else if now < r.begin_time {
            Err(AuctionError::AuctionNotStarted)
        } else if is_expired(r, now) {
            Ok(())
        } else if (amount as int) < bid_min(r) {
            Err(AuctionError::BidTooLow)
        } else {
            Ok(())
        }
    }
}

/// Store a bid leaves behind. On a failure verdict nothing changes; on a
/// late bid only the status moves to the expiry outcome; on an accepted bid
/// the price becomes the offered amount, the bidder takes the receiver
/// slot, and a record not yet started starts.
pub open spec fn bid_next(
    s: Seq<AuctionRecord>,
    now: u64,
    bidder: u64,
    rid: Seq<u8>,
    amount: u64,
) -> Seq<AuctionRecord> {
    if bid_result(s, now, bidder, rid, amount) is Err {
        s
    } else {
        let i = record_index(s, rid);
        let r = s[i];
        if is_expired(r, now) {
            s.update(i, AuctionRecord { status: expiry_status(r), ..r })
        } else {
            s.update(
                i,
                AuctionRecord {
                    current_price: amount,
                    item_receiver: Some(bidder),
                    status: if r.status == AuctionStatus::NotStarted {
                        AuctionStatus::Started
                    } else {
                        r.status
                    },
                    ..r
                },
            )
        }
    }
}

/// Verdict of a settlement: it fails only when no record lists the item.
pub open spec fn settle_result(s: Seq<AuctionRecord>, iid: Seq<u8>) -> Result<(), AuctionError> {
    if !has_item(s, iid) {
        Err(AuctionError::RecordNotFound)
    } else {
        Ok(())
    }
}

/// Store a settlement leaves behind. A terminal record is left as it is.
/// An expired record settles to the expiry outcome. A record without a
/// fixed close, or whose close has not passed, settles to `Sold` at once —
/// a deliberate policy choice, made explicit here: settlement is
/// caller-triggered and never refused on timing grounds.
pub open spec fn settle_next(s: Seq<AuctionRecord>, now: u64, iid: Seq<u8>) -> Seq<AuctionRecord> {
    if !has_item(s, iid) {
        s
    } else {
        let i = item_index(s, iid);
        let r = s[i];
        if is_terminal(r.status) {
            s
        } else if is_expired(r, now) {
            s.update(i, AuctionRecord { status: expiry_status(r), ..r })
        } else {
            s.update(i, AuctionRecord { status: AuctionStatus::Sold, ..r })
        }
    }
}

/// Verdict of a privileged status mutation: only the listing's seller may
/// move a record's status directly.
pub open spec fn force_result(
    s: Seq<AuctionRecord>,
    sender: u64,
    rid: Seq<u8>,
) -> Result<(), AuctionError> {
    if !has_record(s, rid) {
        Err(AuctionError::RecordNotFound)
    } else if s[record_index(s, rid)].item_seller != sender {
        Err(AuctionError::Unauthorized)
    } else {
        Ok(())
    }
}

/// Store a privileged status mutation leaves behind: on success the status
/// is overwritten unconditionally, with no transition-table check — the
/// seller is trusted to request only sane transitions.
pub open spec fn force_next(
    s: Seq<AuctionRecord>,
    sender: u64,
    rid: Seq<u8>,
    status: AuctionStatus,
) -> Seq<AuctionRecord> {
    if force_result(s, sender, rid) is Err {
        s
    } else {
        let i = record_index(s, rid);
        s.update(i, AuctionRecord { status: status, ..s[i] })
    }
}

} // verus!
