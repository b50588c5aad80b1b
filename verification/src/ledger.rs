//! The auction ledger and its operations. The ledger owns the stored
//! records together with the host-supplied context — current time, the
//! block-scoped entropy seed, the per-block operation counter and the block
//! height. Each operation checks every precondition before its single
//! write, so a rejected operation leaves the ledger untouched, and each
//! promises exactly the verdict and the store that the spec-level
//! transition functions in [`crate::model`] give.

use vstd::prelude::*;

use crate::ident::blake2b_128_of;
use crate::ident::derive_record_id;
use crate::ident::id_payload;
use crate::model::bid_next;
use crate::model::bid_result;
use crate::model::create_result;
use crate::model::expiry_status;
use crate::model::force_next;
use crate::model::force_result;
use crate::model::fresh_record;
use crate::model::has_item;
use crate::model::has_record;
use crate::model::item_index;
use crate::model::lemma_item_index_unique;
use crate::model::lemma_push_wf;
use crate::model::lemma_record_index_unique;
use crate::model::lemma_update_wf;
use crate::model::record_index;
use crate::model::records_wf;
use crate::model::settle_next;
use crate::model::settle_result;
use crate::types::AuctionError;
use crate::types::AuctionRecord;
use crate::types::AuctionStatus;
use crate::types::record_wf;

verus! {

/// The next value of the per-block operation counter.
pub open spec fn next_counter(x: u32) -> u32 {
    if x == u32::MAX {
        0
    } else {
        (x + 1) as u32
    }
}

/// Sixteen-byte identifiers are equal exactly when all their bytes are.
fn id_eq(a: &[u8; 16], b: &[u8; 16]) -> (r: bool)
    ensures
        r == (a@ == b@),
{
    let mut i: usize = 0;
    while i < 16
        invariant
            i <= 16,
            forall|k: int| 0 <= k < i ==> a@[k] == b@[k],
        decreases 16 - i,
    {
        if a[i] != b[i] {
            return false;
        }
        i = i + 1;
    }
    assert(a@ =~= b@);
    true
}

/// The auction module — the whole ledger state: the stored records and
/// the host-supplied execution context.
pub struct Module {
    /// Every record ever created, terminal ones included; never deleted.
    pub records: Vec<AuctionRecord>,
    /// Current time, as the host clock last set it; opaque except for its
    /// order, and monotonically non-decreasing.
    pub now: u64,
    /// Block-scoped entropy seed supplied by the host.
    pub random_seed: u64,
    /// Per-block operation counter; advances on each successful creation.
    pub extrinsic_index: u32,
    /// Height of the block the operations run in.
    pub block_number: u64,
}

impl Module {
    /// The stored records are well formed as a store.
    pub open spec fn wf(self) -> bool {
        records_wf(self.records@)
    }

    /// The identifier the next creation submitted by `submitter` derives.
    pub open spec fn next_record_id(self, submitter: u64) -> Seq<u8> {
        blake2b_128_of(
            id_payload(self.random_seed, submitter, self.extrinsic_index, self.block_number),
        )
    }

    /// An empty ledger at time zero, before any host context arrives.
    pub fn new() -> (ledger: Self)
        ensures
            ledger.wf(),
            ledger.records@ == Seq::<AuctionRecord>::empty(),
            ledger.now == 0,
            ledger.random_seed == 0,
            ledger.extrinsic_index == 0,
            ledger.block_number == 0,
    {
        let ledger = Module {
            records: Vec::new(),
            now: 0,
            random_seed: 0,
            extrinsic_index: 0,
            block_number: 0,
        };
        assert(ledger.records@ =~= Seq::<AuctionRecord>::empty());
        ledger
    }

    /// The host clock hands in the current time; it never runs backwards.
    pub fn set_time(&mut self, t: u64)
        requires
            old(self).now <= t,
        ensures
            *final(self) == (Module { now: t, ..*old(self) }),
    {
        self.now = t;
    }

    /// Current time as the host clock last set it.
    pub fn get_current_time(&self) -> (t: u64)
        ensures
            t == self.now,
    {
        self.now
    }

    /// The host opens a new block: a fresh entropy seed, the new height,
    /// and the operation counter starts over.
    pub fn set_block_context(&mut self, seed: u64, block: u64)
        ensures
            *final(self) == (Module {
                random_seed: seed,
                block_number: block,
                extrinsic_index: 0,
                ..*old(self)
            }),
    {
        self.random_seed = seed;
        self.block_number = block;
        self.extrinsic_index = 0;
    }

    /// Derives the identifier the next creation by `submitter` would take,
    /// from the host entropy the ledger currently holds.
    pub fn random_value(&self, submitter: u64) -> (id: [u8; 16])
        ensures
            id@ == self.next_record_id(submitter),
    {
        derive_record_id(self.random_seed, submitter, self.extrinsic_index, self.block_number)
    }

    /// Position of the record with this record identifier, if any.
    fn find_record(&self, rid: &[u8; 16]) -> (r: Option<usize>)
        ensures
            match r {
                Some(i) => i < self.records@.len() && self.records@[i as int].record_id@ == rid@,
                None => !has_record(self.records@, rid@),
            },
    {
        let n = self.records.len();
        let mut i: usize = 0;
        while i < n
            invariant
                i <= n,
                n == self.records@.len(),
                forall|k: int| 0 <= k < i ==> #[trigger] self.records@[k].record_id@ != rid@,
            decreases n - i,
        {
            if id_eq(&self.records[i].record_id, rid) {
                return Some(i);
            }
            i = i + 1;
        }
        None
    }

    /// Position of the record listing this item, if any.
    fn find_item(&self, iid: &[u8; 16]) -> (r: Option<usize>)
        ensures
            match r {
                Some(i) => i < self.records@.len() && self.records@[i as int].item_id@ == iid@,
                None => !has_item(self.records@, iid@),
            },
    {
        let n = self.records.len();
        let mut i: usize = 0;
        while i < n
            invariant
                i <= n,
                n == self.records@.len(),
                forall|k: int| 0 <= k < i ==> #[trigger] self.records@[k].item_id@ != iid@,
            decreases n - i,
        {
            if id_eq(&self.records[i].item_id, iid) {
                return Some(i);
            }
            i = i + 1;
        }
        None
    }

    /// The stored record with this record identifier, if any.
    pub fn record(&self, record_id: &[u8; 16]) -> (r: Option<AuctionRecord>)
        requires
            self.wf(),
        ensures
            match r {
                Some(rec) => has_record(self.records@, record_id@) && rec == self.records@[
                    record_index(self.records@, record_id@)
                ],
                None => !has_record(self.records@, record_id@),
            },
    {
        match self.find_record(record_id) {
            Some(i) => {
                proof {
                    lemma_record_index_unique(self.records@, record_id@, i as int);
                }
                Some(self.records[i])
            }
            None => None,
        }
    }

    /// The seller a listed item belongs to, if any — the derived
    /// item-to-seller index.
    pub fn auction_item_record(&self, item_id: &[u8; 16]) -> (r: Option<u64>)
        requires
            self.wf(),
        ensures
            match r {
                Some(seller) => has_item(self.records@, item_id@) && seller == self.records@[
                    item_index(self.records@, item_id@)
                ].item_seller,
                None => !has_item(self.records@, item_id@),
            },
    {
        match self.find_item(item_id) {
            Some(i) => {
                proof {
                    lemma_item_index_unique(self.records@, item_id@, i as int);
                }
                Some(self.records[i].item_seller)
            }
            None => None,
        }
    }

    /// The record identifier a seller's listing of an item carries, if any —
    /// the derived seller-and-item-to-record index.
    pub fn record_id(&self, seller: u64, item_id: &[u8; 16]) -> (r: Option<[u8; 16]>)
        requires
            self.wf(),
        ensures
            match r {
                Some(rid) => has_item(self.records@, item_id@) && ({
                    let rec = self.records@[item_index(self.records@, item_id@)];
                    rec.item_seller == seller && rid == rec.record_id
                }),
                None => !has_item(self.records@, item_id@) || self.records@[
                    item_index(self.records@, item_id@)
                ].item_seller != seller,
            },
    {
        match self.find_item(item_id) {
            Some(i) => {
                proof {
                    lemma_item_index_unique(self.records@, item_id@, i as int);
                }
                if self.records[i].item_seller == seller {
                    Some(self.records[i].record_id)
                } else {
                    None
                }
            }
            None => None,
        }
    }

    /// Lists an item: derives a record identifier from the host entropy and
    /// appends a fresh record in `NotStarted`, with its price untouched and
    /// no receiver. Rejected — leaving the ledger untouched — when the bid
    /// increment is zero, when the item already has a record, or when the
    /// derived identifier collides with a stored one.
    pub fn create_auction(
        &mut self,
        seller: u64,
        item_id: [u8; 16],
        begin_time: u64,
        start_price: u64,
        bid_range: u64,
        end_time: Option<u64>,
    ) -> (r: Result<[u8; 16], AuctionError>)
        requires
            old(self).wf(),
        ensures
            final(self).wf(),
            final(self).now == old(self).now,
            final(self).random_seed == old(self).random_seed,
            final(self).block_number == old(self).block_number,
            match r {
                Ok(id) => {
                    &&& id@ == old(self).next_record_id(seller)
                    &&& create_result(old(self).records@, item_id@, bid_range, id@) == Ok::<
                        (),
                        AuctionError,
                    >(())
                    &&& final(self).records@ == old(self).records@.push(
                        fresh_record(
                            id,
                            item_id,
                            seller,
                            begin_time,
                            end_time,
                            start_price,
                            bid_range,
                        ),
                    )
                    &&& final(self).extrinsic_index == next_counter(old(self).extrinsic_index)
                },
                Err(e) => {
                    &&& create_result(
                        old(self).records@,
                        item_id@,
                        bid_range,
                        old(self).next_record_id(seller),
                    ) == Err::<(), AuctionError>(e)
                    &&& *final(self) == *old(self)
                },
            },
    {
        if bid_range == 0 {
            return Err(AuctionError::InvalidParameter);
        }
        if self.find_item(&item_id).is_some() {
            return Err(AuctionError::AlreadyListed);
        }
        let rid = self.random_value(seller);
        if self.find_record(&rid).is_some() {
            return Err(AuctionError::InvalidParameter);
        }
        let record = AuctionRecord {
            record_id: rid,
            item_id: item_id,
            begin_time: begin_time,
            end_time: end_time,
            start_price: start_price,
            current_price: 0,
            bid_range: bid_range,
            status: AuctionStatus::NotStarted,
            item_receiver: None,
            item_seller: seller,
        };
        proof {
            lemma_push_wf(self.records@, record);
        }
        self.records.push(record);
        self.extrinsic_index = if self.extrinsic_index == u32::MAX {
            0
        } else {
            self.extrinsic_index + 1
        };
        Ok(rid)
    }

    /// Offers `amount` on a record. Rejected — untouched ledger — when the
    /// record is missing, the bidder is the seller, the status admits no
    /// bids, the window has not opened, or the amount falls short of the
    /// required increment. A bid past a fixed close settles the record to
    /// its expiry outcome instead of bidding and reports success. An
    /// accepted bid raises the price to the amount, makes the bidder the
    /// receiver, and starts a record not yet started.
    pub fn place_bid(&mut self, bidder: u64, record_id: [u8; 16], amount: u64) -> (r: Result<
        (),
        AuctionError,
    >)
        requires
            old(self).wf(),
        ensures
            final(self).wf(),
            r == bid_result(old(self).records@, old(self).now, bidder, record_id@, amount),
            final(self).records@ == bid_next(
                old(self).records@,
                old(self).now,
                bidder,
                record_id@,
                amount,
            ),
            final(self).now == old(self).now,
            final(self).random_seed == old(self).random_seed,
            final(self).extrinsic_index == old(self).extrinsic_index,
            final(self).block_number == old(self).block_number,
    {
        let ghost s = self.records@;
        let i = match self.find_record(&record_id) {
            Some(i) => i,
            None => {
                return Err(AuctionError::RecordNotFound);
            },
        };
        proof {
            lemma_record_index_unique(s, record_id@, i as int);
        }
        let rec = self.records[i];
        if bidder == rec.item_seller {
            return Err(AuctionError::SelfBidForbidden);
        }
        if !(rec.status == AuctionStatus::NotStarted || rec.status == AuctionStatus::Started) {
            return Err(AuctionError::NotBiddable);
        }
        if self.now < rec.begin_time {
            return Err(AuctionError::AuctionNotStarted);
        }
        let expired = match rec.end_time {
            Some(e) => e < self.now,
            None => false,
        };
        if expired {
            let settled = AuctionRecord { status: expiry_status_of(&rec), ..rec };
            proof {
                lemma_update_wf(s, i as int, settled);
            }
            self.records[i] = settled;
            assert(self.records@ =~= bid_next(s, self.now, bidder, record_id@, amount));
            return Ok(());
        }
        let base = match rec.item_receiver {
            Some(_) => rec.current_price,
            None => rec.start_price,
        };
        if !(amount >= base && amount - base >= rec.bid_range) {
            return Err(AuctionError::BidTooLow);
        }
        let accepted = AuctionRecord {
            current_price: amount,
            item_receiver: Some(bidder),
            status: if rec.status == AuctionStatus::NotStarted {
                AuctionStatus::Started
            } else {
                rec.status
            },
            ..rec
        };
        proof {
            assert(record_wf(s[i as int]));
            lemma_update_wf(s, i as int, accepted);
        }
        self.records[i] = accepted;
        assert(self.records@ =~= bid_next(s, self.now, bidder, record_id@, amount));
        Ok(())
    }

    /// Settles the record listing an item. Fails only when no record lists
    /// it. A terminal record is left as it is, so settling again changes
    /// nothing. An expired record settles to `Sold` exactly when a bid was
    /// accepted, else to `Unsold`. A record without a fixed close, or whose
    /// close has not passed, settles to `Sold` at once — a deliberate
    /// policy choice: settlement is caller-triggered and never refused on
    /// timing grounds.
    pub fn settle(&mut self, item_id: [u8; 16]) -> (r: Result<(), AuctionError>)
        requires
            old(self).wf(),
        ensures
            final(self).wf(),
            r == settle_result(old(self).records@, item_id@),
            final(self).records@ == settle_next(old(self).records@, old(self).now, item_id@),
            final(self).now == old(self).now,
            final(self).random_seed == old(self).random_seed,
            final(self).extrinsic_index == old(self).extrinsic_index,
            final(self).block_number == old(self).block_number,
    {
        let ghost s = self.records@;
        let i = match self.find_item(&item_id) {
            Some(i) => i,
            None => {
                return Err(AuctionError::RecordNotFound);
            },
        };
        proof {
            lemma_item_index_unique(s, item_id@, i as int);
        }
        let rec = self.records[i];
        if rec.status == AuctionStatus::Sold || rec.status == AuctionStatus::Unsold {
            assert(self.records@ =~= settle_next(s, self.now, item_id@));
            return Ok(());
        }
        let expired = match rec.end_time {
            Some(e) => e < self.now,
            None => false,
        };
        let settled = if expired {
            AuctionRecord { status: expiry_status_of(&rec), ..rec }
        } else {
            AuctionRecord { status: AuctionStatus::Sold, ..rec }
        };
        proof {
            lemma_update_wf(s, i as int, settled);
        }
        self.records[i] = settled;
        assert(self.records@ =~= settle_next(s, self.now, item_id@));
        Ok(())
    }

    /// Privileged direct status mutation, meant for seller-initiated pause,
    /// resume and cancel actions. Fails when the record is missing or the
    /// caller is not the listing's seller; on success the status is
    /// overwritten unconditionally, with no transition-table check.
    pub fn change_auction_status(
        &mut self,
        sender: u64,
        record_id: [u8; 16],
        status: AuctionStatus,
    ) -> (r: Result<(), AuctionError>)
        requires
            old(self).wf(),
        ensures
            final(self).wf(),
            r == force_result(old(self).records@, sender, record_id@),
            final(self).records@ == force_next(old(self).records@, sender, record_id@, status),
            final(self).now == old(self).now,
            final(self).random_seed == old(self).random_seed,
            final(self).extrinsic_index == old(self).extrinsic_index,
            final(self).block_number == old(self).block_number,
    {
        let ghost s = self.records@;
        let i = match self.find_record(&record_id) {
            Some(i) => i,
            None => {
                return Err(AuctionError::RecordNotFound);
            },
        };
        proof {
            lemma_record_index_unique(s, record_id@, i as int);
        }
        let rec = self.records[i];
        if rec.item_seller != sender {
            return Err(AuctionError::Unauthorized);
        }
        let changed = AuctionRecord { status: status, ..rec };
        proof {
            lemma_update_wf(s, i as int, changed);
        }
        self.records[i] = changed;
        assert(self.records@ =~= force_next(s, sender, record_id@, status));
        Ok(())
    }
}

/// Terminal status an expired record settles to, as executable code:
/// `Sold` exactly when a bid was accepted.
fn expiry_status_of(rec: &AuctionRecord) -> (s: AuctionStatus)
    ensures
        s == expiry_status(*rec),
{
    match rec.item_receiver {
        Some(_) => AuctionStatus::Sold,
        None => AuctionStatus::Unsold,
    }
}

} // verus!
