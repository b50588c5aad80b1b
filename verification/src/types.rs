//! Data model of the auction ledger: listing status, failure taxonomy, and
//! the auction record itself, together with its per-record well-formedness.

use vstd::prelude::*;

verus! {

/// Lifecycle status of one auction listing.
///
/// `Sold` and `Unsold` are terminal: bidding and settlement never move a
/// record out of them.
#[derive(Clone, Copy, Debug, PartialEq, Eq, Structural)]
pub enum AuctionStatus {
    /// Created, no accepted bid yet.
    NotStarted,
    /// At least one bid has been accepted.
    Started,
    /// Suspended by the seller through the privileged status mutation.
    Paused,
    /// Settled with a winning bid.
    Sold,
    /// Settled without any accepted bid.
    Unsold,
}

impl Default for AuctionStatus {
    /// A fresh record starts in `NotStarted`.
    fn default() -> (s: Self)
        ensures
            s == AuctionStatus::NotStarted,
    {
        AuctionStatus::NotStarted
    }
}

/// Why an operation was rejected. Every rejection is detected before any
/// write: a failed operation leaves the ledger untouched.
#[derive(Clone, Copy, Debug, PartialEq, Eq, Structural)]
pub enum AuctionError {
    /// A creation parameter is unusable: a zero bid increment, or a freshly
    /// derived identifier that collides with a stored record.
    InvalidParameter,
    /// The item already has a record in the ledger.
    AlreadyListed,
    /// No record answers to the given record or item identifier.
    RecordNotFound,
    /// The bidder is the listing's seller.
    SelfBidForbidden,
    /// The record's status admits no further bids.
    NotBiddable,
    /// The current time lies before the auction's opening time.
    AuctionNotStarted,
    /// The offered amount does not exceed the current price by the
    /// required increment.
    BidTooLow,
    /// The caller is not the listing's seller.
    Unauthorized,
}

/// One auction listing and its current state. Records are never deleted:
/// terminal records remain in the ledger as history.
#[derive(Clone, Copy, Debug)]
pub struct AuctionRecord {
    /// Globally unique 128-bit identifier, immutable once assigned.
    pub record_id: [u8; 16],
    /// Identifier of the item on sale; at most one record per item.
    pub item_id: [u8; 16],
    /// Opening time of the bidding window.
    pub begin_time: u64,
    /// Closing time; `None` means no fixed close.
    pub end_time: Option<u64>,
    /// Opening price.
    pub start_price: u64,
    /// Highest accepted bid; zero until the first accepted bid.
    pub current_price: u64,
    /// Minimum increment a new bid must exceed the current price by;
    /// strictly positive.
    pub bid_range: u64,
    /// Position in the listing lifecycle.
    pub status: AuctionStatus,
    /// Account holding the winning bid; set on the first accepted bid,
    /// replaced by later bids, never cleared on settlement.
    pub item_receiver: Option<u64>,
    /// Account that listed the item; immutable.
    pub item_seller: u64,
}

/// Statuses that admit no further bidding or settlement.
pub open spec fn is_terminal(s: AuctionStatus) -> bool {
    s == AuctionStatus::Sold || s == AuctionStatus::Unsold
}

/// Well-formedness of a single record: the bid increment is strictly
/// positive, the price is untouched until a bid is accepted, and once a
/// receiver is set the price has been raised by at least one increment.
pub open spec fn record_wf(r: AuctionRecord) -> bool {
    &&& r.bid_range > 0
    &&& (r.item_receiver is None ==> r.current_price == 0)
    &&& (r.item_receiver is Some ==> r.current_price >= r.start_price + r.bid_range)
}

} // verus!
