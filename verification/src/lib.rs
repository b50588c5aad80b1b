//! Deterministic state-transition core of an auction ledger.
//!
//! Auction listings move through creation, bidding and settlement by the
//! operations of [`ledger::Module`]; every transition is stated as a
//! contract over the spec-level transition functions in [`model`] and proved.
//! Time, entropy and authentication are host-supplied values: the host sets
//! them on the ledger, and the operations stay replayable bit for bit.

pub mod ident;
pub mod laws;
pub mod ledger;
pub mod model;
pub mod types;

pub use types::AuctionError;
pub use types::AuctionRecord;
pub use types::AuctionStatus;
