//! The typed errors of the exchange.
//!
//! Every operation is all-or-nothing: when one of these errors comes back,
//! the listing store is exactly as it was before the call.

use vstd::prelude::*;

verus! {

/// Why an exchange operation was rejected. Each variant names the one
/// validation that failed; no error leaves the listing store mutated.
#[derive(Clone, Copy, Debug, PartialEq, Eq, Structural)]
pub enum ExchangeError {
    /// No listing is stored under the requested key.
    NotFound,
    /// A listing is already stored under the key being registered.
    AlreadyExists,
    /// An English bid did not strictly exceed the current highest bid.
    BidTooLow,
    /// An English bid arrived at or after the listing's end time.
    AuctionClosed,
    /// An English settlement or a reclaim arrived before the end time.
    AuctionNotOver,
    /// A Dutch settlement arrived at or after the end time.
    AuctionExpired,
    /// A Dutch settlement arrived before the start time, when the price
    /// curve is not yet defined.
    AuctionNotOpen,
    /// The offered payment amount does not meet the required price.
    PriceMismatch,
    /// An English settlement was attempted by someone other than the
    /// recorded highest bidder.
    Unauthorized,
    /// A Dutch-only operation was attempted on a non-Dutch listing.
    WrongMode,
    /// A listing with malformed bounds (no time window, or a Dutch floor
    /// above the starting price) was offered for registration.
    InvalidListing,
}

} // verus!
