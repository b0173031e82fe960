//! The named failures. Every one of them ends the request with the record
//! as it was before the request.

use vstd::prelude::*;

verus! {

/// Guard failures of the auction engine.
#[derive(Clone, Copy, Debug, PartialEq, Eq, Structural)]
pub enum AuctionError {
    /// A bid arrived at or after the deadline.
    AuctionEnded,
    /// A bid did not exceed the standing highest bid.
    BidTooLow,
    /// Finalization was asked for before the deadline.
    AuctionNotEnded,
}

/// Guard failures of the lending engine.
#[derive(Clone, Copy, Debug, PartialEq, Eq, Structural)]
pub enum LendingError {
    /// The record has already been borrowed.
    NotAvailable,
    /// The collateral offered is below the loan amount.
    InsufficientCollateral,
}

/// Everything that can end an auction request, the engine's own guards
/// among them.
#[derive(Debug, PartialEq, Eq)]
pub enum MarketError {
    /// The caller is not the party that the operation is reserved for.
    Unauthorized,
    /// The runtime did not report the time.
    ClockUnavailable,
    /// The deadline, time of creation plus duration, is not a representable
    /// time.
    DeadlineOutOfRange,
    /// A guard of the auction engine refused the request.
    Auction(AuctionError),
    /// The token program did not move the asset. Its own error is passed on.
    TransferFailed(anchor_lang::error::Error),
}

impl AuctionError {
    /// The text that a caller is shown.
    pub fn message(&self) -> (s: &'static str)
        ensures
            s@ == self.message_spec(),
    {
        match self {
            AuctionError::AuctionEnded => "Auction has already ended.",
            AuctionError::BidTooLow => "Bid is too low.",
            AuctionError::AuctionNotEnded => "Auction is not ended yet.",
        }
    }

    pub open spec fn message_spec(self) -> Seq<char> {
        match self {
            AuctionError::AuctionEnded => "Auction has already ended."@,
            AuctionError::BidTooLow => "Bid is too low."@,
            AuctionError::AuctionNotEnded => "Auction is not ended yet."@,
        }
    }
}

impl LendingError {
    /// The text that a caller is shown.
    pub fn message(&self) -> (s: &'static str)
        ensures
            s@ == self.message_spec(),
    {
        match self {
            LendingError::NotAvailable => "NFT is not available for lending.",
            LendingError::InsufficientCollateral => "Insufficient collateral.",
        }
    }

    pub open spec fn message_spec(self) -> Seq<char> {
        match self {
            LendingError::NotAvailable => "NFT is not available for lending."@,
            LendingError::InsufficientCollateral => "Insufficient collateral."@,
        }
    }
}

} // verus!
