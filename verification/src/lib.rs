//! Two marketplace state machines for a single non-fungible asset: a
//! time-boxed auction and a collateralized lending offer.
//!
//! Every transition is a guarded update of one record. The guards, the
//! updates and the order in which the guards are tried are stated in the
//! contracts of the functions below and proved against them.

pub mod auction;
pub mod error;
pub mod gate;
pub mod history;
pub mod identity;
pub mod ledger;
pub mod lending;

pub use auction::{
    check_finalize, create_auction, create_auction_at, finalize_auction, finalize_auction_at,
    open_auction_at, place_bid, place_bid_at, settle, transfer_order, Auction, CreateAuction,
    FinalizeAuction, PlaceBid, TransferOrder,
};
pub use error::{AuctionError, LendingError, MarketError};
pub use gate::{authorize, current_time, reported_time};
pub use identity::Identity;
pub use lending::{borrow_nft, lend_nft, BorrowNft, LendNft, Lending};
