//! The auction engine: creation, bid admission and finalization of one
//! `Auction` record.

use vstd::prelude::*;
use crate::error::{AuctionError, MarketError};
use crate::gate::{authorize, current_time};
use crate::identity::Identity;
use crate::ledger::{empty_address, token_transfer};
use anchor_lang::solana_program::account_info::AccountInfo;

verus! {

/// The durable record of one listed asset.
#[derive(Clone, Copy, Debug, PartialEq, Eq)]
pub struct Auction {
    /// Creator of the listing, and the only party that may finalize it.
    pub seller: Identity,
    /// The asset on offer.
    pub nft_mint: Identity,
    /// Floor named by the seller. It is recorded and never compared with a bid.
    pub min_bid: u64,
    /// The winning amount so far; 0 while nobody has bid.
    pub highest_bid: u64,
    /// Who offered `highest_bid`; the null identity while nobody has bid.
    pub highest_bidder: Identity,
    /// The deadline, in seconds since the epoch.
    pub end_time: i64,
    /// True once the asset has been handed over.
    pub finalized: bool,
}

/// A request to open an auction: the caller, who becomes the seller, the
/// asset, and the record that was allocated for the listing.
#[derive(Clone, Copy, Debug, PartialEq, Eq)]
pub struct CreateAuction {
    pub seller: Identity,
    pub nft_mint: Identity,
    pub auction: Auction,
}

/// A request to bid: the caller and the record bid on.
#[derive(Clone, Copy, Debug, PartialEq, Eq)]
pub struct PlaceBid {
    pub bidder: Identity,
    pub auction: Auction,
}

/// A request to finalize: the caller who presents as seller, the record, and
/// the holdings between which the asset moves.
pub struct FinalizeAuction<'info> {
    /// The authenticated caller.
    pub seller: Identity,
    pub auction: Auction,
    /// The caller's account, under whose authority the asset moves.
    pub authority: AccountInfo<'info>,
    /// The holding that has the asset.
    pub nft_vault: AccountInfo<'info>,
    /// The holding that receives it.
    pub winner_nft_account: AccountInfo<'info>,
}

/// What the token program is asked when an auction is finalized.
pub struct TransferOrder<'a, 'info> {
    /// The holding that gives.
    pub from: &'a AccountInfo<'info>,
    /// The holding that receives.
    pub to: &'a AccountInfo<'info>,
    /// The account on whose authority the asset moves.
    pub authority: &'a AccountInfo<'info>,
    /// How many units move.
    pub amount: u64,
}

impl Auction {
    /// True of the record of an auction that was just opened by `seller` for
    /// `nft_mint`, with the deadline `end_time`: nobody has bid and nothing
    /// has been handed over.
    pub open spec fn is_opened(
        self,
        seller: Identity,
        nft_mint: Identity,
        min_bid: u64,
        end_time: int,
    ) -> bool {
        &&& self.seller == seller
        &&& self.nft_mint == nft_mint
        &&& self.min_bid == min_bid
        &&& self.highest_bid == 0
        &&& self.highest_bidder.is_null()
        &&& self.end_time == end_time
        &&& !self.finalized
    }

    /// What a bid of `bid_amount` at time `now` is answered. The deadline is
    /// checked first; then the bid must be strictly above the standing one.
    /// `min_bid` plays no part.
    pub open spec fn bid_verdict(self, bid_amount: u64, now: i64) -> Result<(), AuctionError> {
        if now >= self.end_time {
            Err(AuctionError::AuctionEnded)
        } else if bid_amount <= self.highest_bid {
            Err(AuctionError::BidTooLow)
        } else {
            Ok(())
        }
    }

    /// The record after `bidder` has bid `bid_amount` at time `now`: the bid
    /// and the bidder are recorded if the bid is admitted, and the record
    /// stays as it is if not.
    pub open spec fn after_bid(self, bidder: Identity, bid_amount: u64, now: i64) -> Auction {
        if self.bid_verdict(bid_amount, now) is Ok {
            Auction { highest_bid: bid_amount, highest_bidder: bidder, ..self }
        } else {
            self
        }
    }

    /// What a request by `caller` to finalize at time `now` is answered
    /// before any asset moves. The caller is checked first, then the
    /// deadline. Whether the record is finalized already plays no part.
    pub open spec fn finalize_verdict(self, caller: Identity, now: i64) -> Result<(), MarketError> {
        if caller != self.seller {
            Err(MarketError::Unauthorized)
        } else if now < self.end_time {
            Err(MarketError::Auction(AuctionError::AuctionNotEnded))
        } else {
            Ok(())
        }
    }

    /// The record with `finalized` set and nothing else changed.
    pub open spec fn as_finalized(self) -> Auction {
        Auction { finalized: true, ..self }
    }
}

/// True when `now + duration` is a time that the record can hold.
pub open spec fn deadline_in_range(now: i64, duration: i64) -> bool {
    i64::MIN <= now + duration <= i64::MAX
}

/// Opens the auction at time `now`: the caller becomes the seller, the
/// deadline is `now + duration`, and the record starts without a bid.
pub fn create_auction_at(ctx: &mut CreateAuction, min_bid: u64, duration: i64, now: i64)
    requires
        deadline_in_range(now, duration),
    ensures
        final(ctx).seller == old(ctx).seller,
        final(ctx).nft_mint == old(ctx).nft_mint,
        final(ctx).auction.is_opened(old(ctx).seller, old(ctx).nft_mint, min_bid, now + duration),
{
    ctx.auction.seller = ctx.seller;
    ctx.auction.nft_mint = ctx.nft_mint;
    ctx.auction.min_bid = min_bid;
    ctx.auction.end_time = now + duration;
    ctx.auction.highest_bid = 0;
    ctx.auction.highest_bidder = empty_address();
    ctx.auction.finalized = false;
}

/// True when `res` and `after` are what opening the auction at time `now`
/// gives.
pub open spec fn opens_at(
    before: CreateAuction,
    min_bid: u64,
    duration: i64,
    now: i64,
    res: Result<(), MarketError>,
    after: Auction,
) -> bool {
    if deadline_in_range(now, duration) {
        res is Ok && after.is_opened(before.seller, before.nft_mint, min_bid, now + duration)
    } else {
        res == Err::<(), MarketError>(MarketError::DeadlineOutOfRange) && after == before.auction
    }
}

/// Opens the auction at time `now` if its deadline, `now + duration`, is a
/// representable time, and fails with `DeadlineOutOfRange`, the record
/// untouched, if it is not.
pub fn open_auction_at(
    ctx: &mut CreateAuction,
    min_bid: u64,
    duration: i64,
    now: i64,
) -> (res: Result<(), MarketError>)
    ensures
        final(ctx).seller == old(ctx).seller,
        final(ctx).nft_mint == old(ctx).nft_mint,
        opens_at(*old(ctx), min_bid, duration, now, res, final(ctx).auction),
        deadline_in_range(now, duration) ==> res is Ok,
        !deadline_in_range(now, duration) ==> res == Err::<(), MarketError>(
            MarketError::DeadlineOutOfRange,
        ),
        res is Err ==> final(ctx).auction == old(ctx).auction,
{
    match now.checked_add(duration) {
        None => Err(MarketError::DeadlineOutOfRange),
        Some(_) => {
            create_auction_at(ctx, min_bid, duration, now);
            Ok(())
        },
    }
}

/// Opens the auction at the time that the runtime reports.
///
/// Fails, with the record untouched, when the runtime reports no time or
/// when the deadline would not be a representable time.
pub fn create_auction(
    ctx: &mut CreateAuction,
    min_bid: u64,
    duration: i64,
) -> (res: Result<(), MarketError>)
    ensures
        final(ctx).seller == old(ctx).seller,
        final(ctx).nft_mint == old(ctx).nft_mint,
        res is Err ==> final(ctx).auction == old(ctx).auction,
        res == Err::<(), MarketError>(MarketError::ClockUnavailable) || exists|now: i64|
            opens_at(*old(ctx), min_bid, duration, now, res, final(ctx).auction),
{
    match current_time() {
        Err(e) => Err(e),
        Ok(now) => open_auction_at(ctx, min_bid, duration, now),
    }
}

/// Admits or refuses a bid of `bid_amount` by the caller at time `now`.
///
/// A bid at or after the deadline is refused whatever its size. Before the
/// deadline a bid is admitted exactly when it is strictly above the standing
/// one; a tie loses. A refused bid leaves the record as it was.
pub fn place_bid_at(
    ctx: &mut PlaceBid,
    bid_amount: u64,
    now: i64,
) -> (res: Result<(), AuctionError>)
    ensures
        final(ctx).bidder == old(ctx).bidder,
        res == old(ctx).auction.bid_verdict(bid_amount, now),
        final(ctx).auction == old(ctx).auction.after_bid(old(ctx).bidder, bid_amount, now),
        now >= old(ctx).auction.end_time ==> res == Err::<(), AuctionError>(
            AuctionError::AuctionEnded,
        ),
        now < old(ctx).auction.end_time && bid_amount <= old(ctx).auction.highest_bid ==> res
            == Err::<(), AuctionError>(AuctionError::BidTooLow),
        now < old(ctx).auction.end_time && bid_amount > old(ctx).auction.highest_bid ==> res is Ok,
        res is Err ==> final(ctx).auction == old(ctx).auction,
        res is Ok ==> final(ctx).auction == (Auction {
            highest_bid: bid_amount,
            highest_bidder: old(ctx).bidder,
            ..old(ctx).auction
        }),
        final(ctx).auction.highest_bid >= old(ctx).auction.highest_bid,
{
    if now >= ctx.auction.end_time {
        return Err(AuctionError::AuctionEnded);
    }
    if bid_amount <= ctx.auction.highest_bid {
        return Err(AuctionError::BidTooLow);
    }
    ctx.auction.highest_bid = bid_amount;
    ctx.auction.highest_bidder = ctx.bidder;
    Ok(())
}

/// True when `res` and `after` are what a bid at time `now` gives.
pub open spec fn bids_at(
    before: PlaceBid,
    bid_amount: u64,
    now: i64,
    res: Result<(), MarketError>,
    after: Auction,
) -> bool {
    &&& after == before.auction.after_bid(before.bidder, bid_amount, now)
    &&& res == match before.auction.bid_verdict(bid_amount, now) {
        Ok(()) => Ok::<(), MarketError>(()),
        Err(e) => Err::<(), MarketError>(MarketError::Auction(e)),
    }
}

/// Admits or refuses a bid of `bid_amount` by the caller at the time that
/// the runtime reports.
///
/// Whatever the time, a refused bid leaves the record as it was, a bid that
/// does not exceed the standing one is refused, and an admitted bid is
/// recorded with its bidder.
pub fn place_bid(ctx: &mut PlaceBid, bid_amount: u64) -> (res: Result<(), MarketError>)
    ensures
        final(ctx).bidder == old(ctx).bidder,
        res is Err ==> final(ctx).auction == old(ctx).auction,
        res is Ok ==> final(ctx).auction == (Auction {
            highest_bid: bid_amount,
            highest_bidder: old(ctx).bidder,
            ..old(ctx).auction
        }),
        bid_amount <= old(ctx).auction.highest_bid ==> res is Err,
        final(ctx).auction.highest_bid >= old(ctx).auction.highest_bid,
        res == Err::<(), MarketError>(MarketError::ClockUnavailable) || exists|now: i64|
            bids_at(*old(ctx), bid_amount, now, res, final(ctx).auction),
{
    match current_time() {
        Err(e) => Err(e),
        Ok(now) => {
            let res = match place_bid_at(ctx, bid_amount, now) {
                Ok(()) => Ok(()),
                Err(e) => Err(MarketError::Auction(e)),
            };
            assert(bids_at(*old(ctx), bid_amount, now, res, ctx.auction));
            res
        },
    }
}

/// Decides whether `caller` may finalize `auction` at time `now`.
pub fn check_finalize(
    auction: &Auction,
    caller: &Identity,
    now: i64,
) -> (res: Result<(), MarketError>)
    ensures
        res == auction.finalize_verdict(*caller, now),
        *caller != auction.seller ==> res == Err::<(), MarketError>(MarketError::Unauthorized),
        *caller == auction.seller && now < auction.end_time ==> res == Err::<(), MarketError>(
            MarketError::Auction(AuctionError::AuctionNotEnded),
        ),
        *caller == auction.seller && now >= auction.end_time ==> res is Ok,
{
    match authorize(caller, &auction.seller) {
        Err(e) => Err(e),
        Ok(()) => {
            if now < auction.end_time {
                Err(MarketError::Auction(AuctionError::AuctionNotEnded))
            } else {
                Ok(())
            }
        },
    }
}

/// Records the outcome of the asset transfer of an admitted finalization:
/// the record is finalized exactly when the asset moved, and the token
/// program's error is passed on when it did not.
pub fn settle(
    auction: &mut Auction,
    moved: Result<(), anchor_lang::error::Error>,
) -> (res: Result<(), MarketError>)
    ensures
        moved is Ok ==> res is Ok,
        moved is Ok ==> *final(auction) == old(auction).as_finalized(),
        moved is Err ==> res == Err::<(), MarketError>(MarketError::TransferFailed(moved->Err_0)),
        moved is Err ==> *final(auction) == *old(auction),
{
    match moved {
        Ok(()) => {
            auction.finalized = true;
            Ok(())
        },
        Err(e) => Err(MarketError::TransferFailed(e)),
    }
}

/// The transfer that finalizing asks for: one unit of the asset, from the
/// vault to the winner's holding, on the caller's authority.
pub fn transfer_order<'a, 'info>(
    ctx: &'a FinalizeAuction<'info>,
) -> (order: TransferOrder<'a, 'info>)
    ensures
        *order.from == ctx.nft_vault,
        *order.to == ctx.winner_nft_account,
        *order.authority == ctx.authority,
        order.amount == 1,
{
    TransferOrder {
        from: &ctx.nft_vault,
        to: &ctx.winner_nft_account,
        authority: &ctx.authority,
        amount: 1,
    }
}

/// Finalizes the auction at time `now`: admits the request, hands the token
/// program the order that `transfer_order` gives, and marks the record once
/// the asset has moved.
///
/// A refused request reaches neither the token program nor the record. An
/// admitted one ends in one of two ways, and which one is the token
/// program's to decide.
pub fn finalize_auction_at(
    ctx: &mut FinalizeAuction<'_>,
    now: i64,
) -> (res: Result<(), MarketError>)
    ensures
        final(ctx).seller == old(ctx).seller,
        final(ctx).authority == old(ctx).authority,
        final(ctx).nft_vault == old(ctx).nft_vault,
        final(ctx).winner_nft_account == old(ctx).winner_nft_account,
        old(ctx).auction.finalize_verdict(old(ctx).seller, now) is Err ==> res
            == old(ctx).auction.finalize_verdict(old(ctx).seller, now),
        old(ctx).auction.finalize_verdict(old(ctx).seller, now) is Ok ==> res is Ok
            || res matches Err(MarketError::TransferFailed(_)),
        res is Ok ==> final(ctx).auction == old(ctx).auction.as_finalized(),
        res is Ok ==> old(ctx).seller == old(ctx).auction.seller && now
            >= old(ctx).auction.end_time,
        res is Err ==> final(ctx).auction == old(ctx).auction,
        old(ctx).seller != old(ctx).auction.seller ==> res == Err::<(), MarketError>(
            MarketError::Unauthorized,
        ),
        old(ctx).seller == old(ctx).auction.seller && now < old(ctx).auction.end_time ==> res
            == Err::<(), MarketError>(MarketError::Auction(AuctionError::AuctionNotEnded)),
        final(ctx).auction.finalized == (old(ctx).auction.finalized || res is Ok),
{
    match check_finalize(&ctx.auction, &ctx.seller, now) {
        Err(e) => Err(e),
        Ok(()) => {
            let order = transfer_order(ctx);
            let moved = token_transfer(&order);
            settle(&mut ctx.auction, moved)
        },
    }
}

/// True when `res` and `after` are a way in which finalizing at time `now`
/// can end.
pub open spec fn finalizes_at(
    before: Auction,
    caller: Identity,
    now: i64,
    res: Result<(), MarketError>,
    after: Auction,
) -> bool {
    match before.finalize_verdict(caller, now) {
        Err(e) => res == Err::<(), MarketError>(e) && after == before,
        Ok(()) => {
            ||| res is Ok && after == before.as_finalized()
            ||| res matches Err(MarketError::TransferFailed(_)) && after == before
        },
    }
}

/// Finalizes the auction at the time that the runtime reports.
///
/// A caller other than the seller is refused before the time is asked for.
/// Whatever the time, a failed request leaves the record as it was, and the
/// record is marked exactly when the request succeeds.
pub fn finalize_auction(ctx: &mut FinalizeAuction<'_>) -> (res: Result<(), MarketError>)
    ensures
        final(ctx).seller == old(ctx).seller,
        final(ctx).authority == old(ctx).authority,
        final(ctx).nft_vault == old(ctx).nft_vault,
        final(ctx).winner_nft_account == old(ctx).winner_nft_account,
        res is Ok ==> final(ctx).auction == old(ctx).auction.as_finalized(),
        res is Err ==> final(ctx).auction == old(ctx).auction,
        old(ctx).seller != old(ctx).auction.seller ==> res == Err::<(), MarketError>(
            MarketError::Unauthorized,
        ),
        final(ctx).auction.finalized == (old(ctx).auction.finalized || res is Ok),
        res == Err::<(), MarketError>(MarketError::ClockUnavailable) || exists|now: i64|
            finalizes_at(old(ctx).auction, old(ctx).seller, now, res, final(ctx).auction),
{
    match authorize(&ctx.seller, &ctx.auction.seller) {
        Err(e) => {
            assert(finalizes_at(ctx.auction, ctx.seller, 0, Err(e), ctx.auction));
            Err(e)
        },
        Ok(()) => match current_time() {
            Err(e) => Err(e),
            Ok(now) => {
                let res = finalize_auction_at(ctx, now);
                assert(finalizes_at(old(ctx).auction, old(ctx).seller, now, res, ctx.auction));
                res
            },
        },
    }
}

} // verus!
