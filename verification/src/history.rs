//! What holds of a record after any sequence of requests.

use vstd::prelude::*;
use crate::auction::Auction;
use crate::identity::Identity;
use crate::lending::Lending;

verus! {

/// One bid as it was submitted: by whom, how much, and when.
pub struct Bid {
    pub bidder: Identity,
    pub amount: u64,
    pub at: i64,
}

/// One request to borrow as it was submitted.
pub struct BorrowRequest {
    pub borrower: Identity,
    pub collateral_amount: u64,
}

/// The record after the bids of `bids` have been submitted one after the
/// other, each admitted or refused on the record that the ones before it
/// left.
pub open spec fn after_bids(auction: Auction, bids: Seq<Bid>) -> Auction
    decreases bids.len(),
{
    if bids.len() == 0 {
        auction
    } else {
        let last = bids.last();
        after_bids(auction, bids.drop_last()).after_bid(last.bidder, last.amount, last.at)
    }
}

/// True when the bid at `i` is the one that wins over `auction`'s standing
/// bid: it came before the deadline, it is above the standing bid, no bid
/// before the deadline is above it, and none that came earlier equals it.
pub open spec fn is_winning_bid(auction: Auction, bids: Seq<Bid>, i: int) -> bool {
    &&& 0 <= i < bids.len()
    &&& bids[i].at < auction.end_time
    &&& bids[i].amount > auction.highest_bid
    &&& forall|j: int|
        0 <= j < bids.len() && bids[j].at < auction.end_time ==> bids[j].amount <= bids[i].amount
    &&& forall|j: int|
        0 <= j < i && bids[j].at < auction.end_time ==> bids[j].amount < bids[i].amount
}

/// After any sequence of bids, the highest bid on record is the largest
/// amount that was bid before the deadline, or the amount that stood before
/// if none exceeded it, and the highest bidder is the one who first bid that
/// amount. Bids move no other field, and the highest bid never goes down.
pub proof fn lemma_highest_bid_is_maximum(auction: Auction, bids: Seq<Bid>)
    ensures
        ({
            let end = after_bids(auction, bids);
            &&& end == (Auction {
                highest_bid: end.highest_bid,
                highest_bidder: end.highest_bidder,
                ..auction
            })
            &&& end.highest_bid >= auction.highest_bid
            &&& forall|i: int|
                0 <= i < bids.len() && bids[i].at < auction.end_time ==> bids[i].amount
                    <= end.highest_bid
            &&& end.highest_bid == auction.highest_bid ==> end.highest_bidder
                == auction.highest_bidder
            &&& end.highest_bid > auction.highest_bid ==> exists|i: int|
                is_winning_bid(auction, bids, i) && end.highest_bid == bids[i].amount
                    && end.highest_bidder == bids[i].bidder
        }),
    decreases bids.len(),
{
    if bids.len() > 0 {
        let earlier = bids.drop_last();
        let last = bids.last();
        let mid = after_bids(auction, earlier);
        let end = after_bids(auction, bids);
        lemma_highest_bid_is_maximum(auction, earlier);
        assert(forall|j: int| 0 <= j < earlier.len() ==> earlier[j] == bids[j]);
        if mid.bid_verdict(last.amount, last.at) is Ok {
            assert(is_winning_bid(auction, bids, bids.len() - 1));
        } else if end.highest_bid > auction.highest_bid {
            let i = choose|i: int|
                is_winning_bid(auction, earlier, i) && mid.highest_bid == earlier[i].amount
                    && mid.highest_bidder == earlier[i].bidder;
            assert(is_winning_bid(auction, bids, i));
        }
    }
}

/// The record after the requests of `requests` have been submitted one after
/// the other.
pub open spec fn after_requests(lending: Lending, requests: Seq<BorrowRequest>) -> Lending
    decreases requests.len(),
{
    if requests.len() == 0 {
        lending
    } else {
        let last = requests.last();
        after_requests(lending, requests.drop_last()).after_request(
            last.borrower,
            last.collateral_amount,
        )
    }
}

/// An offer is taken at most once: a record that was borrowed stays as it is
/// whatever is asked of it, and an available one goes to the first request
/// whose collateral suffices and stays with it.
pub proof fn lemma_borrowed_once(lending: Lending, requests: Seq<BorrowRequest>)
    ensures
        !lending.is_active ==> after_requests(lending, requests) == lending,
        lending.is_active && (forall|j: int|
            0 <= j < requests.len() ==> requests[j].collateral_amount < lending.loan_amount)
            ==> after_requests(lending, requests) == lending,
        forall|i: int|
            lending.is_active && 0 <= i < requests.len() && requests[i].collateral_amount
                >= lending.loan_amount && (forall|j: int|
                0 <= j < i ==> requests[j].collateral_amount < lending.loan_amount)
                ==> after_requests(lending, requests) == (Lending {
                borrower: requests[i].borrower,
                is_active: false,
                ..lending
            }),
    decreases requests.len(),
{
    if requests.len() > 0 {
        let earlier = requests.drop_last();
        lemma_borrowed_once(lending, earlier);
        assert(forall|j: int| 0 <= j < earlier.len() ==> earlier[j] == requests[j]);
    }
}

} // verus!
