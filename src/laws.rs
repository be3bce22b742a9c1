//! Properties of the listing state machine, stated over the guards and
//! effects that the operations' contracts are written in.
use vstd::prelude::*;

use crate::accounts::{Identity, Listing};
use crate::error::Error;
use crate::marketplace::{
    after_bid, bid_check, buy_check, cancel_check, closed, set_price_check, settle_auction_check,
};

verus! {

/// Whether every bid of `bids` (bidder, price, time), placed in order on `l`,
/// is accepted.
pub open spec fn accepts_all(l: Listing, bids: Seq<(Identity, u64, i64)>) -> bool
    decreases bids.len(),
{
    if bids.len() == 0 {
        true
    } else {
        &&& bid_check(l, bids[0].0, bids[0].1, bids[0].2) is None
        &&& accepts_all(after_bid(l, bids[0].0, bids[0].1), bids.drop_first())
    }
}

/// Accepted bids on one listing strictly increase, each above the highest bid
/// that stood before them.
pub proof fn lemma_accepted_bids_increase(l: Listing, bids: Seq<(Identity, u64, i64)>)
    requires
        accepts_all(l, bids),
    ensures
        forall|i: int| 0 <= i < bids.len() ==> l.highest_price < #[trigger] bids[i].1,
        forall|i: int, j: int| 0 <= i < j < bids.len() ==> #[trigger] bids[i].1 < #[trigger] bids[j].1,
    decreases bids.len(),
{
    if bids.len() > 0 {
        let rest = bids.drop_first();
        let next = after_bid(l, bids[0].0, bids[0].1);
        lemma_accepted_bids_increase(next, rest);
        assert forall|i: int| 0 <= i < bids.len() implies l.highest_price < #[trigger] bids[i].1 by {
            if i > 0 {
                assert(bids[i] == rest[i - 1]);
            }
        }
        assert forall|i: int, j: int| 0 <= i < j < bids.len() implies #[trigger] bids[i].1
            < #[trigger] bids[j].1 by {
            assert(bids[j] == rest[j - 1]);
            if i > 0 {
                assert(bids[i] == rest[i - 1]);
            }
        }
    }
}

/// A bid that does not beat the highest one is refused with `InvalidPrice`
/// whenever the auction is open; at any time it is refused.
pub proof fn lemma_low_bid_rejected(l: Listing, bidder: Identity, price: u64, now: i64)
    requires
        price <= l.highest_price,
    ensures
        bid_check(l, bidder, price, now) is Some,
        !l.cancel && l.is_auction && l.started_at < now < l.end_at ==> bid_check(
            l,
            bidder,
            price,
            now,
        ) == Some(Error::InvalidPrice),
{
}

/// A closed listing is terminal: every operation on it fails, and no
/// operation clears the flag.
pub proof fn lemma_closed_is_terminal(l: Listing, caller: Identity, price: u64, now: i64)
    requires
        l.cancel,
    ensures
        bid_check(l, caller, price, now) == Some(Error::AuctionCanceled),
        cancel_check(l, caller) == Some(Error::AuctionCanceled),
        buy_check(l, caller) == Some(Error::AuctionCanceled),
        settle_auction_check(l, caller, now) == Some(Error::AuctionCanceled),
        set_price_check(l, caller, price) == Some(Error::AuctionCanceled),
        closed(l).cancel,
        after_bid(l, caller, price).cancel,
        (Listing { starting_price: price, ..l }).cancel,
{
}

/// Settling an auction twice fails the second time, whoever calls and
/// whenever: the first settlement closed the listing.
pub proof fn lemma_no_double_settlement(
    l: Listing,
    winner: Identity,
    now: i64,
    caller: Identity,
    later: i64,
)
    requires
        settle_auction_check(l, winner, now) is None,
    ensures
        settle_auction_check(closed(l), caller, later) == Some(Error::AuctionCanceled),
{
}

/// The seller can neither bid on nor buy their own listing.
pub proof fn lemma_no_self_dealing(l: Listing, price: u64, now: i64)
    ensures
        bid_check(l, l.seller, price, now) is Some,
        buy_check(l, l.seller) is Some,
        !l.cancel && l.is_auction && l.started_at < now < l.end_at && price > l.highest_price
            ==> bid_check(l, l.seller, price, now) == Some(Error::InvalidBid),
        !l.cancel && !l.is_auction ==> buy_check(l, l.seller) == Some(Error::NotAuthorized),
{
}

/// Bids outside the open window `(started_at, end_at)` of a live auction are
/// refused with `ListingNotOn`, and settlement up to and including `end_at`
/// with `AuctionOn`.
pub proof fn lemma_time_window(l: Listing, caller: Identity, price: u64, now: i64)
    requires
        !l.cancel,
    ensures
        l.is_auction && (now <= l.started_at || now >= l.end_at) ==> bid_check(
            l,
            caller,
            price,
            now,
        ) == Some(Error::ListingNotOn),
        now <= l.end_at ==> settle_auction_check(l, caller, now) == Some(Error::AuctionOn),
{
}

} // verus!
