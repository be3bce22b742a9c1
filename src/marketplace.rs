//! The operations on listings and on the global configuration. Each one checks
//! its guards in a fixed order, reports the first that fails and then changes
//! nothing, or else applies its whole effect.
use vstd::prelude::*;

use crate::accounts::{
    Bid, Buy, CancelListing, CreateListing, Identity, InitState, Listing, Payment, Purchase,
    SetPrice, Settlement, State,
};
use crate::error::Error;
use crate::fee::{compute_split, owner_cut_of, seller_proceeds_of};

verus! {

/// `l` after it reaches its terminal state.
pub open spec fn closed(l: Listing) -> Listing {
    Listing { cancel: true, ..l }
}

/// The transfers that sell at `amount` to `buyer`: the owner's cut to `owner`,
/// the rest to `seller`, both paid by `buyer`.
pub open spec fn settlement_for(
    buyer: Identity,
    seller: Identity,
    owner: Identity,
    amount: u64,
    cut_bps: u16,
) -> Settlement {
    Settlement {
        recipient: buyer,
        to_seller: Payment {
            payer: buyer,
            payee: seller,
            amount: seller_proceeds_of(amount, cut_bps) as u64,
        },
        to_owner: Payment { payer: buyer, payee: owner, amount: owner_cut_of(amount, cut_bps) as u64 },
    }
}

/// The first guard that settling auction `l` by `caller` at time `now` fails.
pub open spec fn settle_auction_check(l: Listing, caller: Identity, now: i64) -> Option<Error> {
    if l.cancel {
        Some(Error::AuctionCanceled)
    } else if now <= l.end_at {
        Some(Error::AuctionOn)
    } else if !l.is_auction {
        Some(Error::NotAuction)
    } else {
        match l.highest_bidder {
            None => Some(Error::NoWinner),
            Some(b) => if b != caller {
                Some(Error::NotWinner)
            } else {
                None
            },
        }
    }
}

/// The first guard that buying fixed-price listing `l` by `buyer` fails.
pub open spec fn buy_check(l: Listing, buyer: Identity) -> Option<Error> {
    if l.cancel {
        Some(Error::AuctionCanceled)
    } else if l.is_auction {
        Some(Error::NotOnSell)
    } else if l.seller == buyer {
        Some(Error::NotAuthorized)
    } else {
        None
    }
}

/// The first guard that cancelling `l` by `caller` fails.
pub open spec fn cancel_check(l: Listing, caller: Identity) -> Option<Error> {
    if l.cancel {
        Some(Error::AuctionCanceled)
    } else if l.seller != caller {
        Some(Error::NotAuthorized)
    } else {
        None
    }
}

/// The first guard that a bid of `price` by `bidder` at time `now` on `l` fails.
pub open spec fn bid_check(l: Listing, bidder: Identity, price: u64, now: i64) -> Option<Error> {
    if l.cancel {
        Some(Error::AuctionCanceled)
    } else if !l.is_auction {
        Some(Error::NotAuction)
    } else if !(l.started_at < now && now < l.end_at) {
        Some(Error::ListingNotOn)
    } else if price <= l.highest_price {
        Some(Error::InvalidPrice)
    } else if bidder == l.seller {
        Some(Error::InvalidBid)
    } else {
        None
    }
}

/// `l` after accepting a bid of `price` by `bidder`.
pub open spec fn after_bid(l: Listing, bidder: Identity, price: u64) -> Listing {
    Listing { highest_price: price, highest_bidder: Some(bidder), ..l }
}

/// The first guard that repricing `l` to `price` by `caller` fails.
pub open spec fn set_price_check(l: Listing, caller: Identity, price: u64) -> Option<Error> {
    if l.cancel {
        Some(Error::AuctionCanceled)
    } else if l.seller != caller {
        Some(Error::NotAuthorized)
    } else if l.is_auction {
        Some(Error::NotOnSell)
    } else if price < 1 {
        Some(Error::InvalidPrice)
    } else {
        None
    }
}

/// Builds the transfers of a sale at `amount`, split by `cut_bps`.
fn settle(buyer: Identity, seller: Identity, owner: Identity, amount: u64, cut_bps: u16) -> (r:
    Settlement)
    ensures
        r == settlement_for(buyer, seller, owner, amount, cut_bps),
{
    let (owner_cut, proceeds) = compute_split(amount, cut_bps);
    Settlement {
        recipient: buyer,
        to_seller: Payment { payer: buyer, payee: seller, amount: proceeds },
        to_owner: Payment { payer: buyer, payee: owner, amount: owner_cut },
    }
}

/// Settles a won auction at time `now`: the highest bidder receives the asset
/// and pays the highest bid, split between seller and platform owner; the
/// listing closes.
pub fn purchase_nft(ctx: &mut Purchase, now: i64) -> (r: Result<Settlement, Error>)
    ensures
        match r {
            Ok(s) => {
                &&& settle_auction_check(old(ctx).listing_account, old(ctx).user, now) is None
                &&& s == settlement_for(
                    old(ctx).user,
                    old(ctx).listing_account.seller,
                    old(ctx).state_account.owner,
                    old(ctx).listing_account.highest_price,
                    old(ctx).state_account.owner_cut,
                )
                &&& *final(ctx) == (Purchase {
                    listing_account: closed(old(ctx).listing_account),
                    ..*old(ctx)
                })
            },
            Err(e) => {
                &&& settle_auction_check(old(ctx).listing_account, old(ctx).user, now) == Some(e)
                &&& *final(ctx) == *old(ctx)
            },
        },
{
    let listing = ctx.listing_account;
    if listing.cancel {
        return Err(Error::AuctionCanceled);
    }
    if now <= listing.end_at {
        return Err(Error::AuctionOn);
    }
    if !listing.is_auction {
        return Err(Error::NotAuction);
    }
    match listing.highest_bidder {
        None => {
            return Err(Error::NoWinner);
        },
        Some(b) => {
            if b != ctx.user {
                return Err(Error::NotWinner);
            }
        },
    }
    let s = settle(
        ctx.user,
        listing.seller,
        ctx.state_account.owner,
        listing.highest_price,
        ctx.state_account.owner_cut,
    );
    ctx.listing_account.cancel = true;
    Ok(s)
}

/// Buys a fixed-price listing: the buyer receives the asset and pays the
/// asking price, split between seller and platform owner; the listing closes.
pub fn buy_nft(ctx: &mut Buy) -> (r: Result<Settlement, Error>)
    ensures
        match r {
            Ok(s) => {
                &&& buy_check(old(ctx).listing_account, old(ctx).user) is None
                &&& s == settlement_for(
                    old(ctx).user,
                    old(ctx).listing_account.seller,
                    old(ctx).state_account.owner,
                    old(ctx).listing_account.starting_price,
                    old(ctx).state_account.owner_cut,
                )
                &&& *final(ctx) == (Buy { listing_account: closed(old(ctx).listing_account), ..*old(ctx) })
            },
            Err(e) => {
                &&& buy_check(old(ctx).listing_account, old(ctx).user) == Some(e)
                &&& *final(ctx) == *old(ctx)
            },
        },
{
    let listing = ctx.listing_account;
    if listing.cancel {
        return Err(Error::AuctionCanceled);
    }
    if listing.is_auction {
        return Err(Error::NotOnSell);
    }
    if listing.seller == ctx.user {
        return Err(Error::NotAuthorized);
    }
    let s = settle(
        ctx.user,
        listing.seller,
        ctx.state_account.owner,
        listing.starting_price,
        ctx.state_account.owner_cut,
    );
    ctx.listing_account.cancel = true;
    Ok(s)
}

/// Cancels a listing: the asset goes back from escrow to the seller, whose
/// identity is returned, and the listing closes. Open to the seller at any
/// time, also while an auction runs and after bids were accepted.
pub fn cancel_listing(ctx: &mut CancelListing) -> (r: Result<Identity, Error>)
    ensures
        match r {
            Ok(to) => {
                &&& cancel_check(old(ctx).listing_account, old(ctx).user) is None
                &&& to == old(ctx).listing_account.seller
                &&& *final(ctx) == (CancelListing {
                    listing_account: closed(old(ctx).listing_account),
                    ..*old(ctx)
                })
            },
            Err(e) => {
                &&& cancel_check(old(ctx).listing_account, old(ctx).user) == Some(e)
                &&& *final(ctx) == *old(ctx)
            },
        },
{
    if ctx.listing_account.cancel {
        return Err(Error::AuctionCanceled);
    }
    if ctx.user != ctx.listing_account.seller {
        return Err(Error::NotAuthorized);
    }
    ctx.listing_account.cancel = true;
    Ok(ctx.listing_account.seller)
}

/// Places a bid of `price` at time `now`. No funds move: an accepted bid makes
/// the bidder the highest one.
pub fn bid(ctx: &mut Bid, price: u64, now: i64) -> (r: Result<(), Error>)
    ensures
        match r {
            Ok(_) => {
                &&& bid_check(old(ctx).listing_account, old(ctx).user, price, now) is None
                &&& *final(ctx) == (Bid {
                    listing_account: after_bid(old(ctx).listing_account, old(ctx).user, price),
                    ..*old(ctx)
                })
            },
            Err(e) => {
                &&& bid_check(old(ctx).listing_account, old(ctx).user, price, now) == Some(e)
                &&& *final(ctx) == *old(ctx)
            },
        },
        old(ctx).listing_account.wf() ==> final(ctx).listing_account.wf(),
{
    let listing = ctx.listing_account;
    if listing.cancel {
        return Err(Error::AuctionCanceled);
    }
    if !listing.is_auction {
        return Err(Error::NotAuction);
    }
    if !(listing.started_at < now && now < listing.end_at) {
        return Err(Error::ListingNotOn);
    }
    if price <= listing.highest_price {
        return Err(Error::InvalidPrice);
    }
    if ctx.user == listing.seller {
        return Err(Error::InvalidBid);
    }
    ctx.listing_account.highest_price = price;
    ctx.listing_account.highest_bidder = Some(ctx.user);
    Ok(())
}

/// Opens a listing of the caller's asset, which the caller moves into escrow
/// together with this creation.
pub fn create_listing(
    ctx: &mut CreateListing,
    starting_price: u64,
    token_mint: Identity,
    end_at: i64,
    started_at: i64,
    is_auction: bool,
) -> (r: Result<(), Error>)
    ensures
        match r {
            Ok(_) => {
                &&& starting_price >= 1
                &&& *final(ctx) == (CreateListing {
                    listing_account: Listing {
                        seller: old(ctx).user,
                        starting_price,
                        token_mint,
                        end_at,
                        started_at,
                        highest_bidder: None,
                        highest_price: 0,
                        cancel: false,
                        is_auction,
                    },
                    ..*old(ctx)
                })
                &&& final(ctx).listing_account.wf()
            },
            Err(e) => {
                &&& starting_price < 1
                &&& e == Error::InvalidPrice
                &&& *final(ctx) == *old(ctx)
            },
        },
{
    if starting_price < 1 {
        return Err(Error::InvalidPrice);
    }
    ctx.listing_account = Listing {
        seller: ctx.user,
        starting_price,
        token_mint,
        end_at,
        started_at,
        highest_bidder: None,
        highest_price: 0,
        cancel: false,
        is_auction,
    };
    Ok(())
}

/// Creates the global configuration, once, with the caller as platform owner.
pub fn init_state(ctx: &mut InitState, owner_cut: u16) -> (r: Result<(), Error>)
    ensures
        match r {
            Ok(_) => {
                &&& !old(ctx).state_account.initialized
                &&& owner_cut < 10000
                &&& *final(ctx) == (InitState {
                    state_account: State { owner: old(ctx).user, initialized: true, owner_cut },
                    ..*old(ctx)
                })
                &&& final(ctx).state_account.wf()
            },
            Err(e) => {
                &&& *final(ctx) == *old(ctx)
                &&& e == if old(ctx).state_account.initialized {
                    Error::StateAlreadyInitialized
                } else {
                    Error::InvalidOwnerCut
                }
                &&& (old(ctx).state_account.initialized || owner_cut >= 10000)
            },
        },
{
    if ctx.state_account.initialized {
        return Err(Error::StateAlreadyInitialized);
    }
    if owner_cut >= 10000 {
        return Err(Error::InvalidOwnerCut);
    }
    ctx.state_account = State { owner: ctx.user, initialized: true, owner_cut };
    Ok(())
}

/// Changes the price of a fixed-price listing.
pub fn set_price(ctx: &mut SetPrice, price: u64) -> (r: Result<(), Error>)
    ensures
        match r {
            Ok(_) => {
                &&& set_price_check(old(ctx).listing_account, old(ctx).user, price) is None
                &&& *final(ctx) == (SetPrice {
                    listing_account: Listing { starting_price: price, ..old(ctx).listing_account },
                    ..*old(ctx)
                })
            },
            Err(e) => {
                &&& set_price_check(old(ctx).listing_account, old(ctx).user, price) == Some(e)
                &&& *final(ctx) == *old(ctx)
            },
        },
        old(ctx).listing_account.wf() ==> final(ctx).listing_account.wf(),
{
    if ctx.listing_account.cancel {
        return Err(Error::AuctionCanceled);
    }
    if ctx.user != ctx.listing_account.seller {
        return Err(Error::NotAuthorized);
    }
    if ctx.listing_account.is_auction {
        return Err(Error::NotOnSell);
    }
    if price < 1 {
        return Err(Error::InvalidPrice);
    }
    ctx.listing_account.starting_price = price;
    Ok(())
}

} // verus!
