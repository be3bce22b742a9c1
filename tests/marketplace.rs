use nft_marketplace::accounts::{
    Bid, Buy, CancelListing, CreateListing, Identity, InitState, Listing, Payment, Purchase,
    SetPrice, State,
};
use nft_marketplace::error::Error;
use nft_marketplace::fee::compute_split;
use nft_marketplace::marketplace::{
    bid, buy_nft, cancel_listing, create_listing, init_state, purchase_nft, set_price,
};

fn id(n: u64) -> Identity {
    Identity { w0: n, w1: n.wrapping_mul(3), w2: 7, w3: 11 }
}

fn owner() -> Identity {
    id(1)
}

fn seller() -> Identity {
    id(2)
}

fn empty_listing() -> Listing {
    Listing {
        seller: id(0),
        starting_price: 0,
        token_mint: id(0),
        end_at: 0,
        started_at: 0,
        highest_bidder: None,
        highest_price: 0,
        cancel: false,
        is_auction: false,
    }
}

fn config(cut: u16) -> State {
    let mut ctx = InitState {
        state_account: State { owner: id(0), initialized: false, owner_cut: 0 },
        user: owner(),
    };
    assert_eq!(init_state(&mut ctx, cut), Ok(()));
    ctx.state_account
}

fn new_listing(price: u64, started_at: i64, end_at: i64, is_auction: bool) -> Listing {
    let mut ctx = CreateListing { listing_account: empty_listing(), user: seller() };
    assert_eq!(create_listing(&mut ctx, price, id(9), end_at, started_at, is_auction), Ok(()));
    ctx.listing_account
}

fn place(listing: &mut Listing, bidder: Identity, price: u64, now: i64) -> Result<(), Error> {
    let mut ctx = Bid { listing_account: *listing, user: bidder };
    let r = bid(&mut ctx, price, now);
    *listing = ctx.listing_account;
    r
}

fn settle(listing: &mut Listing, state: State, caller: Identity, now: i64) -> Result<nft_marketplace::accounts::Settlement, Error> {
    let mut ctx = Purchase { user: caller, listing_account: *listing, state_account: state };
    let r = purchase_nft(&mut ctx, now);
    *listing = ctx.listing_account;
    r
}

fn buy(listing: &mut Listing, state: State, caller: Identity) -> Result<nft_marketplace::accounts::Settlement, Error> {
    let mut ctx = Buy { user: caller, listing_account: *listing, state_account: state };
    let r = buy_nft(&mut ctx);
    *listing = ctx.listing_account;
    r
}

fn cancel(listing: &mut Listing, caller: Identity) -> Result<Identity, Error> {
    let mut ctx = CancelListing { listing_account: *listing, user: caller };
    let r = cancel_listing(&mut ctx);
    *listing = ctx.listing_account;
    r
}

#[test]
fn split_of_one_thousand_at_five_percent() {
    assert_eq!(compute_split(1000, 500), (50, 950));
}

#[test]
fn split_rounds_owner_cut_down() {
    assert_eq!(compute_split(7, 9999), (6, 1));
    assert_eq!(compute_split(199, 100), (1, 198));
    assert_eq!(compute_split(0, 500), (0, 0));
    assert_eq!(compute_split(1234, 0), (0, 1234));
}

#[test]
fn split_is_exact_on_huge_amounts() {
    let (cut, rest) = compute_split(u64::MAX, 5000);
    assert_eq!(cut, u64::MAX / 2);
    assert_eq!(cut + rest, u64::MAX);
    assert_eq!(compute_split(u64::MAX, 9999).0, ((u64::MAX as u128) * 9999 / 10000) as u64);
}

#[test]
fn split_parts_add_up() {
    for amount in [1u64, 2, 999, 10_001, 123_456_789] {
        for bps in [0u16, 1, 250, 5000, 9999] {
            let (c, s) = compute_split(amount, bps);
            assert_eq!(c + s, amount);
            assert_eq!(c, amount * bps as u64 / 10000);
        }
    }
}

#[test]
fn config_is_created_once() {
    let mut ctx = InitState {
        state_account: State { owner: id(0), initialized: false, owner_cut: 0 },
        user: owner(),
    };
    assert_eq!(init_state(&mut ctx, 250), Ok(()));
    assert_eq!(ctx.state_account, State { owner: owner(), initialized: true, owner_cut: 250 });
    ctx.user = id(5);
    assert_eq!(init_state(&mut ctx, 100), Err(Error::StateAlreadyInitialized));
    assert_eq!(ctx.state_account.owner, owner());
    assert_eq!(ctx.state_account.owner_cut, 250);
}

#[test]
fn config_rejects_full_cut() {
    let mut ctx = InitState {
        state_account: State { owner: id(0), initialized: false, owner_cut: 0 },
        user: owner(),
    };
    assert_eq!(init_state(&mut ctx, 10000), Err(Error::InvalidOwnerCut));
    assert!(!ctx.state_account.initialized);
    assert_eq!(init_state(&mut ctx, 9999), Ok(()));
}

#[test]
fn create_rejects_zero_price() {
    let mut ctx = CreateListing { listing_account: empty_listing(), user: seller() };
    assert_eq!(create_listing(&mut ctx, 0, id(9), 100, 0, true), Err(Error::InvalidPrice));
    assert_eq!(ctx.listing_account, empty_listing());
}

#[test]
fn create_sets_fields() {
    let l = new_listing(42, 5, 50, true);
    assert_eq!(l.seller, seller());
    assert_eq!(l.starting_price, 42);
    assert_eq!(l.token_mint, id(9));
    assert_eq!((l.started_at, l.end_at), (5, 50));
    assert_eq!(l.highest_bidder, None);
    assert_eq!(l.highest_price, 0);
    assert!(!l.cancel);
    assert!(l.is_auction);
}

#[test]
fn fixed_price_sale_pays_seller_and_owner() {
    let state = config(500);
    let mut l = new_listing(1000, 0, 0, false);
    let s = buy(&mut l, state, id(3)).unwrap();
    assert_eq!(s.recipient, id(3));
    assert_eq!(s.to_seller, Payment { payer: id(3), payee: seller(), amount: 950 });
    assert_eq!(s.to_owner, Payment { payer: id(3), payee: owner(), amount: 50 });
    assert!(l.cancel);
    assert_eq!(buy(&mut l, state, id(4)), Err(Error::AuctionCanceled));
}

#[test]
fn auction_goes_to_highest_bidder() {
    let state = config(500);
    let mut l = new_listing(5, 0, 100, true);
    assert_eq!(place(&mut l, id(10), 10, 1), Ok(()));
    assert_eq!(place(&mut l, id(20), 20, 2), Ok(()));
    assert_eq!(place(&mut l, id(30), 30, 3), Ok(()));
    assert_eq!(place(&mut l, id(25), 25, 4), Err(Error::InvalidPrice));
    assert_eq!(l.highest_price, 30);
    assert_eq!(l.highest_bidder, Some(id(30)));
    assert_eq!(settle(&mut l, state, id(20), 150), Err(Error::NotWinner));
    assert!(!l.cancel);
    let s = settle(&mut l, state, id(30), 150).unwrap();
    assert_eq!(s.recipient, id(30));
    assert_eq!(s.to_owner, Payment { payer: id(30), payee: owner(), amount: 1 });
    assert_eq!(s.to_seller, Payment { payer: id(30), payee: seller(), amount: 29 });
    assert!(l.cancel);
}

#[test]
fn cancel_returns_asset_to_seller() {
    let state = config(500);
    let mut l = new_listing(1000, 0, 0, false);
    assert_eq!(cancel(&mut l, seller()), Ok(seller()));
    assert!(l.cancel);
    assert_eq!(buy(&mut l, state, id(3)), Err(Error::AuctionCanceled));
    assert_eq!(cancel(&mut l, seller()), Err(Error::AuctionCanceled));
}

#[test]
fn cancel_by_other_is_refused() {
    let mut l = new_listing(1000, 0, 100, true);
    assert_eq!(cancel(&mut l, id(3)), Err(Error::NotAuthorized));
    assert!(!l.cancel);
}

#[test]
fn cancel_allowed_during_auction_with_bids() {
    let mut l = new_listing(5, 0, 100, true);
    assert_eq!(place(&mut l, id(10), 10, 1), Ok(()));
    assert_eq!(cancel(&mut l, seller()), Ok(seller()));
    assert!(l.cancel);
}

#[test]
fn second_settlement_fails() {
    let state = config(500);
    let mut l = new_listing(5, 0, 100, true);
    assert_eq!(place(&mut l, id(10), 10, 1), Ok(()));
    assert!(settle(&mut l, state, id(10), 101).is_ok());
    assert_eq!(settle(&mut l, state, id(10), 102), Err(Error::AuctionCanceled));
}

#[test]
fn equal_bid_rejected() {
    let mut l = new_listing(5, 0, 100, true);
    assert_eq!(place(&mut l, id(10), 10, 1), Ok(()));
    assert_eq!(place(&mut l, id(11), 10, 2), Err(Error::InvalidPrice));
    assert_eq!(l.highest_bidder, Some(id(10)));
}

#[test]
fn seller_cannot_bid_or_buy() {
    let state = config(500);
    let mut a = new_listing(5, 0, 100, true);
    assert_eq!(place(&mut a, seller(), 10, 1), Err(Error::InvalidBid));
    assert_eq!(a.highest_bidder, None);
    let mut f = new_listing(5, 0, 0, false);
    assert_eq!(buy(&mut f, state, seller()), Err(Error::NotAuthorized));
    assert!(!f.cancel);
}

#[test]
fn bids_outside_window_rejected() {
    let mut l = new_listing(5, 10, 100, true);
    assert_eq!(place(&mut l, id(3), 10, 10), Err(Error::ListingNotOn));
    assert_eq!(place(&mut l, id(3), 10, 5), Err(Error::ListingNotOn));
    assert_eq!(place(&mut l, id(3), 10, 100), Err(Error::ListingNotOn));
    assert_eq!(place(&mut l, id(3), 10, 11), Ok(()));
    assert_eq!(place(&mut l, id(4), 11, 99), Ok(()));
}

#[test]
fn settlement_before_end_rejected() {
    let state = config(500);
    let mut l = new_listing(5, 0, 100, true);
    assert_eq!(place(&mut l, id(3), 10, 50), Ok(()));
    assert_eq!(settle(&mut l, state, id(3), 100), Err(Error::AuctionOn));
    assert_eq!(settle(&mut l, state, id(3), 60), Err(Error::AuctionOn));
    assert!(!l.cancel);
}

#[test]
fn settlement_without_bids_has_no_winner() {
    let state = config(500);
    let mut l = new_listing(5, 0, 100, true);
    assert_eq!(settle(&mut l, state, id(3), 101), Err(Error::NoWinner));
    assert!(!l.cancel);
}

#[test]
fn mode_mismatches_rejected() {
    let state = config(500);
    let mut f = new_listing(5, 0, 100, false);
    assert_eq!(place(&mut f, id(3), 10, 50), Err(Error::NotAuction));
    assert_eq!(settle(&mut f, state, id(3), 101), Err(Error::NotAuction));
    let mut a = new_listing(5, 0, 100, true);
    assert_eq!(buy(&mut a, state, id(3)), Err(Error::NotOnSell));
}

#[test]
fn bid_on_closed_auction_rejected() {
    let mut l = new_listing(5, 0, 100, true);
    assert_eq!(cancel(&mut l, seller()), Ok(seller()));
    assert_eq!(place(&mut l, id(3), 10, 50), Err(Error::AuctionCanceled));
}

#[test]
fn reprice_fixed_listing() {
    let mut ctx = SetPrice { listing_account: new_listing(5, 0, 0, false), user: seller() };
    assert_eq!(set_price(&mut ctx, 77), Ok(()));
    assert_eq!(ctx.listing_account.starting_price, 77);
    assert_eq!(set_price(&mut ctx, 0), Err(Error::InvalidPrice));
    assert_eq!(ctx.listing_account.starting_price, 77);
    ctx.user = id(3);
    assert_eq!(set_price(&mut ctx, 80), Err(Error::NotAuthorized));
    let mut auction = SetPrice { listing_account: new_listing(5, 0, 100, true), user: seller() };
    assert_eq!(set_price(&mut auction, 80), Err(Error::NotOnSell));
    assert_eq!(auction.listing_account.starting_price, 5);
}

#[test]
fn reprice_closed_listing_rejected() {
    let mut l = new_listing(5, 0, 0, false);
    assert_eq!(cancel(&mut l, seller()), Ok(seller()));
    let mut ctx = SetPrice { listing_account: l, user: seller() };
    assert_eq!(set_price(&mut ctx, 80), Err(Error::AuctionCanceled));
}

#[test]
fn fixed_price_sale_uses_current_price() {
    let state = config(1000);
    let mut ctx = SetPrice { listing_account: new_listing(5, 0, 0, false), user: seller() };
    assert_eq!(set_price(&mut ctx, 2000), Ok(()));
    let mut l = ctx.listing_account;
    let s = buy(&mut l, state, id(3)).unwrap();
    assert_eq!(s.to_owner.amount, 200);
    assert_eq!(s.to_seller.amount, 1800);
}

#[test]
fn error_messages() {
    assert_eq!(Error::InvalidBid.message(), "Cannot bid own auction");
    assert_eq!(Error::NotWinner.message(), "Not winner");
}
