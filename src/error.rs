use vstd::prelude::*;

verus! {

/// Every way an operation on the marketplace can be refused.
#[derive(Debug, Clone, Copy, PartialEq, Eq, Structural)]
pub enum Error {
    /// A price below one unit, or a bid that does not beat the highest one.
    InvalidPrice,
    InvalidQuantity,
    CashbackMax,
    InvalidPayment,
    InvalidStateAccount,
    /// The global configuration already exists.
    StateAlreadyInitialized,
    ItemsUnavailableForGacha,
    /// A bid outside the auction's time window.
    ListingNotOn,
    /// Settlement attempted before the auction ended.
    AuctionOn,
    /// The listing is closed: cancelled or already sold.
    AuctionCanceled,
    /// The caller is not the party allowed to act.
    NotAuthorized,
    /// The caller is not the highest bidder.
    NotWinner,
    /// An auction-only operation on a fixed-price listing.
    NotAuction,
    /// A fixed-price-only operation on an auction.
    NotOnSell,
    /// An owner cut of 10000 basis points or more.
    InvalidOwnerCut,
    /// The seller bidding on their own auction.
    InvalidBid,
    /// Settlement of an auction that received no bid.
    NoWinner,
}

impl Error {
    /// The text that describes each error.
    pub open spec fn message_text(self) -> &'static str {
        match self {
            Error::InvalidPrice => "Price must be at least 1 lamports",
            Error::InvalidQuantity => "Invalid quantity",
            Error::CashbackMax => "Cash back should lower than 1",
            Error::InvalidPayment => "Please submit the asking price in order to complete the purchase",
            Error::InvalidStateAccount => "Invalid account",
            Error::StateAlreadyInitialized => "State already has been initialized",
            Error::ItemsUnavailableForGacha => "Item list is not available for gacha",
            Error::ListingNotOn => "Listing not on",
            Error::AuctionOn => "Auction on",
            Error::AuctionCanceled => "Auction canceled",
            Error::NotAuthorized => "Not authorized",
            Error::NotWinner => "Not winner",
            Error::NotAuction => "Not auction",
            Error::NotOnSell => "Not On Sell",
            Error::InvalidOwnerCut => "Owner cut from 0 to 10000",
            Error::InvalidBid => "Cannot bid own auction",
            Error::NoWinner => "Auction has no winner",
        }
    }

    /// A human-readable description of the error.
    pub fn message(&self) -> (r: &'static str)
        ensures
            r == self.message_text(),
    {
        match self {
            Error::InvalidPrice => "Price must be at least 1 lamports",
            Error::InvalidQuantity => "Invalid quantity",
            Error::CashbackMax => "Cash back should lower than 1",
            Error::InvalidPayment => "Please submit the asking price in order to complete the purchase",
            Error::InvalidStateAccount => "Invalid account",
            Error::StateAlreadyInitialized => "State already has been initialized",
            Error::ItemsUnavailableForGacha => "Item list is not available for gacha",
            Error::ListingNotOn => "Listing not on",
            Error::AuctionOn => "Auction on",
            Error::AuctionCanceled => "Auction canceled",
            Error::NotAuthorized => "Not authorized",
            Error::NotWinner => "Not winner",
            Error::NotAuction => "Not auction",
            Error::NotOnSell => "Not On Sell",
            Error::InvalidOwnerCut => "Owner cut from 0 to 10000",
            Error::InvalidBid => "Cannot bid own auction",
            Error::NoWinner => "Auction has no winner",
        }
    }
}

} // verus!
