use vstd::prelude::*;

verus! {

/// A 32-byte public key, held as four little-endian 64-bit words.
#[derive(Debug, Clone, Copy, PartialEq, Eq, Structural)]
pub struct Identity {
    pub w0: u64,
    pub w1: u64,
    pub w2: u64,
    pub w3: u64,
}

/// One asset offered for sale, at a fixed price or by auction.
#[derive(Debug, Clone, Copy, PartialEq, Eq, Structural)]
pub struct Listing {
    pub seller: Identity,
    /// The fixed price, or the starting price of an auction.
    pub starting_price: u64,
    /// The fungible unit named for payment (informational: settlement is in
    /// the native currency).
    pub token_mint: Identity,
    pub end_at: i64,
    pub started_at: i64,
    pub highest_bidder: Option<Identity>,
    pub highest_price: u64,
    /// Set once the listing is cancelled or sold; never cleared.
    pub cancel: bool,
    pub is_auction: bool,
}

impl Listing {
    /// The record's invariant: a positive price, and a highest bidder exactly
    /// when some bid was accepted.
    pub open spec fn wf(&self) -> bool {
        &&& self.starting_price >= 1
        &&& (self.highest_bidder is None <==> self.highest_price == 0)
    }
}

/// The single global configuration: the platform owner and the owner's cut.
#[derive(Debug, Clone, Copy, PartialEq, Eq, Structural)]
pub struct State {
    pub owner: Identity,
    pub initialized: bool,
    /// The owner's share of each settlement, in basis points.
    pub owner_cut: u16,
}

impl State {
    /// A configuration as it stands after creation.
    pub open spec fn wf(&self) -> bool {
        self.initialized && self.owner_cut < 10000
    }
}

/// What creating the global configuration reads and writes.
#[derive(Debug, Clone, Copy, PartialEq, Eq, Structural)]
pub struct InitState {
    pub state_account: State,
    /// The platform owner, who signs the creation.
    pub user: Identity,
}

/// What creating a listing reads and writes.
#[derive(Debug, Clone, Copy, PartialEq, Eq, Structural)]
pub struct CreateListing {
    pub listing_account: Listing,
    /// The seller, who signs.
    pub user: Identity,
}

/// What a bid reads and writes.
#[derive(Debug, Clone, Copy, PartialEq, Eq, Structural)]
pub struct Bid {
    pub listing_account: Listing,
    /// The bidder, who signs.
    pub user: Identity,
}

/// What a cancellation reads and writes.
#[derive(Debug, Clone, Copy, PartialEq, Eq, Structural)]
pub struct CancelListing {
    pub listing_account: Listing,
    /// The caller, who must be the seller.
    pub user: Identity,
}

/// What a reprice reads and writes.
#[derive(Debug, Clone, Copy, PartialEq, Eq, Structural)]
pub struct SetPrice {
    pub listing_account: Listing,
    /// The caller, who must be the seller.
    pub user: Identity,
}

/// What the settlement of a won auction reads and writes.
#[derive(Debug, Clone, Copy, PartialEq, Eq, Structural)]
pub struct Purchase {
    /// The caller, who must be the highest bidder and pays.
    pub user: Identity,
    pub listing_account: Listing,
    pub state_account: State,
}

/// What a fixed-price purchase reads and writes.
#[derive(Debug, Clone, Copy, PartialEq, Eq, Structural)]
pub struct Buy {
    /// The buyer, who pays.
    pub user: Identity,
    pub listing_account: Listing,
    pub state_account: State,
}

/// A native-currency transfer authorized by `payer`.
#[derive(Debug, Clone, Copy, PartialEq, Eq, Structural)]
pub struct Payment {
    pub payer: Identity,
    pub payee: Identity,
    pub amount: u64,
}

/// The transfers that complete a sale: the asset leaves escrow for
/// `recipient` (whose custody account is created if absent), and the two
/// payments are made. They apply together or not at all.
#[derive(Debug, Clone, Copy, PartialEq, Eq, Structural)]
pub struct Settlement {
    pub recipient: Identity,
    pub to_seller: Payment,
    pub to_owner: Payment,
}

} // verus!
