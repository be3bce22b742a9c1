//! Settlement engine for a marketplace of unique assets: fixed-price sales,
//! timed auctions, cancellation, and the fee split paid at settlement.
pub mod accounts;
pub mod error;
pub mod fee;
pub mod laws;
pub mod marketplace;
