//! A verified escrow exchange for unique assets.
//!
//! A seller lists one unique asset (identified by a token id and the address
//! of its collection contract) for sale against a fungible payment asset,
//! under one of three pricing modes: fixed price, ascending (English)
//! auction, or descending (Dutch) auction. The library holds the listing
//! store, the time-indexed pricing rules, the bid processor and the
//! settlement engine; every operation either completes in full or leaves the
//! store untouched and reports a typed error.

pub mod auction;
pub mod contract;
pub mod error;
pub mod helper;
pub mod laws;
pub mod msg;
pub mod pricing;
pub mod signed;
pub mod state;
