//! Verified dispatch logic of a fungible token pallet and of a DAO pallet
//! that reads token balances.
//!
//! Storage lives behind the traits in [`token::TokenStore`]; the dispatchable
//! functions are verified against the abstract storage they describe, for any
//! account type.

pub mod dispatch;
pub mod token;
pub mod memory;
pub mod dao;
pub mod laws;
