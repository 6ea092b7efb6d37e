//! Accounting core of a collateral vault: a registry of accepted tokens and
//! a ledger of per-user balances, with the rules that move value between them.

use vstd::prelude::*;

pub mod contract;
pub mod error;
pub mod laws;
pub mod math;
pub mod model;
pub mod msg;
pub mod response;
pub mod state;
pub mod table;
pub mod transfer;

verus! {

/// Units of vault credit minted per unit of deposited token.
pub const RATE: u128 = 10;

} // verus!
