//! Verified core of a constant-product liquidity pool: share accounting,
//! reserve updates, swap pricing, pool seeds and decimal scaling.

pub mod calc;
pub mod errors;
pub mod pubkey;
pub mod state;
pub mod laws;
