//! Authority derivation and withdrawal validation for a custodial token pool.
//!
//! A pool's vault is controlled by a program-derived address. The library
//! models the accounts as plain values, derives addresses through the
//! runtime's derivation function, and decides which transfer a withdrawal may
//! perform. Two validation protocols are kept side by side: an unbound one,
//! whose signing seeds are shared by every pool of a mint, and a bound one,
//! whose seeds are the pool's own withdrawal destination.

pub mod address;
pub mod derivation;
pub mod error;
pub mod laws;
pub mod ledger;
pub mod pool;
pub mod withdraw;
