//! Fixed-point exchange-rate vault accounting ("crucibles") and a
//! leveraged-position ledger that values its collateral against the vault's
//! live exchange rate.
//!
//! Token movement, minting and burning are left to the caller: every
//! operation returns a receipt that says what has to be moved, and leaves all
//! state unchanged when it fails.

pub mod error;
pub mod fixed;
pub mod crucible;
pub mod laws;
pub mod lvf;
