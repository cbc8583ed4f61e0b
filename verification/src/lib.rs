//! Settlement ledger for a stablecoin deposit vault.
//!
//! The library accepts base-currency deposits, mints an interest-bearing
//! receipt token one-for-one plus compounded interest, and reverses the
//! process on redemption, while maintaining a per-depositor ledger and a
//! global indexed history of total value locked.

pub mod contract;
pub mod deposit;
pub mod error;
pub mod helpers;
pub mod state;

pub use error::ContractError;
