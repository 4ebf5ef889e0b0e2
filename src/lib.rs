//! Escrow ledger for renting out fungible tokens: listings, rentals, fee and
//! collateral accounting, and the transfers each operation asks the token
//! ledger to perform.

pub mod fees;
pub mod types;
pub mod contract;
pub mod laws;
