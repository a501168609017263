//! A share-accounting vault: users deposit a stable asset, receive shares that
//! represent a proportional claim on the vault's total assets, and redeem them.
pub mod shares;
pub mod ledger;
pub mod error;
pub mod events;
pub mod vault;
pub mod deposit;
pub mod withdraw;
pub mod admin;
pub mod reads;
pub mod laws;
pub mod guarantees;
