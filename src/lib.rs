//! A flash-loan engine for a shared-ledger virtual machine, with the small
//! account and payload checks of its sibling programs.

pub mod bytes;
pub mod error;
pub mod ledger;
pub mod ids;
pub mod accounts;
pub mod loan;
pub mod repay;
pub mod laws;
pub mod escrow;
pub mod amm;
pub mod vault;
