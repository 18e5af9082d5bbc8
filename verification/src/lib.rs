//! Validation of single-transaction flash loans.
//!
//! A flash loan lends liquidity without collateral, on the condition that the
//! same transaction repays it. The borrow instruction proves, from the list of
//! the transaction's instructions, that exactly one matching repay follows it;
//! the repay instruction proves that it answers a matching borrow. Neither may
//! be reached through a nested invocation.

pub mod pubkey;
pub mod error;
pub mod wire;
pub mod instruction;
pub mod introspection;
pub mod reserve;
pub mod flash_loan;
pub mod matching;
