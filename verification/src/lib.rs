//! A recurring subscription and billing ledger: subscribers authorise a fixed
//! rate and period, merchants (or keepers) pull each payment once its period
//! has elapsed, and subscribers may pause, resume or cancel at any time.
//!
//! The crate holds the ledger's state and every decision on it. The host
//! that runs it supplies the current ledger time and the payer's token
//! balance and allowance, enforces the authorisations the operations ask
//! for, and carries out the token transfers they decide on.

pub mod error;
pub mod types;
pub mod helper;
pub mod table;
pub mod storage;
pub mod contract;
pub mod laws;
pub mod runs;
