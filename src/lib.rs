//! Token-transfer tax with pull-based, pro-rata distribution of the swap
//! proceeds to token holders.
//!
//! The library holds the accounting: fixed-point reward math, the policy and
//! accumulator records, per-holder lazy settlement and the sequencing of a
//! taxed swap. Moving lamports and tokens is left to the host program, which
//! hands the observed balances to the functions here.
pub mod codec;
pub mod error;
pub mod instructions;
pub mod keys;
pub mod ledger;
pub mod math;
pub mod orchestrator;
pub mod processor;
pub mod settlement;
pub mod state;
pub mod swap;
