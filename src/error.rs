//! Failure reasons of every operation of the library.
use vstd::prelude::*;

verus! {

/// Why an operation was refused. Every refusal aborts the whole operation.
#[derive(Debug, Clone, Copy, PartialEq, Eq, Structural)]
pub enum TaxRewardError {
    InvalidInstruction,
    InsufficientFunds,
    Unauthorized,
    Overflow,
    SlippageExceeded,
    InvalidTaxRate,
    InvalidTokenAccount,
    InsufficientRewardVault,
    SwapFailed,
    ProgramPaused,
    InvalidMintSupply,
    DivideByZero,
    InvalidAccountData,
    AccountDataTooSmall,
}

impl TaxRewardError {
    /// Human-readable description of the error.
    pub fn message(&self) -> &'static str {
        match self {
            TaxRewardError::InvalidInstruction => "Invalid Instruction",
            TaxRewardError::InsufficientFunds => "Insufficient Funds",
            TaxRewardError::Unauthorized => "Unauthorized Action",
            TaxRewardError::Overflow => "Calculation Overflow",
            TaxRewardError::SlippageExceeded => "Slippage Exceeded",
            TaxRewardError::InvalidTaxRate => "Invalid Tax Rate - must be <= 10000 bps (100%)",
            TaxRewardError::InvalidTokenAccount => "Invalid Token Account - wrong mint or authority",
            TaxRewardError::InsufficientRewardVault => "Reward Vault Insufficient Balance",
            TaxRewardError::SwapFailed => "DEX Swap Failed",
            TaxRewardError::ProgramPaused => "Program is Paused",
            TaxRewardError::InvalidMintSupply => "Invalid Mint Supply",
            TaxRewardError::DivideByZero => "Division by Zero",
            TaxRewardError::InvalidAccountData => "Invalid Account Data",
            TaxRewardError::AccountDataTooSmall => "Account Data Too Small",
        }
    }
}

} // verus!
