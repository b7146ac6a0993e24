//! The errors that the pool's operations report.

use vstd::prelude::*;

verus! {

/// Why an operation on the pool was refused.
#[derive(Clone, Copy, Debug, PartialEq, Eq, Structural)]
pub enum DexProgramError {
    InsufficientFunds,
    FailedToAllocateShares,
    FailedToDeallocateShares,
    InsufficientShares,
    InvalidAmount,
    InvalidFee,
    DuplicateTokenNotAllowed,
    FailedToAddLiquidity,
    FailedToRemoveLiquidity,
    OverflowOrUnderflowOccurred,
}

/// The message that goes with each error.
pub open spec fn error_message(error: DexProgramError) -> Seq<char> {
    match error {
        DexProgramError::InsufficientFunds => "Insufficient funds to swap"@,
        DexProgramError::FailedToAllocateShares => "Failed to allocate shares"@,
        DexProgramError::FailedToDeallocateShares => "Failed to deallocate shares"@,
        DexProgramError::InsufficientShares => "Insufficient shares"@,
        DexProgramError::InvalidAmount => "Invalid amount to swap"@,
        DexProgramError::InvalidFee => "Invalid fee"@,
        DexProgramError::DuplicateTokenNotAllowed => "Duplicate tokens are not allowed"@,
        DexProgramError::FailedToAddLiquidity => "Failed to add liquidity"@,
        DexProgramError::FailedToRemoveLiquidity => "Failed to remove liquidity"@,
        DexProgramError::OverflowOrUnderflowOccurred => "Overflow or underflow occured"@,
    }
}

impl DexProgramError {
    /// The human-readable message of this error.
    pub fn message(&self) -> (message: &'static str)
        ensures
            message@ == error_message(*self),
    {
        match self {
            DexProgramError::InsufficientFunds => "Insufficient funds to swap",
            DexProgramError::FailedToAllocateShares => "Failed to allocate shares",
            DexProgramError::FailedToDeallocateShares => "Failed to deallocate shares",
            DexProgramError::InsufficientShares => "Insufficient shares",
            DexProgramError::InvalidAmount => "Invalid amount to swap",
            DexProgramError::InvalidFee => "Invalid fee",
            DexProgramError::DuplicateTokenNotAllowed => "Duplicate tokens are not allowed",
            DexProgramError::FailedToAddLiquidity => "Failed to add liquidity",
            DexProgramError::FailedToRemoveLiquidity => "Failed to remove liquidity",
            DexProgramError::OverflowOrUnderflowOccurred => "Overflow or underflow occured",
        }
    }
}

} // verus!
