//! Why an escrow operation was refused.
use vstd::prelude::*;

verus! {

/// The escrow rules' own failures. Each has a fixed numeric code, its
/// position in this list, which the host reports to the caller.
#[derive(Debug, Copy, Clone, PartialEq, Eq, Structural)]
pub enum EscrowError {
    InvalidInstruction,
    NotRentExempt,
    ExpectedAmountMismatch,
    AmountOverflow,
    Unauthorized,
    InvalidEscrowState,
    EscrowAlreadyInitialized,
    InvalidTokenAccount,
    InvalidPDA,
    ReleaseTimeNotReached,
    EscrowAlreadyCompleted,
    InvalidRecipient,
}

impl EscrowError {
    pub open spec fn spec_code(self) -> u32 {
        match self {
            EscrowError::InvalidInstruction => 0,
            EscrowError::NotRentExempt => 1,
            EscrowError::ExpectedAmountMismatch => 2,
            EscrowError::AmountOverflow => 3,
            EscrowError::Unauthorized => 4,
            EscrowError::InvalidEscrowState => 5,
            EscrowError::EscrowAlreadyInitialized => 6,
            EscrowError::InvalidTokenAccount => 7,
            EscrowError::InvalidPDA => 8,
            EscrowError::ReleaseTimeNotReached => 9,
            EscrowError::EscrowAlreadyCompleted => 10,
            EscrowError::InvalidRecipient => 11,
        }
    }

    /// The numeric code under which the host reports this error.
    pub fn code(&self) -> (r: u32)
        ensures
            r == self.spec_code(),
    {
        match self {
            EscrowError::InvalidInstruction => 0,
            EscrowError::NotRentExempt => 1,
            EscrowError::ExpectedAmountMismatch => 2,
            EscrowError::AmountOverflow => 3,
            EscrowError::Unauthorized => 4,
            EscrowError::InvalidEscrowState => 5,
            EscrowError::EscrowAlreadyInitialized => 6,
            EscrowError::InvalidTokenAccount => 7,
            EscrowError::InvalidPDA => 8,
            EscrowError::ReleaseTimeNotReached => 9,
            EscrowError::EscrowAlreadyCompleted => 10,
            EscrowError::InvalidRecipient => 11,
        }
    }
}

/// A refused operation: a broken escrow rule, or accounts that the host
/// handed over in a shape the operation cannot use.
#[derive(Debug, Copy, Clone, PartialEq, Eq, Structural)]
pub enum ProcessError {
    Escrow(EscrowError),
    /// Fewer accounts than the operation reads.
    NotEnoughAccountKeys,
    /// The escrow account's data is not a stored record.
    InvalidAccountData,
    /// The escrow account's data is too short to hold a record.
    AccountDataTooSmall,
    /// The account named as token program is not the SPL Token program.
    IncorrectProgramId,
}

} // verus!
