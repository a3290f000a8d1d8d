//! The failures that an operation can report.

use vstd::prelude::*;

verus! {

/// Why an operation was refused. Every refusal leaves the accounts as they
/// were.
#[derive(Clone, Copy, Debug, PartialEq, Eq, Structural)]
pub enum TransferError {
    InvalidAmount,
    InvalidExecutionTime,
    ExecutionTimeTooFar,
    ExecutionTimeNotReached,
    AlreadyExecuted,
    AlreadyCancelled,
    TransferCancelled,
    UnauthorizedCancellation,
    InvalidRecipient,
    InvalidTokenAccount,
    InvalidTokenMint,
    InvalidEscrowAccount,
    MemoTooLong,
    InsufficientFunds,
    ClockUnavailable,
    DuplicateSchedule,
}

impl TransferError {
    /// The text that describes the error.
    pub open spec fn message_text(&self) -> Seq<char> {
        match self {
            TransferError::InvalidAmount => "Invalid transfer amount"@,
            TransferError::InvalidExecutionTime => "Execution time must be in the future"@,
            TransferError::ExecutionTimeTooFar => "Execution time is too far in the future"@,
            TransferError::ExecutionTimeNotReached => "Execution time has not been reached"@,
            TransferError::AlreadyExecuted => "Transfer has already been executed"@,
            TransferError::AlreadyCancelled => "Transfer has already been cancelled"@,
            TransferError::TransferCancelled => "Transfer has been cancelled"@,
            TransferError::UnauthorizedCancellation => "Unauthorized cancellation attempt"@,
            TransferError::InvalidRecipient => "Invalid recipient"@,
            TransferError::InvalidTokenAccount => "Invalid token account"@,
            TransferError::InvalidTokenMint => "Invalid token mint"@,
            TransferError::InvalidEscrowAccount => "Invalid escrow account"@,
            TransferError::MemoTooLong => "Memo is too long"@,
            TransferError::InsufficientFunds => "Insufficient funds"@,
            TransferError::ClockUnavailable => "Clock unavailable"@,
            TransferError::DuplicateSchedule => "Transfer has already been scheduled"@,
        }
    }

    /// The text that describes the error.
    pub fn message(&self) -> (text: &'static str)
        ensures
            text@ == self.message_text(),
    {
        match self {
            TransferError::InvalidAmount => "Invalid transfer amount",
            TransferError::InvalidExecutionTime => "Execution time must be in the future",
            TransferError::ExecutionTimeTooFar => "Execution time is too far in the future",
            TransferError::ExecutionTimeNotReached => "Execution time has not been reached",
            TransferError::AlreadyExecuted => "Transfer has already been executed",
            TransferError::AlreadyCancelled => "Transfer has already been cancelled",
            TransferError::TransferCancelled => "Transfer has been cancelled",
            TransferError::UnauthorizedCancellation => "Unauthorized cancellation attempt",
            TransferError::InvalidRecipient => "Invalid recipient",
            TransferError::InvalidTokenAccount => "Invalid token account",
            TransferError::InvalidTokenMint => "Invalid token mint",
            TransferError::InvalidEscrowAccount => "Invalid escrow account",
            TransferError::MemoTooLong => "Memo is too long",
            TransferError::InsufficientFunds => "Insufficient funds",
            TransferError::ClockUnavailable => "Clock unavailable",
            TransferError::DuplicateSchedule => "Transfer has already been scheduled",
        }
    }
}

} // verus!
