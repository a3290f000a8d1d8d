//! The audit events that the operations emit.

use vstd::prelude::*;
use crate::address::Address;

verus! {

/// A transfer was scheduled and its amount entered custody.
#[derive(Clone, Copy, Debug, PartialEq, Eq)]
pub struct TransferScheduled {
    pub transfer_id: Address,
    pub sender: Address,
    pub recipient: Address,
    pub amount: u64,
    pub token_mint: Address,
    pub execute_after: i64,
    pub nonce: [u8; 32],
}

/// A transfer was executed and its amount left custody for the recipient.
#[derive(Clone, Copy, Debug, PartialEq, Eq)]
pub struct TransferExecuted {
    pub transfer_id: Address,
    pub sender: Address,
    pub recipient: Address,
    pub amount: u64,
    pub token_mint: Address,
    pub executed_at: i64,
}

/// A transfer was cancelled and its amount went back to the sender.
#[derive(Clone, Copy, Debug, PartialEq, Eq)]
pub struct TransferCancelled {
    pub transfer_id: Address,
    pub sender: Address,
    pub amount: u64,
    pub cancelled_at: i64,
}

} // verus!
