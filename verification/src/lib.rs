//! Escrow-backed, time-delayed transfers.
//!
//! A sender deposits an asset into custody, names a recipient and a release
//! time. The recipient may take the asset once the time has come; the sender
//! may take it back at any moment before that. Every record lives at an address
//! derived from its sender and a nonce, so the same pair can never be scheduled
//! twice.
//!
//! The operations work on plain values: the accounts as the ledger presents
//! them, the arguments of the call, and the time. They return the event to
//! emit and leave the accounts as the ledger is to store them. Nothing here
//! reads a clock, loads an account or moves funds on a ledger.
//!
//! - `address`, `asset`: addresses and the two kinds of asset.
//! - `derive`: the addresses of a record and of its custody.
//! - `record`: the record, its states and its rules of creation.
//! - `custody`: deposit into and release from custody, for both kinds.
//! - `schedule`, `execute`, `cancel`, `query`: the four operations.
//! - `events`, `error`, `operation`: what the operations emit, report and are
//!   called by.
//! - `history`, `laws`: sequences of calls, and what holds of the operations
//!   taken together.

pub mod address;
pub mod asset;
pub mod cancel;
pub mod custody;
pub mod derive;
pub mod error;
pub mod events;
pub mod execute;
pub mod history;
pub mod laws;
pub mod operation;
pub mod query;
pub mod record;
pub mod schedule;

pub use crate::address::Address;
pub use crate::asset::AssetKind;
pub use crate::cancel::{
    cancel_scheduled_transfer, cancel_with_authority, CancelScheduledTransfer,
};
pub use crate::custody::{AuthorityProof, Custody, TokenAccount, Wallet};
pub use crate::error::TransferError;
pub use crate::events::{TransferCancelled, TransferExecuted, TransferScheduled};
pub use crate::execute::{
    execute_scheduled_transfer, execute_with_authority, ExecuteScheduledTransfer,
};
pub use crate::operation::Operation;
pub use crate::query::{get_transfer_info, GetTransferInfo};
pub use crate::record::{RecordAccount, ScheduledTransfer, TransferInfo, TransferState};
pub use crate::schedule::{schedule_transfer, schedule_with_derived, ScheduleTransfer};
