//! Cancellation: the refund of a scheduled transfer to its sender.

use vstd::prelude::*;
use crate::address::Address;
use crate::custody::{Custody, TokenAccount, Wallet};
use crate::derive::address_view;
use crate::error::TransferError;
use crate::events::TransferCancelled;
use crate::record::{RecordAccount, TransferState};

verus! {

/// The accounts that cancellation works on. The token accounts are needed only
/// where the record holds a token.
#[derive(Clone, Debug, PartialEq, Eq)]
pub struct CancelScheduledTransfer {
    pub transfer_account: RecordAccount,
    pub sender: Wallet,
    pub sender_token_account: Option<TokenAccount>,
    pub escrow_token_account: Option<TokenAccount>,
}

impl CancelScheduledTransfer {
    /// The custody that the mint selects, with the caller's accounts on the
    /// other side.
    pub open spec fn custody(self, mint: Address) -> Result<Custody, TransferError> {
        Custody::resolved(
            mint,
            self.transfer_account.spec_wallet(),
            self.sender,
            self.escrow_token_account,
            self.sender_token_account,
        )
    }

    /// The accounts with the two balances of `moved` written back.
    pub open spec fn with_custody(self, moved: Custody) -> CancelScheduledTransfer {
        match moved {
            Custody::NativeCustody { custody, counterparty } => CancelScheduledTransfer {
                transfer_account: RecordAccount {
                    lamports: custody.lamports,
                    ..self.transfer_account
                },
                sender: counterparty,
                ..self
            },
            Custody::TokenCustody { custody, counterparty, .. } => CancelScheduledTransfer {
                sender_token_account: counterparty,
                escrow_token_account: Some(custody),
                ..self
            },
        }
    }

    /// Where the record is in state `Scheduled`, the caller is its sender and
    /// the accounts fit the record and the sender, the two balances that a
    /// refund would touch sum to no more than a `u64` holds. Nothing is asked
    /// of accounts that are refused before a balance is read.
    pub open spec fn spec_balances_fit(&self) -> bool {
        match self.transfer_account.data {
            Some(record) => !record.spec_is_terminal() && record.sender@ == self.sender.key@
                ==> match self.custody(record.token_mint) {
                Ok(custody) => custody.integrity_error(self.transfer_account.key, record.sender)
                    is None ==> custody.spec_balances_fit(),
                Err(_) => true,
            },
            None => true,
        }
    }

    /// Whether the balances that a refund would touch fit, as
    /// `cancel_scheduled_transfer` requires.
    #[verifier::when_used_as_spec(spec_balances_fit)]
    pub fn balances_fit(&self) -> (fit: bool)
        ensures
            fit == self.spec_balances_fit(),
    {
        match &self.transfer_account.data {
            Some(record) => {
                if record.is_terminal() || record.sender != self.sender.key {
                    return true;
                }
                match Custody::resolve(
                    &record.token_mint,
                    self.transfer_account.wallet(),
                    self.sender,
                    self.escrow_token_account,
                    self.sender_token_account,
                ) {
                    Ok(custody) => match custody.check_integrity(
                        &self.transfer_account.key,
                        &record.sender,
                    ) {
                        Ok(()) => custody.balances_fit(),
                        Err(_) => true,
                    },
                    Err(_) => true,
                }
            },
            None => true,
        }
    }

    fn store_custody(&mut self, moved: Custody)
        ensures
            *final(self) == old(self).with_custody(moved),
    {
        match moved {
            Custody::NativeCustody { custody, counterparty } => {
                self.transfer_account.lamports = custody.lamports;
                self.sender = counterparty;
            },
            Custody::TokenCustody { custody, counterparty, .. } => {
                self.sender_token_account = counterparty;
                self.escrow_token_account = Some(custody);
            },
        }
    }
}

/// Why cancellation is refused, if it is. `derived_authority` is the address
/// that the seeds of the record derive. The checks run in this order, and the
/// first that fails decides: a record must exist; it must be neither executed
/// nor cancelled; the caller must be the sender; the clock must be readable;
/// the custody account must be present and fit the record; the sender's
/// account must be present and fit the sender; custody must hold the amount;
/// the seeds must derive the record's address. The release time plays no
/// part: a transfer can be cancelled at any moment before it is executed.
pub open spec fn cancel_error(
    ctx: CancelScheduledTransfer,
    derived_authority: Option<Seq<u8>>,
    clock: Option<i64>,
) -> Option<TransferError> {
    match ctx.transfer_account.data {
        None => Some(TransferError::InvalidEscrowAccount),
        Some(record) => {
            if record.executed {
                Some(TransferError::AlreadyExecuted)
            } else if record.cancelled {
                Some(TransferError::AlreadyCancelled)
            } else if record.sender@ != ctx.sender.key@ {
                Some(TransferError::UnauthorizedCancellation)
            } else if clock is None {
                Some(TransferError::ClockUnavailable)
            } else {
                match ctx.custody(record.token_mint) {
                    Err(e) => Some(e),
                    Ok(custody) => custody.release_error(
                        record.amount,
                        ctx.transfer_account.key,
                        record.sender,
                        derived_authority,
                    ),
                }
            }
        },
    }
}

/// The accounts as cancellation at `now` leaves them: the record cancelled,
/// the whole amount moved out of custody back to the sender.
pub open spec fn cancelled_accounts(
    ctx: CancelScheduledTransfer,
    now: i64,
) -> CancelScheduledTransfer {
    let record = ctx.transfer_account.data->0;
    CancelScheduledTransfer {
        transfer_account: RecordAccount {
            data: Some(record.cancelled_at_time(now)),
            ..ctx.transfer_account
        },
        ..ctx
    }.with_custody(ctx.custody(record.token_mint)->Ok_0.released(record.amount))
}

/// The event that cancellation at `now` emits.
pub open spec fn cancelled_event(ctx: CancelScheduledTransfer, now: i64) -> TransferCancelled {
    let record = ctx.transfer_account.data->0;
    TransferCancelled {
        transfer_id: ctx.transfer_account.key,
        sender: record.sender,
        amount: record.amount,
        cancelled_at: now,
    }
}

/// What cancellation returns: the event, or the reason of the refusal.
pub open spec fn cancel_outcome(
    ctx: CancelScheduledTransfer,
    derived_authority: Option<Seq<u8>>,
    clock: Option<i64>,
) -> Result<TransferCancelled, TransferError> {
    match cancel_error(ctx, derived_authority, clock) {
        Some(e) => Err(e),
        None => Ok(cancelled_event(ctx, clock->0)),
    }
}

/// The accounts after cancellation: changed as `cancelled_accounts` says where
/// it succeeds, untouched where it is refused.
pub open spec fn after_cancel(
    ctx: CancelScheduledTransfer,
    derived_authority: Option<Seq<u8>>,
    clock: Option<i64>,
) -> CancelScheduledTransfer {
    if cancel_error(ctx, derived_authority, clock) is Some {
        ctx
    } else {
        cancelled_accounts(ctx, clock->0)
    }
}

/// Cancels the transfer, given `derived_authority`, the address that the seeds
/// of the record derive. The rest is as in `cancel_scheduled_transfer`.
pub fn cancel_with_authority(
    ctx: &mut CancelScheduledTransfer,
    derived_authority: Option<Address>,
    clock: Option<i64>,
) -> (outcome: Result<TransferCancelled, TransferError>)
    requires
        old(ctx).spec_balances_fit(),
    ensures
        outcome == cancel_outcome(*old(ctx), address_view(derived_authority), clock),
        *final(ctx) == after_cancel(*old(ctx), address_view(derived_authority), clock),
        outcome is Ok ==> {
            &&& old(ctx).transfer_account.data matches Some(before)
            &&& final(ctx).transfer_account.data matches Some(after)
            &&& before.spec_state() == TransferState::Scheduled
            &&& after.spec_state() == TransferState::Cancelled
            &&& before.is_valid() ==> after.is_valid()
            &&& old(ctx).custody(before.token_mint) matches Ok(held)
            &&& final(ctx).custody(before.token_mint) matches Ok(left)
            &&& left.spec_custody_balance() == held.spec_custody_balance() - before.amount
            &&& left.spec_counterparty_balance() == held.spec_counterparty_balance()
                + before.amount
        },
{
    let record = match &ctx.transfer_account.data {
        Some(record) => record,
        None => {
            return Err(TransferError::InvalidEscrowAccount);
        },
    };
    if record.executed {
        return Err(TransferError::AlreadyExecuted);
    }
    if record.cancelled {
        return Err(TransferError::AlreadyCancelled);
    }
    if record.sender != ctx.sender.key {
        return Err(TransferError::UnauthorizedCancellation);
    }
    let now = match clock {
        Some(now) => now,
        None => {
            return Err(TransferError::ClockUnavailable);
        },
    };
    let amount = record.amount;
    let sender = record.sender;
    let event = TransferCancelled {
        transfer_id: ctx.transfer_account.key,
        sender,
        amount,
        cancelled_at: now,
    };
    let custody = match Custody::resolve(
        &record.token_mint,
        ctx.transfer_account.wallet(),
        ctx.sender,
        ctx.escrow_token_account,
        ctx.sender_token_account,
    ) {
        Ok(custody) => custody,
        Err(e) => {
            return Err(e);
        },
    };
    let moved = match custody.release(amount, &ctx.transfer_account.key, &sender, &derived_authority) {
        Ok(moved) => moved,
        Err(e) => {
            return Err(e);
        },
    };
    // Every check has passed. The record is marked first; custody moves last.
    match &mut ctx.transfer_account.data {
        Some(record) => record.mark_cancelled(now),
        None => {},
    }
    ctx.store_custody(moved);
    Ok(event)
}

/// Cancels the transfer: refunds the amount in custody to the sender, who is
/// the caller. `clock` is the current time, or `None` where it could not be
/// read.
///
/// The record releases its own custody: its seeds must derive its address. On
/// success the record is `Cancelled` and stamped with the time, the amount has
/// left custody and is back with the sender, and the event to emit is
/// returned. On refusal the accounts are as they were. The record is marked
/// before custody is touched, and the refund is the last step.
pub fn cancel_scheduled_transfer(ctx: &mut CancelScheduledTransfer, clock: Option<i64>) -> (outcome:
    Result<TransferCancelled, TransferError>)
    requires
        old(ctx).spec_balances_fit(),
    ensures
        outcome == cancel_outcome(*old(ctx), old(ctx).transfer_account.derived_authority(), clock),
        *final(ctx) == after_cancel(*old(ctx), old(ctx).transfer_account.derived_authority(), clock),
        outcome is Ok ==> {
            &&& old(ctx).transfer_account.data matches Some(before)
            &&& final(ctx).transfer_account.data matches Some(after)
            &&& before.spec_state() == TransferState::Scheduled
            &&& after.spec_state() == TransferState::Cancelled
            &&& before.is_valid() ==> after.is_valid()
            &&& old(ctx).custody(before.token_mint) matches Ok(held)
            &&& final(ctx).custody(before.token_mint) matches Ok(left)
            &&& left.spec_custody_balance() == held.spec_custody_balance() - before.amount
            &&& left.spec_counterparty_balance() == held.spec_counterparty_balance()
                + before.amount
        },
{
    let derived_authority = ctx.transfer_account.derive_authority();
    cancel_with_authority(ctx, derived_authority, clock)
}

} // verus!
