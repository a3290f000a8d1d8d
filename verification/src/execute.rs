//! Execution: the release of a scheduled transfer to its recipient.

use vstd::prelude::*;
use crate::address::Address;
use crate::custody::{Custody, TokenAccount, Wallet};
use crate::derive::address_view;
use crate::error::TransferError;
use crate::events::TransferExecuted;
use crate::record::{RecordAccount, TransferState};

verus! {

/// The accounts that execution works on. The token accounts are needed only
/// where the record holds a token.
#[derive(Clone, Debug, PartialEq, Eq)]
pub struct ExecuteScheduledTransfer {
    pub transfer_account: RecordAccount,
    pub recipient: Wallet,
    pub escrow_token_account: Option<TokenAccount>,
    pub recipient_token_account: Option<TokenAccount>,
}

impl ExecuteScheduledTransfer {
    /// The custody that the mint selects, with the caller's accounts on the
    /// other side.
    pub open spec fn custody(self, mint: Address) -> Result<Custody, TransferError> {
        Custody::resolved(
            mint,
            self.transfer_account.spec_wallet(),
            self.recipient,
            self.escrow_token_account,
            self.recipient_token_account,
        )
    }

    /// The accounts with the two balances of `moved` written back.
    pub open spec fn with_custody(self, moved: Custody) -> ExecuteScheduledTransfer {
        match moved {
            Custody::NativeCustody { custody, counterparty } => ExecuteScheduledTransfer {
                transfer_account: RecordAccount {
                    lamports: custody.lamports,
                    ..self.transfer_account
                },
                recipient: counterparty,
                ..self
            },
            Custody::TokenCustody { custody, counterparty, .. } => ExecuteScheduledTransfer {
                escrow_token_account: Some(custody),
                recipient_token_account: counterparty,
                ..self
            },
        }
    }

    /// Where the record is in state `Scheduled`, the caller is its recipient
    /// and the accounts fit the record and the recipient, the two balances
    /// that a release would touch sum to no more than a `u64` holds. Nothing
    /// is asked of accounts that are refused before a balance is read.
    pub open spec fn spec_balances_fit(&self) -> bool {
        match self.transfer_account.data {
            Some(record) => !record.spec_is_terminal() && record.recipient@ == self.recipient.key@
                ==> match self.custody(record.token_mint) {
                Ok(custody) => custody.integrity_error(
                    self.transfer_account.key,
                    record.recipient,
                ) is None ==> custody.spec_balances_fit(),
                Err(_) => true,
            },
            None => true,
        }
    }

    /// Whether the balances that a release would touch fit, as
    /// `execute_scheduled_transfer` requires.
    #[verifier::when_used_as_spec(spec_balances_fit)]
    pub fn balances_fit(&self) -> (fit: bool)
        ensures
            fit == self.spec_balances_fit(),
    {
        match &self.transfer_account.data {
            Some(record) => {
                if record.is_terminal() || record.recipient != self.recipient.key {
                    return true;
                }
                match Custody::resolve(
                    &record.token_mint,
                    self.transfer_account.wallet(),
                    self.recipient,
                    self.escrow_token_account,
                    self.recipient_token_account,
                ) {
                    Ok(custody) => match custody.check_integrity(
                        &self.transfer_account.key,
                        &record.recipient,
                    ) {
                        Ok(()) => custody.balances_fit(),
                        Err(_) => true,
                    },
                    Err(_) => true,
                }
            },
            None => true,
        }
    }

    fn store_custody(&mut self, moved: Custody)
        ensures
            *final(self) == old(self).with_custody(moved),
    {
        match moved {
            Custody::NativeCustody { custody, counterparty } => {
                self.transfer_account.lamports = custody.lamports;
                self.recipient = counterparty;
            },
            Custody::TokenCustody { custody, counterparty, .. } => {
                self.escrow_token_account = Some(custody);
                self.recipient_token_account = counterparty;
            },
        }
    }
}

/// Why execution is refused, if it is. `derived_authority` is the address
/// that the seeds of the record derive. The checks run in this order, and the
/// first that fails decides: a record must exist; the clock must be readable;
/// the record must be neither executed nor cancelled; the release time must
/// have come, the moment itself included; the caller must be the recipient;
/// the custody account must be present and fit the record; the recipient's
/// account must be present and fit the recipient; custody must hold the
/// amount; the seeds must derive the record's address.
pub open spec fn execute_error(
    ctx: ExecuteScheduledTransfer,
    derived_authority: Option<Seq<u8>>,
    clock: Option<i64>,
) -> Option<TransferError> {
    match ctx.transfer_account.data {
        None => Some(TransferError::InvalidEscrowAccount),
        Some(record) => {
            if clock is None {
                Some(TransferError::ClockUnavailable)
            } else if record.executed {
                Some(TransferError::AlreadyExecuted)
            } else if record.cancelled {
                Some(TransferError::TransferCancelled)
            } else if clock->0 < record.execute_after {
                Some(TransferError::ExecutionTimeNotReached)
            } else if record.recipient@ != ctx.recipient.key@ {
                Some(TransferError::InvalidRecipient)
            } else {
                match ctx.custody(record.token_mint) {
                    Err(e) => Some(e),
                    Ok(custody) => custody.release_error(
                        record.amount,
                        ctx.transfer_account.key,
                        record.recipient,
                        derived_authority,
                    ),
                }
            }
        },
    }
}

/// The accounts as execution at `now` leaves them: the record executed, the
/// amount moved out of custody to the recipient.
pub open spec fn executed_accounts(
    ctx: ExecuteScheduledTransfer,
    now: i64,
) -> ExecuteScheduledTransfer {
    let record = ctx.transfer_account.data->0;
    ExecuteScheduledTransfer {
        transfer_account: RecordAccount {
            data: Some(record.executed_at_time(now)),
            ..ctx.transfer_account
        },
        ..ctx
    }.with_custody(ctx.custody(record.token_mint)->Ok_0.released(record.amount))
}

/// The event that execution at `now` emits.
pub open spec fn executed_event(ctx: ExecuteScheduledTransfer, now: i64) -> TransferExecuted {
    let record = ctx.transfer_account.data->0;
    TransferExecuted {
        transfer_id: ctx.transfer_account.key,
        sender: record.sender,
        recipient: record.recipient,
        amount: record.amount,
        token_mint: record.token_mint,
        executed_at: now,
    }
}

/// What execution returns: the event, or the reason of the refusal.
pub open spec fn execute_outcome(
    ctx: ExecuteScheduledTransfer,
    derived_authority: Option<Seq<u8>>,
    clock: Option<i64>,
) -> Result<TransferExecuted, TransferError> {
    match execute_error(ctx, derived_authority, clock) {
        Some(e) => Err(e),
        None => Ok(executed_event(ctx, clock->0)),
    }
}

/// The accounts after execution: changed as `executed_accounts` says where it
/// succeeds, untouched where it is refused.
pub open spec fn after_execute(
    ctx: ExecuteScheduledTransfer,
    derived_authority: Option<Seq<u8>>,
    clock: Option<i64>,
) -> ExecuteScheduledTransfer {
    if execute_error(ctx, derived_authority, clock) is Some {
        ctx
    } else {
        executed_accounts(ctx, clock->0)
    }
}

/// Executes the transfer, given `derived_authority`, the address that the
/// seeds of the record derive. The rest is as in `execute_scheduled_transfer`.
pub fn execute_with_authority(
    ctx: &mut ExecuteScheduledTransfer,
    derived_authority: Option<Address>,
    clock: Option<i64>,
) -> (outcome: Result<TransferExecuted, TransferError>)
    requires
        old(ctx).spec_balances_fit(),
    ensures
        outcome == execute_outcome(*old(ctx), address_view(derived_authority), clock),
        *final(ctx) == after_execute(*old(ctx), address_view(derived_authority), clock),
        outcome is Ok ==> {
            &&& old(ctx).transfer_account.data matches Some(before)
            &&& final(ctx).transfer_account.data matches Some(after)
            &&& before.spec_state() == TransferState::Scheduled
            &&& after.spec_state() == TransferState::Executed
            &&& before.is_valid() ==> after.is_valid()
            &&& old(ctx).custody(before.token_mint) matches Ok(held)
            &&& final(ctx).custody(before.token_mint) matches Ok(left)
            &&& left.spec_custody_balance() == held.spec_custody_balance() - before.amount
            &&& left.spec_counterparty_balance() == held.spec_counterparty_balance()
                + before.amount
        },
{
    let record = match &ctx.transfer_account.data {
        Some(record) => record,
        None => {
            return Err(TransferError::InvalidEscrowAccount);
        },
    };
    let now = match clock {
        Some(now) => now,
        None => {
            return Err(TransferError::ClockUnavailable);
        },
    };
    if record.executed {
        return Err(TransferError::AlreadyExecuted);
    }
    if record.cancelled {
        return Err(TransferError::TransferCancelled);
    }
    if now < record.execute_after {
        return Err(TransferError::ExecutionTimeNotReached);
    }
    if record.recipient != ctx.recipient.key {
        return Err(TransferError::InvalidRecipient);
    }
    let amount = record.amount;
    let recipient = record.recipient;
    let event = TransferExecuted {
        transfer_id: ctx.transfer_account.key,
        sender: record.sender,
        recipient,
        amount,
        token_mint: record.token_mint,
        executed_at: now,
    };
    let custody = match Custody::resolve(
        &record.token_mint,
        ctx.transfer_account.wallet(),
        ctx.recipient,
        ctx.escrow_token_account,
        ctx.recipient_token_account,
    ) {
        Ok(custody) => custody,
        Err(e) => {
            return Err(e);
        },
    };
    let moved = match custody.release(
        amount,
        &ctx.transfer_account.key,
        &recipient,
        &derived_authority,
    ) {
        Ok(moved) => moved,
        Err(e) => {
            return Err(e);
        },
    };
    // Every check has passed. The record is marked first; custody moves last.
    match &mut ctx.transfer_account.data {
        Some(record) => record.mark_executed(now),
        None => {},
    }
    ctx.store_custody(moved);
    Ok(event)
}

/// Executes the transfer: releases the amount in custody to the recipient,
/// who is the caller. `clock` is the current time, or `None` where it could
/// not be read.
///
/// The record releases its own custody: its seeds must derive its address. On
/// success the record is `Executed` and stamped with the time, the amount has
/// left custody and reached the recipient, and the event to emit is returned.
/// On refusal the accounts are as they were. The record is marked before
/// custody is touched, and the release is the last step.
pub fn execute_scheduled_transfer(ctx: &mut ExecuteScheduledTransfer, clock: Option<i64>) -> (outcome:
    Result<TransferExecuted, TransferError>)
    requires
        old(ctx).spec_balances_fit(),
    ensures
        outcome == execute_outcome(*old(ctx), old(ctx).transfer_account.derived_authority(), clock),
        *final(ctx) == after_execute(*old(ctx), old(ctx).transfer_account.derived_authority(), clock),
        outcome is Ok ==> {
            &&& old(ctx).transfer_account.data matches Some(before)
            &&& final(ctx).transfer_account.data matches Some(after)
            &&& before.spec_state() == TransferState::Scheduled
            &&& after.spec_state() == TransferState::Executed
            &&& before.is_valid() ==> after.is_valid()
            &&& old(ctx).custody(before.token_mint) matches Ok(held)
            &&& final(ctx).custody(before.token_mint) matches Ok(left)
            &&& left.spec_custody_balance() == held.spec_custody_balance() - before.amount
            &&& left.spec_counterparty_balance() == held.spec_counterparty_balance()
                + before.amount
        },
{
    let derived_authority = ctx.transfer_account.derive_authority();
    execute_with_authority(ctx, derived_authority, clock)
}

} // verus!
