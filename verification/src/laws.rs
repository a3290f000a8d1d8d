//! What holds of the operations taken together: the guarantees that a user of
//! the escrow relies on, each proved from the definitions of the operations.
//!
//! The laws of execution and cancellation hold whatever address the seeds of
//! a record derive, and those of scheduling whatever address is derived for
//! custody: they quantify over these values.

use vstd::prelude::*;
use crate::address::Address;
use crate::asset::AssetKind;
use crate::cancel::{after_cancel, cancel_error, CancelScheduledTransfer};
use crate::custody::TokenAccount;
use crate::error::TransferError;
use crate::execute::{after_execute, execute_error, ExecuteScheduledTransfer};
use crate::history::{apply, replay, schedule_on, Attempt};
use crate::record::{creation_error, RecordAccount, ScheduledTransfer, TransferState};
use crate::schedule::{
    after_schedule, custody_of, derived_key, record_of, schedule_error, ScheduleTransfer,
};

verus! {

/// The fields of a record that are written at creation and never again.
pub open spec fn same_terms(a: ScheduledTransfer, b: ScheduledTransfer) -> bool {
    &&& a.sender == b.sender
    &&& a.recipient == b.recipient
    &&& a.amount == b.amount
    &&& a.token_mint == b.token_mint
    &&& a.execute_after == b.execute_after
    &&& a.created_at == b.created_at
    &&& a.nonce == b.nonce
    &&& a.memo == b.memo
    &&& a.bump == b.bump
}

/// Replay protection. Once a pair of sender and nonce has been scheduled, every
/// later attempt to schedule the same pair is refused, whatever its amount,
/// release time, memo, mint or clock: with `DuplicateSchedule` where it
/// presents the record account of the pair, which still holds its record, and
/// with `InvalidEscrowAccount` where it presents any other account.
pub proof fn law_replay_protection(
    first: ScheduleTransfer,
    first_amount: u64,
    first_execute_after: i64,
    first_memo: Seq<char>,
    first_clock: Option<i64>,
    nonce: [u8; 32],
    second: ScheduleTransfer,
    second_amount: u64,
    second_execute_after: i64,
    second_memo: Seq<char>,
    second_clock: Option<i64>,
)
    requires
        schedule_error(
            first,
            record_of(first, nonce),
            custody_of(first),
            first_amount,
            first_execute_after,
            first_memo,
            first_clock,
        ) is None,
        second.sender.key@ == first.sender.key@,
        second.transfer_account.key@ == first.transfer_account.key@
            ==> second.transfer_account.data is Some,
    ensures
        schedule_error(
            second,
            record_of(second, nonce),
            custody_of(second),
            second_amount,
            second_execute_after,
            second_memo,
            second_clock,
        ) == Some(
            if second.transfer_account.key@ == first.transfer_account.key@ {
                TransferError::DuplicateSchedule
            } else {
                TransferError::InvalidEscrowAccount
            },
        ),
{
}

/// An address is initialized at most once. Scheduling on a record account that
/// holds a record is refused whatever else is asked and leaves the accounts as
/// they are; scheduling that succeeds leaves a valid record in state
/// `Scheduled` at the address it was given.
pub proof fn law_initialized_once(
    ctx: ScheduleTransfer,
    derived_record: Option<(Seq<u8>, u8)>,
    derived_custody: Option<Seq<u8>>,
    amount: u64,
    execute_after: i64,
    nonce: [u8; 32],
    memo: String,
    clock: Option<i64>,
)
    ensures
        ({
            let error = schedule_error(
                ctx,
                derived_record,
                derived_custody,
                amount,
                execute_after,
                memo@,
                clock,
            );
            let next = after_schedule(
                ctx,
                derived_record,
                derived_custody,
                amount,
                execute_after,
                nonce,
                memo,
                clock,
            );
            &&& ctx.transfer_account.data is Some ==> error is Some && next == ctx
            &&& error is None ==> {
                &&& next.transfer_account.key == ctx.transfer_account.key
                &&& next.transfer_account.data is Some
                &&& next.transfer_account.data->0.spec_state() == TransferState::Scheduled
                &&& next.transfer_account.data->0.is_valid()
            }
        }),
{
}

/// A record is never removed and its terms never change: whatever execution
/// and cancellation do, the account keeps its address and its record, and the
/// record keeps every field that was written at creation.
pub proof fn law_record_persists(
    execute: ExecuteScheduledTransfer,
    cancel: CancelScheduledTransfer,
    authority: Option<Seq<u8>>,
    clock: Option<i64>,
)
    ensures
        after_execute(execute, authority, clock).transfer_account.key
            == execute.transfer_account.key,
        after_cancel(cancel, authority, clock).transfer_account.key == cancel.transfer_account.key,
        execute.transfer_account.data is Some ==> {
            &&& after_execute(execute, authority, clock).transfer_account.data is Some
            &&& same_terms(
                execute.transfer_account.data->0,
                after_execute(execute, authority, clock).transfer_account.data->0,
            )
        },
        cancel.transfer_account.data is Some ==> {
            &&& after_cancel(cancel, authority, clock).transfer_account.data is Some
            &&& same_terms(
                cancel.transfer_account.data->0,
                after_cancel(cancel, authority, clock).transfer_account.data->0,
            )
        },
{
}

/// Terminal exclusivity. On a record that is executed or cancelled, execution
/// and cancellation are refused for every caller and every clock, and they
/// leave the accounts, and with them the state and both timestamps, exactly as
/// they were.
pub proof fn law_terminal_is_final(
    execute: ExecuteScheduledTransfer,
    cancel: CancelScheduledTransfer,
    authority: Option<Seq<u8>>,
    clock: Option<i64>,
)
    ensures
        execute.transfer_account.data is Some
            && execute.transfer_account.data->0.spec_is_terminal() ==> {
            &&& execute_error(execute, authority, clock) is Some
            &&& after_execute(execute, authority, clock) == execute
        },
        cancel.transfer_account.data is Some && cancel.transfer_account.data->0.spec_is_terminal()
            ==> {
            &&& cancel_error(cancel, authority, clock) is Some
            &&& after_cancel(cancel, authority, clock) == cancel
        },
{
}

/// Each transition leads from `Scheduled` to its own terminal state and sets
/// its own timestamp: a successful execution leaves the record `Executed` at
/// the time of the clock, a successful cancellation leaves it `Cancelled` at
/// the time of the clock, neither touches the timestamp of the other, and both
/// keep a valid record valid.
pub proof fn law_transitions(
    execute: ExecuteScheduledTransfer,
    cancel: CancelScheduledTransfer,
    authority: Option<Seq<u8>>,
    clock: Option<i64>,
)
    ensures
        execute_error(execute, authority, clock) is None ==> {
            let before = execute.transfer_account.data->0;
            let after = after_execute(execute, authority, clock).transfer_account.data->0;
            &&& execute.transfer_account.data is Some
            &&& clock is Some
            &&& before.spec_state() == TransferState::Scheduled
            &&& after.spec_state() == TransferState::Executed
            &&& after.executed_at == clock->0
            &&& after.cancelled_at == before.cancelled_at
            &&& before.is_valid() ==> after.is_valid()
        },
        cancel_error(cancel, authority, clock) is None ==> {
            let before = cancel.transfer_account.data->0;
            let after = after_cancel(cancel, authority, clock).transfer_account.data->0;
            &&& cancel.transfer_account.data is Some
            &&& clock is Some
            &&& before.spec_state() == TransferState::Scheduled
            &&& after.spec_state() == TransferState::Cancelled
            &&& after.cancelled_at == clock->0
            &&& after.executed_at == before.executed_at
            &&& before.is_valid() ==> after.is_valid()
        },
{
}

/// Of execution and cancellation exactly one wins. After a successful
/// execution every cancellation of the record is refused with
/// `AlreadyExecuted`; after a successful cancellation every execution of the
/// record, at a readable clock, is refused with `TransferCancelled`.
pub proof fn law_one_winner(
    execute: ExecuteScheduledTransfer,
    execute_authority: Option<Seq<u8>>,
    execute_clock: Option<i64>,
    cancel: CancelScheduledTransfer,
    cancel_authority: Option<Seq<u8>>,
    cancel_clock: Option<i64>,
)
    ensures
        execute_error(execute, execute_authority, execute_clock) is None
            && cancel.transfer_account == after_execute(
            execute,
            execute_authority,
            execute_clock,
        ).transfer_account ==> cancel_error(cancel, cancel_authority, cancel_clock) == Some(
            TransferError::AlreadyExecuted,
        ),
        cancel_error(cancel, cancel_authority, cancel_clock) is None && execute.transfer_account
            == after_cancel(cancel, cancel_authority, cancel_clock).transfer_account
            && execute_clock is Some ==> execute_error(execute, execute_authority, execute_clock)
            == Some(TransferError::TransferCancelled),
{
}

/// Timing gate. On a record in state `Scheduled`, execution before the release
/// time is refused with `ExecutionTimeNotReached`. From the release time on,
/// the moment itself included, the time never decides again: execution at any
/// such time is accepted or refused exactly as at the release time itself, and
/// never for the time.
pub proof fn law_timing_gate(ctx: ExecuteScheduledTransfer, authority: Option<Seq<u8>>, now: i64)
    requires
        ctx.transfer_account.data is Some,
        !ctx.transfer_account.data->0.spec_is_terminal(),
    ensures
        ({
            let release_time = ctx.transfer_account.data->0.execute_after;
            &&& now < release_time ==> execute_error(ctx, authority, Some(now)) == Some(
                TransferError::ExecutionTimeNotReached,
            )
            &&& now >= release_time ==> execute_error(ctx, authority, Some(now)) == execute_error(
                ctx,
                authority,
                Some(release_time),
            )
            &&& now >= release_time ==> execute_error(ctx, authority, Some(now)) != Some(
                TransferError::ExecutionTimeNotReached,
            )
        }),
{
}

/// Execution succeeds at every time from the release time on, the moment
/// itself included, where the record is in state `Scheduled`, the caller is
/// its recipient, and custody can release the amount to the recipient.
pub proof fn law_execution_succeeds_in_time(
    ctx: ExecuteScheduledTransfer,
    authority: Option<Seq<u8>>,
    now: i64,
)
    requires
        ctx.transfer_account.data is Some,
        ({
            let record = ctx.transfer_account.data->0;
            &&& !record.spec_is_terminal()
            &&& now >= record.execute_after
            &&& ctx.recipient.key@ == record.recipient@
            &&& ctx.custody(record.token_mint) is Ok
            &&& ctx.custody(record.token_mint)->Ok_0.release_error(
                record.amount,
                ctx.transfer_account.key,
                record.recipient,
                authority,
            ) is None
        }),
    ensures
        execute_error(ctx, authority, Some(now)) is None,
{
}

/// Authorization. A caller who is not the sender of the record never cancels
/// it, and on a record in state `Scheduled` is refused with
/// `UnauthorizedCancellation`. A caller who is not the recipient of the record
/// never executes it, and on a record in state `Scheduled` whose release time
/// has come is refused with `InvalidRecipient`.
pub proof fn law_authorization(
    execute: ExecuteScheduledTransfer,
    cancel: CancelScheduledTransfer,
    authority: Option<Seq<u8>>,
    clock: Option<i64>,
)
    ensures
        ({
            let record = cancel.transfer_account.data->0;
            cancel.transfer_account.data is Some && record.sender@ != cancel.sender.key@ ==> {
                &&& cancel_error(cancel, authority, clock) is Some
                &&& !record.spec_is_terminal() ==> cancel_error(cancel, authority, clock) == Some(
                    TransferError::UnauthorizedCancellation,
                )
            }
        }),
        ({
            let record = execute.transfer_account.data->0;
            execute.transfer_account.data is Some && record.recipient@ != execute.recipient.key@
                ==> {
                &&& execute_error(execute, authority, clock) is Some
                &&& !record.spec_is_terminal() && clock is Some && clock->0
                    >= record.execute_after ==> execute_error(execute, authority, clock) == Some(
                    TransferError::InvalidRecipient,
                )
            }
        }),
{
}

/// How the custody account of a token is held to the record at `record`: it
/// must be supplied and owned by the record, else it is an invalid escrow
/// account, and it must hold the mint, else the mint is invalid.
pub open spec fn escrow_refusal(mint: Address, record: Address, escrow: Option<TokenAccount>) -> Option<
    TransferError,
> {
    match escrow {
        None => Some(TransferError::InvalidEscrowAccount),
        Some(account) => {
            if account.owner@ != record@ {
                Some(TransferError::InvalidEscrowAccount)
            } else if account.mint@ != mint@ {
                Some(TransferError::InvalidTokenMint)
            } else {
                None
            }
        },
    }
}

/// Custody is judged first. Where an execution or a cancellation of a token
/// record has passed the checks of state, time and caller, a custody account
/// that is missing or owned by another than the record is refused with
/// `InvalidEscrowAccount`, and one of another mint with `InvalidTokenMint`:
/// whatever account the caller supplies for the other side, or none, and
/// whatever the seeds derive. The accounts stay as they are.
pub proof fn law_custody_is_judged_first(
    execute: ExecuteScheduledTransfer,
    cancel: CancelScheduledTransfer,
    authority: Option<Seq<u8>>,
    now: i64,
)
    ensures
        ({
            let record = execute.transfer_account.data->0;
            let refusal = escrow_refusal(
                record.token_mint,
                execute.transfer_account.key,
                execute.escrow_token_account,
            );
            execute.transfer_account.data is Some && !record.spec_is_terminal() && now
                >= record.execute_after && record.recipient@ == execute.recipient.key@
                && AssetKind::of(record.token_mint) is Token && refusal is Some ==> {
                &&& execute_error(execute, authority, Some(now)) == refusal
                &&& after_execute(execute, authority, Some(now)) == execute
            }
        }),
        ({
            let record = cancel.transfer_account.data->0;
            let refusal = escrow_refusal(
                record.token_mint,
                cancel.transfer_account.key,
                cancel.escrow_token_account,
            );
            cancel.transfer_account.data is Some && !record.spec_is_terminal() && record.sender@
                == cancel.sender.key@ && AssetKind::of(record.token_mint) is Token
                && refusal is Some ==> {
                &&& cancel_error(cancel, authority, Some(now)) == refusal
                &&& after_cancel(cancel, authority, Some(now)) == cancel
            }
        }),
{
}

/// Custody is judged first on a deposit too. Where the scheduling of a token
/// has reached custody, a custody account that is missing or owned by another
/// than the record account is refused with `InvalidEscrowAccount`, and one of
/// another mint with `InvalidTokenMint`: whatever account the sender supplies
/// for the other side, or none, and whatever address is derived for custody.
pub proof fn law_custody_is_judged_first_on_deposit(
    ctx: ScheduleTransfer,
    derived_record: Option<(Seq<u8>, u8)>,
    derived_custody: Option<Seq<u8>>,
    amount: u64,
    execute_after: i64,
    memo: Seq<char>,
    now: i64,
)
    requires
        derived_key(derived_record) == Some(ctx.transfer_account.key@),
        ctx.transfer_account.data is None,
        creation_error(amount, execute_after, memo, now) is None,
        AssetKind::of(ctx.token_mint) is Token,
        escrow_refusal(ctx.token_mint, ctx.transfer_account.key, ctx.escrow_token_account)
            is Some,
    ensures
        schedule_error(
            ctx,
            derived_record,
            derived_custody,
            amount,
            execute_after,
            memo,
            Some(now),
        ) == escrow_refusal(ctx.token_mint, ctx.transfer_account.key, ctx.escrow_token_account),
{
}

/// Only the record releases its custody. Where the seeds presented with an
/// execution or a cancellation do not derive the address of the record
/// account, nothing leaves custody: the call is refused and the accounts stay
/// as they are.
pub proof fn law_only_the_record_releases(
    execute: ExecuteScheduledTransfer,
    cancel: CancelScheduledTransfer,
    authority: Option<Seq<u8>>,
    clock: Option<i64>,
)
    ensures
        authority != Some(execute.transfer_account.key@) ==> {
            &&& execute_error(execute, authority, clock) is Some
            &&& after_execute(execute, authority, clock) == execute
        },
        authority != Some(cancel.transfer_account.key@) ==> {
            &&& cancel_error(cancel, authority, clock) is Some
            &&& after_cancel(cancel, authority, clock) == cancel
        },
{
}

/// Conservation on scheduling. Where scheduling succeeds, custody gains
/// exactly the amount and the sender loses exactly the amount: the sum of the
/// two balances is what it was.
pub proof fn law_schedule_conserves(
    ctx: ScheduleTransfer,
    derived_record: Option<(Seq<u8>, u8)>,
    derived_custody: Option<Seq<u8>>,
    amount: u64,
    execute_after: i64,
    nonce: [u8; 32],
    memo: String,
    clock: Option<i64>,
)
    requires
        ctx.spec_balances_fit(),
        schedule_error(ctx, derived_record, derived_custody, amount, execute_after, memo@, clock)
            is None,
    ensures
        ({
            let next = after_schedule(
                ctx,
                derived_record,
                derived_custody,
                amount,
                execute_after,
                nonce,
                memo,
                clock,
            );
            &&& ctx.custody() matches Ok(before)
            &&& next.custody() matches Ok(after)
            &&& after.spec_custody_balance() == before.spec_custody_balance() + amount
            &&& after.spec_counterparty_balance() == before.spec_counterparty_balance() - amount
            &&& after.spec_custody_balance() + after.spec_counterparty_balance()
                == before.spec_custody_balance() + before.spec_counterparty_balance()
        }),
{
}

/// Conservation on release. Where execution or cancellation succeeds, custody
/// loses exactly the amount of the record and the beneficiary gains exactly
/// that amount: the sum of the two balances is what it was.
pub proof fn law_release_conserves(
    execute: ExecuteScheduledTransfer,
    cancel: CancelScheduledTransfer,
    authority: Option<Seq<u8>>,
    clock: Option<i64>,
)
    ensures
        execute.spec_balances_fit() && execute_error(execute, authority, clock) is None ==> {
            let record = execute.transfer_account.data->0;
            let next = after_execute(execute, authority, clock);
            &&& execute.custody(record.token_mint) matches Ok(before)
            &&& next.custody(record.token_mint) matches Ok(after)
            &&& after.spec_custody_balance() == before.spec_custody_balance() - record.amount
            &&& after.spec_counterparty_balance() == before.spec_counterparty_balance()
                + record.amount
            &&& after.spec_custody_balance() + after.spec_counterparty_balance()
                == before.spec_custody_balance() + before.spec_counterparty_balance()
        },
        cancel.spec_balances_fit() && cancel_error(cancel, authority, clock) is None ==> {
            let record = cancel.transfer_account.data->0;
            let next = after_cancel(cancel, authority, clock);
            &&& cancel.custody(record.token_mint) matches Ok(before)
            &&& next.custody(record.token_mint) matches Ok(after)
            &&& after.spec_custody_balance() == before.spec_custody_balance() - record.amount
            &&& after.spec_counterparty_balance() == before.spec_counterparty_balance()
                + record.amount
            &&& after.spec_custody_balance() + after.spec_counterparty_balance()
                == before.spec_custody_balance() + before.spec_counterparty_balance()
        },
{
}

/// Whatever is attempted on a record account, it keeps its address; once it
/// holds a record it holds one for ever, and the record keeps the terms that
/// were written at its creation.
pub proof fn law_history_keeps_record(attempts: Seq<Attempt>, account: RecordAccount)
    ensures
        replay(attempts, account).key == account.key,
        account.data is Some ==> {
            &&& replay(attempts, account).data is Some
            &&& same_terms(account.data->0, replay(attempts, account).data->0)
        },
    decreases attempts.len(),
{
    if attempts.len() > 0 {
        law_history_keeps_record(attempts.drop_last(), account);
    }
}

/// Terminal exclusivity over histories. Once a record is executed or
/// cancelled, no sequence of attempts, by whatever callers and at whatever
/// times, changes its account again: the state stays what it is, and so do
/// both timestamps.
pub proof fn law_terminal_for_ever(attempts: Seq<Attempt>, account: RecordAccount)
    requires
        account.data is Some,
        account.data->0.spec_is_terminal(),
    ensures
        replay(attempts, account) == account,
    decreases attempts.len(),
{
    if attempts.len() > 0 {
        law_terminal_for_ever(attempts.drop_last(), account);
    }
}

/// A valid record stays valid through every history.
pub proof fn law_history_keeps_validity(attempts: Seq<Attempt>, account: RecordAccount)
    requires
        account.data is Some ==> account.data->0.is_valid(),
    ensures
        replay(attempts, account).data is Some ==> replay(attempts, account).data->0.is_valid(),
    decreases attempts.len(),
{
    if attempts.len() > 0 {
        law_history_keeps_validity(attempts.drop_last(), account);
    }
}

/// Replay protection over histories. After a pair of sender and nonce has
/// been scheduled, whatever is attempted on its record account in between,
/// every further attempt to schedule the same pair on that account is refused
/// with `DuplicateSchedule`, whatever its amount, release time, memo, mint or
/// clock, and changes nothing.
pub proof fn law_replay_protection_for_ever(
    first: ScheduleTransfer,
    first_amount: u64,
    first_execute_after: i64,
    first_memo: String,
    first_clock: Option<i64>,
    nonce: [u8; 32],
    between: Seq<Attempt>,
    second: ScheduleTransfer,
    second_amount: u64,
    second_execute_after: i64,
    second_memo: String,
    second_clock: Option<i64>,
)
    requires
        schedule_error(
            first,
            record_of(first, nonce),
            custody_of(first),
            first_amount,
            first_execute_after,
            first_memo@,
            first_clock,
        ) is None,
        second.sender.key@ == first.sender.key@,
    ensures
        ({
            let scheduled = after_schedule(
                first,
                record_of(first, nonce),
                custody_of(first),
                first_amount,
                first_execute_after,
                nonce,
                first_memo,
                first_clock,
            ).transfer_account;
            let current = replay(between, scheduled);
            let again = schedule_on(second, current);
            &&& schedule_error(
                again,
                record_of(again, nonce),
                custody_of(again),
                second_amount,
                second_execute_after,
                second_memo@,
                second_clock,
            ) == Some(TransferError::DuplicateSchedule)
            &&& apply(
                Attempt::Schedule {
                    ctx: second,
                    amount: second_amount,
                    execute_after: second_execute_after,
                    nonce,
                    memo: second_memo,
                    clock: second_clock,
                },
                current,
            ) == current
        }),
{
    let scheduled = after_schedule(
        first,
        record_of(first, nonce),
        custody_of(first),
        first_amount,
        first_execute_after,
        nonce,
        first_memo,
        first_clock,
    ).transfer_account;
    law_history_keeps_record(between, scheduled);
}

} // verus!
