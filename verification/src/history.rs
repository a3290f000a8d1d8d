//! Histories: what becomes of one record account over any sequence of calls.
//!
//! The ledger hands every call the account as the call before left it. A
//! history is a sequence of attempts on one record account, each with
//! whatever other accounts, arguments and clock its caller chose.

use vstd::prelude::*;
use crate::cancel::{after_cancel, CancelScheduledTransfer};
use crate::execute::{after_execute, ExecuteScheduledTransfer};
use crate::record::RecordAccount;
use crate::schedule::{after_schedule, custody_of, record_of, ScheduleTransfer};

verus! {

/// One call of an operation that can change a record, with all that the
/// caller supplies. The record account among the accounts is a placeholder:
/// the ledger puts the account in its current state in its place.
pub enum Attempt {
    Schedule {
        ctx: ScheduleTransfer,
        amount: u64,
        execute_after: i64,
        nonce: [u8; 32],
        memo: String,
        clock: Option<i64>,
    },
    Execute { ctx: ExecuteScheduledTransfer, clock: Option<i64> },
    Cancel { ctx: CancelScheduledTransfer, clock: Option<i64> },
}

/// The accounts of a scheduling attempt on the record account `account`.
pub open spec fn schedule_on(ctx: ScheduleTransfer, account: RecordAccount) -> ScheduleTransfer {
    ScheduleTransfer { transfer_account: account, ..ctx }
}

/// The accounts of an execution attempt on the record account `account`.
pub open spec fn execute_on(
    ctx: ExecuteScheduledTransfer,
    account: RecordAccount,
) -> ExecuteScheduledTransfer {
    ExecuteScheduledTransfer { transfer_account: account, ..ctx }
}

/// The accounts of a cancellation attempt on the record account `account`.
pub open spec fn cancel_on(
    ctx: CancelScheduledTransfer,
    account: RecordAccount,
) -> CancelScheduledTransfer {
    CancelScheduledTransfer { transfer_account: account, ..ctx }
}

/// The record account after one attempt on it, accepted or refused.
pub open spec fn apply(attempt: Attempt, account: RecordAccount) -> RecordAccount {
    match attempt {
        Attempt::Schedule { ctx, amount, execute_after, nonce, memo, clock } => {
            let given = schedule_on(ctx, account);
            after_schedule(
                given,
                record_of(given, nonce),
                custody_of(given),
                amount,
                execute_after,
                nonce,
                memo,
                clock,
            ).transfer_account
        },
        Attempt::Execute { ctx, clock } => after_execute(
            execute_on(ctx, account),
            account.derived_authority(),
            clock,
        ).transfer_account,
        Attempt::Cancel { ctx, clock } => after_cancel(
            cancel_on(ctx, account),
            account.derived_authority(),
            clock,
        ).transfer_account,
    }
}

/// The record account after a whole history of attempts, the first of them
/// made on `account`.
pub open spec fn replay(attempts: Seq<Attempt>, account: RecordAccount) -> RecordAccount
    decreases attempts.len(),
{
    if attempts.len() == 0 {
        account
    } else {
        apply(attempts.last(), replay(attempts.drop_last(), account))
    }
}

} // verus!
