use scheduled_transfer::derive::derive_record_address;
use scheduled_transfer::{
    cancel_scheduled_transfer, execute_scheduled_transfer, get_transfer_info, schedule_transfer,
    Address, CancelScheduledTransfer, ExecuteScheduledTransfer, GetTransferInfo, RecordAccount,
    ScheduleTransfer, TransferError, TransferState, Wallet,
};
use scheduled_transfer::address::system_program;

const NOW: i64 = 1_700_000_000;
const RENT: u64 = 3_500_000;

fn sender_key() -> Address {
    Address::new([7u8; 32])
}

fn recipient_key() -> Address {
    Address::new([9u8; 32])
}

fn stranger_key() -> Address {
    Address::new([11u8; 32])
}

fn record_key(sender: &Address, nonce: &[u8; 32]) -> Address {
    derive_record_address(sender, nonce).expect("a record address exists").0
}

fn native_schedule_accounts(sender_lamports: u64, nonce: &[u8; 32]) -> ScheduleTransfer {
    let sender = sender_key();
    ScheduleTransfer {
        transfer_account: RecordAccount {
            key: record_key(&sender, nonce),
            lamports: RENT,
            data: None,
        },
        sender: Wallet { key: sender, lamports: sender_lamports },
        recipient: recipient_key(),
        token_mint: system_program(),
        sender_token_account: None,
        escrow_token_account: None,
    }
}

fn scheduled(sender_lamports: u64, amount: u64, delay: i64, nonce: [u8; 32]) -> ScheduleTransfer {
    let mut ctx = native_schedule_accounts(sender_lamports, &nonce);
    assert!(ctx.balances_fit());
    let result = schedule_transfer(
        &mut ctx,
        amount,
        NOW + delay,
        nonce,
        "Test scheduled transfer".to_string(),
        Some(NOW),
    );
    assert!(result.is_ok(), "Failed to schedule transfer: {:?}", result);
    ctx
}

fn execute_accounts(after: &ScheduleTransfer, caller: Wallet) -> ExecuteScheduledTransfer {
    ExecuteScheduledTransfer {
        transfer_account: after.transfer_account.clone(),
        recipient: caller,
        escrow_token_account: None,
        recipient_token_account: None,
    }
}

fn cancel_accounts(after: &ScheduleTransfer, caller: Wallet) -> CancelScheduledTransfer {
    CancelScheduledTransfer {
        transfer_account: after.transfer_account.clone(),
        sender: caller,
        sender_token_account: None,
        escrow_token_account: None,
    }
}

#[test]
fn test_schedule_sol_transfer() {
    let nonce = [1u8; 32];
    let amount = 500_000_000;
    let execute_after = NOW + 60;
    let memo = "Test scheduled transfer".to_string();
    let mut ctx = native_schedule_accounts(1_000_000_000, &nonce);

    let result = schedule_transfer(&mut ctx, amount, execute_after, nonce, memo.clone(), Some(NOW));
    assert!(result.is_ok(), "Failed to schedule transfer: {:?}", result);

    let data = ctx.transfer_account.data.clone().expect("the record is initialized");
    assert_eq!(data.sender, sender_key());
    assert_eq!(data.recipient, recipient_key());
    assert_eq!(data.amount, amount);
    assert_eq!(data.execute_after, execute_after);
    assert_eq!(data.memo, memo);
    assert!(!data.executed);
    assert!(!data.cancelled);

    assert_eq!(data.created_at, NOW);
    assert_eq!(data.executed_at, 0);
    assert_eq!(data.cancelled_at, 0);
    assert_eq!(data.nonce, nonce);
    assert_eq!(data.token_mint, system_program());
    assert_eq!(data.state(), TransferState::Scheduled);
    assert_eq!(ctx.sender.lamports, 500_000_000);
    assert_eq!(ctx.transfer_account.lamports, RENT + 500_000_000);

    let event = result.unwrap();
    assert_eq!(event.transfer_id, ctx.transfer_account.key);
    assert_eq!(event.sender, sender_key());
    assert_eq!(event.recipient, recipient_key());
    assert_eq!(event.amount, amount);
    assert_eq!(event.token_mint, system_program());
    assert_eq!(event.execute_after, execute_after);
    assert_eq!(event.nonce, nonce);
}

#[test]
fn test_execute_sol_transfer_before_time() {
    let after = scheduled(1_000_000_000, 500_000_000, 60, [1u8; 32]);
    let mut ctx = execute_accounts(&after, Wallet { key: recipient_key(), lamports: 0 });
    let before = ctx.clone();

    let result = execute_scheduled_transfer(&mut ctx, Some(NOW + 30));
    assert!(result.is_err(), "Should fail when executing before time");
    assert_eq!(result, Err(TransferError::ExecutionTimeNotReached));
    assert_eq!(ctx, before);
}

#[test]
fn test_cancel_scheduled_transfer() {
    let after = scheduled(1_000_000_000, 500_000_000, 60, [1u8; 32]);
    let mut ctx = cancel_accounts(&after, after.sender);
    let sender_balance_before = ctx.sender.lamports;

    let result = cancel_scheduled_transfer(&mut ctx, Some(NOW + 10));
    assert!(result.is_ok(), "Failed to cancel transfer: {:?}", result);

    let data = ctx.transfer_account.data.clone().expect("the record is still there");
    assert!(data.cancelled);
    assert!(!data.executed);

    let sender_balance_after = ctx.sender.lamports;
    assert!(sender_balance_after > sender_balance_before);
    assert_eq!(sender_balance_after, 1_000_000_000);
    assert_eq!(ctx.transfer_account.lamports, RENT);
    assert_eq!(data.cancelled_at, NOW + 10);
    assert_eq!(data.executed_at, 0);

    let event = result.unwrap();
    assert_eq!(event.transfer_id, ctx.transfer_account.key);
    assert_eq!(event.sender, sender_key());
    assert_eq!(event.amount, 500_000_000);
    assert_eq!(event.cancelled_at, NOW + 10);
}

#[test]
fn test_unauthorized_cancellation() {
    let after = scheduled(1_000_000_000, 500_000_000, 60, [1u8; 32]);
    let mut ctx = cancel_accounts(&after, Wallet { key: stranger_key(), lamports: 5 });
    let before = ctx.clone();

    let result = cancel_scheduled_transfer(&mut ctx, Some(NOW + 10));
    assert!(result.is_err(), "Should fail with unauthorized cancellation");
    assert_eq!(result, Err(TransferError::UnauthorizedCancellation));
    assert_eq!(ctx, before);
}

#[test]
fn test_replay_protection() {
    let nonce = [1u8; 32];
    let execute_after = NOW + 60;
    let mut ctx = native_schedule_accounts(2_000_000_000, &nonce);

    let result1 = schedule_transfer(
        &mut ctx,
        500_000_000,
        execute_after,
        nonce,
        "First transfer".to_string(),
        Some(NOW),
    );
    assert!(result1.is_ok(), "First transfer should succeed");

    let before = ctx.clone();
    let result2 = schedule_transfer(
        &mut ctx,
        300_000_000,
        execute_after + 120,
        nonce,
        "Second transfer".to_string(),
        Some(NOW),
    );
    assert!(result2.is_err(), "Second transfer with same nonce should fail");
    assert_eq!(result2, Err(TransferError::DuplicateSchedule));
    assert_eq!(ctx, before);
}

#[test]
fn test_execution_time_limits() {
    let nonce = [1u8; 32];
    let execute_after = NOW + (31 * 24 * 60 * 60);
    let mut ctx = native_schedule_accounts(1_000_000_000, &nonce);
    let before = ctx.clone();

    let result = schedule_transfer(
        &mut ctx,
        500_000_000,
        execute_after,
        nonce,
        "Too far future".to_string(),
        Some(NOW),
    );
    assert!(result.is_err(), "Should fail when execution time is too far");
    assert_eq!(result, Err(TransferError::ExecutionTimeTooFar));
    assert_eq!(ctx, before);
}

#[test]
fn scenario_schedule_puts_amount_in_custody() {
    let nonce = [42u8; 32];
    let mut ctx = native_schedule_accounts(800, &nonce);
    ctx.transfer_account.lamports = 0;

    let result = schedule_transfer(&mut ctx, 500, NOW + 60, nonce, String::new(), Some(NOW));
    assert!(result.is_ok());
    let data = ctx.transfer_account.data.clone().unwrap();
    assert_eq!(data.state(), TransferState::Scheduled);
    assert_eq!(ctx.transfer_account.lamports, 500);
    assert_eq!(ctx.sender.lamports, 300);
}

#[test]
fn scenario_execute_too_early_then_in_time() {
    let after = scheduled(800, 500, 60, [42u8; 32]);
    let mut ctx = execute_accounts(&after, Wallet { key: recipient_key(), lamports: 20 });

    assert_eq!(
        execute_scheduled_transfer(&mut ctx, Some(NOW + 30)),
        Err(TransferError::ExecutionTimeNotReached)
    );
    assert_eq!(ctx.recipient.lamports, 20);

    let result = execute_scheduled_transfer(&mut ctx, Some(NOW + 61));
    assert!(result.is_ok());
    assert_eq!(ctx.recipient.lamports, 520);
    assert_eq!(ctx.transfer_account.lamports, RENT);
    let data = ctx.transfer_account.data.clone().unwrap();
    assert_eq!(data.state(), TransferState::Executed);
    assert!(data.executed);
    assert!(!data.cancelled);
    assert_eq!(data.executed_at, NOW + 61);

    let event = result.unwrap();
    assert_eq!(event.transfer_id, ctx.transfer_account.key);
    assert_eq!(event.sender, sender_key());
    assert_eq!(event.recipient, recipient_key());
    assert_eq!(event.amount, 500);
    assert_eq!(event.token_mint, system_program());
    assert_eq!(event.executed_at, NOW + 61);
}

#[test]
fn scenario_cancel_then_execute_is_refused() {
    let after = scheduled(800, 500, 60, [42u8; 32]);
    let mut cancel = cancel_accounts(&after, after.sender);
    assert_eq!(cancel.sender.lamports, 300);

    let result = cancel_scheduled_transfer(&mut cancel, Some(NOW + 5));
    assert!(result.is_ok());
    assert_eq!(cancel.sender.lamports, 800);
    let data = cancel.transfer_account.data.clone().unwrap();
    assert_eq!(data.state(), TransferState::Cancelled);

    let mut execute = ExecuteScheduledTransfer {
        transfer_account: cancel.transfer_account.clone(),
        recipient: Wallet { key: recipient_key(), lamports: 0 },
        escrow_token_account: None,
        recipient_token_account: None,
    };
    assert_eq!(
        execute_scheduled_transfer(&mut execute, Some(NOW + 61)),
        Err(TransferError::TransferCancelled)
    );
    assert_eq!(execute.recipient.lamports, 0);
}

#[test]
fn scenario_release_time_thirty_one_days_ahead() {
    let nonce = [42u8; 32];
    let mut ctx = native_schedule_accounts(800, &nonce);
    let result = schedule_transfer(
        &mut ctx,
        500,
        NOW + 31 * 86_400,
        nonce,
        String::new(),
        Some(NOW),
    );
    assert_eq!(result, Err(TransferError::ExecutionTimeTooFar));
    assert!(ctx.transfer_account.data.is_none());
}

#[test]
fn scenario_same_sender_and_nonce_twice() {
    let nonce = [42u8; 32];
    let mut ctx = native_schedule_accounts(5_000, &nonce);
    assert!(schedule_transfer(&mut ctx, 500, NOW + 60, nonce, "one".to_string(), Some(NOW)).is_ok());

    for (amount, delay, memo) in [(500u64, 60i64, "one"), (1, 90, "two"), (4_000, 2_000_000, "")] {
        let result =
            schedule_transfer(&mut ctx, amount, NOW + delay, nonce, memo.to_string(), Some(NOW + 1));
        assert_eq!(result, Err(TransferError::DuplicateSchedule));
    }
    // Not even a request that breaks every rule of creation gets another answer.
    let result = schedule_transfer(&mut ctx, 0, NOW - 1, nonce, "x".repeat(300), None);
    assert_eq!(result, Err(TransferError::DuplicateSchedule));
    assert_eq!(ctx.sender.lamports, 4_500);

    // Another nonce of the same sender is another record.
    let other = [43u8; 32];
    let mut fresh = native_schedule_accounts(4_500, &other);
    assert!(schedule_transfer(&mut fresh, 500, NOW + 60, other, "one".to_string(), Some(NOW)).is_ok());
    assert_ne!(fresh.transfer_account.key, ctx.transfer_account.key);
}

#[test]
fn execute_at_the_release_time_itself() {
    let after = scheduled(800, 500, 60, [3u8; 32]);
    for (now, allowed) in [(NOW + 59, false), (NOW + 60, true), (NOW + 61, true), (i64::MAX, true), (i64::MIN, false)] {
        let mut ctx = execute_accounts(&after, Wallet { key: recipient_key(), lamports: 0 });
        let result = execute_scheduled_transfer(&mut ctx, Some(now));
        if allowed {
            assert!(result.is_ok());
            assert_eq!(ctx.recipient.lamports, 500);
        } else {
            assert_eq!(result, Err(TransferError::ExecutionTimeNotReached));
            assert_eq!(ctx.recipient.lamports, 0);
        }
    }
}

#[test]
fn cancel_is_not_bound_to_the_release_time() {
    for now in [i64::MIN, NOW - 100, NOW, NOW + 60, NOW + 61, i64::MAX] {
        let after = scheduled(800, 500, 60, [3u8; 32]);
        let mut ctx = cancel_accounts(&after, after.sender);
        let result = cancel_scheduled_transfer(&mut ctx, Some(now));
        assert!(result.is_ok());
        assert_eq!(ctx.transfer_account.data.clone().unwrap().cancelled_at, now);
    }
}

#[test]
fn executed_record_refuses_everything() {
    let after = scheduled(800, 500, 60, [3u8; 32]);
    let mut ctx = execute_accounts(&after, Wallet { key: recipient_key(), lamports: 0 });
    assert!(execute_scheduled_transfer(&mut ctx, Some(NOW + 60)).is_ok());
    let settled = ctx.clone();

    assert_eq!(
        execute_scheduled_transfer(&mut ctx, Some(NOW + 70)),
        Err(TransferError::AlreadyExecuted)
    );
    assert_eq!(ctx, settled);

    let mut cancel = CancelScheduledTransfer {
        transfer_account: ctx.transfer_account.clone(),
        sender: after.sender,
        sender_token_account: None,
        escrow_token_account: None,
    };
    let untouched = cancel.clone();
    assert_eq!(
        cancel_scheduled_transfer(&mut cancel, Some(NOW + 70)),
        Err(TransferError::AlreadyExecuted)
    );
    assert_eq!(cancel, untouched);
    let data = cancel.transfer_account.data.unwrap();
    assert_eq!(data.state(), TransferState::Executed);
    assert_eq!(data.executed_at, NOW + 60);
    assert_eq!(data.cancelled_at, 0);
}

#[test]
fn cancelled_record_refuses_everything() {
    let after = scheduled(800, 500, 60, [3u8; 32]);
    let mut ctx = cancel_accounts(&after, after.sender);
    assert!(cancel_scheduled_transfer(&mut ctx, Some(NOW + 1)).is_ok());
    let settled = ctx.clone();

    assert_eq!(
        cancel_scheduled_transfer(&mut ctx, Some(NOW + 2)),
        Err(TransferError::AlreadyCancelled)
    );
    assert_eq!(ctx, settled);

    let mut execute = ExecuteScheduledTransfer {
        transfer_account: ctx.transfer_account.clone(),
        recipient: Wallet { key: recipient_key(), lamports: 0 },
        escrow_token_account: None,
        recipient_token_account: None,
    };
    let untouched = execute.clone();
    assert_eq!(
        execute_scheduled_transfer(&mut execute, Some(NOW + 100)),
        Err(TransferError::TransferCancelled)
    );
    assert_eq!(execute, untouched);
}

#[test]
fn only_the_recipient_executes() {
    let after = scheduled(800, 500, 60, [3u8; 32]);
    for caller in [stranger_key(), sender_key()] {
        let mut ctx = execute_accounts(&after, Wallet { key: caller, lamports: 0 });
        let before = ctx.clone();
        assert_eq!(
            execute_scheduled_transfer(&mut ctx, Some(NOW + 60)),
            Err(TransferError::InvalidRecipient)
        );
        assert_eq!(ctx, before);
    }
    // Before the release time the time is what is reported.
    let mut early = execute_accounts(&after, Wallet { key: stranger_key(), lamports: 0 });
    assert_eq!(
        execute_scheduled_transfer(&mut early, Some(NOW + 59)),
        Err(TransferError::ExecutionTimeNotReached)
    );
}

#[test]
fn only_the_sender_cancels() {
    let after = scheduled(800, 500, 60, [3u8; 32]);
    let mut ctx = cancel_accounts(&after, Wallet { key: recipient_key(), lamports: 0 });
    assert_eq!(
        cancel_scheduled_transfer(&mut ctx, Some(NOW)),
        Err(TransferError::UnauthorizedCancellation)
    );
    // The caller is judged before the clock is read.
    assert_eq!(
        cancel_scheduled_transfer(&mut ctx, None),
        Err(TransferError::UnauthorizedCancellation)
    );
}

#[test]
fn clock_that_cannot_be_read() {
    let nonce = [5u8; 32];
    let mut ctx = native_schedule_accounts(800, &nonce);
    assert_eq!(
        schedule_transfer(&mut ctx, 500, NOW + 60, nonce, String::new(), None),
        Err(TransferError::ClockUnavailable)
    );
    assert!(ctx.transfer_account.data.is_none());

    let after = scheduled(800, 500, 60, nonce);
    let mut execute = execute_accounts(&after, Wallet { key: recipient_key(), lamports: 0 });
    assert_eq!(execute_scheduled_transfer(&mut execute, None), Err(TransferError::ClockUnavailable));
    let mut cancel = cancel_accounts(&after, after.sender);
    assert_eq!(cancel_scheduled_transfer(&mut cancel, None), Err(TransferError::ClockUnavailable));
    assert_eq!(cancel.sender.lamports, 300);
}

#[test]
fn amounts_are_conserved() {
    let nonce = [6u8; 32];
    let mut ctx = native_schedule_accounts(1_000, &nonce);
    let total = ctx.sender.lamports + ctx.transfer_account.lamports;
    assert!(schedule_transfer(&mut ctx, 999, NOW + 1, nonce, String::new(), Some(NOW)).is_ok());
    assert_eq!(ctx.sender.lamports, 1);
    assert_eq!(ctx.transfer_account.lamports, RENT + 999);
    assert_eq!(ctx.sender.lamports + ctx.transfer_account.lamports, total);

    let mut execute = execute_accounts(&ctx, Wallet { key: recipient_key(), lamports: 77 });
    let total = execute.recipient.lamports + execute.transfer_account.lamports;
    assert!(execute.balances_fit());
    assert!(execute_scheduled_transfer(&mut execute, Some(NOW + 1)).is_ok());
    assert_eq!(execute.recipient.lamports, 77 + 999);
    assert_eq!(execute.transfer_account.lamports, RENT);
    assert_eq!(execute.recipient.lamports + execute.transfer_account.lamports, total);
}

#[test]
fn sender_without_the_amount() {
    let nonce = [6u8; 32];
    let mut ctx = native_schedule_accounts(499, &nonce);
    let before = ctx.clone();
    assert_eq!(
        schedule_transfer(&mut ctx, 500, NOW + 60, nonce, String::new(), Some(NOW)),
        Err(TransferError::InsufficientFunds)
    );
    assert_eq!(ctx, before);
}

#[test]
fn custody_without_the_amount() {
    let after = scheduled(800, 500, 60, [3u8; 32]);
    let mut ctx = execute_accounts(&after, Wallet { key: recipient_key(), lamports: 0 });
    ctx.transfer_account.lamports = 499;
    assert_eq!(
        execute_scheduled_transfer(&mut ctx, Some(NOW + 60)),
        Err(TransferError::InsufficientFunds)
    );
    assert_eq!(ctx.transfer_account.data.clone().unwrap().state(), TransferState::Scheduled);
}

#[test]
fn record_account_of_another_pair() {
    let nonce = [6u8; 32];
    let mut ctx = native_schedule_accounts(800, &nonce);
    ctx.transfer_account.key = record_key(&sender_key(), &[8u8; 32]);
    assert_eq!(
        schedule_transfer(&mut ctx, 500, NOW + 60, nonce, String::new(), Some(NOW)),
        Err(TransferError::InvalidEscrowAccount)
    );

    // A record that is presented at an address that its seeds do not derive
    // cannot release its custody.
    let after = scheduled(800, 500, 60, nonce);
    let mut execute = execute_accounts(&after, Wallet { key: recipient_key(), lamports: 0 });
    execute.transfer_account.key = record_key(&sender_key(), &[8u8; 32]);
    assert_eq!(
        execute_scheduled_transfer(&mut execute, Some(NOW + 60)),
        Err(TransferError::InvalidEscrowAccount)
    );
    let mut forged = execute_accounts(&after, Wallet { key: recipient_key(), lamports: 0 });
    let mut data = forged.transfer_account.data.clone().unwrap();
    data.bump = data.bump.wrapping_sub(1);
    forged.transfer_account.data = Some(data);
    assert_eq!(
        execute_scheduled_transfer(&mut forged, Some(NOW + 60)),
        Err(TransferError::InvalidEscrowAccount)
    );
}

#[test]
fn account_without_a_record() {
    let empty = RecordAccount { key: record_key(&sender_key(), &[1u8; 32]), lamports: 0, data: None };
    let mut execute = ExecuteScheduledTransfer {
        transfer_account: empty.clone(),
        recipient: Wallet { key: recipient_key(), lamports: 0 },
        escrow_token_account: None,
        recipient_token_account: None,
    };
    assert_eq!(
        execute_scheduled_transfer(&mut execute, Some(NOW)),
        Err(TransferError::InvalidEscrowAccount)
    );
    let mut cancel = CancelScheduledTransfer {
        transfer_account: empty.clone(),
        sender: Wallet { key: sender_key(), lamports: 0 },
        sender_token_account: None,
        escrow_token_account: None,
    };
    assert_eq!(
        cancel_scheduled_transfer(&mut cancel, Some(NOW)),
        Err(TransferError::InvalidEscrowAccount)
    );
    assert_eq!(
        get_transfer_info(&GetTransferInfo { transfer_account: empty }),
        Err(TransferError::InvalidEscrowAccount)
    );
}

#[test]
fn query_shows_the_record() {
    let nonce = [1u8; 32];
    let mut ctx = native_schedule_accounts(1_000, &nonce);
    let memo = "rent for \u{00e9}t\u{00e9}".to_string();
    assert!(schedule_transfer(&mut ctx, 250, NOW + 600, nonce, memo.clone(), Some(NOW)).is_ok());
    let query = GetTransferInfo { transfer_account: ctx.transfer_account.clone() };
    let untouched = query.clone();

    let info = get_transfer_info(&query).expect("the record exists");
    assert_eq!(info.sender, sender_key());
    assert_eq!(info.recipient, recipient_key());
    assert_eq!(info.amount, 250);
    assert_eq!(info.token_mint, system_program());
    assert_eq!(info.execute_after, NOW + 600);
    assert_eq!(info.created_at, NOW);
    assert!(!info.executed);
    assert_eq!(info.executed_at, 0);
    assert!(!info.cancelled);
    assert_eq!(info.cancelled_at, 0);
    assert_eq!(info.memo, memo);
    assert_eq!(info.nonce, nonce);
    assert_eq!(info.bump, ctx.transfer_account.data.clone().unwrap().bump);
    assert_eq!(query, untouched);

    let mut execute = execute_accounts(&ctx, Wallet { key: recipient_key(), lamports: 0 });
    assert!(execute_scheduled_transfer(&mut execute, Some(NOW + 700)).is_ok());
    let info = get_transfer_info(&GetTransferInfo { transfer_account: execute.transfer_account })
        .unwrap();
    assert!(info.executed);
    assert_eq!(info.executed_at, NOW + 700);
    assert!(!info.cancelled);
}

#[test]
fn balances_that_do_not_fit() {
    let nonce = [1u8; 32];
    let mut ctx = native_schedule_accounts(u64::MAX, &nonce);
    assert!(!ctx.balances_fit());
    ctx.transfer_account.lamports = 0;
    assert!(ctx.balances_fit());
    assert!(schedule_transfer(&mut ctx, u64::MAX, NOW + 1, nonce, String::new(), Some(NOW)).is_ok());
    assert_eq!(ctx.transfer_account.lamports, u64::MAX);
    assert_eq!(ctx.sender.lamports, 0);

    let execute = execute_accounts(&ctx, Wallet { key: recipient_key(), lamports: 1 });
    assert!(!execute.balances_fit());
    let cancel = cancel_accounts(&ctx, Wallet { key: sender_key(), lamports: 1 });
    assert!(!cancel.balances_fit());
    let cancel = cancel_accounts(&ctx, ctx.sender);
    assert!(cancel.balances_fit());
}

#[test]
fn schedule_reports_the_first_failure() {
    let nonce = [6u8; 32];
    let fresh = native_schedule_accounts(100, &nonce);
    let too_long = "a".repeat(201);
    let refused = |ctx: &ScheduleTransfer, amount: u64, delay: i64, memo: &str, clock: Option<i64>| {
        let mut ctx = ctx.clone();
        let before = ctx.clone();
        let result = schedule_transfer(&mut ctx, amount, NOW + delay, nonce, memo.to_string(), clock);
        assert_eq!(ctx, before);
        result.expect_err("the request is refused")
    };

    // The record account comes first, then the record in it.
    let mut elsewhere = scheduled(800, 500, 60, nonce);
    elsewhere.transfer_account.key = stranger_key();
    assert_eq!(refused(&elsewhere, 0, 0, &too_long, None), TransferError::InvalidEscrowAccount);
    let taken = scheduled(800, 500, 60, nonce);
    assert_eq!(refused(&taken, 0, 0, &too_long, None), TransferError::DuplicateSchedule);

    // Then the clock, then the rules of creation in their order.
    assert_eq!(refused(&fresh, 0, 0, &too_long, None), TransferError::ClockUnavailable);
    assert_eq!(refused(&fresh, 0, 0, &too_long, Some(NOW)), TransferError::InvalidAmount);
    assert_eq!(refused(&fresh, 500, 0, &too_long, Some(NOW)), TransferError::InvalidExecutionTime);
    assert_eq!(refused(&fresh, 500, 3_000_000, &too_long, Some(NOW)), TransferError::MemoTooLong);
    assert_eq!(refused(&fresh, 500, 3_000_000, "", Some(NOW)), TransferError::ExecutionTimeTooFar);

    // Custody is looked at last.
    assert_eq!(refused(&fresh, 500, 60, "", Some(NOW)), TransferError::InsufficientFunds);
    let mut token = fresh.clone();
    token.token_mint = Address::new([4u8; 32]);
    assert_eq!(refused(&token, 500, 0, "", Some(NOW)), TransferError::InvalidExecutionTime);
    assert_eq!(refused(&token, 50, 60, "", Some(NOW)), TransferError::InvalidEscrowAccount);
}

#[test]
fn execute_and_cancel_report_the_first_failure() {
    let after = scheduled(800, 500, 60, [3u8; 32]);

    // Execution reads the clock first, then the state, the time and the caller.
    let mut done = execute_accounts(&after, Wallet { key: recipient_key(), lamports: 0 });
    assert!(execute_scheduled_transfer(&mut done, Some(NOW + 60)).is_ok());
    let mut by_stranger = execute_accounts(&after, Wallet { key: stranger_key(), lamports: 0 });
    by_stranger.transfer_account = done.transfer_account.clone();
    assert_eq!(
        execute_scheduled_transfer(&mut by_stranger, None),
        Err(TransferError::ClockUnavailable)
    );
    assert_eq!(
        execute_scheduled_transfer(&mut by_stranger, Some(NOW)),
        Err(TransferError::AlreadyExecuted)
    );

    // Cancellation looks at the state and the caller before it reads the clock.
    let mut cancel = cancel_accounts(&after, Wallet { key: stranger_key(), lamports: 0 });
    cancel.transfer_account = done.transfer_account.clone();
    assert_eq!(cancel_scheduled_transfer(&mut cancel, None), Err(TransferError::AlreadyExecuted));
    let mut empty = cancel_accounts(&after, after.sender);
    empty.transfer_account.lamports = 0;
    assert_eq!(cancel_scheduled_transfer(&mut empty, None), Err(TransferError::ClockUnavailable));
    assert_eq!(
        cancel_scheduled_transfer(&mut empty, Some(NOW)),
        Err(TransferError::InsufficientFunds)
    );
}
