//! Scheduling: the creation of a record and the deposit into its custody.

use vstd::prelude::*;
use crate::address::Address;
use crate::asset::AssetKind;
use crate::custody::{Custody, TokenAccount, Wallet};
use crate::derive::{
    address_view, custody_address, derive_custody_address, derive_record_address, found_view,
    record_address,
};
use crate::error::TransferError;
use crate::events::TransferScheduled;
use crate::record::{creation_error, RecordAccount, ScheduledTransfer, TransferState};

verus! {

/// The accounts that scheduling works on. The token accounts are needed only
/// where the mint names a token.
#[derive(Clone, Debug, PartialEq, Eq)]
pub struct ScheduleTransfer {
    pub transfer_account: RecordAccount,
    pub sender: Wallet,
    pub recipient: Address,
    pub token_mint: Address,
    pub sender_token_account: Option<TokenAccount>,
    pub escrow_token_account: Option<TokenAccount>,
}

impl ScheduleTransfer {
    /// The custody that the mint selects, with the sender's accounts on the
    /// other side.
    pub open spec fn custody(self) -> Result<Custody, TransferError> {
        Custody::resolved(
            self.token_mint,
            self.transfer_account.spec_wallet(),
            self.sender,
            self.escrow_token_account,
            self.sender_token_account,
        )
    }

    /// The accounts with the two balances of `moved` written back.
    pub open spec fn with_custody(self, moved: Custody) -> ScheduleTransfer {
        match moved {
            Custody::NativeCustody { custody, counterparty } => ScheduleTransfer {
                transfer_account: RecordAccount {
                    lamports: custody.lamports,
                    ..self.transfer_account
                },
                sender: counterparty,
                ..self
            },
            Custody::TokenCustody { custody, counterparty, .. } => ScheduleTransfer {
                sender_token_account: counterparty,
                escrow_token_account: Some(custody),
                ..self
            },
        }
    }

    /// Where no record exists yet and the accounts fit the record account and
    /// the sender, the two balances that a deposit would touch sum to no more
    /// than a `u64` holds. Nothing is asked of accounts that are refused
    /// before a balance is read.
    pub open spec fn spec_balances_fit(&self) -> bool {
        match self.custody() {
            Ok(custody) => self.transfer_account.data is None && custody.integrity_error(
                self.transfer_account.key,
                self.sender.key,
            ) is None ==> custody.spec_balances_fit(),
            Err(_) => true,
        }
    }

    /// Resolves the custody that the mint selects.
    pub fn resolve_custody(&self) -> (resolved: Result<Custody, TransferError>)
        ensures
            resolved == self.custody(),
    {
        Custody::resolve(
            &self.token_mint,
            self.transfer_account.wallet(),
            self.sender,
            self.escrow_token_account,
            self.sender_token_account,
        )
    }

    /// Whether the balances that a deposit would touch fit, as
    /// `schedule_transfer` requires.
    #[verifier::when_used_as_spec(spec_balances_fit)]
    pub fn balances_fit(&self) -> (fit: bool)
        ensures
            fit == self.spec_balances_fit(),
    {
        if self.transfer_account.is_initialized() {
            return true;
        }
        match self.resolve_custody() {
            Ok(custody) => match custody.check_integrity(
                &self.transfer_account.key,
                &self.sender.key,
            ) {
                Ok(()) => custody.balances_fit(),
                Err(_) => true,
            },
            Err(_) => true,
        }
    }

    fn store_custody(&mut self, moved: Custody)
        ensures
            *final(self) == old(self).with_custody(moved),
    {
        match moved {
            Custody::NativeCustody { custody, counterparty } => {
                self.transfer_account.lamports = custody.lamports;
                self.sender = counterparty;
            },
            Custody::TokenCustody { custody, counterparty, .. } => {
                self.sender_token_account = counterparty;
                self.escrow_token_account = Some(custody);
            },
        }
    }
}

/// The address of a derived record, without its bump seed.
pub open spec fn derived_key(derived_record: Option<(Seq<u8>, u8)>) -> Option<Seq<u8>> {
    match derived_record {
        Some(pair) => Some(pair.0),
        None => None,
    }
}

/// The bump seed of a derived record; zero where there is none.
pub open spec fn derived_bump(derived_record: Option<(Seq<u8>, u8)>) -> u8 {
    match derived_record {
        Some(pair) => pair.1,
        None => 0,
    }
}

/// Why scheduling is refused, if it is. `derived_record` is the address that
/// the sender and the nonce derive, with its bump seed, and `derived_custody`
/// the address derived for the custody of that record. The checks run in this
/// order, and the first that fails decides: the record account must be the
/// derived one; no record may exist there yet; the clock must be readable; the
/// rules of creation must hold; the custody account must be present, fit the
/// record and lie at the derived address; the sender's account must be
/// present and fit the sender; the sender must hold the amount.
pub open spec fn schedule_error(
    ctx: ScheduleTransfer,
    derived_record: Option<(Seq<u8>, u8)>,
    derived_custody: Option<Seq<u8>>,
    amount: u64,
    execute_after: i64,
    memo: Seq<char>,
    clock: Option<i64>,
) -> Option<TransferError> {
    if derived_key(derived_record) != Some(ctx.transfer_account.key@) {
        Some(TransferError::InvalidEscrowAccount)
    } else if ctx.transfer_account.data is Some {
        Some(TransferError::DuplicateSchedule)
    } else if clock is None {
        Some(TransferError::ClockUnavailable)
    } else if creation_error(amount, execute_after, memo, clock->0) is Some {
        creation_error(amount, execute_after, memo, clock->0)
    } else {
        match ctx.custody() {
            Err(e) => Some(e),
            Ok(custody) => custody.deposit_error(
                amount,
                ctx.transfer_account.key,
                ctx.sender.key,
                derived_custody,
            ),
        }
    }
}

/// The accounts as scheduling at `now` leaves them: the record initialized
/// with the given bump seed, the amount moved from the sender into custody.
pub open spec fn scheduled_accounts(
    ctx: ScheduleTransfer,
    bump: u8,
    amount: u64,
    execute_after: i64,
    nonce: [u8; 32],
    memo: String,
    now: i64,
) -> ScheduleTransfer {
    ScheduleTransfer {
        transfer_account: RecordAccount {
            data: Some(
                ScheduledTransfer::scheduled(
                    ctx.sender.key,
                    ctx.recipient,
                    amount,
                    ctx.token_mint,
                    execute_after,
                    now,
                    nonce,
                    memo,
                    bump,
                ),
            ),
            ..ctx.transfer_account
        },
        ..ctx
    }.with_custody(ctx.custody()->Ok_0.deposited(amount))
}

/// The event that scheduling emits.
pub open spec fn scheduled_event(
    ctx: ScheduleTransfer,
    amount: u64,
    execute_after: i64,
    nonce: [u8; 32],
) -> TransferScheduled {
    TransferScheduled {
        transfer_id: ctx.transfer_account.key,
        sender: ctx.sender.key,
        recipient: ctx.recipient,
        amount,
        token_mint: ctx.token_mint,
        execute_after,
        nonce,
    }
}

/// What scheduling returns: the event, or the reason of the refusal.
pub open spec fn schedule_outcome(
    ctx: ScheduleTransfer,
    derived_record: Option<(Seq<u8>, u8)>,
    derived_custody: Option<Seq<u8>>,
    amount: u64,
    execute_after: i64,
    nonce: [u8; 32],
    memo: Seq<char>,
    clock: Option<i64>,
) -> Result<TransferScheduled, TransferError> {
    match schedule_error(ctx, derived_record, derived_custody, amount, execute_after, memo, clock) {
        Some(e) => Err(e),
        None => Ok(scheduled_event(ctx, amount, execute_after, nonce)),
    }
}

/// The accounts after scheduling: changed as `scheduled_accounts` says where
/// it succeeds, untouched where it is refused.
pub open spec fn after_schedule(
    ctx: ScheduleTransfer,
    derived_record: Option<(Seq<u8>, u8)>,
    derived_custody: Option<Seq<u8>>,
    amount: u64,
    execute_after: i64,
    nonce: [u8; 32],
    memo: String,
    clock: Option<i64>,
) -> ScheduleTransfer {
    if schedule_error(ctx, derived_record, derived_custody, amount, execute_after, memo@, clock)
        is Some {
        ctx
    } else {
        scheduled_accounts(
            ctx,
            derived_bump(derived_record),
            amount,
            execute_after,
            nonce,
            memo,
            clock->0,
        )
    }
}

/// The address that the sender of the accounts and the nonce derive, with its
/// bump seed.
pub open spec fn record_of(ctx: ScheduleTransfer, nonce: [u8; 32]) -> Option<(Seq<u8>, u8)> {
    record_address(ctx.sender.key@, nonce@)
}

/// The address derived for the custody of the record account.
pub open spec fn custody_of(ctx: ScheduleTransfer) -> Option<Seq<u8>> {
    custody_address(ctx.transfer_account.key@, AssetKind::of(ctx.token_mint))
}

/// Schedules a transfer, given the addresses that derivation has produced:
/// `derived_record` for the sender and the nonce, `derived_custody` for the
/// custody of the record. The rest is as in `schedule_transfer`.
pub fn schedule_with_derived(
    ctx: &mut ScheduleTransfer,
    derived_record: Option<(Address, u8)>,
    derived_custody: Option<Address>,
    amount: u64,
    execute_after: i64,
    nonce: [u8; 32],
    memo: String,
    clock: Option<i64>,
) -> (outcome: Result<TransferScheduled, TransferError>)
    requires
        old(ctx).spec_balances_fit(),
    ensures
        outcome == schedule_outcome(
            *old(ctx),
            found_view(derived_record),
            address_view(derived_custody),
            amount,
            execute_after,
            nonce,
            memo@,
            clock,
        ),
        *final(ctx) == after_schedule(
            *old(ctx),
            found_view(derived_record),
            address_view(derived_custody),
            amount,
            execute_after,
            nonce,
            memo,
            clock,
        ),
        outcome is Ok ==> {
            &&& final(ctx).transfer_account.data matches Some(record)
            &&& record.is_valid()
            &&& record.spec_state() == TransferState::Scheduled
            &&& old(ctx).custody() matches Ok(before)
            &&& final(ctx).custody() matches Ok(after)
            &&& after.spec_custody_balance() == before.spec_custody_balance() + amount
            &&& after.spec_counterparty_balance() == before.spec_counterparty_balance() - amount
        },
{
    let bump = match derived_record {
        Some(pair) => {
            if pair.0 != ctx.transfer_account.key {
                return Err(TransferError::InvalidEscrowAccount);
            }
            pair.1
        },
        None => {
            return Err(TransferError::InvalidEscrowAccount);
        },
    };
    if ctx.transfer_account.is_initialized() {
        return Err(TransferError::DuplicateSchedule);
    }
    let now = match clock {
        Some(now) => now,
        None => {
            return Err(TransferError::ClockUnavailable);
        },
    };
    match ScheduledTransfer::validate_creation(amount, execute_after, memo.as_str(), now) {
        Err(e) => {
            return Err(e);
        },
        Ok(()) => {},
    }
    let custody = match ctx.resolve_custody() {
        Ok(custody) => custody,
        Err(e) => {
            return Err(e);
        },
    };
    let moved = match custody.deposit(
        amount,
        &ctx.transfer_account.key,
        &ctx.sender.key,
        &derived_custody,
    ) {
        Ok(moved) => moved,
        Err(e) => {
            return Err(e);
        },
    };
    let event = TransferScheduled {
        transfer_id: ctx.transfer_account.key,
        sender: ctx.sender.key,
        recipient: ctx.recipient,
        amount,
        token_mint: ctx.token_mint,
        execute_after,
        nonce,
    };
    // Every check has passed. The record is written first; custody moves last.
    ctx.transfer_account.data = Some(
        ScheduledTransfer::new(
            ctx.sender.key,
            ctx.recipient,
            amount,
            ctx.token_mint,
            execute_after,
            now,
            nonce,
            memo,
            bump,
        ),
    );
    ctx.store_custody(moved);
    Ok(event)
}

/// Schedules a transfer of `amount` from the sender to the recipient, to be
/// released after `execute_after`. `clock` is the current time, or `None`
/// where it could not be read.
///
/// The record lives at the address that the sender and the nonce derive, so a
/// pair that was scheduled once is refused for ever after. On success the
/// record is initialized in state `Scheduled`, its bump seed derives its own
/// address, the amount has left the sender's balance and entered custody, and
/// the event to emit is returned. On refusal the accounts are as they were.
pub fn schedule_transfer(
    ctx: &mut ScheduleTransfer,
    amount: u64,
    execute_after: i64,
    nonce: [u8; 32],
    memo: String,
    clock: Option<i64>,
) -> (outcome: Result<TransferScheduled, TransferError>)
    requires
        old(ctx).spec_balances_fit(),
    ensures
        outcome == schedule_outcome(
            *old(ctx),
            record_of(*old(ctx), nonce),
            custody_of(*old(ctx)),
            amount,
            execute_after,
            nonce,
            memo@,
            clock,
        ),
        *final(ctx) == after_schedule(
            *old(ctx),
            record_of(*old(ctx), nonce),
            custody_of(*old(ctx)),
            amount,
            execute_after,
            nonce,
            memo,
            clock,
        ),
        outcome is Ok ==> {
            &&& final(ctx).transfer_account.data matches Some(record)
            &&& record.is_valid()
            &&& record.spec_state() == TransferState::Scheduled
            &&& record.spec_authority().derived() == Some(final(ctx).transfer_account.key@)
            &&& old(ctx).custody() matches Ok(before)
            &&& final(ctx).custody() matches Ok(after)
            &&& after.spec_custody_balance() == before.spec_custody_balance() + amount
            &&& after.spec_counterparty_balance() == before.spec_counterparty_balance() - amount
        },
{
    let derived_record = derive_record_address(&ctx.sender.key, &nonce);
    let kind = AssetKind::of_mint(&ctx.token_mint);
    let derived_custody = derive_custody_address(&ctx.transfer_account.key, &kind);
    schedule_with_derived(
        ctx,
        derived_record,
        derived_custody,
        amount,
        execute_after,
        nonce,
        memo,
        clock,
    )
}

} // verus!
