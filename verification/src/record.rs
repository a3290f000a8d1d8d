//! The escrow record: one scheduled transfer and its lifecycle.

use vstd::prelude::*;
use vstd::utf8::encode_utf8;
use crate::address::Address;
use crate::asset::AssetKind;
use crate::custody::{AuthorityProof, Wallet};
use crate::derive::address_view;
use crate::error::TransferError;

verus! {

/// The longest memo that a record stores, in bytes.
pub const MAX_MEMO_LEN: usize = 200;

/// The furthest that a release time may lie ahead of the moment of
/// scheduling: thirty days, in seconds.
pub const MAX_DELAY: i64 = 2_592_000;

/// The bytes that a stored record takes besides its memo: three addresses, the
/// amount, four timestamps, two flags, the nonce and the bump seed.
pub const RECORD_FIXED_LEN: usize = 171;

/// The space allocated for a record when it is created, once and for all: the
/// eight-byte tag of the account, the fixed fields, the four-byte length of
/// the memo and the longest memo.
pub const RECORD_SPACE: usize = 383;

/// Where a record stands in its lifecycle. `Executed` and `Cancelled` are
/// terminal: no transition leaves them.
#[derive(Clone, Copy, Debug, PartialEq, Eq, Structural)]
pub enum TransferState {
    Scheduled,
    Executed,
    Cancelled,
}

/// One scheduled transfer, as it is stored at its record address.
#[derive(Clone, Debug, PartialEq, Eq)]
pub struct ScheduledTransfer {
    pub sender: Address,
    pub recipient: Address,
    pub amount: u64,
    pub token_mint: Address,
    pub execute_after: i64,
    pub created_at: i64,
    pub executed: bool,
    pub executed_at: i64,
    pub cancelled: bool,
    pub cancelled_at: i64,
    pub nonce: [u8; 32],
    pub memo: String,
    pub bump: u8,
}

/// The account at a record address as the ledger presents it: its address,
/// its native balance, and the record, if one was ever initialized there. An
/// address is initialized at most once, and a record is never removed.
#[derive(Clone, Debug, PartialEq, Eq)]
pub struct RecordAccount {
    pub key: Address,
    pub lamports: u64,
    pub data: Option<ScheduledTransfer>,
}

/// The read-only view of a record that a query returns: every field of the
/// record, and nothing that the record does not hold.
#[derive(Clone, Debug, PartialEq, Eq)]
pub struct TransferInfo {
    pub sender: Address,
    pub recipient: Address,
    pub amount: u64,
    pub token_mint: Address,
    pub execute_after: i64,
    pub created_at: i64,
    pub executed: bool,
    pub executed_at: i64,
    pub cancelled: bool,
    pub cancelled_at: i64,
    pub nonce: [u8; 32],
    pub memo: String,
    pub bump: u8,
}

/// The length of a memo as it is stored: the number of bytes of its UTF-8
/// encoding, not the number of its characters.
pub open spec fn memo_len(memo: Seq<char>) -> nat {
    encode_utf8(memo).len()
}

/// The first rule of creation that the given values break, if any: the amount
/// must be positive, the release time must lie after `now`, the memo must fit,
/// and the release time must lie no more than `MAX_DELAY` after `now`.
pub open spec fn creation_error(amount: u64, execute_after: i64, memo: Seq<char>, now: i64) -> Option<
    TransferError,
> {
    if amount == 0 {
        Some(TransferError::InvalidAmount)
    } else if execute_after <= now {
        Some(TransferError::InvalidExecutionTime)
    } else if memo_len(memo) > MAX_MEMO_LEN {
        Some(TransferError::MemoTooLong)
    } else if execute_after > now + MAX_DELAY {
        Some(TransferError::ExecutionTimeTooFar)
    } else {
        None
    }
}

impl ScheduledTransfer {
    /// The state that the two flags encode. A record that was executed counts
    /// as executed whatever its other flag says.
    pub open spec fn spec_state(&self) -> TransferState {
        if self.executed {
            TransferState::Executed
        } else if self.cancelled {
            TransferState::Cancelled
        } else {
            TransferState::Scheduled
        }
    }

    pub open spec fn spec_is_terminal(&self) -> bool {
        self.spec_state() != TransferState::Scheduled
    }

    pub open spec fn spec_asset_kind(&self) -> AssetKind {
        AssetKind::of(self.token_mint)
    }

    /// The invariant of a record: the rules of creation held when it was made,
    /// at most one terminal flag is set, and a timestamp is set only by its
    /// transition. An executed record was executed no earlier than its
    /// release time.
    pub open spec fn is_valid(&self) -> bool {
        &&& self.amount > 0
        &&& self.created_at < self.execute_after <= self.created_at + MAX_DELAY
        &&& memo_len(self.memo@) <= MAX_MEMO_LEN
        &&& !(self.executed && self.cancelled)
        &&& if self.executed {
            self.executed_at >= self.execute_after
        } else {
            self.executed_at == 0
        }
        &&& !self.cancelled ==> self.cancelled_at == 0
    }

    /// The bytes that the record takes when it is stored.
    pub open spec fn stored_len(&self) -> nat {
        8 + RECORD_FIXED_LEN as nat + 4 + memo_len(self.memo@)
    }

    /// The record that scheduling creates.
    pub open spec fn scheduled(
        sender: Address,
        recipient: Address,
        amount: u64,
        token_mint: Address,
        execute_after: i64,
        created_at: i64,
        nonce: [u8; 32],
        memo: String,
        bump: u8,
    ) -> ScheduledTransfer {
        ScheduledTransfer {
            sender,
            recipient,
            amount,
            token_mint,
            execute_after,
            created_at,
            executed: false,
            executed_at: 0,
            cancelled: false,
            cancelled_at: 0,
            nonce,
            memo,
            bump,
        }
    }

    /// The record after its execution at `now`.
    pub open spec fn executed_at_time(self, now: i64) -> ScheduledTransfer {
        ScheduledTransfer { executed: true, executed_at: now, ..self }
    }

    /// The record after its cancellation at `now`.
    pub open spec fn cancelled_at_time(self, now: i64) -> ScheduledTransfer {
        ScheduledTransfer { cancelled: true, cancelled_at: now, ..self }
    }

    /// The seeds by which the record speaks for itself when it releases its
    /// custody.
    pub open spec fn spec_authority(&self) -> AuthorityProof {
        AuthorityProof { sender: self.sender, nonce: self.nonce, bump: self.bump }
    }

    /// What a query shows of the record: every field.
    pub open spec fn spec_info(&self) -> TransferInfo {
        TransferInfo {
            sender: self.sender,
            recipient: self.recipient,
            amount: self.amount,
            token_mint: self.token_mint,
            execute_after: self.execute_after,
            created_at: self.created_at,
            executed: self.executed,
            executed_at: self.executed_at,
            cancelled: self.cancelled,
            cancelled_at: self.cancelled_at,
            nonce: self.nonce,
            memo: self.memo,
            bump: self.bump,
        }
    }

    /// Checks the rules of creation, in the order in which `creation_error`
    /// lists them.
    pub fn validate_creation(amount: u64, execute_after: i64, memo: &str, now: i64) -> (checked:
        Result<(), TransferError>)
        ensures
            checked == match creation_error(amount, execute_after, memo@, now) {
                Some(e) => Err::<(), TransferError>(e),
                None => Ok(()),
            },
    {
        if amount == 0 {
            return Err(TransferError::InvalidAmount);
        }
        if execute_after <= now {
            return Err(TransferError::InvalidExecutionTime);
        }
        if memo.as_bytes().len() > MAX_MEMO_LEN {
            return Err(TransferError::MemoTooLong);
        }
        if execute_after as i128 > now as i128 + MAX_DELAY as i128 {
            return Err(TransferError::ExecutionTimeTooFar);
        }
        Ok(())
    }

    /// Makes the record of a new transfer, in state `Scheduled`.
    pub fn new(
        sender: Address,
        recipient: Address,
        amount: u64,
        token_mint: Address,
        execute_after: i64,
        created_at: i64,
        nonce: [u8; 32],
        memo: String,
        bump: u8,
    ) -> (record: ScheduledTransfer)
        ensures
            record == ScheduledTransfer::scheduled(
                sender,
                recipient,
                amount,
                token_mint,
                execute_after,
                created_at,
                nonce,
                memo,
                bump,
            ),
            record.spec_state() == TransferState::Scheduled,
            creation_error(amount, execute_after, memo@, created_at) is None
                ==> record.is_valid(),
    {
        ScheduledTransfer {
            sender,
            recipient,
            amount,
            token_mint,
            execute_after,
            created_at,
            executed: false,
            executed_at: 0,
            cancelled: false,
            cancelled_at: 0,
            nonce,
            memo,
            bump,
        }
    }

    /// Whether the record fits the space that was allocated for it. Every
    /// valid record does.
    pub fn fits_allocation(&self) -> (fits: bool)
        ensures
            fits == (self.stored_len() <= RECORD_SPACE),
            self.is_valid() ==> fits,
    {
        self.memo.as_str().as_bytes().len() <= MAX_MEMO_LEN
    }

    /// The state of the record.
    #[verifier::when_used_as_spec(spec_state)]
    pub fn state(&self) -> (state: TransferState)
        ensures
            state == self.spec_state(),
    {
        if self.executed {
            TransferState::Executed
        } else if self.cancelled {
            TransferState::Cancelled
        } else {
            TransferState::Scheduled
        }
    }

    /// Whether the record has reached a terminal state.
    #[verifier::when_used_as_spec(spec_is_terminal)]
    pub fn is_terminal(&self) -> (terminal: bool)
        ensures
            terminal == self.spec_is_terminal(),
            terminal == (self.executed || self.cancelled),
    {
        self.executed || self.cancelled
    }

    /// The kind of asset that the record holds in custody.
    #[verifier::when_used_as_spec(spec_asset_kind)]
    pub fn asset_kind(&self) -> (kind: AssetKind)
        ensures
            kind == self.spec_asset_kind(),
    {
        AssetKind::of_mint(&self.token_mint)
    }

    /// The seeds by which the record speaks for itself when it releases its
    /// custody.
    #[verifier::when_used_as_spec(spec_authority)]
    pub fn authority(&self) -> (proof: AuthorityProof)
        ensures
            proof == self.spec_authority(),
    {
        AuthorityProof { sender: self.sender, nonce: self.nonce, bump: self.bump }
    }

    /// Marks the record executed at `now`.
    pub fn mark_executed(&mut self, now: i64)
        ensures
            *final(self) == old(self).executed_at_time(now),
    {
        self.executed = true;
        self.executed_at = now;
    }

    /// Marks the record cancelled at `now`.
    pub fn mark_cancelled(&mut self, now: i64)
        ensures
            *final(self) == old(self).cancelled_at_time(now),
    {
        self.cancelled = true;
        self.cancelled_at = now;
    }

    /// The view of the record that a query returns.
    #[verifier::when_used_as_spec(spec_info)]
    pub fn info(&self) -> (info: TransferInfo)
        ensures
            info == self.spec_info(),
    {
        TransferInfo {
            sender: self.sender,
            recipient: self.recipient,
            amount: self.amount,
            token_mint: self.token_mint,
            execute_after: self.execute_after,
            created_at: self.created_at,
            executed: self.executed,
            executed_at: self.executed_at,
            cancelled: self.cancelled,
            cancelled_at: self.cancelled_at,
            nonce: self.nonce,
            memo: self.memo.clone(),
            bump: self.bump,
        }
    }
}

impl RecordAccount {
    /// The account seen as a holder of native balance.
    pub open spec fn spec_wallet(&self) -> Wallet {
        Wallet { key: self.key, lamports: self.lamports }
    }

    /// Whether a record was initialized at this address.
    pub open spec fn spec_is_initialized(&self) -> bool {
        self.data is Some
    }

    /// The address that the seeds of the record in the account derive; none
    /// where the account holds no record.
    pub open spec fn derived_authority(&self) -> Option<Seq<u8>> {
        match self.data {
            Some(record) => record.spec_authority().derived(),
            None => None,
        }
    }

    /// Derives the address for which the record in the account speaks.
    pub fn derive_authority(&self) -> (authority: Option<Address>)
        ensures
            address_view(authority) == self.derived_authority(),
    {
        match &self.data {
            Some(record) => record.authority().derive(),
            None => None,
        }
    }

    /// The account seen as a holder of native balance.
    #[verifier::when_used_as_spec(spec_wallet)]
    pub fn wallet(&self) -> (wallet: Wallet)
        ensures
            wallet == self.spec_wallet(),
    {
        Wallet { key: self.key, lamports: self.lamports }
    }

    /// Whether a record was initialized at this address.
    #[verifier::when_used_as_spec(spec_is_initialized)]
    pub fn is_initialized(&self) -> (initialized: bool)
        ensures
            initialized == self.spec_is_initialized(),
    {
        self.data.is_some()
    }
}

} // verus!
