//! The custody adapter: how an amount enters and leaves custody.
//!
//! Custody is held either as a native balance at the record's own address or
//! as a token balance in an account that the record owns. Both kinds answer to
//! the same two operations, `deposit` and `release`, which refuse accounts
//! that do not fit the record and otherwise move exactly the amount asked for
//! from one balance to the other.

use vstd::prelude::*;
use crate::address::Address;
use crate::asset::AssetKind;
use crate::derive::{address_view, derive_authority, record_authority};
use crate::error::TransferError;

verus! {

/// An account that holds a native balance.
#[derive(Clone, Copy, Debug, PartialEq, Eq)]
pub struct Wallet {
    pub key: Address,
    pub lamports: u64,
}

/// An account that holds a balance of one token for one owner.
#[derive(Clone, Copy, Debug, PartialEq, Eq)]
pub struct TokenAccount {
    pub key: Address,
    pub owner: Address,
    pub mint: Address,
    pub amount: u64,
}

/// The seeds that complete the derivation of a record's address. Whoever
/// presents seeds that derive the record's address speaks for the record; no
/// signature can take their place.
#[derive(Clone, Copy, Debug, PartialEq, Eq)]
pub struct AuthorityProof {
    pub sender: Address,
    pub nonce: [u8; 32],
    pub bump: u8,
}

/// The custody of one record together with the account on the other side of
/// the movement: the payer's on a deposit, the beneficiary's on a release. For
/// a token the account on the other side may be missing; custody is held to
/// the record before that is looked at.
#[derive(Clone, Copy, Debug, PartialEq, Eq)]
#[allow(inconsistent_fields)]
pub enum Custody {
    NativeCustody { custody: Wallet, counterparty: Wallet },
    TokenCustody { mint: Address, custody: TokenAccount, counterparty: Option<TokenAccount> },
}

/// `Ok` where no rule is broken, else the error of the rule that is.
pub open spec fn refusal(error: Option<TransferError>) -> Result<(), TransferError> {
    match error {
        Some(e) => Err(e),
        None => Ok(()),
    }
}

impl AuthorityProof {
    /// The address that the seeds derive, if they derive one.
    pub open spec fn derived(self) -> Option<Seq<u8>> {
        record_authority(self.sender@, self.nonce@, self.bump)
    }

    /// Derives the address that the seeds speak for.
    pub fn derive(&self) -> (authority: Option<Address>)
        ensures
            address_view(authority) == self.derived(),
    {
        derive_authority(&self.sender, &self.nonce, self.bump)
    }
}

impl Custody {
    /// The custody that a mint selects among the accounts at hand. The system
    /// program's address selects the two wallets. Any other mint selects the
    /// two token accounts; the custody account must be there, and its absence
    /// is an invalid escrow account.
    pub open spec fn resolved(
        mint: Address,
        custody_wallet: Wallet,
        counterparty_wallet: Wallet,
        custody_tokens: Option<TokenAccount>,
        counterparty_tokens: Option<TokenAccount>,
    ) -> Result<Custody, TransferError> {
        match AssetKind::of(mint) {
            AssetKind::Native => Ok(
                Custody::NativeCustody { custody: custody_wallet, counterparty: counterparty_wallet },
            ),
            AssetKind::Token { mint } => match custody_tokens {
                None => Err(TransferError::InvalidEscrowAccount),
                Some(custody) => Ok(
                    Custody::TokenCustody { mint, custody, counterparty: counterparty_tokens },
                ),
            },
        }
    }

    /// The kind of asset held.
    pub open spec fn asset(self) -> AssetKind {
        match self {
            Custody::NativeCustody { .. } => AssetKind::Native,
            Custody::TokenCustody { mint, .. } => AssetKind::Token { mint },
        }
    }

    /// The address of the custody account.
    pub open spec fn custody_key(self) -> Address {
        match self {
            Custody::NativeCustody { custody, .. } => custody.key,
            Custody::TokenCustody { custody, .. } => custody.key,
        }
    }

    /// The balance in custody.
    pub open spec fn spec_custody_balance(&self) -> u64 {
        match *self {
            Custody::NativeCustody { custody, .. } => custody.lamports,
            Custody::TokenCustody { custody, .. } => custody.amount,
        }
    }

    /// The balance on the other side; zero where the account is missing.
    pub open spec fn spec_counterparty_balance(&self) -> u64 {
        match *self {
            Custody::NativeCustody { counterparty, .. } => counterparty.lamports,
            Custody::TokenCustody { counterparty: Some(account), .. } => account.amount,
            Custody::TokenCustody { counterparty: None, .. } => 0,
        }
    }

    /// The two balances belong to one supply, whose total a `u64` can hold.
    pub open spec fn spec_balances_fit(&self) -> bool {
        self.spec_custody_balance() + self.spec_counterparty_balance() <= u64::MAX
    }

    /// The same accounts with the two balances replaced.
    pub open spec fn with_balances(self, custody_balance: u64, counterparty_balance: u64) -> Custody {
        match self {
            Custody::NativeCustody { custody, counterparty } => Custody::NativeCustody {
                custody: Wallet { key: custody.key, lamports: custody_balance },
                counterparty: Wallet { key: counterparty.key, lamports: counterparty_balance },
            },
            Custody::TokenCustody { mint, custody, counterparty } => Custody::TokenCustody {
                mint,
                custody: TokenAccount {
                    key: custody.key,
                    owner: custody.owner,
                    mint: custody.mint,
                    amount: custody_balance,
                },
                counterparty: match counterparty {
                    Some(account) => Some(
                        TokenAccount {
                            key: account.key,
                            owner: account.owner,
                            mint: account.mint,
                            amount: counterparty_balance,
                        },
                    ),
                    None => None,
                },
            },
        }
    }

    /// The first way in which the custody account fails to fit the record at
    /// `record`, if any. Native custody lives at the record's own address.
    /// Token custody is owned by the record and holds the declared mint.
    pub open spec fn custody_error(self, record: Address) -> Option<TransferError> {
        match self {
            Custody::NativeCustody { custody, .. } => {
                if custody.key@ != record@ {
                    Some(TransferError::InvalidEscrowAccount)
                } else {
                    None
                }
            },
            Custody::TokenCustody { mint, custody, .. } => {
                if custody.owner@ != record@ {
                    Some(TransferError::InvalidEscrowAccount)
                } else if custody.mint@ != mint@ {
                    Some(TransferError::InvalidTokenMint)
                } else {
                    None
                }
            },
        }
    }

    /// The first way in which the account on the other side fails to fit the
    /// party `holder`, if any. The wallet is the holder's own. The token
    /// account is there, is owned by the holder and holds the declared mint.
    pub open spec fn counterparty_error(self, holder: Address) -> Option<TransferError> {
        match self {
            Custody::NativeCustody { counterparty, .. } => {
                if counterparty.key@ != holder@ {
                    Some(TransferError::InvalidTokenAccount)
                } else {
                    None
                }
            },
            Custody::TokenCustody { mint, counterparty, .. } => match counterparty {
                None => Some(TransferError::InvalidTokenAccount),
                Some(account) => {
                    if account.owner@ != holder@ {
                        Some(TransferError::InvalidTokenAccount)
                    } else if account.mint@ != mint@ {
                        Some(TransferError::InvalidTokenMint)
                    } else {
                        None
                    }
                },
            },
        }
    }

    /// The first way in which the accounts fail to fit the record at `record`
    /// and the party `holder` on the other side, if any: custody is judged
    /// first, the other side after it.
    pub open spec fn integrity_error(self, record: Address, holder: Address) -> Option<
        TransferError,
    > {
        if self.custody_error(record) is Some {
            self.custody_error(record)
        } else {
            self.counterparty_error(holder)
        }
    }

    /// Why a deposit of `amount` by `payer` into the custody of the record at
    /// `record` is refused, if it is. In this order: the custody account does
    /// not fit the record; it is not at `derived_custody`, the address
    /// derived for the custody of the record; the payer's account does not
    /// fit the payer; the payer holds less than the amount.
    pub open spec fn deposit_error(
        self,
        amount: u64,
        record: Address,
        payer: Address,
        derived_custody: Option<Seq<u8>>,
    ) -> Option<TransferError> {
        if self.custody_error(record) is Some {
            self.custody_error(record)
        } else if derived_custody != Some(self.custody_key()@) {
            Some(TransferError::InvalidEscrowAccount)
        } else if self.counterparty_error(payer) is Some {
            self.counterparty_error(payer)
        } else if self.spec_counterparty_balance() < amount {
            Some(TransferError::InsufficientFunds)
        } else {
            None
        }
    }

    /// Why a release of `amount` to `beneficiary` from the custody of the
    /// record at `record` is refused, if it is. In this order: the custody
    /// account does not fit the record; the beneficiary's account does not fit
    /// the beneficiary; custody holds less than the amount;
    /// `derived_authority`, the address that the presented seeds derive, is
    /// not the record's address. The authority is asked for last, at the
    /// moment at which the amount would move.
    pub open spec fn release_error(
        self,
        amount: u64,
        record: Address,
        beneficiary: Address,
        derived_authority: Option<Seq<u8>>,
    ) -> Option<TransferError> {
        if self.integrity_error(record, beneficiary) is Some {
            self.integrity_error(record, beneficiary)
        } else if self.spec_custody_balance() < amount {
            Some(TransferError::InsufficientFunds)
        } else if derived_authority != Some(record@) {
            Some(TransferError::InvalidEscrowAccount)
        } else {
            None
        }
    }

    /// The accounts after `amount` has moved into custody.
    pub open spec fn deposited(self, amount: u64) -> Custody {
        self.with_balances(
            (self.spec_custody_balance() + amount) as u64,
            (self.spec_counterparty_balance() - amount) as u64,
        )
    }

    /// The accounts after `amount` has moved out of custody.
    pub open spec fn released(self, amount: u64) -> Custody {
        self.with_balances(
            (self.spec_custody_balance() - amount) as u64,
            (self.spec_counterparty_balance() + amount) as u64,
        )
    }

    /// Resolves, once for an operation, the custody that a mint selects among
    /// the accounts at hand.
    pub fn resolve(
        mint: &Address,
        custody_wallet: Wallet,
        counterparty_wallet: Wallet,
        custody_tokens: Option<TokenAccount>,
        counterparty_tokens: Option<TokenAccount>,
    ) -> (custody: Result<Custody, TransferError>)
        ensures
            custody == Custody::resolved(
                *mint,
                custody_wallet,
                counterparty_wallet,
                custody_tokens,
                counterparty_tokens,
            ),
            custody matches Ok(c) ==> c.asset() == AssetKind::of(*mint),
    {
        match AssetKind::of_mint(mint) {
            AssetKind::Native => Ok(
                Custody::NativeCustody { custody: custody_wallet, counterparty: counterparty_wallet },
            ),
            AssetKind::Token { mint } => match custody_tokens {
                None => Err(TransferError::InvalidEscrowAccount),
                Some(custody) => Ok(
                    Custody::TokenCustody { mint, custody, counterparty: counterparty_tokens },
                ),
            },
        }
    }

    /// The balance in custody.
    #[verifier::when_used_as_spec(spec_custody_balance)]
    pub fn custody_balance(&self) -> (balance: u64)
        ensures
            balance == self.spec_custody_balance(),
    {
        match self {
            Custody::NativeCustody { custody, .. } => custody.lamports,
            Custody::TokenCustody { custody, .. } => custody.amount,
        }
    }

    /// The balance on the other side; zero where the account is missing.
    #[verifier::when_used_as_spec(spec_counterparty_balance)]
    pub fn counterparty_balance(&self) -> (balance: u64)
        ensures
            balance == self.spec_counterparty_balance(),
    {
        match self {
            Custody::NativeCustody { counterparty, .. } => counterparty.lamports,
            Custody::TokenCustody { counterparty: Some(account), .. } => account.amount,
            Custody::TokenCustody { counterparty: None, .. } => 0,
        }
    }

    /// Whether the sum of the two balances fits in a `u64`. `deposit` and
    /// `release` require it of accounts that fit the record and the party on
    /// the other side.
    #[verifier::when_used_as_spec(spec_balances_fit)]
    pub fn balances_fit(&self) -> (fit: bool)
        ensures
            fit == self.spec_balances_fit(),
    {
        self.custody_balance() <= u64::MAX - self.counterparty_balance()
    }

    /// Checks that the custody account fits the record.
    pub fn check_custody(&self, record: &Address) -> (checked: Result<(), TransferError>)
        ensures
            checked == refusal(self.custody_error(*record)),
    {
        match self {
            Custody::NativeCustody { custody, .. } => {
                if custody.key != *record {
                    Err(TransferError::InvalidEscrowAccount)
                } else {
                    Ok(())
                }
            },
            Custody::TokenCustody { mint, custody, .. } => {
                if custody.owner != *record {
                    Err(TransferError::InvalidEscrowAccount)
                } else if custody.mint != *mint {
                    Err(TransferError::InvalidTokenMint)
                } else {
                    Ok(())
                }
            },
        }
    }

    /// Checks that the account on the other side fits the holder.
    pub fn check_counterparty(&self, holder: &Address) -> (checked: Result<(), TransferError>)
        ensures
            checked == refusal(self.counterparty_error(*holder)),
    {
        match self {
            Custody::NativeCustody { counterparty, .. } => {
                if counterparty.key != *holder {
                    Err(TransferError::InvalidTokenAccount)
                } else {
                    Ok(())
                }
            },
            Custody::TokenCustody { mint, counterparty, .. } => match counterparty {
                None => Err(TransferError::InvalidTokenAccount),
                Some(account) => {
                    if account.owner != *holder {
                        Err(TransferError::InvalidTokenAccount)
                    } else if account.mint != *mint {
                        Err(TransferError::InvalidTokenMint)
                    } else {
                        Ok(())
                    }
                },
            },
        }
    }

    /// Checks that the accounts fit the record and the holder, custody first.
    pub fn check_integrity(&self, record: &Address, holder: &Address) -> (checked: Result<
        (),
        TransferError,
    >)
        ensures
            checked == refusal(self.integrity_error(*record, *holder)),
    {
        match self.check_custody(record) {
            Err(e) => Err(e),
            Ok(()) => self.check_counterparty(holder),
        }
    }

    fn set_balances(&self, custody_balance: u64, counterparty_balance: u64) -> (moved: Custody)
        ensures
            moved == self.with_balances(custody_balance, counterparty_balance),
    {
        match self {
            Custody::NativeCustody { custody, counterparty } => Custody::NativeCustody {
                custody: Wallet { key: custody.key, lamports: custody_balance },
                counterparty: Wallet { key: counterparty.key, lamports: counterparty_balance },
            },
            Custody::TokenCustody { mint, custody, counterparty } => Custody::TokenCustody {
                mint: *mint,
                custody: TokenAccount {
                    key: custody.key,
                    owner: custody.owner,
                    mint: custody.mint,
                    amount: custody_balance,
                },
                counterparty: match counterparty {
                    Some(account) => Some(
                        TokenAccount {
                            key: account.key,
                            owner: account.owner,
                            mint: account.mint,
                            amount: counterparty_balance,
                        },
                    ),
                    None => None,
                },
            },
        }
    }

    fn key(&self) -> (key: Address)
        ensures
            key == self.custody_key(),
    {
        match self {
            Custody::NativeCustody { custody, .. } => custody.key,
            Custody::TokenCustody { custody, .. } => custody.key,
        }
    }

    /// Moves `amount` from the payer's account into custody, or refuses and
    /// says why. `derived_custody` is the address derived for the custody of
    /// the record. The payer loses exactly what custody gains.
    pub fn deposit(
        self,
        amount: u64,
        record: &Address,
        payer: &Address,
        derived_custody: &Option<Address>,
    ) -> (moved: Result<Custody, TransferError>)
        requires
            self.integrity_error(*record, *payer) is None ==> self.spec_balances_fit(),
        ensures
            moved == match self.deposit_error(
                amount,
                *record,
                *payer,
                address_view(*derived_custody),
            ) {
                Some(e) => Err::<Custody, TransferError>(e),
                None => Ok(self.deposited(amount)),
            },
            moved matches Ok(after) ==> {
                &&& after.spec_custody_balance() == self.spec_custody_balance() + amount
                &&& after.spec_counterparty_balance() == self.spec_counterparty_balance() - amount
            },
    {
        match self.check_custody(record) {
            Err(e) => {
                return Err(e);
            },
            Ok(()) => {},
        }
        let at_derived = match derived_custody {
            Some(expected) => *expected == self.key(),
            None => false,
        };
        if !at_derived {
            return Err(TransferError::InvalidEscrowAccount);
        }
        match self.check_counterparty(payer) {
            Err(e) => {
                return Err(e);
            },
            Ok(()) => {},
        }
        if self.counterparty_balance() < amount {
            return Err(TransferError::InsufficientFunds);
        }
        Ok(
            self.set_balances(
                self.custody_balance() + amount,
                self.counterparty_balance() - amount,
            ),
        )
    }

    /// Moves `amount` out of custody to the beneficiary's account, or refuses
    /// and says why. `derived_authority` is the address that the seeds
    /// presented for the release derive: only the record itself releases its
    /// custody. Custody loses exactly what the beneficiary gains.
    pub fn release(
        self,
        amount: u64,
        record: &Address,
        beneficiary: &Address,
        derived_authority: &Option<Address>,
    ) -> (moved: Result<Custody, TransferError>)
        requires
            self.integrity_error(*record, *beneficiary) is None ==> self.spec_balances_fit(),
        ensures
            moved == match self.release_error(
                amount,
                *record,
                *beneficiary,
                address_view(*derived_authority),
            ) {
                Some(e) => Err::<Custody, TransferError>(e),
                None => Ok(self.released(amount)),
            },
            moved matches Ok(after) ==> {
                &&& after.spec_custody_balance() == self.spec_custody_balance() - amount
                &&& after.spec_counterparty_balance() == self.spec_counterparty_balance() + amount
            },
    {
        match self.check_integrity(record, beneficiary) {
            Err(e) => {
                return Err(e);
            },
            Ok(()) => {},
        }
        if self.custody_balance() < amount {
            return Err(TransferError::InsufficientFunds);
        }
        let authorized = match derived_authority {
            Some(authority) => *authority == *record,
            None => false,
        };
        if !authorized {
            return Err(TransferError::InvalidEscrowAccount);
        }
        Ok(
            self.set_balances(
                self.custody_balance() - amount,
                self.counterparty_balance() + amount,
            ),
        )
    }
}

} // verus!
