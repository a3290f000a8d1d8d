//! The two kinds of asset that a transfer can carry.

use vstd::prelude::*;
use crate::address::{system_program, system_program_bytes, Address};

verus! {

/// What a transfer moves: the native asset, or a fungible token named by its
/// mint.
#[derive(Clone, Copy, Debug, PartialEq, Eq)]
pub enum AssetKind {
    Native,
    Token { mint: Address },
}

impl AssetKind {
    /// The kind that a mint address stands for: the system program's address
    /// means the native asset, any other address is the mint of a token.
    pub open spec fn of(mint: Address) -> AssetKind {
        if mint@ == system_program_bytes() {
            AssetKind::Native
        } else {
            AssetKind::Token { mint }
        }
    }

    /// The mint address that stands for this kind.
    pub open spec fn mint_bytes(self) -> Seq<u8> {
        match self {
            AssetKind::Native => system_program_bytes(),
            AssetKind::Token { mint } => mint@,
        }
    }

    /// Resolves a mint address to the kind of asset it names.
    pub fn of_mint(mint: &Address) -> (kind: AssetKind)
        ensures
            kind == AssetKind::of(*mint),
    {
        let native = system_program();
        if *mint == native {
            AssetKind::Native
        } else {
            AssetKind::Token { mint: *mint }
        }
    }

    /// The mint address under which a record stores this kind.
    pub fn mint(&self) -> (mint: Address)
        ensures
            mint@ == self.mint_bytes(),
    {
        match self {
            AssetKind::Native => system_program(),
            AssetKind::Token { mint } => *mint,
        }
    }

    /// Whether this is the native asset.
    pub fn is_native(&self) -> (native: bool)
        ensures
            native == (*self is Native),
    {
        match self {
            AssetKind::Native => true,
            AssetKind::Token { .. } => false,
        }
    }
}

} // verus!
