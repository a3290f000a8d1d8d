//! Deterministic addresses: where a record lives, and where its custody lives.
//!
//! A record's address is derived from a fixed tag, the sender and the nonce.
//! Nothing else enters the derivation, so one (sender, nonce) pair names one
//! record for ever. The custody address is derived from the record's address,
//! which makes the record the only party that can release what is held there.

use vstd::prelude::*;
use crate::address::{
    associated_token_program, associated_token_program_bytes, token_program,
    token_program_bytes, Address,
};
use crate::asset::AssetKind;

verus! {

/// The tag that namespaces record addresses: the ASCII bytes of `transfer`.
pub const RECORD_SEED: [u8; 8] = [116, 114, 97, 110, 115, 102, 101, 114];

/// The address of the program that owns every record.
pub const PROGRAM_ID: [u8; 32] = [
    6, 143, 227, 12, 45, 81, 215, 46, 227, 46, 190, 201, 41, 107, 10, 37,
    48, 190, 4, 188, 57, 39, 92, 235, 16, 126, 167, 253, 200, 0, 0, 0,
];

/// The address and bump seed that `Pubkey::try_find_program_address` finds for
/// three seeds under a program, or `None` where it finds none.
pub uninterp spec fn found_program_address(
    first: Seq<u8>,
    second: Seq<u8>,
    third: Seq<u8>,
    program_id: Seq<u8>,
) -> Option<(Seq<u8>, u8)>;

/// The address that `Pubkey::create_program_address` makes of three seeds and a
/// bump seed under a program, or `None` where it refuses them.
pub uninterp spec fn created_program_address(
    first: Seq<u8>,
    second: Seq<u8>,
    third: Seq<u8>,
    bump: u8,
    program_id: Seq<u8>,
) -> Option<Seq<u8>>;

/// The bytes of a found address, with its bump seed.
pub open spec fn found_view(found: Option<(Address, u8)>) -> Option<(Seq<u8>, u8)> {
    match found {
        Some(pair) => Some((pair.0@, pair.1)),
        None => None,
    }
}

/// The bytes of an address that may be absent.
pub open spec fn address_view(address: Option<Address>) -> Option<Seq<u8>> {
    match address {
        Some(a) => Some(a@),
        None => None,
    }
}

/// Calls `Pubkey::try_find_program_address` on the three seeds. Trusted: the
/// result is a function of the seeds and the program alone, and an address
/// that is found is the one that `Pubkey::create_program_address` makes of the
/// same seeds followed by the bump seed that is returned with it (the search
/// returns the first address that this very call accepts).
#[verifier::external_body]
fn try_find_program_address(
    first: &[u8],
    second: &[u8; 32],
    third: &[u8; 32],
    program_id: &Address,
) -> (found: Option<(Address, u8)>)
    ensures
        found_view(found) == found_program_address(first@, second@, third@, program_id@),
        found matches Some(pair) ==> created_program_address(
            first@,
            second@,
            third@,
            pair.1,
            program_id@,
        ) == Some(pair.0@),
{
    let id = anchor_lang::prelude::Pubkey::new_from_array(program_id.bytes);
    let seeds: [&[u8]; 3] = [first, &second[..], &third[..]];
    match anchor_lang::prelude::Pubkey::try_find_program_address(&seeds, &id) {
        Some((key, bump)) => Some((Address { bytes: key.to_bytes() }, bump)),
        None => None,
    }
}

/// Calls `Pubkey::create_program_address` on the three seeds followed by the
/// bump seed. Trusted: the result is a function of the seeds and the program
/// alone; a refusal of the seeds comes back as `None`.
#[verifier::external_body]
fn create_program_address(
    first: &[u8],
    second: &[u8; 32],
    third: &[u8; 32],
    bump: u8,
    program_id: &Address,
) -> (created: Option<Address>)
    ensures
        address_view(created) == created_program_address(
            first@,
            second@,
            third@,
            bump,
            program_id@,
        ),
{
    let id = anchor_lang::prelude::Pubkey::new_from_array(program_id.bytes);
    let seeds: [&[u8]; 4] = [first, &second[..], &third[..], &[bump]];
    match anchor_lang::prelude::Pubkey::create_program_address(&seeds, &id) {
        Ok(key) => Some(Address { bytes: key.to_bytes() }),
        Err(_) => None,
    }
}

/// The address of the record of a (sender, nonce) pair, with the bump seed that
/// completes its derivation.
pub open spec fn record_address(sender: Seq<u8>, nonce: Seq<u8>) -> Option<(Seq<u8>, u8)> {
    found_program_address(RECORD_SEED@, sender, nonce, PROGRAM_ID@)
}

/// The address for which the seeds of a record speak: the one that the tag,
/// the pair and the bump seed derive, if they derive one. Whoever presents
/// seeds that derive a record's address acts as that record.
pub open spec fn record_authority(sender: Seq<u8>, nonce: Seq<u8>, bump: u8) -> Option<Seq<u8>> {
    created_program_address(RECORD_SEED@, sender, nonce, bump, PROGRAM_ID@)
}

/// The address at which the custody of a record is held: the record's own
/// address for the native asset; for a token the record's associated token
/// account, which is the address found for the record, the token program and
/// the mint under the associated-token-account program.
pub open spec fn custody_address(record: Seq<u8>, asset: AssetKind) -> Option<Seq<u8>> {
    match asset {
        AssetKind::Native => Some(record),
        AssetKind::Token { mint } => match found_program_address(
            record,
            token_program_bytes(),
            mint@,
            associated_token_program_bytes(),
        ) {
            Some(pair) => Some(pair.0),
            None => None,
        },
    }
}

/// Derives the address of the record that belongs to `sender` and `nonce`,
/// together with its bump seed. The result depends on the pair alone, and the
/// bump seed that comes with an address proves that address.
pub fn derive_record_address(sender: &Address, nonce: &[u8; 32]) -> (derived: Option<
    (Address, u8),
>)
    ensures
        found_view(derived) == record_address(sender@, nonce@),
        derived matches Some(pair) ==> record_authority(sender@, nonce@, pair.1) == Some(pair.0@),
{
    let program = Address::new(PROGRAM_ID);
    let tag = RECORD_SEED;
    try_find_program_address(tag.as_slice(), &sender.bytes, nonce, &program)
}

/// Derives the address for which the seeds of a record speak.
pub fn derive_authority(sender: &Address, nonce: &[u8; 32], bump: u8) -> (authority: Option<
    Address,
>)
    ensures
        address_view(authority) == record_authority(sender@, nonce@, bump),
{
    let program = Address::new(PROGRAM_ID);
    let tag = RECORD_SEED;
    create_program_address(tag.as_slice(), &sender.bytes, nonce, bump, &program)
}

/// Checks that `bump` completes the derivation of `address` from `sender` and
/// `nonce`.
pub fn verify_record_address(address: &Address, sender: &Address, nonce: &[u8; 32], bump: u8) -> (ok:
    bool)
    ensures
        ok == (record_authority(sender@, nonce@, bump) == Some(address@)),
{
    match derive_authority(sender, nonce, bump) {
        Some(made) => made == *address,
        None => false,
    }
}

/// Derives the address that holds the custody of the record at `record` for
/// the given kind of asset.
pub fn derive_custody_address(record: &Address, asset: &AssetKind) -> (derived: Option<Address>)
    ensures
        address_view(derived) == custody_address(record@, *asset),
{
    match asset {
        AssetKind::Native => Some(*record),
        AssetKind::Token { mint } => {
            let tokens = token_program();
            let program = associated_token_program();
            match try_find_program_address(
                record.bytes.as_slice(),
                &tokens.bytes,
                &mint.bytes,
                &program,
            ) {
                Some(pair) => Some(pair.0),
                None => None,
            }
        },
    }
}

} // verus!
