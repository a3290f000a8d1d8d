//! Account addresses and the well-known program addresses.

use vstd::prelude::*;
use vstd::std_specs::cmp::PartialEqSpecImpl;

verus! {

/// A 32-byte account address. Its view is the sequence of its bytes.
#[derive(Clone, Copy, Debug)]
pub struct Address {
    pub bytes: [u8; 32],
}

impl View for Address {
    type V = Seq<u8>;

    open spec fn view(&self) -> Seq<u8> {
        self.bytes@
    }
}

impl PartialEq for Address {
    fn eq(&self, other: &Address) -> (equal: bool) {
        let mut i: usize = 0;
        while i < 32
            invariant
                i <= 32,
                forall|j: int| 0 <= j < i ==> self.bytes[j] == other.bytes[j],
            decreases 32 - i,
        {
            if self.bytes[i] != other.bytes[i] {
                return false;
            }
            i = i + 1;
        }
        assert(self@ =~= other@);
        true
    }
}

impl Eq for Address {

}

impl PartialEqSpecImpl for Address {
    open spec fn obeys_eq_spec() -> bool {
        true
    }

    open spec fn eq_spec(&self, other: &Address) -> bool {
        self@ == other@
    }
}

impl Address {
    /// An address made of the given bytes.
    pub fn new(bytes: [u8; 32]) -> (address: Address)
        ensures
            address.bytes == bytes,
            address@ == bytes@,
    {
        Address { bytes }
    }

    /// The bytes of the address.
    pub fn to_bytes(&self) -> (bytes: [u8; 32])
        ensures
            bytes == self.bytes,
            bytes@ == self@,
    {
        self.bytes
    }
}

/// The bytes of the system program's address.
pub open spec fn system_program_bytes() -> Seq<u8> {
    Seq::new(32, |i: int| 0u8)
}

/// The bytes of the token program's address.
pub open spec fn token_program_bytes() -> Seq<u8> {
    seq![
        6u8, 221, 246, 225, 215, 101, 161, 147, 217, 203, 225, 70, 206, 235, 121, 172,
        28, 180, 133, 237, 95, 91, 55, 145, 58, 140, 245, 133, 126, 255, 0, 169,
    ]
}

/// The bytes of the associated-token-account program's address.
pub open spec fn associated_token_program_bytes() -> Seq<u8> {
    seq![
        140u8, 151, 37, 143, 78, 36, 137, 241, 187, 61, 16, 41, 20, 142, 13, 131,
        11, 90, 19, 153, 218, 255, 16, 132, 4, 142, 123, 216, 219, 233, 248, 89,
    ]
}

/// The system program's address, read from `anchor_lang::system_program::ID`.
/// Trusted: that constant is the base-58 string of thirty-two `1`s, which
/// stands for thirty-two zero bytes.
#[verifier::external_body]
fn system_program_id() -> (id: Address)
    ensures
        id@ == system_program_bytes(),
{
    Address { bytes: anchor_lang::system_program::ID.to_bytes() }
}

/// The token program's address, read from `anchor_spl::token::ID`.
/// Trusted: the bytes are those of the base-58 string
/// `TokenkegQfeZyiNwAJbNbGKPFXCWuBvf9Ss623VQ5DA` that the crate declares.
#[verifier::external_body]
fn token_program_id() -> (id: Address)
    ensures
        id@ == token_program_bytes(),
{
    Address { bytes: anchor_spl::token::ID.to_bytes() }
}

/// The associated-token-account program's address, read from
/// `anchor_spl::associated_token::ID`. Trusted: the bytes are those of the
/// base-58 string `ATokenGPvbdGVxr1b2hvZbsiqW5xWH25efTNsLJA8knL` that the crate
/// declares.
#[verifier::external_body]
fn associated_token_program_id() -> (id: Address)
    ensures
        id@ == associated_token_program_bytes(),
{
    Address { bytes: anchor_spl::associated_token::ID.to_bytes() }
}

/// The address of the system program, which also stands for the native asset
/// where a mint is expected.
pub fn system_program() -> (id: Address)
    ensures
        id@ == system_program_bytes(),
{
    system_program_id()
}

/// The address of the token program.
pub fn token_program() -> (id: Address)
    ensures
        id@ == token_program_bytes(),
{
    token_program_id()
}

/// The address of the associated-token-account program.
pub fn associated_token_program() -> (id: Address)
    ensures
        id@ == associated_token_program_bytes(),
{
    associated_token_program_id()
}

} // verus!
