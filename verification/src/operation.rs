//! The operations and the numbers by which they are told apart on the wire.

use vstd::prelude::*;

verus! {

/// The four operations, in the order in which they are declared. The order is
/// part of the interface: it fixes the discriminator of each.
#[derive(Clone, Copy, Debug, PartialEq, Eq, Structural)]
pub enum Operation {
    Schedule,
    Execute,
    Cancel,
    GetInfo,
}

impl Operation {
    /// The discriminator of the operation: its position in the declaration.
    pub open spec fn spec_discriminator(&self) -> u8 {
        match self {
            Operation::Schedule => 0,
            Operation::Execute => 1,
            Operation::Cancel => 2,
            Operation::GetInfo => 3,
        }
    }

    /// The operation that a discriminator names, if it names one.
    pub open spec fn of(discriminator: u8) -> Option<Operation> {
        if discriminator == 0 {
            Some(Operation::Schedule)
        } else if discriminator == 1 {
            Some(Operation::Execute)
        } else if discriminator == 2 {
            Some(Operation::Cancel)
        } else if discriminator == 3 {
            Some(Operation::GetInfo)
        } else {
            None
        }
    }

    /// The discriminator of the operation.
    #[verifier::when_used_as_spec(spec_discriminator)]
    pub fn discriminator(&self) -> (number: u8)
        ensures
            number == self.spec_discriminator(),
            Operation::of(number) == Some(*self),
    {
        match self {
            Operation::Schedule => 0,
            Operation::Execute => 1,
            Operation::Cancel => 2,
            Operation::GetInfo => 3,
        }
    }

    /// Reads an operation from its discriminator. Exactly the numbers that
    /// `discriminator` gives are accepted.
    pub fn from_discriminator(number: u8) -> (operation: Option<Operation>)
        ensures
            operation == Operation::of(number),
            operation matches Some(op) ==> op.spec_discriminator() == number,
            operation is None <==> number > 3,
    {
        match number {
            0 => Some(Operation::Schedule),
            1 => Some(Operation::Execute),
            2 => Some(Operation::Cancel),
            3 => Some(Operation::GetInfo),
            _ => None,
        }
    }
}

} // verus!
