//! The read-only query of a record.

use vstd::prelude::*;
use crate::error::TransferError;
use crate::record::{RecordAccount, TransferInfo};

verus! {

/// The account that a query reads.
#[derive(Clone, Debug, PartialEq, Eq)]
pub struct GetTransferInfo {
    pub transfer_account: RecordAccount,
}

/// What a query of the accounts returns: the view of every field of the
/// record, or a refusal where no record exists at the address.
pub open spec fn transfer_info(ctx: GetTransferInfo) -> Result<TransferInfo, TransferError> {
    match ctx.transfer_account.data {
        Some(record) => Ok(record.spec_info()),
        None => Err(TransferError::InvalidEscrowAccount),
    }
}

/// Reads the record: every field of it. Nothing is changed and custody is
/// not touched.
pub fn get_transfer_info(ctx: &GetTransferInfo) -> (info: Result<TransferInfo, TransferError>)
    ensures
        info == transfer_info(*ctx),
{
    match &ctx.transfer_account.data {
        Some(record) => Ok(record.info()),
        None => Err(TransferError::InvalidEscrowAccount),
    }
}

} // verus!
