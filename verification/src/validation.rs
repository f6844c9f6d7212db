//! Checks on a transaction that need no more than its header.

use crate::error::Error;
use vstd::prelude::*;

verus! {

/// The one version of transactions that there is.
pub const TRANSACTION_VERSION_V1: u8 = 1;

/// Whether the toolkit knows transactions of this version.
pub fn validate_transaction_version(transaction_version: u8) -> (outcome: Result<(), Error>)
    ensures
        outcome is Ok <==> transaction_version == TRANSACTION_VERSION_V1,
        outcome matches Err(e) ==> e == Error::UnsupportedTransactionVersion(transaction_version),
{
    if transaction_version == TRANSACTION_VERSION_V1 {
        Ok(())
    } else {
        Err(Error::UnsupportedTransactionVersion(transaction_version))
    }
}

} // verus!
