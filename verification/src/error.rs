//! The errors of the toolkit's models.

use vstd::prelude::*;

verus! {

/// Why a request to the toolkit fails.
#[derive(Clone, Copy, Debug, PartialEq, Eq, Structural)]
pub enum Error {
    /// The bytes are not an address of a component, a resource or a package.
    UnrecognizedAddressFormat,
    /// The transaction is of a version that the toolkit does not know.
    UnsupportedTransactionVersion(u8),
    /// The text does not stand for a value of the kind that was asked for.
    DeserializationError,
}

} // verus!
