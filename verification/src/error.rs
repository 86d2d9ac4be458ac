//! The ways an operation on the ledger can fail.

use vstd::prelude::*;

verus! {

/// Why a call was turned down. A call that fails leaves the record as it was.
#[derive(Debug, PartialEq, Eq)]
pub enum ContractError {
    /// The caller is not the owner of the ledger.
    Unauthorized {},
    /// The address to add is already listed.
    KeyAlreadyExists {},
    /// The address is not listed.
    UnknownKey {},
    /// The stored table is not a JSON object of integer scores.
    InvalidHash {},
}

} // verus!
