use vstd::prelude::*;
use crate::address::Address;

verus! {

/// A recoverable validation failure.  Every variant carries the addresses and
/// values involved, so an operator can act on it without further lookup.
#[derive(Clone, Copy, PartialEq, Eq, Debug)]
pub enum ResolutionError {
    /// The account is absent from the ledger.
    NotFound { account: Address },
    /// The account exists but its bytes are not a valid record of the
    /// expected kind.
    DecodeFailure { account: Address },
    /// The account is owned by a program other than the configured one.
    OwnershipMismatch { account: Address, actual_owner: Address, expected_owner: Address },
    /// The asset's decimals differ from the caller-asserted value.
    DecimalsMismatch { asset: Address, actual: u8, expected: u8 },
    /// The balance account holds a different asset than expected.
    AssetMismatch { account: Address, expected_asset: Address, actual_asset: Address },
}

} // verus!
