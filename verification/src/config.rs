use vstd::prelude::*;
use crate::address::{Address, address_eq};
use crate::error::ResolutionError;
use crate::identity::IdentitySource;

verus! {

/// The immutable per-invocation context.  Constructed once by the hosting
/// command handler and read-only thereafter.  Handles that Verus cannot hold
/// (the network client, the output formatter) stay with the host, which passes
/// their results in as plain values.
#[derive(Debug)]
pub struct Config {
    pub websocket_url: String,
    pub fee_payer: Address,
    pub default_identity: IdentitySource,
    pub nonce_account: Option<Address>,
    pub nonce_authority: Option<Address>,
    pub sign_only: bool,
    pub dump_transaction_message: bool,
    pub multisigner_addresses: Vec<Address>,
    pub program_id: Address,
}

impl Config {
    /// Whether a placeholder signer may stand in for a co-signer whose key
    /// material is not locally available: exactly when co-signers are
    /// configured.
    pub fn allow_null_signer(&self) -> (r: bool)
        ensures
            r == (self.multisigner_addresses@.len() > 0),
    {
        self.multisigner_addresses.len() > 0
    }

    /// Whether account resolution requires a network fetch under this
    /// configuration; in sign-only mode it never does.
    pub fn needs_network(&self) -> (r: bool)
        ensures
            r == !self.sign_only,
    {
        !self.sign_only
    }

    /// The shared ownership check: the account at `account`, whose
    /// ledger-level owner is `owner`, must be owned by the configured
    /// program, or resolution fails with `OwnershipMismatch` naming the
    /// account, the actual owner and the configured program.
    pub fn check_owner(&self, account: &Address, owner: &Address) -> (r: Result<
        (),
        ResolutionError,
    >)
        ensures
            self.program_id == *owner ==> r is Ok,
            self.program_id != *owner ==> r == Err::<(), ResolutionError>(
                (ResolutionError::OwnershipMismatch {
                    account: *account,
                    actual_owner: *owner,
                    expected_owner: self.program_id,
                }),
            ),
    {
        if address_eq(&self.program_id, owner) {
            Ok(())
        } else {
            Err(ResolutionError::OwnershipMismatch {
                account: *account,
                actual_owner: *owner,
                expected_owner: self.program_id,
            })
        }
    }
}

} // verus!
