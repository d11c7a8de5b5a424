use vstd::prelude::*;
use crate::account::{RawAccount, spec_get_asset_info};
use crate::address::Address;
use crate::config::Config;
use crate::error::ResolutionError;
use crate::identity::IdentitySource;
use crate::resolve::AddressResolution;

verus! {

/// The ledger's deterministic derivation of an owner's canonical
/// balance-account address under an asset and an owning program: a function
/// of the three addresses alone, identical across calls, processes and
/// machines.
pub uninterp spec fn associated_address_of(
    owner: [u8; 32],
    asset: [u8; 32],
    program: [u8; 32],
) -> [u8; 32];

/// Relies on spl_associated_token_account's
/// `get_associated_token_address_with_program_id`: a pure derivation from
/// the owner, asset and owning-program addresses, with no I/O.
#[verifier::external_body]
fn derive_associated_raw(owner: &Address, asset: &Address, program: &Address) -> (r: Address)
    ensures
        r.bytes == associated_address_of(owner.bytes, asset.bytes, program.bytes),
{
    let derived = spl_associated_token_account::get_associated_token_address_with_program_id(
        &solana_pubkey::Pubkey::new_from_array(owner.bytes),
        &solana_pubkey::Pubkey::new_from_array(asset.bytes),
        &solana_pubkey::Pubkey::new_from_array(program.bytes),
    );
    Address { bytes: derived.to_bytes() }
}

/// The canonical balance-account address of `owner` under `asset` and
/// `owning_program`.  Pure: no I/O, no failure path, and the result is a
/// function of the three inputs alone.
pub fn derive_associated_address(owner: &Address, asset: &Address, owning_program: &Address) -> (r:
    Address)
    ensures
        r.bytes == associated_address_of(owner.bytes, asset.bytes, owning_program.bytes),
{
    derive_associated_raw(owner, asset, owning_program)
}

/// What composing owner resolution with address derivation must produce:
/// either the derived address for the resolved owner, or the identity path
/// that the external key-resolution service must resolve first.
pub open spec fn derived_resolution_matches(
    id: IdentitySource,
    owner_override: Option<Address>,
    asset: Address,
    program: Address,
    r: AddressResolution,
) -> bool {
    match owner_override {
        Some(o) => r == AddressResolution::Resolved(
            (Address { bytes: associated_address_of(o.bytes, asset.bytes, program.bytes) }),
        ),
        None => match id {
            IdentitySource::InMemory(a) => r == AddressResolution::Resolved(
                (Address { bytes: associated_address_of(a.bytes, asset.bytes, program.bytes) }),
            ),
            IdentitySource::PathReference(p) => (r matches AddressResolution::NeedsExternal(q)
                && q@ == p@),
        },
    }
}

impl Config {
    /// The canonical balance-account address for the acting owner under
    /// `asset` and an already-known owning program.  The owner is the
    /// generic owner override when present, else the default identity's
    /// address; a path-based identity is handed back for the external
    /// key-resolution service, after which `derive_associated_address`
    /// finishes the job.
    pub fn associated_address_for_program(
        &self,
        owner_override: Option<Address>,
        asset: &Address,
        program: &Address,
    ) -> (r: AddressResolution)
        ensures
            derived_resolution_matches(
                self.default_identity,
                owner_override,
                *asset,
                *program,
                r,
            ),
    {
        match self.resolve_address(owner_override, None) {
            AddressResolution::Resolved(owner) => AddressResolution::Resolved(
                derive_associated_address(&owner, asset, program),
            ),
            AddressResolution::NeedsExternal(path) => AddressResolution::NeedsExternal(path),
        }
    }

    /// The balance-account address for `asset`: an explicit account override
    /// is returned unchanged; otherwise the asset definition is resolved
    /// (from `fetched`, as in `get_asset_info`) and the canonical address is
    /// derived for the acting owner under the asset's owning program,
    /// inheriting `get_asset_info`'s failure modes.
    pub fn associated_address_for_asset_or_override(
        &self,
        explicit_override: Option<Address>,
        owner_override: Option<Address>,
        asset: Option<Address>,
        fetched: Option<RawAccount>,
    ) -> (r: Result<AddressResolution, ResolutionError>)
        requires
            explicit_override is Some || asset is Some,
        ensures
            explicit_override matches Some(a) ==> r == Ok::<AddressResolution, ResolutionError>(
                AddressResolution::Resolved(a),
            ),
            explicit_override is None ==> (match spec_get_asset_info(
                *self,
                asset->0,
                None,
                fetched,
            ) {
                Err(e) => r == Err::<AddressResolution, ResolutionError>(e),
                Ok(info) => (r matches Ok(res) && derived_resolution_matches(
                    self.default_identity,
                    owner_override,
                    asset->0,
                    info.owning_program,
                    res,
                )),
            }),
    {
        if let Some(a) = explicit_override {
            return Ok(AddressResolution::Resolved(a));
        }
        let asset_address: Address = match asset {
            Some(m) => m,
            None => vstd::pervasive::unreached(),
        };
        match self.get_asset_info(asset_address, None, fetched) {
            Err(e) => Err(e),
            Ok(info) => Ok(
                self.associated_address_for_program(
                    owner_override,
                    &asset_address,
                    &info.owning_program,
                ),
            ),
        }
    }
}

} // verus!
