use vstd::prelude::*;
use crate::address::{Address, spec_zero_address, zero_address};
use crate::config::Config;
use crate::error::ResolutionError;
use spl_token_2022::extension::StateWithExtensionsOwned;
use spl_token_2022::state::{Account, Mint};

verus! {

/// An account as fetched from the ledger: its ledger-level owner (the
/// program with authority over it) and its raw bytes.  The hosting process
/// fetches it; `None` stands for an absent account.
#[derive(Debug)]
pub struct RawAccount {
    pub owner: Address,
    pub data: Vec<u8>,
}

/// A validated asset definition: the program that owns it, its own address,
/// and its decimals.  Produced fresh on every resolution call and never
/// mutated.
#[derive(Clone, Copy, PartialEq, Eq, Debug)]
pub struct AssetInfo {
    pub owning_program: Address,
    pub address: Address,
    pub decimals: u8,
}

/// What an asset-definition account's bytes decode to: `None` when they are
/// not a valid initialized record, else the decimals field.
pub uninterp spec fn decoded_mint_decimals(data: Seq<u8>) -> Option<u8>;

/// What a balance account's bytes decode to: `None` when they are not a
/// valid initialized record, else the address of the asset it holds.
pub uninterp spec fn decoded_balance_mint(data: Seq<u8>) -> Option<[u8; 32]>;

/// Relies on spl_token_2022's `StateWithExtensionsOwned::<Mint>::unpack`:
/// whether bytes decode as an initialized asset-definition account, and the
/// decimals of the decoded record, depend on the bytes alone.
#[verifier::external_body]
fn unpack_mint_decimals(data: &Vec<u8>) -> (r: Option<u8>)
    ensures
        r == decoded_mint_decimals(data@),
{
    StateWithExtensionsOwned::<Mint>::unpack(data.clone()).ok().map(|m| m.base.decimals)
}

/// Relies on spl_token_2022's `StateWithExtensionsOwned::<Account>::unpack`:
/// whether bytes decode as an initialized balance account, and the asset
/// address the decoded record names, depend on the bytes alone.
#[verifier::external_body]
fn unpack_balance_mint(data: &Vec<u8>) -> (r: Option<Address>)
    ensures
        r matches Some(a) ==> decoded_balance_mint(data@) == Some(a.bytes),
        r is None ==> decoded_balance_mint(data@) is None,
{
    StateWithExtensionsOwned::<Account>::unpack(data.clone()).ok().map(
        |a| Address { bytes: a.base.mint.to_bytes() },
    )
}

/// The caller-asserted decimals, defaulting to zero.
pub open spec fn spec_unwrap_decimals(d: Option<u8>) -> u8 {
    match d {
        Some(v) => v,
        None => 0,
    }
}

/// The full behaviour of asset resolution.  In sign-only mode the result is
/// synthesized from the configuration and the caller-asserted decimals, and
/// does not depend on `fetched` at all.  Otherwise the fetched account must
/// be present, decode as an asset definition, be owned by the configured
/// program, and agree with the asserted decimals, in that order.
pub open spec fn spec_get_asset_info(
    cfg: Config,
    asset: Address,
    expected_decimals: Option<u8>,
    fetched: Option<RawAccount>,
) -> Result<AssetInfo, ResolutionError> {
    if cfg.sign_only {
        Ok(
            AssetInfo {
                owning_program: cfg.program_id,
                address: asset,
                decimals: spec_unwrap_decimals(expected_decimals),
            },
        )
    } else {
        match fetched {
            None => Err(ResolutionError::NotFound { account: asset }),
            Some(acc) => match decoded_mint_decimals(acc.data@) {
                None => Err(ResolutionError::DecodeFailure { account: asset }),
                Some(d) => if acc.owner != cfg.program_id {
                    Err(
                        ResolutionError::OwnershipMismatch {
                            account: asset,
                            actual_owner: acc.owner,
                            expected_owner: cfg.program_id,
                        },
                    )
                } else {
                    match expected_decimals {
                        Some(e) => if e != d {
                            Err(ResolutionError::DecimalsMismatch { asset, actual: d, expected: e })
                        } else {
                            Ok(AssetInfo { owning_program: acc.owner, address: asset, decimals: d })
                        },
                        None => Ok(
                            AssetInfo { owning_program: acc.owner, address: asset, decimals: d },
                        ),
                    }
                },
            },
        }
    }
}

/// The full behaviour of balance-account validation.  In sign-only mode the
/// caller-supplied expected asset (or the zero address) is echoed back, with
/// no dependence on `fetched`.  Otherwise the fetched account must be
/// present, decode as a balance account, hold the expected asset when one is
/// asserted, and be owned by the configured program, in that order; the
/// decoded asset address is returned.
pub open spec fn spec_check_balance_account(
    cfg: Config,
    account: Address,
    expected_asset: Option<Address>,
    fetched: Option<RawAccount>,
) -> Result<Address, ResolutionError> {
    if cfg.sign_only {
        match expected_asset {
            Some(m) => Ok(m),
            None => Ok(spec_zero_address()),
        }
    } else {
        match fetched {
            None => Err(ResolutionError::NotFound { account }),
            Some(acc) => match decoded_balance_mint(acc.data@) {
                None => Err(ResolutionError::DecodeFailure { account }),
                Some(mint_bytes) => {
                    let mint = Address { bytes: mint_bytes };
                    match expected_asset {
                        Some(e) => if e != mint {
                            Err(
                                ResolutionError::AssetMismatch {
                                    account,
                                    expected_asset: e,
                                    actual_asset: mint,
                                },
                            )
                        } else {
                            spec_balance_owner_step(cfg, account, mint, acc.owner)
                        },
                        None => spec_balance_owner_step(cfg, account, mint, acc.owner),
                    }
                },
            },
        }
    }
}

/// The shared ownership step of balance-account validation.
pub open spec fn spec_balance_owner_step(
    cfg: Config,
    account: Address,
    mint: Address,
    owner: Address,
) -> Result<Address, ResolutionError> {
    if owner != cfg.program_id {
        Err(
            ResolutionError::OwnershipMismatch {
                account,
                actual_owner: owner,
                expected_owner: cfg.program_id,
            },
        )
    } else {
        Ok(mint)
    }
}

impl Config {
    /// Resolve and validate the asset definition at `asset_address`.  In
    /// sign-only mode this always succeeds from caller-asserted metadata and
    /// ignores `fetched`; otherwise `fetched` must be the account the
    /// hosting process read from the network at `asset_address`.
    pub fn get_asset_info(
        &self,
        asset_address: Address,
        expected_decimals: Option<u8>,
        fetched: Option<RawAccount>,
    ) -> (r: Result<AssetInfo, ResolutionError>)
        ensures
            r == spec_get_asset_info(*self, asset_address, expected_decimals, fetched),
            self.sign_only ==> r == Ok::<AssetInfo, ResolutionError>(
                (AssetInfo {
                    owning_program: self.program_id,
                    address: asset_address,
                    decimals: spec_unwrap_decimals(expected_decimals),
                }),
            ),
    {
        if self.sign_only {
            let decimals: u8 = match expected_decimals {
                Some(d) => d,
                None => 0,
            };
            Ok(AssetInfo { owning_program: self.program_id, address: asset_address, decimals })
        } else {
            match fetched {
                None => Err(ResolutionError::NotFound { account: asset_address }),
                Some(acc) => match unpack_mint_decimals(&acc.data) {
                    None => Err(ResolutionError::DecodeFailure { account: asset_address }),
                    Some(d) => match self.check_owner(&asset_address, &acc.owner) {
                        Err(e) => Err(e),
                        Ok(_) => match expected_decimals {
                            Some(e) => if e != d {
                                Err(
                                    ResolutionError::DecimalsMismatch {
                                        asset: asset_address,
                                        actual: d,
                                        expected: e,
                                    },
                                )
                            } else {
                                Ok(
                                    AssetInfo {
                                        owning_program: acc.owner,
                                        address: asset_address,
                                        decimals: d,
                                    },
                                )
                            },
                            None => Ok(
                                AssetInfo {
                                    owning_program: acc.owner,
                                    address: asset_address,
                                    decimals: d,
                                },
                            ),
                        },
                    },
                },
            }
        }
    }

    /// Resolve and validate the balance account at `account_address`,
    /// returning the address of the asset it holds.  In sign-only mode the
    /// caller-supplied expectation (or the zero address) is echoed back and
    /// `fetched` is ignored; otherwise `fetched` must be the account the
    /// hosting process read from the network at `account_address`.
    pub fn check_balance_account(
        &self,
        account_address: Address,
        expected_asset: Option<Address>,
        fetched: Option<RawAccount>,
    ) -> (r: Result<Address, ResolutionError>)
        ensures
            r == spec_check_balance_account(*self, account_address, expected_asset, fetched),
            self.sign_only ==> (expected_asset matches Some(m) ==> r == Ok::<
                Address,
                ResolutionError,
            >(m)),
            self.sign_only && expected_asset is None ==> r == Ok::<Address, ResolutionError>(
                spec_zero_address(),
            ),
    {
        if self.sign_only {
            match expected_asset {
                Some(m) => Ok(m),
                None => Ok(zero_address()),
            }
        } else {
            match fetched {
                None => Err(ResolutionError::NotFound { account: account_address }),
                Some(acc) => match unpack_balance_mint(&acc.data) {
                    None => Err(ResolutionError::DecodeFailure { account: account_address }),
                    Some(mint) => match expected_asset {
                        Some(e) => if !crate::address::address_eq(&e, &mint) {
                            Err(
                                ResolutionError::AssetMismatch {
                                    account: account_address,
                                    expected_asset: e,
                                    actual_asset: mint,
                                },
                            )
                        } else {
                            match self.check_owner(&account_address, &acc.owner) {
                                Err(err) => Err(err),
                                Ok(_) => Ok(mint),
                            }
                        },
                        None => match self.check_owner(&account_address, &acc.owner) {
                            Err(err) => Err(err),
                            Ok(_) => Ok(mint),
                        },
                    },
                },
            }
        }
    }
}

/// In sign-only mode asset resolution needs no network access: it succeeds
/// with the configured program and the caller-asserted decimals, and its
/// outcome is the same whatever a fetch would have produced.
pub proof fn lemma_sign_only_asset_info_is_offline(
    cfg: Config,
    asset: Address,
    expected_decimals: Option<u8>,
    f1: Option<RawAccount>,
    f2: Option<RawAccount>,
)
    requires
        cfg.sign_only,
    ensures
        spec_get_asset_info(cfg, asset, expected_decimals, f1) == spec_get_asset_info(
            cfg,
            asset,
            expected_decimals,
            f2,
        ),
        spec_get_asset_info(cfg, asset, expected_decimals, f1) == Ok::<AssetInfo, ResolutionError>(
            (AssetInfo {
                owning_program: cfg.program_id,
                address: asset,
                decimals: spec_unwrap_decimals(expected_decimals),
            }),
        ),
{
}

/// In sign-only mode balance validation needs no network access: it echoes
/// the caller-supplied expected asset, or the zero address when none is
/// supplied, and its outcome is the same whatever a fetch would have
/// produced.
pub proof fn lemma_sign_only_balance_check_is_offline(
    cfg: Config,
    account: Address,
    expected_asset: Option<Address>,
    f1: Option<RawAccount>,
    f2: Option<RawAccount>,
)
    requires
        cfg.sign_only,
    ensures
        spec_check_balance_account(cfg, account, expected_asset, f1) == spec_check_balance_account(
            cfg,
            account,
            expected_asset,
            f2,
        ),
        spec_check_balance_account(cfg, account, expected_asset, f1) == (match expected_asset {
            Some(m) => Ok::<Address, ResolutionError>(m),
            None => Ok(spec_zero_address()),
        }),
{
}

/// Every successfully resolved asset definition satisfies the configuration
/// invariant: it is owned by the configured program and carries the address
/// it was resolved for, in sign-only mode and online alike.
pub proof fn lemma_resolved_asset_owned_by_configured_program(
    cfg: Config,
    asset: Address,
    expected_decimals: Option<u8>,
    fetched: Option<RawAccount>,
)
    ensures
        (match spec_get_asset_info(cfg, asset, expected_decimals, fetched) {
            Ok(info) => info.owning_program == cfg.program_id && info.address == asset,
            Err(_) => true,
        }),
{
}

/// A fetched asset account that decodes but is owned by a program other than
/// the configured one resolves to `OwnershipMismatch`, carrying the account,
/// the actual owner and the configured program.
pub proof fn lemma_ownership_mismatch_reported(
    cfg: Config,
    asset: Address,
    expected_decimals: Option<u8>,
    acc: RawAccount,
)
    ensures
        (match decoded_mint_decimals(acc.data@) {
            Some(_) => !cfg.sign_only && acc.owner != cfg.program_id ==> spec_get_asset_info(
                cfg,
                asset,
                expected_decimals,
                Some(acc),
            ) == Err::<AssetInfo, ResolutionError>(
                (ResolutionError::OwnershipMismatch {
                    account: asset,
                    actual_owner: acc.owner,
                    expected_owner: cfg.program_id,
                }),
            ),
            None => true,
        }),
{
}

/// A fetched asset account that decodes with decimals different from the
/// caller-asserted value resolves to `DecimalsMismatch`, citing both.
pub proof fn lemma_decimals_mismatch_reported(
    cfg: Config,
    asset: Address,
    expected: u8,
    acc: RawAccount,
)
    ensures
        (match decoded_mint_decimals(acc.data@) {
            Some(d) => !cfg.sign_only && acc.owner == cfg.program_id && d != expected
                ==> spec_get_asset_info(cfg, asset, Some(expected), Some(acc)) == Err::<
                AssetInfo,
                ResolutionError,
            >((ResolutionError::DecimalsMismatch { asset, actual: d, expected })),
            None => true,
        }),
{
}

} // verus!
