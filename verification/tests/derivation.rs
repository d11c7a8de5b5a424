use token_config::account::RawAccount;
use token_config::error::ResolutionError;
use token_config::address::Address;
use token_config::config::Config;
use token_config::derivation::derive_associated_address;
use token_config::identity::IdentitySource;
use token_config::resolve::AddressResolution;

fn addr(b: u8) -> Address {
    Address { bytes: [b; 32] }
}

fn config(sign_only: bool, program: Address, identity: IdentitySource) -> Config {
    Config {
        websocket_url: String::new(),
        fee_payer: addr(9),
        default_identity: identity,
        nonce_account: None,
        nonce_authority: None,
        sign_only,
        dump_transaction_message: false,
        multisigner_addresses: Vec::new(),
        program_id: program,
    }
}

#[test]
fn derivation_is_deterministic() {
    let owner = addr(1);
    let asset = addr(2);
    let program = addr(3);
    let first = derive_associated_address(&owner, &asset, &program);
    let second = derive_associated_address(&owner, &asset, &program);
    assert_eq!(first, second);
    assert_ne!(first, owner);
    assert_ne!(first, asset);
}

#[test]
fn derivation_matches_ledger_scheme() {
    let owner = addr(1);
    let asset = addr(2);
    let program = addr(3);
    let ours = derive_associated_address(&owner, &asset, &program);
    let reference = spl_associated_token_account::get_associated_token_address_with_program_id(
        &solana_pubkey::Pubkey::new_from_array(owner.bytes),
        &solana_pubkey::Pubkey::new_from_array(asset.bytes),
        &solana_pubkey::Pubkey::new_from_array(program.bytes),
    );
    assert_eq!(ours.bytes, reference.to_bytes());
}

#[test]
fn derivation_depends_on_each_input() {
    let base = derive_associated_address(&addr(1), &addr(2), &addr(3));
    assert_ne!(base, derive_associated_address(&addr(4), &addr(2), &addr(3)));
    assert_ne!(base, derive_associated_address(&addr(1), &addr(4), &addr(3)));
    assert_ne!(base, derive_associated_address(&addr(1), &addr(2), &addr(4)));
}

#[test]
fn associated_address_for_program_uses_owner_override() {
    let cfg = config(false, addr(7), IdentitySource::InMemory(addr(10)));
    let owner = addr(1);
    let asset = addr(2);
    let program = addr(3);
    assert_eq!(
        cfg.associated_address_for_program(Some(owner), &asset, &program),
        AddressResolution::Resolved(derive_associated_address(&owner, &asset, &program))
    );
}

#[test]
fn associated_address_for_program_uses_in_memory_identity() {
    let me = addr(10);
    let cfg = config(false, addr(7), IdentitySource::InMemory(me));
    let asset = addr(2);
    let program = addr(3);
    assert_eq!(
        cfg.associated_address_for_program(None, &asset, &program),
        AddressResolution::Resolved(derive_associated_address(&me, &asset, &program))
    );
}

#[test]
fn associated_address_for_program_hands_back_path() {
    let cfg = config(
        false,
        addr(7),
        IdentitySource::PathReference(String::from("id.json")),
    );
    assert_eq!(
        cfg.associated_address_for_program(None, &addr(2), &addr(3)),
        AddressResolution::NeedsExternal(String::from("id.json"))
    );
}

#[test]
fn associated_address_override_wins() {
    let cfg = config(false, addr(7), IdentitySource::InMemory(addr(10)));
    let explicit = addr(5);
    let r = cfg.associated_address_for_asset_or_override(
        Some(explicit),
        Some(addr(1)),
        Some(addr(2)),
        None,
    );
    assert_eq!(r, Ok(AddressResolution::Resolved(explicit)));
}

#[test]
fn associated_address_resolves_asset_program_offline() {
    // Sign-only: the asset's owning program is the configured one, and the
    // derivation uses the in-memory identity as owner.
    let me = addr(10);
    let p = addr(7);
    let cfg = config(true, p, IdentitySource::InMemory(me));
    let asset = addr(2);
    let r = cfg.associated_address_for_asset_or_override(None, None, Some(asset), None);
    assert_eq!(
        r,
        Ok(AddressResolution::Resolved(derive_associated_address(
            &me, &asset, &p
        )))
    );
}

#[test]
fn associated_address_propagates_asset_errors() {
    let cfg = config(false, addr(7), IdentitySource::InMemory(addr(10)));
    let asset = addr(2);
    let r = cfg.associated_address_for_asset_or_override(None, None, Some(asset), None);
    assert_eq!(r, Err(ResolutionError::NotFound { account: asset }));
    let garbage = RawAccount { owner: addr(7), data: vec![0u8; 82] };
    let r2 = cfg.associated_address_for_asset_or_override(None, None, Some(asset), Some(garbage));
    assert_eq!(r2, Err(ResolutionError::DecodeFailure { account: asset }));
}
