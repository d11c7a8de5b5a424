use token_config::address::{address_eq, Address};
use token_config::config::Config;
use token_config::identity::IdentitySource;
use token_config::resolve::{AddressResolution, SignerResolution, SignerRole};

fn addr(b: u8) -> Address {
    Address { bytes: [b; 32] }
}

fn base_config(identity: IdentitySource) -> Config {
    Config {
        websocket_url: String::new(),
        fee_payer: addr(9),
        default_identity: identity,
        nonce_account: None,
        nonce_authority: None,
        sign_only: false,
        dump_transaction_message: false,
        multisigner_addresses: Vec::new(),
        program_id: addr(7),
    }
}

#[test]
fn explicit_override_returned_unchanged() {
    // An identity source that would fail if it were ever resolved: the
    // override must win without it being touched.
    let cfg = base_config(IdentitySource::PathReference(String::from(
        "/no/such/key.json",
    )));
    let a = addr(1);
    assert_eq!(
        cfg.resolve_address(None, Some(a)),
        AddressResolution::Resolved(a)
    );
}

#[test]
fn owner_override_beats_named_override() {
    let cfg = base_config(IdentitySource::InMemory(addr(3)));
    let o = addr(1);
    let n = addr(2);
    assert_eq!(
        cfg.resolve_address(Some(o), Some(n)),
        AddressResolution::Resolved(o)
    );
}

#[test]
fn default_identity_in_memory_address() {
    let a = addr(4);
    let cfg = base_config(IdentitySource::InMemory(a));
    assert_eq!(cfg.resolve_address(None, None), AddressResolution::Resolved(a));
}

#[test]
fn default_identity_path_handed_back() {
    let cfg = base_config(IdentitySource::PathReference(String::from("id.json")));
    assert_eq!(
        cfg.resolve_address(None, None),
        AddressResolution::NeedsExternal(String::from("id.json"))
    );
}

#[test]
fn signer_owner_path_beats_named_path() {
    let cfg = base_config(IdentitySource::InMemory(addr(3)));
    let r = cfg.resolve_signer(
        Some(String::from("owner.json")),
        Some(String::from("named.json")),
    );
    assert_eq!(
        r,
        SignerResolution::NeedsExternal {
            path: String::from("owner.json"),
            role: SignerRole::OwnerOverride,
            allow_null: false,
        }
    );
}

#[test]
fn signer_named_path_used_when_no_owner() {
    let cfg = base_config(IdentitySource::InMemory(addr(3)));
    let r = cfg.resolve_signer(None, Some(String::from("named.json")));
    assert_eq!(
        r,
        SignerResolution::NeedsExternal {
            path: String::from("named.json"),
            role: SignerRole::NamedArgument,
            allow_null: false,
        }
    );
}

#[test]
fn signer_default_in_memory() {
    let a = addr(5);
    let cfg = base_config(IdentitySource::InMemory(a));
    assert_eq!(
        cfg.resolve_signer(None, None),
        SignerResolution::UseInMemory(a)
    );
}

#[test]
fn signer_default_path() {
    let cfg = base_config(IdentitySource::PathReference(String::from("id.json")));
    assert_eq!(
        cfg.resolve_signer(None, None),
        SignerResolution::NeedsExternal {
            path: String::from("id.json"),
            role: SignerRole::DefaultIdentity,
            allow_null: false,
        }
    );
}

#[test]
fn signer_allows_null_with_multisigners() {
    let mut cfg = base_config(IdentitySource::PathReference(String::from("id.json")));
    cfg.multisigner_addresses = vec![addr(8), addr(9)];
    assert!(cfg.allow_null_signer());
    let r = cfg.resolve_signer(None, Some(String::from("named.json")));
    assert_eq!(
        r,
        SignerResolution::NeedsExternal {
            path: String::from("named.json"),
            role: SignerRole::NamedArgument,
            allow_null: true,
        }
    );
}

#[test]
fn address_comparison_is_by_bytes() {
    let a = addr(1);
    let mut b = addr(1);
    assert!(address_eq(&a, &b));
    b.bytes[31] = 2;
    assert!(!address_eq(&a, &b));
}

#[test]
fn no_null_signer_without_multisigners() {
    let cfg = base_config(IdentitySource::InMemory(addr(3)));
    assert!(!cfg.allow_null_signer());
}
