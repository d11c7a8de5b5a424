use vstd::prelude::*;
use crate::address::Address;
use crate::config::Config;
use crate::identity::IdentitySource;

verus! {

/// The outcome of address resolution: either a final address, or the path
/// that an external key-resolution service must turn into one.
#[derive(PartialEq, Eq, Debug)]
pub enum AddressResolution {
    /// The address is known without touching the identity source.
    Resolved(Address),
    /// The hosting process must hand this path to the external
    /// key-resolution service; failure there is fatal for the invocation.
    NeedsExternal(String),
}

/// Under which argument the external key-resolution service should report
/// a failure to load a signer.
#[derive(Clone, Copy, PartialEq, Eq, Structural, Debug)]
pub enum SignerRole {
    /// The generic owner override.
    OwnerOverride,
    /// The named per-call argument.
    NamedArgument,
    /// The invocation's default identity.
    DefaultIdentity,
}

/// The outcome of signer resolution: either the in-memory credential, or the
/// path and role that the external key-resolution service must turn into a
/// signing capability.
#[derive(PartialEq, Eq, Debug)]
pub enum SignerResolution {
    /// Sign with the in-memory credential; its address is carried along.
    UseInMemory(Address),
    /// The hosting process must hand this path to the external
    /// key-resolution service.  `allow_null` permits a placeholder signer
    /// for configured co-signers whose key material is absent.
    NeedsExternal { path: String, role: SignerRole, allow_null: bool },
}

/// The precedence contract of address resolution: the generic owner override
/// is checked first and unconditionally, then the named explicit override,
/// then the identity source's default.
pub open spec fn address_resolution_matches(
    id: IdentitySource,
    owner_override: Option<Address>,
    explicit_override: Option<Address>,
    r: AddressResolution,
) -> bool {
    match owner_override {
        Some(o) => r == AddressResolution::Resolved(o),
        None => match explicit_override {
            Some(a) => r == AddressResolution::Resolved(a),
            None => match id {
                IdentitySource::InMemory(a) => r == AddressResolution::Resolved(a),
                IdentitySource::PathReference(p) => (r matches AddressResolution::NeedsExternal(q)
                    && q@ == p@),
            },
        },
    }
}

/// The precedence contract of signer resolution, identical to address
/// resolution but producing a signing instruction; `allow_null` is what the
/// result must carry into every external load.
pub open spec fn signer_resolution_matches(
    id: IdentitySource,
    owner_path: Option<String>,
    explicit_path: Option<String>,
    allow_null: bool,
    r: SignerResolution,
) -> bool {
    match owner_path {
        Some(p) => (r matches SignerResolution::NeedsExternal { path, role, allow_null: an }
            && path@ == p@ && role == SignerRole::OwnerOverride && an == allow_null),
        None => match explicit_path {
            Some(p) => (r matches SignerResolution::NeedsExternal { path, role, allow_null: an }
                && path@ == p@ && role == SignerRole::NamedArgument && an == allow_null),
            None => match id {
                IdentitySource::InMemory(a) => r == SignerResolution::UseInMemory(a),
                IdentitySource::PathReference(p) => (r matches SignerResolution::NeedsExternal {
                    path,
                    role,
                    allow_null: an,
                } && path@ == p@ && role == SignerRole::DefaultIdentity && an == allow_null),
            },
        },
    }
}

impl Config {
    /// Resolve the acting address.  An explicit override is returned
    /// unchanged, with no identity-source access; the generic owner override
    /// takes precedence over the named one, a deliberate
    /// backward-compatibility contract.  Only when neither is present does
    /// the default identity decide: an in-memory credential yields its
    /// address with no I/O, a path reference is handed back for the external
    /// key-resolution service.
    pub fn resolve_address(
        &self,
        owner_override: Option<Address>,
        explicit_override: Option<Address>,
    ) -> (r: AddressResolution)
        ensures
            address_resolution_matches(self.default_identity, owner_override, explicit_override, r),
            owner_override matches Some(o) ==> r == AddressResolution::Resolved(o),
            owner_override is None ==> (explicit_override matches Some(a) ==> r
                == AddressResolution::Resolved(a)),
    {
        match owner_override {
            Some(o) => AddressResolution::Resolved(o),
            None => match explicit_override {
                Some(a) => AddressResolution::Resolved(a),
                None => match &self.default_identity {
                    IdentitySource::InMemory(a) => AddressResolution::Resolved(*a),
                    IdentitySource::PathReference(p) => AddressResolution::NeedsExternal(p.clone()),
                },
            },
        }
    }

    /// Resolve the acting signer.  Precedence is identical to
    /// `resolve_address`: owner override, then the named per-argument path,
    /// then the default identity.  Every external load carries `allow_null`,
    /// true exactly when co-signers are configured, so a placeholder signer
    /// may stand in for a co-signer's absent key material.
    pub fn resolve_signer(
        &self,
        owner_path: Option<String>,
        explicit_path: Option<String>,
    ) -> (r: SignerResolution)
        ensures
            signer_resolution_matches(
                self.default_identity,
                owner_path,
                explicit_path,
                self.multisigner_addresses@.len() > 0,
                r,
            ),
            r matches SignerResolution::NeedsExternal { allow_null, .. } ==> allow_null == (
            self.multisigner_addresses@.len() > 0),
    {
        let allow_null = self.allow_null_signer();
        match owner_path {
            Some(p) => SignerResolution::NeedsExternal {
                path: p,
                role: SignerRole::OwnerOverride,
                allow_null,
            },
            None => match explicit_path {
                Some(p) => SignerResolution::NeedsExternal {
                    path: p,
                    role: SignerRole::NamedArgument,
                    allow_null,
                },
                None => match &self.default_identity {
                    IdentitySource::InMemory(a) => SignerResolution::UseInMemory(*a),
                    IdentitySource::PathReference(p) => SignerResolution::NeedsExternal {
                        path: p.clone(),
                        role: SignerRole::DefaultIdentity,
                        allow_null,
                    },
                },
            },
        }
    }
}

} // verus!
