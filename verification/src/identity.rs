use vstd::prelude::*;
use crate::address::Address;

verus! {

/// The caller's default signing identity.  Exactly one variant is active for
/// the whole invocation; the value is immutable after construction.
#[derive(Debug)]
pub enum IdentitySource {
    /// An in-memory credential held by the hosting process, carrying the
    /// address it signs for.  Meant for tests and ephemeral invocations; the
    /// hosting process keeps the key material itself.
    InMemory(Address),
    /// A path-like reference that an external key-resolution service turns
    /// into an address or a signing capability, with whatever I/O that takes.
    PathReference(String),
}

} // verus!
