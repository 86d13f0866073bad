//! The reasons for which the ledger rejects an operation.

use vstd::prelude::*;

verus! {

/// Why an operation was rejected. A rejected operation leaves the ledger as it was.
#[derive(Clone, Copy, Debug, PartialEq, Eq, Structural)]
pub enum Error {
    /// The namespace, registry or entry that was named does not exist.
    NotFound,
    /// The actor lacks the authority or delegate relationship that the operation needs.
    NotAuthorized,
    /// The network's permission check turned the creator away.
    PermissionDenied,
    /// The entity to be changed has been revoked.
    Revoked,
    /// The entity to be revoked is revoked already.
    AlreadyRevoked,
    /// The owning registry has been revoked.
    RegistryRevoked,
    /// The owning namespace has been revoked.
    NamespaceRevoked,
    /// The registry has been archived.
    RegistryArchived,
    /// The delegate set is full.
    CapacityExceeded,
    /// The account is a delegate already.
    AlreadyDelegate,
    /// The account is not a delegate.
    NotADelegate,
    /// The blob is longer than the configured bound.
    BlobTooLarge,
    /// The content validator rejected the blob.
    SchemaInvalid,
}

} // verus!
