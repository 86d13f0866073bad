//! Names for the plain values that the ledger passes around.

use vstd::prelude::*;

verus! {

/// An account that acts on the ledger.
pub type AccountId = u64;

/// An identity in the space that namespaces, registries and entries share.
pub type Identifier = usize;

/// The identity of a namespace.
pub type NamespaceId = Identifier;

/// The identity of a registry.
pub type RegistryId = Identifier;

/// The identity of an entry.
pub type EntryId = Identifier;

} // verus!
