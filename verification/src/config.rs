//! The bounds under which a ledger runs.

use vstd::prelude::*;

verus! {

/// Capacities and size limits, fixed when a ledger is made.
#[derive(Clone, Copy, Debug, PartialEq, Eq, Structural)]
pub struct Config {
    /// Most delegates a namespace may have.
    pub max_namespace_delegates: u32,
    /// Most bytes in a namespace's blob.
    pub max_namespace_blob_size: u32,
    /// Most delegates a registry may have.
    pub max_registry_delegates: u32,
    /// Most bytes in a registry's blob.
    pub max_registry_blob_size: u32,
    /// Most bytes in an entry's blob.
    pub max_entry_blob_size: u32,
    /// Most bytes in an encoded input.
    pub max_encoded_input_length: u32,
    /// The encoded-length bound declared to the content validator.
    pub max_encoded_schema_length: u32,
    /// Most events retained for one identifier.
    pub max_events_history: u32,
}

} // verus!
