//! A ledger wired up for testing: small bounds and a network that admits everyone.

use vstd::prelude::*;
use crate::config::Config;
use crate::ledger::Ledger;
use crate::model::LedgerView;
use crate::permission::IsPermissioned;

verus! {

/// Most delegates of a namespace under test.
pub const MAX_NAMESPACE_DELEGATES: u32 = 5;

/// Most bytes in a namespace's blob under test.
pub const MAX_NAMESPACE_BLOB_SIZE: u32 = 4 * 1024;

/// The encoded-length bound declared to the content validator under test.
pub const MAX_ENCODED_SCHEMA_LENGTH: u32 = 15_360;

/// Most bytes in a registry's blob under test.
pub const MAX_REGISTRY_BLOB_SIZE: u32 = 4 * 1024;

/// Most delegates of a registry under test.
pub const MAX_REGISTRY_DELEGATES: u32 = 5;

/// Most bytes in an encoded input under test.
pub const MAX_ENCODED_INPUT_LENGTH: u32 = 30;

/// Most bytes in an entry's blob under test.
pub const MAX_REGISTRY_ENTRY_BLOB_SIZE: u32 = 4 * 1024;

/// Most events retained for one identifier under test.
pub const MAX_EVENTS_HISTORY: u32 = 6;

/// A network that admits every creation.
pub struct NetworkPermission;

impl IsPermissioned for NetworkPermission {
    fn is_permissioned() -> (permitted: bool)
        ensures
            permitted,
    {
        true
    }
}

/// The bounds under test.
pub open spec fn spec_test_config() -> Config {
    Config {
        max_namespace_delegates: MAX_NAMESPACE_DELEGATES,
        max_namespace_blob_size: MAX_NAMESPACE_BLOB_SIZE,
        max_registry_delegates: MAX_REGISTRY_DELEGATES,
        max_registry_blob_size: MAX_REGISTRY_BLOB_SIZE,
        max_entry_blob_size: MAX_REGISTRY_ENTRY_BLOB_SIZE,
        max_encoded_input_length: MAX_ENCODED_INPUT_LENGTH,
        max_encoded_schema_length: MAX_ENCODED_SCHEMA_LENGTH,
        max_events_history: MAX_EVENTS_HISTORY,
    }
}

/// The bounds under test.
#[verifier::when_used_as_spec(spec_test_config)]
pub fn test_config() -> (config: Config)
    ensures
        config == spec_test_config(),
{
    Config {
        max_namespace_delegates: MAX_NAMESPACE_DELEGATES,
        max_namespace_blob_size: MAX_NAMESPACE_BLOB_SIZE,
        max_registry_delegates: MAX_REGISTRY_DELEGATES,
        max_registry_blob_size: MAX_REGISTRY_BLOB_SIZE,
        max_entry_blob_size: MAX_REGISTRY_ENTRY_BLOB_SIZE,
        max_encoded_input_length: MAX_ENCODED_INPUT_LENGTH,
        max_encoded_schema_length: MAX_ENCODED_SCHEMA_LENGTH,
        max_events_history: MAX_EVENTS_HISTORY,
    }
}

/// A fresh ledger for a test: nothing in it, and the bounds under test.
pub fn new_test_ext() -> (ledger: Ledger)
    ensures
        ledger.wf(),
        ledger@ == LedgerView::empty(test_config()),
{
    Ledger::new(test_config())
}

} // verus!
