//! The network's say on who may create a namespace.

use vstd::prelude::*;

verus! {

/// The network-level permission check that is consulted once, when a namespace is
/// created. Nothing is assumed of the answer.
pub trait IsPermissioned {
    /// Whether the network admits the creation.
    fn is_permissioned() -> bool;
}

} // verus!
