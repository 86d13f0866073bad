//! The operations that change the ledger, as values, so that what holds of every
//! operation, and of every run of operations, can be stated once.

use vstd::prelude::*;
use crate::delegates::lemma_without;
use crate::error::Error;
use crate::model::LedgerView;
use crate::types::AccountId;

verus! {

/// One request to change the ledger.
pub enum Operation {
    /// Create a namespace; `permitted` is the answer of the network's permission check.
    CreateNamespace { permitted: bool, creator: AccountId, blob: Seq<u8> },
    /// Add a delegate to a namespace.
    AddNamespaceDelegate { namespace: nat, actor: AccountId, delegate: AccountId },
    /// Remove a delegate from a namespace.
    RemoveNamespaceDelegate { namespace: nat, actor: AccountId, delegate: AccountId },
    /// Revoke a namespace.
    RevokeNamespace { namespace: nat, actor: AccountId },
    /// Create a registry in a namespace.
    CreateRegistry { namespace: nat, creator: AccountId, blob: Seq<u8> },
    /// Add a delegate to a registry.
    AddRegistryDelegate { registry: nat, actor: AccountId, delegate: AccountId },
    /// Remove a delegate from a registry.
    RemoveRegistryDelegate { registry: nat, actor: AccountId, delegate: AccountId },
    /// Revoke a registry.
    RevokeRegistry { registry: nat, actor: AccountId },
    /// Archive a registry.
    ArchiveRegistry { registry: nat, actor: AccountId },
    /// Create an entry in a registry, with the digest to store beside the blob.
    CreateEntry { registry: nat, creator: AccountId, blob: Seq<u8>, digest: Seq<u8> },
    /// Revoke an entry.
    RevokeEntry { entry: nat, actor: AccountId },
}

impl LedgerView {
    /// Whether `operation` is admitted, and the error with which it is turned away.
    pub open spec fn check(self, operation: Operation) -> Result<(), Error> {
        match operation {
            Operation::CreateNamespace { permitted, creator, blob } => self.check_create_namespace(
                permitted,
                blob.len(),
            ),
            Operation::AddNamespaceDelegate {
                namespace,
                actor,
                delegate,
            } => self.check_add_namespace_delegate(namespace, actor, delegate),
            Operation::RemoveNamespaceDelegate {
                namespace,
                actor,
                delegate,
            } => self.check_remove_namespace_delegate(namespace, actor, delegate),
            Operation::RevokeNamespace { namespace, actor } => self.check_revoke_namespace(
                namespace,
                actor,
            ),
            Operation::CreateRegistry { namespace, creator, blob } => self.check_create_registry(
                namespace,
                creator,
                blob.len(),
            ),
            Operation::AddRegistryDelegate {
                registry,
                actor,
                delegate,
            } => self.check_add_registry_delegate(registry, actor, delegate),
            Operation::RemoveRegistryDelegate {
                registry,
                actor,
                delegate,
            } => self.check_remove_registry_delegate(registry, actor, delegate),
            Operation::RevokeRegistry { registry, actor } => self.check_revoke_registry(
                registry,
                actor,
            ),
            Operation::ArchiveRegistry { registry, actor } => self.check_archive_registry(
                registry,
                actor,
            ),
            Operation::CreateEntry { registry, creator, blob, digest } => self.check_create_entry(
                registry,
                creator,
                blob.len(),
            ),
            Operation::RevokeEntry { entry, actor } => self.check_revoke_entry(entry, actor),
        }
    }

    /// The ledger after `operation`, where it is admitted.
    pub open spec fn after(self, operation: Operation) -> LedgerView {
        match operation {
            Operation::CreateNamespace { permitted, creator, blob } => self.after_create_namespace(
                creator,
                blob,
            ),
            Operation::AddNamespaceDelegate {
                namespace,
                actor,
                delegate,
            } => self.after_add_namespace_delegate(namespace, actor, delegate),
            Operation::RemoveNamespaceDelegate {
                namespace,
                actor,
                delegate,
            } => self.after_remove_namespace_delegate(namespace, actor, delegate),
            Operation::RevokeNamespace { namespace, actor } => self.after_revoke_namespace(
                namespace,
                actor,
            ),
            Operation::CreateRegistry { namespace, creator, blob } => self.after_create_registry(
                namespace,
                creator,
                blob,
            ),
            Operation::AddRegistryDelegate {
                registry,
                actor,
                delegate,
            } => self.after_add_registry_delegate(registry, actor, delegate),
            Operation::RemoveRegistryDelegate {
                registry,
                actor,
                delegate,
            } => self.after_remove_registry_delegate(registry, actor, delegate),
            Operation::RevokeRegistry { registry, actor } => self.after_revoke_registry(
                registry,
                actor,
            ),
            Operation::ArchiveRegistry { registry, actor } => self.after_archive_registry(
                registry,
                actor,
            ),
            Operation::CreateEntry { registry, creator, blob, digest } => self.after_create_entry(
                registry,
                creator,
                blob,
                digest,
            ),
            Operation::RevokeEntry { entry, actor } => self.after_revoke_entry(entry, actor),
        }
    }

    /// The ledger after `operation` was requested: changed where it is admitted, and as it
    /// was where it is turned away.
    pub open spec fn apply(self, operation: Operation) -> LedgerView {
        if self.check(operation) is Ok {
            self.after(operation)
        } else {
            self
        }
    }

    /// The ledger after `operations` were requested one after the other.
    pub open spec fn apply_all(self, operations: Seq<Operation>) -> LedgerView
        decreases operations.len(),
    {
        if operations.len() == 0 {
            self
        } else {
            self.apply_all(operations.drop_last()).apply(operations.last())
        }
    }
}

/// The bounds hold at all times: an admitted operation keeps delegate sets within their
/// capacity and free of duplicates, blobs within their size, histories within their depth,
/// every registry in a namespace and every entry in a registry that exist.
pub proof fn lemma_after_keeps_wf(ledger: LedgerView, operation: Operation)
    requires
        ledger.wf(),
        ledger.check(operation) is Ok,
    ensures
        ledger.after(operation).wf(),
{
    match operation {
        Operation::RemoveNamespaceDelegate { namespace, actor, delegate } => {
            lemma_without(ledger.namespaces[namespace].delegates, delegate);
        },
        Operation::RemoveRegistryDelegate { registry, actor, delegate } => {
            lemma_without(ledger.registries[registry].delegates, delegate);
        },
        _ => {},
    }
}

} // verus!
