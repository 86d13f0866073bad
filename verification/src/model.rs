//! The ledger as a mathematical value, and what each operation does to it.
//!
//! Every operation has a `check_` function, which says whether it is admitted and with
//! which error it is turned away, and an `after_` function, which says what the ledger
//! is once an admitted operation has been applied. The checks are made in the order in
//! which they are written, and the first that fails names the error.

use vstd::prelude::*;
use crate::config::Config;
use crate::delegates::without;
use crate::entry::EntryView;
use crate::error::Error;
use crate::history::{Event, EventKind, HistoryView};
use crate::namespace::NamespaceView;
use crate::registry::RegistryView;
use crate::types::AccountId;

verus! {

/// The four mappings of the ledger. Identities are natural numbers, issued in order: the
/// history of the identity `id` stands at position `id`.
#[verifier::ext_equal]
pub struct LedgerView {
    /// The bounds under which the ledger runs.
    pub config: Config,
    /// The namespaces by identity.
    pub namespaces: Map<nat, NamespaceView>,
    /// The registries by identity.
    pub registries: Map<nat, RegistryView>,
    /// The entries by identity.
    pub entries: Map<nat, EntryView>,
    /// The event history of every identity issued so far.
    pub histories: Seq<HistoryView>,
}

impl LedgerView {
    /// The ledger in which nothing was created yet.
    pub open spec fn empty(config: Config) -> LedgerView {
        LedgerView {
            config,
            namespaces: Map::empty(),
            registries: Map::empty(),
            entries: Map::empty(),
            histories: Seq::empty(),
        }
    }

    /// Every entity was issued its identity and is within the configured bounds, every
    /// registry lies in a namespace and every entry in a registry that exist, no identity
    /// names two entities, and every history is within the configured depth.
    pub open spec fn wf(self) -> bool {
        &&& forall|id: nat| #[trigger]
            self.namespaces.contains_key(id) ==> {
                &&& id < self.histories.len()
                &&& self.namespaces[id].wf(self.config)
                &&& !self.registries.contains_key(id)
                &&& !self.entries.contains_key(id)
            }
        &&& forall|id: nat| #[trigger]
            self.registries.contains_key(id) ==> {
                &&& id < self.histories.len()
                &&& self.registries[id].wf(self.config)
                &&& self.namespaces.contains_key(self.registries[id].namespace)
                &&& !self.entries.contains_key(id)
            }
        &&& forall|id: nat| #[trigger]
            self.entries.contains_key(id) ==> {
                &&& id < self.histories.len()
                &&& self.entries[id].wf(self.config)
                &&& self.registries.contains_key(self.entries[id].registry)
            }
        &&& forall|i: int|
            0 <= i < self.histories.len() ==> {
                &&& (#[trigger] self.histories[i]).wf()
                &&& self.histories[i].capacity == self.config.max_events_history
            }
    }

    /// The identity that the next creation issues.
    pub open spec fn next_identifier(self) -> nat {
        self.histories.len()
    }

    /// The retained events of `id`, oldest first; none for an identity that was not issued.
    pub open spec fn events_for(self, id: nat) -> Seq<Event> {
        if id < self.histories.len() {
            self.histories[id as int].events
        } else {
            Seq::empty()
        }
    }

    /// The ledger after one more event in the history of `id`.
    pub open spec fn record_event(self, id: nat, kind: EventKind, actor: AccountId) -> LedgerView {
        if id < self.histories.len() {
            LedgerView {
                histories: self.histories.update(
                    id as int,
                    self.histories[id as int].record(kind, actor),
                ),
                ..self
            }
        } else {
            self
        }
    }

    /// The ledger after the next identity was issued to `creator`: its history starts with
    /// the event of its creation.
    pub open spec fn issue(self, creator: AccountId) -> LedgerView {
        LedgerView {
            histories: self.histories.push(
                HistoryView::empty(self.config.max_events_history as nat).record(
                    EventKind::Created,
                    creator,
                ),
            ),
            ..self
        }
    }

    /// Whether `actor` may act within the namespace `namespace`: it exists, is not revoked,
    /// and `actor` is its authority or one of its delegates.
    pub open spec fn namespace_authorizes(self, namespace: nat, actor: AccountId) -> bool {
        self.namespaces.contains_key(namespace) && self.namespaces[namespace].authorizes(actor)
    }

    /// Whether the namespace `namespace` exists and has been revoked.
    pub open spec fn namespace_revoked(self, namespace: nat) -> bool {
        self.namespaces.contains_key(namespace) && self.namespaces[namespace].revoked
    }

    /// Whether `actor` may act within the registry `registry`: it exists, and either the
    /// registry itself or the namespace that owns it authorizes `actor`.
    pub open spec fn registry_authorizes(self, registry: nat, actor: AccountId) -> bool {
        &&& self.registries.contains_key(registry)
        &&& {
            ||| self.registries[registry].authorizes(actor)
            ||| self.namespace_authorizes(self.registries[registry].namespace, actor)
        }
    }

    /// Whether the registry `registry` exists and has been revoked.
    pub open spec fn registry_revoked(self, registry: nat) -> bool {
        self.registries.contains_key(registry) && self.registries[registry].revoked
    }

    /// Whether a namespace may be created with a blob of `blob_len` bytes, the network's
    /// permission check having answered `permitted`.
    pub open spec fn check_create_namespace(self, permitted: bool, blob_len: nat) -> Result<
        (),
        Error,
    > {
        if !permitted {
            Err(Error::PermissionDenied)
        } else if blob_len > self.config.max_namespace_blob_size {
            Err(Error::BlobTooLarge)
        } else {
            Ok(())
        }
    }

    /// The ledger after `creator` created a namespace with `blob`: the namespace has the
    /// next identity, no delegates, and is not revoked.
    pub open spec fn after_create_namespace(self, creator: AccountId, blob: Seq<u8>) -> LedgerView {
        LedgerView {
            namespaces: self.namespaces.insert(
                self.next_identifier(),
                NamespaceView {
                    authority: creator,
                    delegates: Seq::empty(),
                    blob,
                    permissioned: true,
                    revoked: false,
                },
            ),
            ..self.issue(creator)
        }
    }

    /// Whether `actor` may add `delegate` to the namespace `namespace`.
    pub open spec fn check_add_namespace_delegate(
        self,
        namespace: nat,
        actor: AccountId,
        delegate: AccountId,
    ) -> Result<(), Error> {
        if !self.namespaces.contains_key(namespace) {
            Err(Error::NotFound)
        } else if self.namespaces[namespace].authority != actor {
            Err(Error::NotAuthorized)
        } else if self.namespaces[namespace].revoked {
            Err(Error::Revoked)
        } else if self.namespaces[namespace].delegates.len()
            >= self.config.max_namespace_delegates {
            Err(Error::CapacityExceeded)
        } else if self.namespaces[namespace].delegates.contains(delegate) {
            Err(Error::AlreadyDelegate)
        } else {
            Ok(())
        }
    }

    /// The ledger after `actor` added `delegate` to the namespace `namespace`: the
    /// delegate stands last.
    pub open spec fn after_add_namespace_delegate(
        self,
        namespace: nat,
        actor: AccountId,
        delegate: AccountId,
    ) -> LedgerView {
        LedgerView {
            namespaces: self.namespaces.insert(
                namespace,
                NamespaceView {
                    delegates: self.namespaces[namespace].delegates.push(delegate),
                    ..self.namespaces[namespace]
                },
            ),
            ..self.record_event(namespace, EventKind::DelegateAdded, actor)
        }
    }

    /// Whether `actor` may remove `delegate` from the namespace `namespace`.
    pub open spec fn check_remove_namespace_delegate(
        self,
        namespace: nat,
        actor: AccountId,
        delegate: AccountId,
    ) -> Result<(), Error> {
        if !self.namespaces.contains_key(namespace) {
            Err(Error::NotFound)
        } else if self.namespaces[namespace].authority != actor {
            Err(Error::NotAuthorized)
        } else if self.namespaces[namespace].revoked {
            Err(Error::Revoked)
        } else if !self.namespaces[namespace].delegates.contains(delegate) {
            Err(Error::NotADelegate)
        } else {
            Ok(())
        }
    }

    /// The ledger after `actor` removed `delegate` from the namespace `namespace`: the
    /// other delegates keep their order.
    pub open spec fn after_remove_namespace_delegate(
        self,
        namespace: nat,
        actor: AccountId,
        delegate: AccountId,
    ) -> LedgerView {
        LedgerView {
            namespaces: self.namespaces.insert(
                namespace,
                NamespaceView {
                    delegates: without(self.namespaces[namespace].delegates, delegate),
                    ..self.namespaces[namespace]
                },
            ),
            ..self.record_event(namespace, EventKind::DelegateRemoved, actor)
        }
    }

    /// Whether `actor` may revoke the namespace `namespace`.
    pub open spec fn check_revoke_namespace(self, namespace: nat, actor: AccountId) -> Result<
        (),
        Error,
    > {
        if !self.namespaces.contains_key(namespace) {
            Err(Error::NotFound)
        } else if self.namespaces[namespace].authority != actor {
            Err(Error::NotAuthorized)
        } else if self.namespaces[namespace].revoked {
            Err(Error::AlreadyRevoked)
        } else {
            Ok(())
        }
    }

    /// The ledger after `actor` revoked the namespace `namespace`.
    pub open spec fn after_revoke_namespace(self, namespace: nat, actor: AccountId) -> LedgerView {
        LedgerView {
            namespaces: self.namespaces.insert(
                namespace,
                NamespaceView { revoked: true, ..self.namespaces[namespace] },
            ),
            ..self.record_event(namespace, EventKind::Revoked, actor)
        }
    }

    /// Whether `creator` may create a registry in the namespace `namespace` with a blob of
    /// `blob_len` bytes.
    pub open spec fn check_create_registry(
        self,
        namespace: nat,
        creator: AccountId,
        blob_len: nat,
    ) -> Result<(), Error> {
        if !self.namespaces.contains_key(namespace) {
            Err(Error::NotFound)
        } else if self.namespaces[namespace].revoked {
            Err(Error::NamespaceRevoked)
        } else if !self.namespace_authorizes(namespace, creator) {
            Err(Error::NotAuthorized)
        } else if blob_len > self.config.max_registry_blob_size {
            Err(Error::BlobTooLarge)
        } else {
            Ok(())
        }
    }

    /// The ledger after `creator` created a registry in the namespace `namespace` with
    /// `blob`: the registry has the next identity, no delegates, and is neither revoked nor
    /// archived.
    pub open spec fn after_create_registry(
        self,
        namespace: nat,
        creator: AccountId,
        blob: Seq<u8>,
    ) -> LedgerView {
        LedgerView {
            registries: self.registries.insert(
                self.next_identifier(),
                RegistryView {
                    namespace,
                    authority: creator,
                    delegates: Seq::empty(),
                    blob,
                    revoked: false,
                    archived: false,
                },
            ),
            ..self.issue(creator)
        }
    }

    /// What every change to the registry `registry` by `actor` asks first: that the
    /// registry exists, that the namespace that owns it is not revoked, and that `actor` is
    /// the registry's authority and authorized within that namespace.
    pub open spec fn check_registry_access(self, registry: nat, actor: AccountId) -> Result<
        (),
        Error,
    > {
        if !self.registries.contains_key(registry) {
            Err(Error::NotFound)
        } else if self.namespace_revoked(self.registries[registry].namespace) {
            Err(Error::NamespaceRevoked)
        } else if self.registries[registry].authority != actor || !self.namespace_authorizes(
            self.registries[registry].namespace,
            actor,
        ) {
            Err(Error::NotAuthorized)
        } else {
            Ok(())
        }
    }

    /// Whether `actor` may add `delegate` to the registry `registry`.
    pub open spec fn check_add_registry_delegate(
        self,
        registry: nat,
        actor: AccountId,
        delegate: AccountId,
    ) -> Result<(), Error> {
        if self.check_registry_access(registry, actor) is Err {
            self.check_registry_access(registry, actor)
        } else if self.registries[registry].revoked {
            Err(Error::Revoked)
        } else if self.registries[registry].delegates.len() >= self.config.max_registry_delegates {
            Err(Error::CapacityExceeded)
        } else if self.registries[registry].delegates.contains(delegate) {
            Err(Error::AlreadyDelegate)
        } else {
            Ok(())
        }
    }

    /// The ledger after `actor` added `delegate` to the registry `registry`: the delegate
    /// stands last.
    pub open spec fn after_add_registry_delegate(
        self,
        registry: nat,
        actor: AccountId,
        delegate: AccountId,
    ) -> LedgerView {
        LedgerView {
            registries: self.registries.insert(
                registry,
                RegistryView {
                    delegates: self.registries[registry].delegates.push(delegate),
                    ..self.registries[registry]
                },
            ),
            ..self.record_event(registry, EventKind::DelegateAdded, actor)
        }
    }

    /// Whether `actor` may remove `delegate` from the registry `registry`.
    pub open spec fn check_remove_registry_delegate(
        self,
        registry: nat,
        actor: AccountId,
        delegate: AccountId,
    ) -> Result<(), Error> {
        if self.check_registry_access(registry, actor) is Err {
            self.check_registry_access(registry, actor)
        } else if self.registries[registry].revoked {
            Err(Error::Revoked)
        } else if !self.registries[registry].delegates.contains(delegate) {
            Err(Error::NotADelegate)
        } else {
            Ok(())
        }
    }

    /// The ledger after `actor` removed `delegate` from the registry `registry`: the other
    /// delegates keep their order.
    pub open spec fn after_remove_registry_delegate(
        self,
        registry: nat,
        actor: AccountId,
        delegate: AccountId,
    ) -> LedgerView {
        LedgerView {
            registries: self.registries.insert(
                registry,
                RegistryView {
                    delegates: without(self.registries[registry].delegates, delegate),
                    ..self.registries[registry]
                },
            ),
            ..self.record_event(registry, EventKind::DelegateRemoved, actor)
        }
    }

    /// Whether `actor` may revoke the registry `registry`.
    pub open spec fn check_revoke_registry(self, registry: nat, actor: AccountId) -> Result<
        (),
        Error,
    > {
        if self.check_registry_access(registry, actor) is Err {
            self.check_registry_access(registry, actor)
        } else if self.registries[registry].revoked {
            Err(Error::AlreadyRevoked)
        } else {
            Ok(())
        }
    }

    /// The ledger after `actor` revoked the registry `registry`.
    pub open spec fn after_revoke_registry(self, registry: nat, actor: AccountId) -> LedgerView {
        LedgerView {
            registries: self.registries.insert(
                registry,
                RegistryView { revoked: true, ..self.registries[registry] },
            ),
            ..self.record_event(registry, EventKind::Revoked, actor)
        }
    }

    /// Whether `actor` may archive the registry `registry`. Archival does not ask whether
    /// the registry is revoked: the two flags are independent.
    pub open spec fn check_archive_registry(self, registry: nat, actor: AccountId) -> Result<
        (),
        Error,
    > {
        if self.check_registry_access(registry, actor) is Err {
            self.check_registry_access(registry, actor)
        } else if self.registries[registry].archived {
            Err(Error::RegistryArchived)
        } else {
            Ok(())
        }
    }

    /// The ledger after `actor` archived the registry `registry`.
    pub open spec fn after_archive_registry(self, registry: nat, actor: AccountId) -> LedgerView {
        LedgerView {
            registries: self.registries.insert(
                registry,
                RegistryView { archived: true, ..self.registries[registry] },
            ),
            ..self.record_event(registry, EventKind::Archived, actor)
        }
    }

    /// Whether `creator` may create an entry in the registry `registry` with a blob of
    /// `blob_len` bytes.
    pub open spec fn check_create_entry(self, registry: nat, creator: AccountId, blob_len: nat)
        -> Result<(), Error> {
        if !self.registries.contains_key(registry) {
            Err(Error::NotFound)
        } else if self.registries[registry].revoked {
            Err(Error::RegistryRevoked)
        } else if self.registries[registry].archived {
            Err(Error::RegistryArchived)
        } else if self.namespace_revoked(self.registries[registry].namespace) {
            Err(Error::NamespaceRevoked)
        } else if !self.registry_authorizes(registry, creator) {
            Err(Error::NotAuthorized)
        } else if blob_len > self.config.max_entry_blob_size {
            Err(Error::BlobTooLarge)
        } else {
            Ok(())
        }
    }

    /// The ledger after `creator` created an entry in the registry `registry` with `blob`
    /// and `digest`: the entry has the next identity and is not revoked.
    pub open spec fn after_create_entry(
        self,
        registry: nat,
        creator: AccountId,
        blob: Seq<u8>,
        digest: Seq<u8>,
    ) -> LedgerView {
        LedgerView {
            entries: self.entries.insert(
                self.next_identifier(),
                EntryView { registry, creator, blob, digest, revoked: false },
            ),
            ..self.issue(creator)
        }
    }

    /// Whether `actor` may revoke the entry `entry`. Authorization is derived from the
    /// registry and namespace as they are now, not as they were when the entry was made.
    pub open spec fn check_revoke_entry(self, entry: nat, actor: AccountId) -> Result<(), Error> {
        if !self.entries.contains_key(entry) {
            Err(Error::NotFound)
        } else if self.entries[entry].revoked {
            Err(Error::AlreadyRevoked)
        } else if self.registry_revoked(self.entries[entry].registry) {
            Err(Error::RegistryRevoked)
        } else if !self.registry_authorizes(self.entries[entry].registry, actor) {
            Err(Error::NotAuthorized)
        } else {
            Ok(())
        }
    }

    /// The ledger after `actor` revoked the entry `entry`.
    pub open spec fn after_revoke_entry(self, entry: nat, actor: AccountId) -> LedgerView {
        LedgerView {
            entries: self.entries.insert(
                entry,
                EntryView { revoked: true, ..self.entries[entry] },
            ),
            ..self.record_event(entry, EventKind::Revoked, actor)
        }
    }
}

} // verus!
