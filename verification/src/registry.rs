//! Registries: collections of entries, each within one namespace.

use vstd::prelude::*;
use crate::config::Config;
use crate::delegates::DelegateSet;
use crate::error::Error;
use crate::history::EventKind;
use crate::ledger::Ledger;
use crate::operation::{lemma_after_keeps_wf, Operation};
use crate::types::{AccountId, NamespaceId, RegistryId};

verus! {

/// A registry as a mathematical value.
pub struct RegistryView {
    /// The namespace that the registry belongs to.
    pub namespace: nat,
    /// The account that owns the registry.
    pub authority: AccountId,
    /// The delegates, in the order in which they were added.
    pub delegates: Seq<AccountId>,
    /// The registry's metadata.
    pub blob: Seq<u8>,
    /// Whether the registry has been revoked.
    pub revoked: bool,
    /// Whether the registry has been archived.
    pub archived: bool,
}

impl RegistryView {
    /// No delegate occurs twice, and delegates and blob are within the configured bounds.
    pub open spec fn wf(self, config: Config) -> bool {
        &&& self.delegates.no_duplicates()
        &&& self.delegates.len() <= config.max_registry_delegates
        &&& self.blob.len() <= config.max_registry_blob_size
    }

    /// Whether `actor` is the authority or one of the delegates.
    pub open spec fn is_member(self, actor: AccountId) -> bool {
        actor == self.authority || self.delegates.contains(actor)
    }

    /// Whether the registry itself lets `actor` act: a member of a registry that is not
    /// revoked.
    pub open spec fn authorizes(self, actor: AccountId) -> bool {
        !self.revoked && self.is_member(actor)
    }
}

/// A registry as the ledger stores it.
pub struct Registry {
    /// The namespace that the registry belongs to.
    pub namespace: NamespaceId,
    /// The account that owns the registry.
    pub authority: AccountId,
    /// The delegates.
    pub delegates: DelegateSet,
    /// The registry's metadata.
    pub blob: Vec<u8>,
    /// Whether the registry has been revoked.
    pub revoked: bool,
    /// Whether the registry has been archived.
    pub archived: bool,
}

impl View for Registry {
    type V = RegistryView;

    open spec fn view(&self) -> RegistryView {
        RegistryView {
            namespace: self.namespace as nat,
            authority: self.authority,
            delegates: self.delegates@,
            blob: self.blob@,
            revoked: self.revoked,
            archived: self.archived,
        }
    }
}

impl Registry {
    /// Whether `actor` is the authority or one of the delegates.
    pub fn is_member(&self, actor: AccountId) -> (member: bool)
        ensures
            member == self@.is_member(actor),
    {
        actor == self.authority || self.delegates.contains(actor)
    }

    /// Whether the registry itself lets `actor` act.
    pub fn authorizes(&self, actor: AccountId) -> (authorized: bool)
        ensures
            authorized == self@.authorizes(actor),
    {
        !self.revoked && self.is_member(actor)
    }
}

impl Ledger {
    /// The registry `registry`. Reading asks for no authorization, and a revoked or
    /// archived registry stays readable.
    pub fn get_registry(&self, registry: RegistryId) -> (found: Result<&Registry, Error>)
        ensures
            match found {
                Ok(stored) => self@.registries.contains_key(registry as nat) && stored@
                    == self@.registries[registry as nat],
                Err(error) => error == Error::NotFound && !self@.registries.contains_key(
                    registry as nat,
                ),
            },
    {
        match self.registry(registry) {
            Some(stored) => Ok(stored),
            None => Err(Error::NotFound),
        }
    }

    /// Whether `actor` is authorized to act within the registry `registry`: true if and
    /// only if the registry exists and either it is not revoked and `actor` is its
    /// authority or one of its delegates, or `actor` is authorized within the namespace
    /// that owns it.
    pub fn registry_is_authorized(&self, registry: RegistryId, actor: AccountId) -> (authorized:
        bool)
        ensures
            authorized == self@.registry_authorizes(registry as nat, actor),
    {
        match self.registry(registry) {
            Some(stored) => stored.authorizes(actor) || self.namespace_is_authorized(
                stored.namespace,
                actor,
            ),
            None => false,
        }
    }

    /// Whether the registry `registry` exists and has been revoked.
    pub fn registry_is_revoked(&self, registry: RegistryId) -> (revoked: bool)
        ensures
            revoked == self@.registry_revoked(registry as nat),
    {
        match self.registry(registry) {
            Some(stored) => stored.revoked,
            None => false,
        }
    }

    /// What every change to a registry asks first.
    fn registry_access(&self, registry: RegistryId, actor: AccountId) -> (verdict: Result<
        (),
        Error,
    >)
        ensures
            verdict == self@.check_registry_access(registry as nat, actor),
    {
        match self.registry(registry) {
            None => Err(Error::NotFound),
            Some(stored) => {
                if self.namespace_is_revoked(stored.namespace) {
                    Err(Error::NamespaceRevoked)
                } else if stored.authority != actor || !self.namespace_is_authorized(
                    stored.namespace,
                    actor,
                ) {
                    Err(Error::NotAuthorized)
                } else {
                    Ok(())
                }
            },
        }
    }

    /// Creates a registry in the namespace `namespace`, owned by `creator`. Fails with
    /// `NotFound` where the namespace is absent, `NamespaceRevoked` where it is revoked,
    /// `NotAuthorized` where `creator` is not authorized within it, and `BlobTooLarge`
    /// where the blob exceeds the bound. On success the registry gets the next identity
    /// and an empty delegate set, and its history opens with its creation.
    pub fn create_registry(&mut self, namespace: NamespaceId, creator: AccountId, blob: Vec<u8>)
        -> (result: Result<RegistryId, Error>)
        requires
            old(self).wf(),
        ensures
            final(self).wf(),
            match result {
                Ok(id) => {
                    &&& old(self)@.check_create_registry(namespace as nat, creator, blob@.len())
                        is Ok
                    &&& id == old(self)@.next_identifier()
                    &&& final(self)@ == old(self)@.after_create_registry(
                        namespace as nat,
                        creator,
                        blob@,
                    )
                },
                Err(error) => {
                    &&& old(self)@.check_create_registry(namespace as nat, creator, blob@.len())
                        == Err::<(), Error>(error)
                    &&& final(self)@ == old(self)@
                },
            },
    {
        match self.namespace(namespace) {
            None => {
                return Err(Error::NotFound);
            },
            Some(owner) => {
                if owner.revoked {
                    return Err(Error::NamespaceRevoked);
                }
                if !owner.authorizes(creator) {
                    return Err(Error::NotAuthorized);
                }
            },
        }
        if blob.len() > self.config().max_registry_blob_size as usize {
            return Err(Error::BlobTooLarge);
        }
        proof {
            lemma_after_keeps_wf(
                self@,
                Operation::CreateRegistry { namespace: namespace as nat, creator, blob: blob@ },
            );
        }
        let id = self.issue(creator);
        self.put_registry(
            id,
            Registry {
                namespace,
                authority: creator,
                delegates: DelegateSet::new(),
                blob,
                revoked: false,
                archived: false,
            },
        );
        Ok(id)
    }

    /// Adds `delegate` to the registry `registry` on behalf of `actor`. Fails with
    /// `NotFound` where the registry is absent, `NamespaceRevoked` where the namespace that
    /// owns it is revoked, `NotAuthorized` where `actor` is not the registry's authority or
    /// not authorized within that namespace, `Revoked` where the registry is revoked,
    /// `CapacityExceeded` where its delegate set is full, and `AlreadyDelegate` where
    /// `delegate` is in it already.
    pub fn add_registry_delegate(
        &mut self,
        registry: RegistryId,
        actor: AccountId,
        delegate: AccountId,
    ) -> (result: Result<(), Error>)
        requires
            old(self).wf(),
        ensures
            final(self).wf(),
            result == old(self)@.check_add_registry_delegate(registry as nat, actor, delegate),
            final(self)@ == (if result is Ok {
                old(self)@.after_add_registry_delegate(registry as nat, actor, delegate)
            } else {
                old(self)@
            }),
    {
        match self.registry_access(registry, actor) {
            Err(error) => {
                return Err(error);
            },
            Ok(()) => {},
        }
        match self.registry(registry) {
            None => {
                return Err(Error::NotFound);
            },
            Some(stored) => {
                if stored.revoked {
                    return Err(Error::Revoked);
                }
                if stored.delegates.len() >= self.config().max_registry_delegates as usize {
                    return Err(Error::CapacityExceeded);
                }
                if stored.delegates.contains(delegate) {
                    return Err(Error::AlreadyDelegate);
                }
            },
        }
        proof {
            lemma_after_keeps_wf(
                self@,
                Operation::AddRegistryDelegate { registry: registry as nat, actor, delegate },
            );
        }
        let mut stored = self.take_registry(registry);
        let _ = stored.delegates.insert(delegate);
        self.put_registry(registry, stored);
        self.record_event(registry, EventKind::DelegateAdded, actor);
        assert(self@ =~= old(self)@.after_add_registry_delegate(registry as nat, actor, delegate));
        Ok(())
    }

    /// Removes `delegate` from the registry `registry` on behalf of `actor`. Fails with
    /// `NotFound`, `NamespaceRevoked`, `NotAuthorized` and `Revoked` as
    /// `add_registry_delegate` does, and with `NotADelegate` where `delegate` is not in the
    /// set.
    pub fn remove_registry_delegate(
        &mut self,
        registry: RegistryId,
        actor: AccountId,
        delegate: AccountId,
    ) -> (result: Result<(), Error>)
        requires
            old(self).wf(),
        ensures
            final(self).wf(),
            result == old(self)@.check_remove_registry_delegate(registry as nat, actor, delegate),
            final(self)@ == (if result is Ok {
                old(self)@.after_remove_registry_delegate(registry as nat, actor, delegate)
            } else {
                old(self)@
            }),
    {
        match self.registry_access(registry, actor) {
            Err(error) => {
                return Err(error);
            },
            Ok(()) => {},
        }
        match self.registry(registry) {
            None => {
                return Err(Error::NotFound);
            },
            Some(stored) => {
                if stored.revoked {
                    return Err(Error::Revoked);
                }
                if !stored.delegates.contains(delegate) {
                    return Err(Error::NotADelegate);
                }
            },
        }
        proof {
            lemma_after_keeps_wf(
                self@,
                Operation::RemoveRegistryDelegate { registry: registry as nat, actor, delegate },
            );
        }
        let mut stored = self.take_registry(registry);
        let _ = stored.delegates.remove(delegate);
        self.put_registry(registry, stored);
        self.record_event(registry, EventKind::DelegateRemoved, actor);
        assert(self@ =~= old(self)@.after_remove_registry_delegate(
            registry as nat,
            actor,
            delegate,
        ));
        Ok(())
    }

    /// Revokes the registry `registry` on behalf of `actor`, for good. Fails with
    /// `NotFound`, `NamespaceRevoked` and `NotAuthorized` as `add_registry_delegate` does,
    /// and with `AlreadyRevoked` where the registry is revoked already.
    pub fn revoke_registry(&mut self, registry: RegistryId, actor: AccountId) -> (result: Result<
        (),
        Error,
    >)
        requires
            old(self).wf(),
        ensures
            final(self).wf(),
            result == old(self)@.check_revoke_registry(registry as nat, actor),
            final(self)@ == (if result is Ok {
                old(self)@.after_revoke_registry(registry as nat, actor)
            } else {
                old(self)@
            }),
    {
        match self.registry_access(registry, actor) {
            Err(error) => {
                return Err(error);
            },
            Ok(()) => {},
        }
        match self.registry(registry) {
            None => {
                return Err(Error::NotFound);
            },
            Some(stored) => {
                if stored.revoked {
                    return Err(Error::AlreadyRevoked);
                }
            },
        }
        proof {
            lemma_after_keeps_wf(
                self@,
                Operation::RevokeRegistry { registry: registry as nat, actor },
            );
        }
        let mut stored = self.take_registry(registry);
        stored.revoked = true;
        self.put_registry(registry, stored);
        self.record_event(registry, EventKind::Revoked, actor);
        assert(self@ =~= old(self)@.after_revoke_registry(registry as nat, actor));
        Ok(())
    }

    /// Archives the registry `registry` on behalf of `actor`. Fails with `NotFound`,
    /// `NamespaceRevoked` and `NotAuthorized` as `add_registry_delegate` does, and with
    /// `RegistryArchived` where the registry is archived already. Whether the registry is
    /// revoked is not asked.
    pub fn archive_registry(&mut self, registry: RegistryId, actor: AccountId) -> (result: Result<
        (),
        Error,
    >)
        requires
            old(self).wf(),
        ensures
            final(self).wf(),
            result == old(self)@.check_archive_registry(registry as nat, actor),
            final(self)@ == (if result is Ok {
                old(self)@.after_archive_registry(registry as nat, actor)
            } else {
                old(self)@
            }),
    {
        match self.registry_access(registry, actor) {
            Err(error) => {
                return Err(error);
            },
            Ok(()) => {},
        }
        match self.registry(registry) {
            None => {
                return Err(Error::NotFound);
            },
            Some(stored) => {
                if stored.archived {
                    return Err(Error::RegistryArchived);
                }
            },
        }
        proof {
            lemma_after_keeps_wf(
                self@,
                Operation::ArchiveRegistry { registry: registry as nat, actor },
            );
        }
        let mut stored = self.take_registry(registry);
        stored.archived = true;
        self.put_registry(registry, stored);
        self.record_event(registry, EventKind::Archived, actor);
        assert(self@ =~= old(self)@.after_archive_registry(registry as nat, actor));
        Ok(())
    }
}

} // verus!
