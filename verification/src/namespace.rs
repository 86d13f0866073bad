//! Namespaces: the top-level permission scopes.

use vstd::prelude::*;
use crate::config::Config;
use crate::delegates::DelegateSet;
use crate::error::Error;
use crate::history::EventKind;
use crate::ledger::Ledger;
use crate::operation::{lemma_after_keeps_wf, Operation};
use crate::permission::IsPermissioned;
use crate::types::{AccountId, NamespaceId};

verus! {

/// A namespace as a mathematical value.
pub struct NamespaceView {
    /// The account that owns the namespace.
    pub authority: AccountId,
    /// The delegates, in the order in which they were added.
    pub delegates: Seq<AccountId>,
    /// The namespace's metadata.
    pub blob: Seq<u8>,
    /// Whether the network's permission check admitted the creation.
    pub permissioned: bool,
    /// Whether the namespace has been revoked.
    pub revoked: bool,
}

impl NamespaceView {
    /// No delegate occurs twice, and delegates and blob are within the configured bounds.
    pub open spec fn wf(self, config: Config) -> bool {
        &&& self.delegates.no_duplicates()
        &&& self.delegates.len() <= config.max_namespace_delegates
        &&& self.blob.len() <= config.max_namespace_blob_size
    }

    /// Whether `actor` is the authority or one of the delegates.
    pub open spec fn is_member(self, actor: AccountId) -> bool {
        actor == self.authority || self.delegates.contains(actor)
    }

    /// Whether `actor` may act within the namespace: a member of a namespace that is not
    /// revoked.
    pub open spec fn authorizes(self, actor: AccountId) -> bool {
        !self.revoked && self.is_member(actor)
    }
}

/// A namespace as the ledger stores it.
pub struct Namespace {
    /// The account that owns the namespace.
    pub authority: AccountId,
    /// The delegates.
    pub delegates: DelegateSet,
    /// The namespace's metadata.
    pub blob: Vec<u8>,
    /// Whether the network's permission check admitted the creation.
    pub permissioned: bool,
    /// Whether the namespace has been revoked.
    pub revoked: bool,
}

impl View for Namespace {
    type V = NamespaceView;

    open spec fn view(&self) -> NamespaceView {
        NamespaceView {
            authority: self.authority,
            delegates: self.delegates@,
            blob: self.blob@,
            permissioned: self.permissioned,
            revoked: self.revoked,
        }
    }
}

impl Namespace {
    /// Whether `actor` is the authority or one of the delegates.
    pub fn is_member(&self, actor: AccountId) -> (member: bool)
        ensures
            member == self@.is_member(actor),
    {
        actor == self.authority || self.delegates.contains(actor)
    }

    /// Whether `actor` may act within the namespace.
    pub fn authorizes(&self, actor: AccountId) -> (authorized: bool)
        ensures
            authorized == self@.authorizes(actor),
    {
        !self.revoked && self.is_member(actor)
    }
}

impl Ledger {
    /// The namespace `namespace`. Reading asks for no authorization.
    pub fn get_namespace(&self, namespace: NamespaceId) -> (found: Result<&Namespace, Error>)
        ensures
            match found {
                Ok(stored) => self@.namespaces.contains_key(namespace as nat) && stored@
                    == self@.namespaces[namespace as nat],
                Err(error) => error == Error::NotFound && !self@.namespaces.contains_key(
                    namespace as nat,
                ),
            },
    {
        match self.namespace(namespace) {
            Some(stored) => Ok(stored),
            None => Err(Error::NotFound),
        }
    }

    /// Whether `actor` is authorized to act within the namespace `namespace`: true if and
    /// only if the namespace exists, is not revoked, and `actor` is its authority or one of
    /// its delegates.
    pub fn namespace_is_authorized(&self, namespace: NamespaceId, actor: AccountId) -> (authorized:
        bool)
        ensures
            authorized == self@.namespace_authorizes(namespace as nat, actor),
    {
        match self.namespace(namespace) {
            Some(stored) => stored.authorizes(actor),
            None => false,
        }
    }

    /// Whether the namespace `namespace` exists and has been revoked.
    pub fn namespace_is_revoked(&self, namespace: NamespaceId) -> (revoked: bool)
        ensures
            revoked == self@.namespace_revoked(namespace as nat),
    {
        match self.namespace(namespace) {
            Some(stored) => stored.revoked,
            None => false,
        }
    }

    /// Creates a namespace owned by `creator`, the network's permission check having
    /// answered `permitted`. Fails with `PermissionDenied` where it answered no, and with
    /// `BlobTooLarge` where the blob exceeds the bound. On success the namespace gets the
    /// next identity and an empty delegate set, and its history opens with its creation.
    pub fn create_namespace_with(&mut self, permitted: bool, creator: AccountId, blob: Vec<u8>)
        -> (result: Result<NamespaceId, Error>)
        requires
            old(self).wf(),
        ensures
            final(self).wf(),
            match result {
                Ok(id) => {
                    &&& old(self)@.check_create_namespace(permitted, blob@.len()) is Ok
                    &&& id == old(self)@.next_identifier()
                    &&& final(self)@ == old(self)@.after_create_namespace(creator, blob@)
                },
                Err(error) => {
                    &&& old(self)@.check_create_namespace(permitted, blob@.len()) == Err::<
                        (),
                        Error,
                    >(error)
                    &&& final(self)@ == old(self)@
                },
            },
    {
        if !permitted {
            return Err(Error::PermissionDenied);
        }
        if blob.len() > self.config().max_namespace_blob_size as usize {
            return Err(Error::BlobTooLarge);
        }
        proof {
            lemma_after_keeps_wf(
                self@,
                Operation::CreateNamespace { permitted, creator, blob: blob@ },
            );
        }
        let id = self.issue(creator);
        self.put_namespace(
            id,
            Namespace {
                authority: creator,
                delegates: DelegateSet::new(),
                blob,
                permissioned: true,
                revoked: false,
            },
        );
        Ok(id)
    }

    /// Creates a namespace owned by `creator`, asking `P` for the network's permission.
    /// Either `P` refused, and the ledger is as it was, or the outcome is that of
    /// `create_namespace_with` for a permitted creation.
    pub fn create_namespace<P: IsPermissioned>(&mut self, creator: AccountId, blob: Vec<u8>) -> (result:
        Result<NamespaceId, Error>)
        requires
            old(self).wf(),
        ensures
            final(self).wf(),
            ({
                ||| result == Err::<NamespaceId, Error>(Error::PermissionDenied) && final(self)@
                    == old(self)@
                ||| match result {
                    Ok(id) => {
                        &&& old(self)@.check_create_namespace(true, blob@.len()) is Ok
                        &&& id == old(self)@.next_identifier()
                        &&& final(self)@ == old(self)@.after_create_namespace(creator, blob@)
                    },
                    Err(error) => {
                        &&& old(self)@.check_create_namespace(true, blob@.len()) == Err::<
                            (),
                            Error,
                        >(error)
                        &&& final(self)@ == old(self)@
                    },
                }
            }),
    {
        let permitted = P::is_permissioned();
        self.create_namespace_with(permitted, creator, blob)
    }

    /// Adds `delegate` to the namespace `namespace` on behalf of `actor`. Fails with
    /// `NotFound` where the namespace is absent, `NotAuthorized` where `actor` is not its
    /// authority, `Revoked` where it is revoked, `CapacityExceeded` where its delegate set
    /// is full, and `AlreadyDelegate` where `delegate` is in it already.
    pub fn add_namespace_delegate(
        &mut self,
        namespace: NamespaceId,
        actor: AccountId,
        delegate: AccountId,
    ) -> (result: Result<(), Error>)
        requires
            old(self).wf(),
        ensures
            final(self).wf(),
            result == old(self)@.check_add_namespace_delegate(namespace as nat, actor, delegate),
            final(self)@ == (if result is Ok {
                old(self)@.after_add_namespace_delegate(namespace as nat, actor, delegate)
            } else {
                old(self)@
            }),
    {
        match self.namespace(namespace) {
            None => {
                return Err(Error::NotFound);
            },
            Some(stored) => {
                if stored.authority != actor {
                    return Err(Error::NotAuthorized);
                }
                if stored.revoked {
                    return Err(Error::Revoked);
                }
                if stored.delegates.len() >= self.config().max_namespace_delegates as usize {
                    return Err(Error::CapacityExceeded);
                }
                if stored.delegates.contains(delegate) {
                    return Err(Error::AlreadyDelegate);
                }
            },
        }
        proof {
            lemma_after_keeps_wf(
                self@,
                Operation::AddNamespaceDelegate { namespace: namespace as nat, actor, delegate },
            );
        }
        let mut stored = self.take_namespace(namespace);
        let _ = stored.delegates.insert(delegate);
        self.put_namespace(namespace, stored);
        self.record_event(namespace, EventKind::DelegateAdded, actor);
        assert(self@ =~= old(self)@.after_add_namespace_delegate(namespace as nat, actor, delegate));
        Ok(())
    }

    /// Removes `delegate` from the namespace `namespace` on behalf of `actor`. Fails with
    /// `NotFound`, `NotAuthorized` and `Revoked` as `add_namespace_delegate` does, and with
    /// `NotADelegate` where `delegate` is not in the set.
    pub fn remove_namespace_delegate(
        &mut self,
        namespace: NamespaceId,
        actor: AccountId,
        delegate: AccountId,
    ) -> (result: Result<(), Error>)
        requires
            old(self).wf(),
        ensures
            final(self).wf(),
            result == old(self)@.check_remove_namespace_delegate(namespace as nat, actor, delegate),
            final(self)@ == (if result is Ok {
                old(self)@.after_remove_namespace_delegate(namespace as nat, actor, delegate)
            } else {
                old(self)@
            }),
    {
        match self.namespace(namespace) {
            None => {
                return Err(Error::NotFound);
            },
            Some(stored) => {
                if stored.authority != actor {
                    return Err(Error::NotAuthorized);
                }
                if stored.revoked {
                    return Err(Error::Revoked);
                }
                if !stored.delegates.contains(delegate) {
                    return Err(Error::NotADelegate);
                }
            },
        }
        proof {
            lemma_after_keeps_wf(
                self@,
                Operation::RemoveNamespaceDelegate { namespace: namespace as nat, actor, delegate },
            );
        }
        let mut stored = self.take_namespace(namespace);
        let _ = stored.delegates.remove(delegate);
        self.put_namespace(namespace, stored);
        self.record_event(namespace, EventKind::DelegateRemoved, actor);
        assert(self@ =~= old(self)@.after_remove_namespace_delegate(
            namespace as nat,
            actor,
            delegate,
        ));
        Ok(())
    }

    /// Revokes the namespace `namespace` on behalf of `actor`, for good. Fails with
    /// `NotFound` where it is absent, `NotAuthorized` where `actor` is not its authority,
    /// and `AlreadyRevoked` where it is revoked already.
    pub fn revoke_namespace(&mut self, namespace: NamespaceId, actor: AccountId) -> (result: Result<
        (),
        Error,
    >)
        requires
            old(self).wf(),
        ensures
            final(self).wf(),
            result == old(self)@.check_revoke_namespace(namespace as nat, actor),
            final(self)@ == (if result is Ok {
                old(self)@.after_revoke_namespace(namespace as nat, actor)
            } else {
                old(self)@
            }),
    {
        match self.namespace(namespace) {
            None => {
                return Err(Error::NotFound);
            },
            Some(stored) => {
                if stored.authority != actor {
                    return Err(Error::NotAuthorized);
                }
                if stored.revoked {
                    return Err(Error::AlreadyRevoked);
                }
            },
        }
        proof {
            lemma_after_keeps_wf(
                self@,
                Operation::RevokeNamespace { namespace: namespace as nat, actor },
            );
        }
        let mut stored = self.take_namespace(namespace);
        stored.revoked = true;
        self.put_namespace(namespace, stored);
        self.record_event(namespace, EventKind::Revoked, actor);
        assert(self@ =~= old(self)@.after_revoke_namespace(namespace as nat, actor));
        Ok(())
    }
}

} // verus!
