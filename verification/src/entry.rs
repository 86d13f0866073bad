//! Entries: the records of a registry.

use vstd::prelude::*;
use crate::config::Config;
use crate::digest::{blake2_256, content_digest};
use crate::error::Error;
use crate::history::EventKind;
use crate::ledger::Ledger;
use crate::operation::{lemma_after_keeps_wf, Operation};
use crate::types::{AccountId, EntryId, RegistryId};

verus! {

/// An entry as a mathematical value.
pub struct EntryView {
    /// The registry that the entry belongs to.
    pub registry: nat,
    /// The account that created the entry.
    pub creator: AccountId,
    /// The entry's payload.
    pub blob: Seq<u8>,
    /// The digest stored beside the payload.
    pub digest: Seq<u8>,
    /// Whether the entry has been revoked.
    pub revoked: bool,
}

impl EntryView {
    /// The blob is within the configured bound.
    pub open spec fn wf(self, config: Config) -> bool {
        self.blob.len() <= config.max_entry_blob_size
    }
}

/// An entry as the ledger stores it.
pub struct Entry {
    /// The registry that the entry belongs to.
    pub registry: RegistryId,
    /// The account that created the entry.
    pub creator: AccountId,
    /// The entry's payload.
    pub blob: Vec<u8>,
    /// The digest stored beside the payload.
    pub digest: [u8; 32],
    /// Whether the entry has been revoked.
    pub revoked: bool,
}

impl View for Entry {
    type V = EntryView;

    open spec fn view(&self) -> EntryView {
        EntryView {
            registry: self.registry as nat,
            creator: self.creator,
            blob: self.blob@,
            digest: self.digest@,
            revoked: self.revoked,
        }
    }
}

impl Ledger {
    /// The entry `entry`. Reading asks for no authorization, and a revoked entry stays
    /// readable.
    pub fn get_entry(&self, entry: EntryId) -> (found: Result<&Entry, Error>)
        ensures
            match found {
                Ok(stored) => self@.entries.contains_key(entry as nat) && stored@
                    == self@.entries[entry as nat],
                Err(error) => error == Error::NotFound && !self@.entries.contains_key(
                    entry as nat,
                ),
            },
    {
        match self.entry(entry) {
            Some(stored) => Ok(stored),
            None => Err(Error::NotFound),
        }
    }

    /// Creates an entry in the registry `registry` with the payload `blob`, and stores the
    /// BLAKE2b-256 digest of the blob beside it. It fails and succeeds as
    /// `create_entry_with_digest` does.
    pub fn create_entry(&mut self, registry: RegistryId, creator: AccountId, blob: Vec<u8>) -> (result:
        Result<EntryId, Error>)
        requires
            old(self).wf(),
        ensures
            final(self).wf(),
            match result {
                Ok(id) => {
                    &&& old(self)@.check_create_entry(registry as nat, creator, blob@.len()) is Ok
                    &&& id == old(self)@.next_identifier()
                    &&& final(self)@ == old(self)@.after_create_entry(
                        registry as nat,
                        creator,
                        blob@,
                        blake2_256(blob@),
                    )
                },
                Err(error) => {
                    &&& old(self)@.check_create_entry(registry as nat, creator, blob@.len())
                        == Err::<(), Error>(error)
                    &&& final(self)@ == old(self)@
                },
            },
    {
        let digest = content_digest(&blob);
        self.create_entry_with_digest(registry, creator, blob, digest)
    }

    /// Creates an entry in the registry `registry` with the payload `blob` and the digest
    /// `digest`, which is stored as it is given. The checks are made in this order, and
    /// the first that fails names the error: the registry exists (`NotFound`), is not
    /// revoked (`RegistryRevoked`), is not archived (`RegistryArchived`), its namespace is
    /// not revoked (`NamespaceRevoked`), `creator` is authorized within the registry
    /// (`NotAuthorized`), and the blob is within the bound (`BlobTooLarge`). On success the
    /// entry gets the next identity, and its history opens with its creation. A rejected
    /// creation issues no identity.
    pub fn create_entry_with_digest(
        &mut self,
        registry: RegistryId,
        creator: AccountId,
        blob: Vec<u8>,
        digest: [u8; 32],
    ) -> (result: Result<EntryId, Error>)
        requires
            old(self).wf(),
        ensures
            final(self).wf(),
            match result {
                Ok(id) => {
                    &&& old(self)@.check_create_entry(registry as nat, creator, blob@.len()) is Ok
                    &&& id == old(self)@.next_identifier()
                    &&& final(self)@ == old(self)@.after_create_entry(
                        registry as nat,
                        creator,
                        blob@,
                        digest@,
                    )
                },
                Err(error) => {
                    &&& old(self)@.check_create_entry(registry as nat, creator, blob@.len())
                        == Err::<(), Error>(error)
                    &&& final(self)@ == old(self)@
                },
            },
    {
        match self.registry(registry) {
            None => {
                return Err(Error::NotFound);
            },
            Some(owner) => {
                if owner.revoked {
                    return Err(Error::RegistryRevoked);
                }
                if owner.archived {
                    return Err(Error::RegistryArchived);
                }
                if self.namespace_is_revoked(owner.namespace) {
                    return Err(Error::NamespaceRevoked);
                }
            },
        }
        if !self.registry_is_authorized(registry, creator) {
            return Err(Error::NotAuthorized);
        }
        if blob.len() > self.config().max_entry_blob_size as usize {
            return Err(Error::BlobTooLarge);
        }
        proof {
            lemma_after_keeps_wf(
                self@,
                Operation::CreateEntry {
                    registry: registry as nat,
                    creator,
                    blob: blob@,
                    digest: digest@,
                },
            );
        }
        let id = self.issue(creator);
        self.put_entry(id, Entry { registry, creator, blob, digest, revoked: false });
        Ok(id)
    }

    /// Revokes the entry `entry` on behalf of `actor`, for good. Fails with `NotFound`
    /// where the entry is absent, `AlreadyRevoked` where it is revoked already,
    /// `RegistryRevoked` where the registry that owns it is revoked, and `NotAuthorized`
    /// where `actor` is not authorized within that registry as it is now. Blob and digest
    /// are left as they are.
    pub fn revoke_entry(&mut self, entry: EntryId, actor: AccountId) -> (result: Result<(), Error>)
        requires
            old(self).wf(),
        ensures
            final(self).wf(),
            result == old(self)@.check_revoke_entry(entry as nat, actor),
            final(self)@ == (if result is Ok {
                old(self)@.after_revoke_entry(entry as nat, actor)
            } else {
                old(self)@
            }),
    {
        match self.entry(entry) {
            None => {
                return Err(Error::NotFound);
            },
            Some(stored) => {
                if stored.revoked {
                    return Err(Error::AlreadyRevoked);
                }
                if self.registry_is_revoked(stored.registry) {
                    return Err(Error::RegistryRevoked);
                }
                if !self.registry_is_authorized(stored.registry, actor) {
                    return Err(Error::NotAuthorized);
                }
            },
        }
        proof {
            lemma_after_keeps_wf(self@, Operation::RevokeEntry { entry: entry as nat, actor });
        }
        let mut stored = self.take_entry(entry);
        stored.revoked = true;
        self.put_entry(entry, stored);
        self.record_event(entry, EventKind::Revoked, actor);
        assert(self@ =~= old(self)@.after_revoke_entry(entry as nat, actor));
        Ok(())
    }
}

} // verus!
