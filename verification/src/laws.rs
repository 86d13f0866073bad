//! What holds of the ledger whatever is asked of it, proved of the model that the
//! operations are held to.

use vstd::prelude::*;
use crate::config::Config;
use crate::digest::blake2_256;
use crate::error::Error;
use crate::history::{law_history_retains_latest, retain_latest, stamped, Notice};
use crate::model::LedgerView;
use crate::operation::{lemma_after_keeps_wf, Operation};
use crate::types::AccountId;

verus! {

impl LedgerView {
    /// Whether `self` can have come out of `earlier`: every entity of `earlier` is still
    /// there, under its identity, with the owner, the parent and the content that it had;
    /// what was revoked or archived still is; and no identity was taken back.
    pub open spec fn continues(self, earlier: LedgerView) -> bool {
        &&& self.config == earlier.config
        &&& earlier.histories.len() <= self.histories.len()
        &&& forall|id: nat| #[trigger]
            earlier.namespaces.contains_key(id) ==> {
                &&& self.namespaces.contains_key(id)
                &&& self.namespaces[id].authority == earlier.namespaces[id].authority
                &&& self.namespaces[id].blob == earlier.namespaces[id].blob
                &&& self.namespaces[id].permissioned == earlier.namespaces[id].permissioned
                &&& earlier.namespaces[id].revoked ==> self.namespaces[id].revoked
            }
        &&& forall|id: nat| #[trigger]
            earlier.registries.contains_key(id) ==> {
                &&& self.registries.contains_key(id)
                &&& self.registries[id].namespace == earlier.registries[id].namespace
                &&& self.registries[id].authority == earlier.registries[id].authority
                &&& self.registries[id].blob == earlier.registries[id].blob
                &&& earlier.registries[id].revoked ==> self.registries[id].revoked
                &&& earlier.registries[id].archived ==> self.registries[id].archived
            }
        &&& forall|id: nat| #[trigger]
            earlier.entries.contains_key(id) ==> {
                &&& self.entries.contains_key(id)
                &&& self.entries[id].registry == earlier.entries[id].registry
                &&& self.entries[id].creator == earlier.entries[id].creator
                &&& self.entries[id].blob == earlier.entries[id].blob
                &&& self.entries[id].digest == earlier.entries[id].digest
                &&& earlier.entries[id].revoked ==> self.entries[id].revoked
            }
    }

    /// The ledger after the events of `notices` were recorded for `id`, one after the
    /// other.
    pub open spec fn record_events(self, id: nat, notices: Seq<Notice>) -> LedgerView
        decreases notices.len(),
    {
        if notices.len() == 0 {
            self
        } else {
            self.record_events(id, notices.drop_last()).record_event(
                id,
                notices.last().kind,
                notices.last().actor,
            )
        }
    }
}

/// An empty ledger is well-formed, whatever its bounds.
pub proof fn law_empty_ledger_is_wf(config: Config)
    ensures
        LedgerView::empty(config).wf(),
{
}

/// A request leaves a well-formed ledger well-formed, admitted or not, and the ledger
/// after it continues the ledger before it: references and content are immutable, and
/// revocation and archival are never undone.
pub proof fn law_apply_keeps_wf_and_continues(ledger: LedgerView, operation: Operation)
    requires
        ledger.wf(),
    ensures
        ledger.apply(operation).wf(),
        ledger.apply(operation).continues(ledger),
{
    if ledger.check(operation) is Ok {
        lemma_after_keeps_wf(ledger, operation);
    }
}

/// The invariants hold at all times: after any run of requests, delegate sets and blobs
/// are within their bounds, no delegate occurs twice, histories are within their depth,
/// every registry still lies in the namespace and every entry in the registry in which it
/// was created, content is unchanged, and what was revoked stays revoked.
pub proof fn law_apply_all_keeps_wf_and_continues(ledger: LedgerView, operations: Seq<Operation>)
    requires
        ledger.wf(),
    ensures
        ledger.apply_all(operations).wf(),
        ledger.apply_all(operations).continues(ledger),
    decreases operations.len(),
{
    if operations.len() > 0 {
        law_apply_all_keeps_wf_and_continues(ledger, operations.drop_last());
        law_apply_keeps_wf_and_continues(
            ledger.apply_all(operations.drop_last()),
            operations.last(),
        );
    }
}

/// Once a namespace has been revoked, no registry can be created in it any more: whatever
/// is requested in between, by whomever and with whatever blob, the creation fails with
/// `NamespaceRevoked`.
pub proof fn law_revoked_namespace_admits_no_registry(
    ledger: LedgerView,
    namespace: nat,
    actor: AccountId,
    later: Seq<Operation>,
    creator: AccountId,
    blob: Seq<u8>,
)
    requires
        ledger.wf(),
        ledger.check_revoke_namespace(namespace, actor) is Ok,
    ensures
        ledger.after_revoke_namespace(namespace, actor).apply_all(later).check_create_registry(
            namespace,
            creator,
            blob.len(),
        ) == Err::<(), Error>(Error::NamespaceRevoked),
{
    let revoked = ledger.after_revoke_namespace(namespace, actor);
    lemma_after_keeps_wf(ledger, Operation::RevokeNamespace { namespace, actor });
    law_apply_all_keeps_wf_and_continues(revoked, later);
    assert(revoked.namespaces.contains_key(namespace));
}

/// A namespace whose delegate set is at capacity takes no further delegate: the addition
/// is turned away and the ledger, the set with it, is as it was. The error is
/// `CapacityExceeded` wherever the namespace exists, is not revoked, and the request comes
/// from its authority.
pub proof fn law_full_namespace_takes_no_delegate(
    ledger: LedgerView,
    namespace: nat,
    actor: AccountId,
    delegate: AccountId,
)
    requires
        ledger.namespaces.contains_key(namespace),
        ledger.namespaces[namespace].delegates.len() >= ledger.config.max_namespace_delegates,
    ensures
        ledger.check_add_namespace_delegate(namespace, actor, delegate) is Err,
        ledger.apply(Operation::AddNamespaceDelegate { namespace, actor, delegate }) == ledger,
        ledger.namespaces[namespace].authority == actor && !ledger.namespaces[namespace].revoked
            ==> ledger.check_add_namespace_delegate(namespace, actor, delegate) == Err::<
            (),
            Error,
        >(Error::CapacityExceeded),
{
}

/// A registry whose delegate set is at capacity takes no further delegate: the addition
/// is turned away and the ledger, the set with it, is as it was. The error is
/// `CapacityExceeded` wherever the request passes the checks that come first: the
/// registry is not revoked, and the request comes from its authority, who is authorized
/// within the namespace that owns it.
pub proof fn law_full_registry_takes_no_delegate(
    ledger: LedgerView,
    registry: nat,
    actor: AccountId,
    delegate: AccountId,
)
    requires
        ledger.registries.contains_key(registry),
        ledger.registries[registry].delegates.len() >= ledger.config.max_registry_delegates,
    ensures
        ledger.check_add_registry_delegate(registry, actor, delegate) is Err,
        ledger.apply(Operation::AddRegistryDelegate { registry, actor, delegate }) == ledger,
        ledger.check_registry_access(registry, actor) is Ok && !ledger.registries[registry].revoked
            ==> ledger.check_add_registry_delegate(registry, actor, delegate) == Err::<
            (),
            Error,
        >(Error::CapacityExceeded),
{
}

/// An entry is revoked once: after a revocation that succeeded, every further one fails
/// with `AlreadyRevoked`, whoever asks and whatever was requested in between, and the
/// entry's blob and digest are what they were before the first.
pub proof fn law_entry_is_revoked_once(
    ledger: LedgerView,
    entry: nat,
    actor: AccountId,
    later: Seq<Operation>,
    again: AccountId,
)
    requires
        ledger.wf(),
        ledger.check_revoke_entry(entry, actor) is Ok,
    ensures
        ledger.after_revoke_entry(entry, actor).apply_all(later).check_revoke_entry(entry, again)
            == Err::<(), Error>(Error::AlreadyRevoked),
        ledger.after_revoke_entry(entry, actor).apply_all(later).entries[entry].blob
            == ledger.entries[entry].blob,
        ledger.after_revoke_entry(entry, actor).apply_all(later).entries[entry].digest
            == ledger.entries[entry].digest,
{
    let revoked = ledger.after_revoke_entry(entry, actor);
    lemma_after_keeps_wf(ledger, Operation::RevokeEntry { entry, actor });
    law_apply_all_keeps_wf_and_continues(revoked, later);
    assert(revoked.entries.contains_key(entry));
}

/// An entry reads back as it was written: once created, and whatever is requested
/// afterwards, the entry stands under the identity that its creation returned, in the
/// registry in which it was created, with the blob that was given and the digest of that
/// blob.
pub proof fn law_created_entry_reads_back(
    ledger: LedgerView,
    registry: nat,
    creator: AccountId,
    blob: Seq<u8>,
    later: Seq<Operation>,
)
    requires
        ledger.wf(),
        ledger.check_create_entry(registry, creator, blob.len()) is Ok,
    ensures
        ledger.after_create_entry(registry, creator, blob, blake2_256(blob)).apply_all(later).entries.contains_key(
            ledger.next_identifier(),
        ),
        ledger.after_create_entry(registry, creator, blob, blake2_256(blob)).apply_all(
            later,
        ).entries[ledger.next_identifier()].blob == blob,
        ledger.after_create_entry(registry, creator, blob, blake2_256(blob)).apply_all(
            later,
        ).entries[ledger.next_identifier()].digest == blake2_256(blob),
        ledger.after_create_entry(registry, creator, blob, blake2_256(blob)).apply_all(
            later,
        ).entries[ledger.next_identifier()].registry == registry,
        ledger.after_create_entry(registry, creator, blob, blake2_256(blob)).apply_all(
            later,
        ).entries[ledger.next_identifier()].creator == creator,
{
    let created = ledger.after_create_entry(registry, creator, blob, blake2_256(blob));
    lemma_after_keeps_wf(ledger, Operation::CreateEntry { registry, creator, blob, digest: blake2_256(blob) });
    law_apply_all_keeps_wf_and_continues(created, later);
    assert(created.entries.contains_key(ledger.next_identifier()));
}

/// Recording events for an identity touches nothing but its history.
pub proof fn lemma_record_events(ledger: LedgerView, id: nat, notices: Seq<Notice>)
    requires
        id < ledger.histories.len(),
    ensures
        ledger.record_events(id, notices).histories.len() == ledger.histories.len(),
        ledger.record_events(id, notices).histories[id as int] == ledger.histories[id as int].record_all(
            notices,
        ),
    decreases notices.len(),
{
    if notices.len() > 0 {
        lemma_record_events(ledger, id, notices.drop_last());
    }
}

/// For every identity that was issued, the events read back are exactly the most recent
/// ones, as many as the configured depth allows, in the order in which they were recorded.
/// Once at least that many were recorded, they are the last of those, and nothing older.
pub proof fn law_events_for_returns_latest(ledger: LedgerView, id: nat, notices: Seq<Notice>)
    requires
        ledger.wf(),
        id < ledger.histories.len(),
    ensures
        ledger.record_events(id, notices).events_for(id).len() <= ledger.config.max_events_history,
        ledger.record_events(id, notices).events_for(id) == retain_latest(
            ledger.events_for(id) + stamped(ledger.histories[id as int].next_sequence, notices),
            ledger.config.max_events_history as nat,
        ),
        notices.len() >= ledger.config.max_events_history ==> ledger.record_events(
            id,
            notices,
        ).events_for(id) == stamped(ledger.histories[id as int].next_sequence, notices).subrange(
            notices.len() - ledger.config.max_events_history,
            notices.len() as int,
        ),
{
    lemma_record_events(ledger, id, notices);
    law_history_retains_latest(ledger.histories[id as int], notices);
}

} // verus!
