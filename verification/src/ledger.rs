//! The ledger's store: the four mappings, and the identifier registry that issues
//! identities and keeps their histories.

use std::collections::HashMap;
use vstd::prelude::*;
use crate::config::Config;
use crate::entry::Entry;
use crate::history::{Event, EventKind, History, HistoryView};
use crate::model::LedgerView;
use crate::namespace::Namespace;
use crate::registry::Registry;
use crate::types::{AccountId, Identifier};

verus! {

/// A stored mapping as a mathematical one: identities as natural numbers, records by
/// their views.
pub open spec fn lift<V: View>(stored: Map<usize, V>) -> Map<nat, V::V> {
    Map::new(
        |id: nat| id <= usize::MAX && stored.contains_key(id as usize),
        |id: nat| stored[id as usize]@,
    )
}

/// The ledger: namespaces, registries and entries by identity, and the event history of
/// every identity issued.
pub struct Ledger {
    config: Config,
    namespaces: HashMap<Identifier, Namespace>,
    registries: HashMap<Identifier, Registry>,
    entries: HashMap<Identifier, Entry>,
    histories: Vec<History>,
}

impl View for Ledger {
    type V = LedgerView;

    closed spec fn view(&self) -> LedgerView {
        LedgerView {
            config: self.config,
            namespaces: lift(self.namespaces@),
            registries: lift(self.registries@),
            entries: lift(self.entries@),
            histories: self.histories@.map_values(|history: History| history@),
        }
    }
}

impl Ledger {
    /// Every stored history is a well-formed ring.
    pub closed spec fn storage_wf(&self) -> bool {
        forall|i: int| 0 <= i < self.histories@.len() ==> (#[trigger] self.histories@[i]).wf()
    }

    /// The ledger's invariant: its view is well-formed, and so is what stands behind it.
    pub open spec fn wf(&self) -> bool {
        self@.wf() && self.storage_wf()
    }

    /// An empty ledger that runs under `config`.
    pub fn new(config: Config) -> (ledger: Self)
        ensures
            ledger.wf(),
            ledger@ == LedgerView::empty(config),
    {
        let ledger = Ledger {
            config,
            namespaces: HashMap::new(),
            registries: HashMap::new(),
            entries: HashMap::new(),
            histories: Vec::new(),
        };
        assert(ledger@ =~= LedgerView::empty(config));
        ledger
    }

    /// The bounds under which the ledger runs.
    pub fn config(&self) -> (config: Config)
        ensures
            config == self@.config,
    {
        self.config
    }

    /// The number of identities issued so far, which is the identity that comes next.
    pub fn next_identifier(&self) -> (next: Identifier)
        ensures
            next == self@.next_identifier(),
    {
        self.histories.len()
    }

    /// The namespace stored under `id`.
    pub(crate) fn namespace(&self, id: Identifier) -> (found: Option<&Namespace>)
        ensures
            match found {
                Some(namespace) => self@.namespaces.contains_key(id as nat) && namespace@
                    == self@.namespaces[id as nat],
                None => !self@.namespaces.contains_key(id as nat),
            },
    {
        broadcast use vstd::std_specs::hash::group_hash_axioms;

        self.namespaces.get(&id)
    }

    /// Takes the namespace stored under `id` out of the store.
    pub(crate) fn take_namespace(&mut self, id: Identifier) -> (namespace: Namespace)
        requires
            old(self)@.namespaces.contains_key(id as nat),
        ensures
            namespace@ == old(self)@.namespaces[id as nat],
            final(self)@ == (LedgerView {
                namespaces: old(self)@.namespaces.remove(id as nat),
                ..old(self)@
            }),
            final(self).storage_wf() == old(self).storage_wf(),
    {
        broadcast use vstd::std_specs::hash::group_hash_axioms;

        let taken = self.namespaces.remove(&id);
        assert(self@.namespaces =~= old(self)@.namespaces.remove(id as nat));
        taken.unwrap()
    }

    /// Stores `namespace` under `id`.
    pub(crate) fn put_namespace(&mut self, id: Identifier, namespace: Namespace)
        ensures
            final(self)@ == (LedgerView {
                namespaces: old(self)@.namespaces.insert(id as nat, namespace@),
                ..old(self)@
            }),
            final(self).storage_wf() == old(self).storage_wf(),
    {
        broadcast use vstd::std_specs::hash::group_hash_axioms;

        let _ = self.namespaces.insert(id, namespace);
        assert(self@.namespaces =~= old(self)@.namespaces.insert(id as nat, namespace@));
    }

    /// The registry stored under `id`.
    pub(crate) fn registry(&self, id: Identifier) -> (found: Option<&Registry>)
        ensures
            match found {
                Some(registry) => self@.registries.contains_key(id as nat) && registry@
                    == self@.registries[id as nat],
                None => !self@.registries.contains_key(id as nat),
            },
    {
        broadcast use vstd::std_specs::hash::group_hash_axioms;

        self.registries.get(&id)
    }

    /// Takes the registry stored under `id` out of the store.
    pub(crate) fn take_registry(&mut self, id: Identifier) -> (registry: Registry)
        requires
            old(self)@.registries.contains_key(id as nat),
        ensures
            registry@ == old(self)@.registries[id as nat],
            final(self)@ == (LedgerView {
                registries: old(self)@.registries.remove(id as nat),
                ..old(self)@
            }),
            final(self).storage_wf() == old(self).storage_wf(),
    {
        broadcast use vstd::std_specs::hash::group_hash_axioms;

        let taken = self.registries.remove(&id);
        assert(self@.registries =~= old(self)@.registries.remove(id as nat));
        taken.unwrap()
    }

    /// Stores `registry` under `id`.
    pub(crate) fn put_registry(&mut self, id: Identifier, registry: Registry)
        ensures
            final(self)@ == (LedgerView {
                registries: old(self)@.registries.insert(id as nat, registry@),
                ..old(self)@
            }),
            final(self).storage_wf() == old(self).storage_wf(),
    {
        broadcast use vstd::std_specs::hash::group_hash_axioms;

        let _ = self.registries.insert(id, registry);
        assert(self@.registries =~= old(self)@.registries.insert(id as nat, registry@));
    }

    /// The entry stored under `id`.
    pub(crate) fn entry(&self, id: Identifier) -> (found: Option<&Entry>)
        ensures
            match found {
                Some(entry) => self@.entries.contains_key(id as nat) && entry@
                    == self@.entries[id as nat],
                None => !self@.entries.contains_key(id as nat),
            },
    {
        broadcast use vstd::std_specs::hash::group_hash_axioms;

        self.entries.get(&id)
    }

    /// Takes the entry stored under `id` out of the store.
    pub(crate) fn take_entry(&mut self, id: Identifier) -> (entry: Entry)
        requires
            old(self)@.entries.contains_key(id as nat),
        ensures
            entry@ == old(self)@.entries[id as nat],
            final(self)@ == (LedgerView {
                entries: old(self)@.entries.remove(id as nat),
                ..old(self)@
            }),
            final(self).storage_wf() == old(self).storage_wf(),
    {
        broadcast use vstd::std_specs::hash::group_hash_axioms;

        let taken = self.entries.remove(&id);
        assert(self@.entries =~= old(self)@.entries.remove(id as nat));
        taken.unwrap()
    }

    /// Stores `entry` under `id`.
    pub(crate) fn put_entry(&mut self, id: Identifier, entry: Entry)
        ensures
            final(self)@ == (LedgerView {
                entries: old(self)@.entries.insert(id as nat, entry@),
                ..old(self)@
            }),
            final(self).storage_wf() == old(self).storage_wf(),
    {
        broadcast use vstd::std_specs::hash::group_hash_axioms;

        let _ = self.entries.insert(id, entry);
        assert(self@.entries =~= old(self)@.entries.insert(id as nat, entry@));
    }

    /// Issues the next identity and opens its history with the event of its creation.
    pub(crate) fn issue(&mut self, creator: AccountId) -> (id: Identifier)
        requires
            old(self).storage_wf(),
        ensures
            id == old(self)@.next_identifier(),
            final(self)@ == old(self)@.issue(creator),
            final(self).storage_wf(),
    {
        let id: Identifier = self.histories.len();
        let mut history = History::new(self.config.max_events_history as usize);
        history.record(EventKind::Created, creator);
        self.histories.push(history);
        assert(self@.histories =~= old(self)@.issue(creator).histories);
        id
    }

    /// Appends an event to the history of `id`, evicting the oldest where the history is
    /// full. Nothing is recorded for an identity that was not issued.
    pub(crate) fn record_event(&mut self, id: Identifier, kind: EventKind, actor: AccountId)
        requires
            old(self).storage_wf(),
        ensures
            final(self)@ == old(self)@.record_event(id as nat, kind, actor),
            final(self).storage_wf(),
    {
        if id < self.histories.len() {
            self.histories[id].record(kind, actor);
            assert(self@.histories =~= old(self)@.record_event(id as nat, kind, actor).histories);
        }
    }

    /// The number of events retained for `id`.
    pub fn event_count(&self, id: Identifier) -> (count: usize)
        requires
            self.wf(),
        ensures
            count == self@.events_for(id as nat).len(),
    {
        if id < self.histories.len() {
            self.histories[id].len()
        } else {
            0
        }
    }

    /// The retained event of `id` at `index`, the oldest being at 0.
    pub fn event_at(&self, id: Identifier, index: usize) -> (event: Option<Event>)
        requires
            self.wf(),
        ensures
            event == (if index < self@.events_for(id as nat).len() {
                Some(self@.events_for(id as nat)[index as int])
            } else {
                None
            }),
    {
        if id < self.histories.len() {
            self.histories[id].get(index)
        } else {
            None
        }
    }

    /// The retained events of `id`, oldest first. The ledger is not changed, so that
    /// asking again before the next operation gives the same events.
    pub fn events_for(&self, id: Identifier) -> (events: Vec<Event>)
        requires
            self.wf(),
        ensures
            events@ == self@.events_for(id as nat),
    {
        if id < self.histories.len() {
            self.histories[id].events()
        } else {
            Vec::new()
        }
    }
}

} // verus!
