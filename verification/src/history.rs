//! The bounded history of events kept for one identifier.

use vstd::prelude::*;
use crate::types::AccountId;

verus! {

/// What happened to an entity.
#[derive(Clone, Copy, Debug, PartialEq, Eq, Structural)]
pub enum EventKind {
    /// The entity was created.
    Created,
    /// A delegate was added to it.
    DelegateAdded,
    /// A delegate was removed from it.
    DelegateRemoved,
    /// It was revoked.
    Revoked,
    /// It was archived.
    Archived,
}

/// One record of a history.
#[derive(Clone, Copy, Debug, PartialEq, Eq, Structural)]
pub struct Event {
    /// What happened.
    pub kind: EventKind,
    /// The account that did it.
    pub actor: AccountId,
    /// The number of events recorded for the identifier before this one, counted modulo 2^64.
    pub sequence: u64,
}

/// The sequence number that follows `sequence`.
pub open spec fn following(sequence: u64) -> u64 {
    if sequence == u64::MAX {
        0
    } else {
        (sequence + 1) as u64
    }
}

/// The last `capacity` of `events`, or all of them where they are no more than that.
pub open spec fn retain_latest(events: Seq<Event>, capacity: nat) -> Seq<Event> {
    if events.len() <= capacity {
        events
    } else {
        events.subrange(events.len() - capacity, events.len() as int)
    }
}

/// A history as a mathematical value: the retained events, oldest first.
pub struct HistoryView {
    /// Most events that are retained.
    pub capacity: nat,
    /// The retained events in the order in which they were recorded.
    pub events: Seq<Event>,
    /// The sequence number that the next event gets.
    pub next_sequence: u64,
}

impl HistoryView {
    /// No more events are retained than the capacity allows.
    pub open spec fn wf(self) -> bool {
        self.events.len() <= self.capacity
    }

    /// The history in which nothing was recorded yet.
    pub open spec fn empty(capacity: nat) -> HistoryView {
        HistoryView { capacity, events: Seq::empty(), next_sequence: 0 }
    }

    /// The event that `record` would add for `kind` and `actor`.
    pub open spec fn stamp(self, kind: EventKind, actor: AccountId) -> Event {
        Event { kind, actor, sequence: self.next_sequence }
    }

    /// The history after one more event: it goes to the end, and the oldest leaves where
    /// the capacity would be exceeded.
    pub open spec fn record(self, kind: EventKind, actor: AccountId) -> HistoryView {
        HistoryView {
            capacity: self.capacity,
            events: retain_latest(self.events.push(self.stamp(kind, actor)), self.capacity),
            next_sequence: following(self.next_sequence),
        }
    }
}

/// A request to record an event: what happened, and who did it.
pub struct Notice {
    /// What happened.
    pub kind: EventKind,
    /// The account that did it.
    pub actor: AccountId,
}

/// The sequence number `steps` events after `sequence`.
pub open spec fn advance(sequence: u64, steps: nat) -> u64 {
    ((sequence + steps) % 0x1_0000_0000_0000_0000) as u64
}

/// The events that recording `notices` one after the other adds, where the first of them
/// gets the sequence number `first`.
pub open spec fn stamped(first: u64, notices: Seq<Notice>) -> Seq<Event> {
    Seq::new(
        notices.len(),
        |i: int| Event { kind: notices[i].kind, actor: notices[i].actor, sequence: advance(first, i as nat) },
    )
}

impl HistoryView {
    /// The history after recording `notices` one after the other.
    pub open spec fn record_all(self, notices: Seq<Notice>) -> HistoryView
        decreases notices.len(),
    {
        if notices.len() == 0 {
            self
        } else {
            self.record_all(notices.drop_last()).record(notices.last().kind, notices.last().actor)
        }
    }
}

/// Trimming twice is trimming once: what was evicted earlier would be evicted now.
pub proof fn lemma_retain_latest_push(events: Seq<Event>, event: Event, capacity: nat)
    ensures
        retain_latest(retain_latest(events, capacity).push(event), capacity) == retain_latest(
            events.push(event),
            capacity,
        ),
{
    assert(retain_latest(retain_latest(events, capacity).push(event), capacity) =~= retain_latest(
        events.push(event),
        capacity,
    ));
}

/// A history retains exactly the most recent events, as many as its capacity allows, in
/// the order in which they were recorded: after any run of recordings it holds the tail of
/// what it held before followed by what was recorded. Once at least as many events were
/// recorded as the capacity, nothing older is left.
pub proof fn law_history_retains_latest(history: HistoryView, notices: Seq<Notice>)
    requires
        history.wf(),
    ensures
        history.record_all(notices).wf(),
        history.record_all(notices).capacity == history.capacity,
        history.record_all(notices).next_sequence == advance(history.next_sequence, notices.len()),
        history.record_all(notices).events == retain_latest(
            history.events + stamped(history.next_sequence, notices),
            history.capacity,
        ),
        notices.len() >= history.capacity ==> history.record_all(notices).events == stamped(
            history.next_sequence,
            notices,
        ).subrange(notices.len() - history.capacity, notices.len() as int),
    decreases notices.len(),
{
    let first = history.next_sequence;
    let all = history.events + stamped(first, notices);
    if notices.len() == 0 {
        assert(all =~= history.events);
    } else {
        let earlier = notices.drop_last();
        let last = notices.last();
        law_history_retains_latest(history, earlier);
        let before = history.record_all(earlier);
        let event = before.stamp(last.kind, last.actor);
        assert(following(advance(first, earlier.len())) == advance(first, notices.len()));
        assert(event == stamped(first, notices)[notices.len() - 1]);
        assert(all =~= (history.events + stamped(first, earlier)).push(event));
        lemma_retain_latest_push(history.events + stamped(first, earlier), event, history.capacity);
    }
    if notices.len() >= history.capacity {
        assert(retain_latest(all, history.capacity) =~= stamped(first, notices).subrange(
            notices.len() - history.capacity,
            notices.len() as int,
        ));
    }
}

/// The events of a ring of `slots` whose oldest record stands at `head`, oldest first.
pub open spec fn chronological(slots: Seq<Event>, head: int) -> Seq<Event> {
    slots.subrange(head, slots.len() as int) + slots.subrange(0, head)
}

/// A fixed-capacity ring of events. Once it is full, each new event overwrites the oldest.
pub struct History {
    capacity: usize,
    slots: Vec<Event>,
    head: usize,
    next_sequence: u64,
}

impl View for History {
    type V = HistoryView;

    closed spec fn view(&self) -> HistoryView {
        HistoryView {
            capacity: self.capacity as nat,
            events: chronological(self.slots@, self.head as int),
            next_sequence: self.next_sequence,
        }
    }
}

impl History {
    /// The ring is no longer than its capacity, and its head is a slot of it; while the
    /// ring is not full the oldest event stands first.
    pub closed spec fn wf(&self) -> bool {
        &&& self.slots@.len() <= self.capacity
        &&& self.head <= self.slots@.len()
        &&& self.head < self.slots@.len() || self.head == 0
        &&& self.slots@.len() < self.capacity ==> self.head == 0
    }

    /// A well-formed ring retains no more events than its capacity.
    pub proof fn law_length_within_capacity(&self)
        requires
            self.wf(),
        ensures
            self@.wf(),
    {
    }

    /// An empty history that retains up to `capacity` events.
    pub fn new(capacity: usize) -> (history: Self)
        ensures
            history.wf(),
            history@ == HistoryView::empty(capacity as nat),
    {
        let history = History { capacity, slots: Vec::new(), head: 0, next_sequence: 0 };
        assert(history@.events =~= Seq::<Event>::empty());
        history
    }

    /// Most events that are retained.
    pub fn capacity(&self) -> (capacity: usize)
        ensures
            capacity == self@.capacity,
    {
        self.capacity
    }

    /// The number of retained events.
    pub fn len(&self) -> (n: usize)
        requires
            self.wf(),
        ensures
            n == self@.events.len(),
    {
        self.slots.len()
    }

    /// The retained event at `index`, the oldest being at 0.
    pub fn get(&self, index: usize) -> (event: Option<Event>)
        requires
            self.wf(),
        ensures
            event == (if index < self@.events.len() {
                Some(self@.events[index as int])
            } else {
                None
            }),
    {
        let n: usize = self.slots.len();
        if index >= n {
            return None;
        }
        let slot: usize = if index < n - self.head {
            self.head + index
        } else {
            index - (n - self.head)
        };
        Some(self.slots[slot])
    }

    /// The retained events, oldest first.
    pub fn events(&self) -> (events: Vec<Event>)
        requires
            self.wf(),
        ensures
            events@ == self@.events,
    {
        let n: usize = self.slots.len();
        let mut events: Vec<Event> = Vec::new();
        let mut i: usize = self.head;
        while i < n
            invariant
                self.head <= i <= n,
                n == self.slots@.len(),
                events@ == self.slots@.subrange(self.head as int, i as int),
            decreases n - i,
        {
            events.push(self.slots[i]);
            i += 1;
        }
        let mut j: usize = 0;
        while j < self.head
            invariant
                j <= self.head <= n,
                n == self.slots@.len(),
                events@ == self.slots@.subrange(self.head as int, n as int) + self.slots@.subrange(
                    0,
                    j as int,
                ),
            decreases self.head - j,
        {
            events.push(self.slots[j]);
            j += 1;
        }
        events
    }

    /// Records one more event, evicting the oldest where the history is full.
    pub fn record(&mut self, kind: EventKind, actor: AccountId)
        requires
            old(self).wf(),
        ensures
            final(self).wf(),
            final(self)@ == old(self)@.record(kind, actor),
    {
        let event = Event { kind, actor, sequence: self.next_sequence };
        let ghost before = self.slots@;
        let ghost head = self.head as int;
        if self.capacity == 0 {
            assert(retain_latest(chronological(before, head).push(event), 0) =~= chronological(
                before,
                head,
            ));
        } else if self.slots.len() < self.capacity {
            self.slots.push(event);
            assert(chronological(self.slots@, 0) =~= chronological(before, 0).push(event));
        } else {
            self.slots[self.head] = event;
            self.head = if self.head + 1 == self.capacity {
                0
            } else {
                self.head + 1
            };
            assert(chronological(self.slots@, self.head as int) =~= retain_latest(
                chronological(before, head).push(event),
                self.capacity as nat,
            ));
        }
        self.next_sequence = if self.next_sequence == u64::MAX {
            0
        } else {
            self.next_sequence + 1
        };
    }
}

} // verus!
