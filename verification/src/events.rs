//! The change-tracking primitives: an append-only component event log, a
//! per-subscriber read cursor into it, and the bit set the synchronization
//! systems collect "dirty" entity indices into.

use vstd::prelude::*;

verus! {

/// One change to a component store slot, identified by the entity index.
#[derive(Clone, Copy, Debug, PartialEq, Eq, Structural)]
pub enum ComponentEvent {
    /// The component was inserted into a previously empty slot.
    Inserted(u32),
    /// The component in an occupied slot was overwritten or touched.
    Modified(u32),
    /// The component was removed from its slot.
    Removed(u32),
}

impl ComponentEvent {
    /// The entity index the event is about.
    pub open spec fn index(self) -> u32 {
        match self {
            ComponentEvent::Inserted(i) => i,
            ComponentEvent::Modified(i) => i,
            ComponentEvent::Removed(i) => i,
        }
    }
}

/// Whether `ev` concerns entity `e` and its kind is enabled by the flags:
/// `ins` selects insertions, `mo` modifications, `rem` removals.
pub open spec fn event_selected(
    ev: ComponentEvent,
    e: u32,
    ins: bool,
    mo: bool,
    rem: bool,
) -> bool {
    ev.index() == e && match ev {
        ComponentEvent::Inserted(_) => ins,
        ComponentEvent::Modified(_) => mo,
        ComponentEvent::Removed(_) => rem,
    }
}

/// Whether one of the first `n` events selects entity `e`.
pub open spec fn touched_upto(
    evs: Seq<ComponentEvent>,
    e: u32,
    ins: bool,
    mo: bool,
    rem: bool,
    n: int,
) -> bool {
    exists|k: int| 0 <= k < n && k < evs.len() && event_selected(#[trigger] evs[k], e, ins, mo, rem)
}

/// Whether one of the events selects entity `e`: the "dirty" predicate the
/// synchronization systems join their stores against.
pub open spec fn touched(
    evs: Seq<ComponentEvent>,
    e: u32,
    ins: bool,
    mo: bool,
    rem: bool,
) -> bool {
    touched_upto(evs, e, ins, mo, rem, evs.len() as int)
}

/// One past the largest entity index any of the events mentions; every
/// touched entity is below this bound.
pub open spec fn events_bound(evs: Seq<ComponentEvent>) -> int
    decreases evs.len(),
{
    if evs.len() == 0 {
        0
    } else {
        let rest = events_bound(evs.drop_last());
        let last = evs.last().index() + 1;
        if rest > last {
            rest
        } else {
            last
        }
    }
}

/// Every event's index lies below `events_bound`, and the bound itself
/// stays within the entity index range.
pub proof fn lemma_events_bound(evs: Seq<ComponentEvent>)
    ensures
        forall|k: int| 0 <= k < evs.len() ==> #[trigger] evs[k].index() < events_bound(evs),
        0 <= events_bound(evs) <= u32::MAX as int + 1,
    decreases evs.len(),
{
    if evs.len() > 0 {
        lemma_events_bound(evs.drop_last());
        assert forall|k: int| 0 <= k < evs.len() implies #[trigger] evs[k].index()
            < events_bound(evs) by {
            if k < evs.len() - 1 {
                assert(evs.drop_last()[k] == evs[k]);
                assert(evs[k].index() < events_bound(evs.drop_last()));
            } else {
                assert(evs[k] == evs.last());
            }
        }
    }
}

/// A cursor of one subscriber into an append-only event log: everything
/// before the cursor has been consumed by this subscriber.
#[derive(Clone, Copy, Debug)]
pub struct ReaderId {
    cursor: usize,
}

impl ReaderId {
    /// The read position of this subscriber.
    pub closed spec fn cursor(self) -> int {
        self.cursor as int
    }

    /// The read position, for callers outside of proofs.
    pub fn position(&self) -> (p: usize)
        ensures
            p == self.cursor(),
    {
        self.cursor
    }
}

/// An append-only log of component events. Subscribers register a
/// [`ReaderId`] and consume the tail of the log from their own cursor.
#[derive(Debug)]
pub struct EventChannel {
    events: Vec<ComponentEvent>,
}

impl EventChannel {
    /// Every event ever written, oldest first.
    pub closed spec fn log(self) -> Seq<ComponentEvent> {
        self.events@
    }

    /// An empty log.
    pub fn new() -> (ch: Self)
        ensures
            ch.log() == Seq::<ComponentEvent>::empty(),
    {
        EventChannel { events: Vec::new() }
    }

    /// The number of events written so far.
    pub fn len(&self) -> (n: usize)
        ensures
            n == self.log().len(),
    {
        self.events.len()
    }

    /// Appends one event to the log.
    pub fn write(&mut self, event: ComponentEvent)
        ensures
            final(self).log() == old(self).log().push(event),
    {
        self.events.push(event);
    }

    /// Registers a new subscriber; its cursor starts at the current end of
    /// the log, so only events written afterwards are delivered to it.
    pub fn register_reader(&self) -> (r: ReaderId)
        ensures
            r.cursor() == self.log().len(),
    {
        ReaderId { cursor: self.events.len() }
    }

    /// Hands the subscriber every event written since its last read, oldest
    /// first, and advances its cursor to the end of the log.
    pub fn read(&self, reader: &mut ReaderId) -> (evs: Vec<ComponentEvent>)
        requires
            old(reader).cursor() <= self.log().len(),
        ensures
            evs@ == self.log().subrange(old(reader).cursor(), self.log().len() as int),
            final(reader).cursor() == self.log().len(),
    {
        let mut evs: Vec<ComponentEvent> = Vec::new();
        let mut i: usize = reader.cursor;
        while i < self.events.len()
            invariant
                reader.cursor() <= i <= self.log().len(),
                evs@ == self.log().subrange(reader.cursor(), i as int),
            decreases self.log().len() - i,
        {
            evs.push(self.events[i]);
            proof {
                assert(evs@ =~= self.log().subrange(reader.cursor(), i + 1));
            }
            i = i + 1;
        }
        reader.cursor = self.events.len();
        evs
    }
}

/// A growable set of entity indices; the synchronization systems use it to
/// collect the entities touched by the events of a pass.
#[derive(Debug)]
pub struct BitSet {
    bits: Vec<bool>,
}

impl BitSet {
    /// The underlying bit vector.
    pub closed spec fn bits(self) -> Seq<bool> {
        self.bits@
    }

    /// Whether entity index `i` is in the set.
    pub open spec fn contains(self, i: int) -> bool {
        0 <= i < self.bits().len() && self.bits()[i]
    }

    /// One past the largest index the set can currently hold; every member
    /// is below this bound.
    pub open spec fn span(self) -> int {
        self.bits().len() as int
    }

    /// An empty set.
    pub fn new() -> (s: Self)
        ensures
            forall|i: int| !s.contains(i),
            s.span() == 0,
    {
        BitSet { bits: Vec::new() }
    }

    /// The iteration bound: every member of the set is below it.
    pub fn bound(&self) -> (n: usize)
        ensures
            n == self.span(),
    {
        self.bits.len()
    }

    /// Adds entity index `i` to the set.
    pub fn add(&mut self, i: u32)
        ensures
            final(self).contains(i as int),
            forall|j: int| j != i as int ==> final(self).contains(j) == old(self).contains(j),
            final(self).span() == if old(self).span() > i as int + 1 {
                old(self).span()
            } else {
                i as int + 1
            },
    {
        let idx = i as usize;
        while self.bits.len() <= idx
            invariant
                forall|j: int| self.contains(j) == old(self).contains(j),
                self.span() == old(self).span()
                    || old(self).span() < self.span() <= idx + 1,
            decreases idx + 1 - self.bits.len(),
        {
            self.bits.push(false);
        }
        self.bits[idx] = true;
    }

    /// Adds to the set the index of every event whose kind is enabled by
    /// the three flags.
    pub fn add_touched(
        &mut self,
        evs: &Vec<ComponentEvent>,
        ins: bool,
        mo: bool,
        rem: bool,
    )
        ensures
            forall|e: u32|
                final(self).contains(e as int)
                    <==> old(self).contains(e as int) || touched(evs@, e, ins, mo, rem),
            old(self).span() <= u32::MAX as int + 1 ==> final(self).span() <= u32::MAX as int
                + 1,
    {
        let mut i: usize = 0;
        while i < evs.len()
            invariant
                i <= evs@.len(),
                forall|e: u32|
                    self.contains(e as int)
                        <==> old(self).contains(e as int)
                            || touched_upto(evs@, e, ins, mo, rem, i as int),
                old(self).span() <= u32::MAX as int + 1 ==> self.span() <= u32::MAX as int
                    + 1,
            decreases evs@.len() - i,
        {
            let ev = evs[i];
            let (selected, idx) = match ev {
                ComponentEvent::Inserted(n) => (ins, n),
                ComponentEvent::Modified(n) => (mo, n),
                ComponentEvent::Removed(n) => (rem, n),
            };
            if selected {
                self.add(idx);
            }
            proof {
                assert(forall|e: u32|
                    touched_upto(evs@, e, ins, mo, rem, i + 1)
                        ==> touched_upto(evs@, e, ins, mo, rem, i as int)
                            || event_selected(evs@[i as int], e, ins, mo, rem));
                assert(forall|e: u32|
                    touched_upto(evs@, e, ins, mo, rem, i as int)
                        ==> touched_upto(evs@, e, ins, mo, rem, i + 1));
            }
            i = i + 1;
        }
    }

    /// Whether entity index `i` is in the set.
    pub fn has(&self, i: u32) -> (b: bool)
        ensures
            b == self.contains(i as int),
    {
        let idx = i as usize;
        if idx < self.bits.len() {
            self.bits[idx]
        } else {
            false
        }
    }
}

} // verus!
