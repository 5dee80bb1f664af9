//! A component store with an append-only change log: the model of the host
//! engine's flagged storages that the synchronization systems watch.

use vstd::prelude::*;

verus! {

use crate::events::ComponentEvent;
use crate::events::EventChannel;
use crate::events::ReaderId;

/// The store of rigid body handles, one per entity that is a rigid body.
pub type BodyStorage = Storage<crate::objects::PhysicsHandle<crate::objects::PhysicsRigidBodyTag>>;

/// The store of area handles.
pub type AreaStorage = Storage<crate::objects::PhysicsHandle<crate::objects::PhysicsAreaTag>>;

/// The store of shape handles.
pub type ShapeStorage = Storage<crate::objects::PhysicsHandle<crate::objects::PhysicsShapeTag>>;

/// The store of joint handles.
pub type JointStorage = Storage<crate::objects::PhysicsHandle<crate::objects::PhysicsJointTag>>;

/// The store of local poses, one per positioned entity.
pub type TransformStorage = Storage<crate::math::Isometry>;

/// The store of parent links.
pub type ParentStorage = Storage<crate::objects::Parent>;

/// The store of attachment caches.
pub type AttachmentStorage = Storage<crate::objects::PhysicsAttachment>;

/// Components of one kind, indexed by entity. Every mutation appends the
/// matching [`ComponentEvent`] to the store's change log, which subscribers
/// consume through their own [`ReaderId`] cursor.
pub struct Storage<C> {
    slots: Vec<Option<C>>,
    channel: EventChannel,
}

impl<C> Storage<C> {
    /// Every slot of the store, occupied or not, by entity index.
    pub closed spec fn slots(self) -> Seq<Option<C>> {
        self.slots@
    }

    /// The component of entity `e`, if any.
    pub open spec fn slot(self, e: int) -> Option<C> {
        if 0 <= e < self.slots().len() {
            self.slots()[e]
        } else {
            None
        }
    }

    /// Whether entity `e` has a component in this store.
    pub open spec fn has(self, e: int) -> bool {
        self.slot(e) is Some
    }

    /// The component of entity `e`; meaningful only when `has(e)`.
    pub open spec fn at(self, e: int) -> C {
        self.slot(e)->Some_0
    }

    /// The change log of this store.
    pub closed spec fn log(self) -> Seq<ComponentEvent> {
        self.channel.log()
    }

    /// One past the largest entity index that may have a component; every
    /// occupied slot is below this bound.
    pub open spec fn span(self) -> int {
        self.slots().len() as int
    }

    /// Entities are `u32` indices, so a store never spans further than the
    /// `u32` range; every mutation keeps this.
    pub open spec fn wf(self) -> bool {
        self.span() <= u32::MAX as int + 1
    }

    /// An empty store with an empty change log.
    pub fn new() -> (s: Self)
        ensures
            forall|e: int| !s.has(e),
            s.span() == 0,
            s.wf(),
            s.log() == Seq::<ComponentEvent>::empty(),
    {
        Storage { slots: Vec::new(), channel: EventChannel::new() }
    }

    /// The iteration bound: every entity with a component is below it.
    pub fn bound(&self) -> (n: usize)
        ensures
            n == self.span(),
    {
        self.slots.len()
    }

    /// Whether entity `e` has a component in this store.
    pub fn contains(&self, e: u32) -> (b: bool)
        ensures
            b == self.has(e as int),
    {
        let idx = e as usize;
        idx < self.slots.len() && self.slots[idx].is_some()
    }

    /// The component of entity `e`, if any.
    pub fn get(&self, e: u32) -> (c: Option<&C>)
        ensures
            c is Some <==> self.has(e as int),
            c is Some ==> *c->Some_0 == self.at(e as int),
    {
        let idx = e as usize;
        if idx < self.slots.len() {
            self.slots[idx].as_ref()
        } else {
            None
        }
    }

    /// Gives entity `e` the component `c`, returning the component it had
    /// before, if any. Logs `Inserted` for a fresh slot and `Modified` for
    /// an overwrite.
    pub fn insert(&mut self, e: u32, c: C) -> (prev: Option<C>)
        requires
            old(self).wf(),
        ensures
            final(self).wf(),
            final(self).has(e as int),
            final(self).at(e as int) == c,
            forall|j: int| j != e as int ==> final(self).slot(j) == old(self).slot(j),
            final(self).span() == if old(self).span() > e as int + 1 {
                old(self).span()
            } else {
                e as int + 1
            },
            old(self).has(e as int) ==> {
                &&& prev == Some(old(self).at(e as int))
                &&& final(self).log() == old(self).log().push(
                    ComponentEvent::Modified(e),
                )
            },
            !old(self).has(e as int) ==> {
                &&& prev is None
                &&& final(self).log() == old(self).log().push(
                    ComponentEvent::Inserted(e),
                )
            },
    {
        let idx = e as usize;
        while self.slots.len() <= idx
            invariant
                forall|j: int| self.slot(j) == old(self).slot(j),
                self.span() == old(self).span()
                    || old(self).span() < self.span() <= idx + 1,
                self.channel == old(self).channel,
            decreases idx + 1 - self.slots.len(),
        {
            self.slots.push(None);
        }
        let mut taken: Option<C> = Some(c);
        core::mem::swap(&mut taken, &mut self.slots[idx]);
        if taken.is_some() {
            self.channel.write(ComponentEvent::Modified(e));
        } else {
            self.channel.write(ComponentEvent::Inserted(e));
        }
        taken
    }

    /// Removes the component of entity `e`, returning it. Logs `Removed` if
    /// the slot was occupied; an empty slot is left as it is, unlogged.
    pub fn remove(&mut self, e: u32) -> (prev: Option<C>)
        ensures
            final(self).wf() == old(self).wf(),
            !final(self).has(e as int),
            forall|j: int| j != e as int ==> final(self).slot(j) == old(self).slot(j),
            final(self).span() == old(self).span(),
            old(self).has(e as int) ==> {
                &&& prev == Some(old(self).at(e as int))
                &&& final(self).log() == old(self).log().push(ComponentEvent::Removed(e))
            },
            !old(self).has(e as int) ==> {
                &&& prev is None
                &&& final(self).log() == old(self).log()
            },
    {
        let idx = e as usize;
        if idx >= self.slots.len() {
            return None;
        }
        let mut taken: Option<C> = None;
        core::mem::swap(&mut taken, &mut self.slots[idx]);
        if taken.is_some() {
            self.channel.write(ComponentEvent::Removed(e));
        }
        taken
    }

    /// Overwrites the component of an entity that already has one, without
    /// logging an event: the model of a plain (unflagged) store slot update,
    /// as the attachment cache uses.
    pub fn set_quiet(&mut self, e: u32, c: C)
        requires
            old(self).has(e as int),
        ensures
            final(self).slots() == old(self).slots().update(e as int, Some(c)),
            final(self).log() == old(self).log(),
            final(self).span() == old(self).span(),
    {
        let idx = e as usize;
        self.slots[idx] = Some(c);
    }

    /// Registers a new subscriber on this store's change log.
    pub fn register_reader(&self) -> (r: ReaderId)
        ensures
            r.cursor() == self.log().len(),
    {
        self.channel.register_reader()
    }

    /// Hands the subscriber every event logged since its last read, oldest
    /// first, and advances its cursor to the end of the log.
    pub fn read_events(&self, reader: &mut ReaderId) -> (evs: Vec<ComponentEvent>)
        requires
            old(reader).cursor() <= self.log().len(),
        ensures
            evs@ == self.log().subrange(old(reader).cursor(), self.log().len() as int),
            final(reader).cursor() == self.log().len(),
    {
        self.channel.read(reader)
    }

    /// The current length of the change log.
    pub fn log_len(&self) -> (n: usize)
        ensures
            n == self.log().len(),
    {
        self.channel.len()
    }
}

} // verus!
