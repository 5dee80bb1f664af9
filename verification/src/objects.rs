//! Object types exposed through the library: the opaque physics resource
//! tags, the garbage collector that accumulates released tags, and the
//! shared-ownership handle that notifies the collector exactly once, when
//! its last owner is released.

use vstd::prelude::*;

verus! {

/// An opaque identifier for a rigid body created by a physics backend.
/// The variants cover the identifier shapes backends choose: a single index,
/// paired indices, or a generation plus an index.
#[derive(Clone, Copy, Debug, PartialEq, Eq, PartialOrd, Ord, Hash, Structural)]
pub enum PhysicsRigidBodyTag {
    U32(u32),
    U64(u64),
    U32U32(u32, u32),
    U64U64(u64, u64),
    UsizeU32(usize, u32),
    UsizeU64(usize, u64),
}

/// An opaque identifier for an area created by a physics backend.
#[derive(Clone, Copy, Debug, PartialEq, Eq, PartialOrd, Ord, Hash, Structural)]
pub enum PhysicsAreaTag {
    U32(u32),
    U64(u64),
    U32U32(u32, u32),
    U64U64(u64, u64),
    UsizeU32(usize, u32),
    UsizeU64(usize, u64),
}

/// An opaque identifier for a collision shape created by a physics backend.
#[derive(Clone, Copy, Debug, PartialEq, Eq, PartialOrd, Ord, Hash, Structural)]
pub enum PhysicsShapeTag {
    U32(u32),
    U64(u64),
    U32U32(u32, u32),
    U64U64(u64, u64),
    UsizeU32(usize, u32),
    UsizeU64(usize, u64),
}

/// An opaque identifier for a joint created by a physics backend.
#[derive(Clone, Copy, Debug, PartialEq, Eq, PartialOrd, Ord, Hash, Structural)]
pub enum PhysicsJointTag {
    U32(u32),
    U64(u64),
    U32U32(u32, u32),
    U64U64(u64, u64),
    UsizeU32(usize, u32),
    UsizeU64(usize, u64),
}

/// Accumulates the tags whose last handle was released, one queue per
/// resource kind. The collector performs no destruction itself: the owning
/// backend drains the queues at a cadence it controls, so this mechanism
/// cannot fail — an unreclaimed tag simply waits here.
#[derive(Debug)]
pub struct PhysicsGarbageCollector {
    /// Bodies no longer used.
    pub bodies: Vec<PhysicsRigidBodyTag>,
    /// Areas no longer used.
    pub areas: Vec<PhysicsAreaTag>,
    /// Shapes no longer used.
    pub shapes: Vec<PhysicsShapeTag>,
    /// Joints no longer used.
    pub joints: Vec<PhysicsJointTag>,
}

impl Default for PhysicsGarbageCollector {
    /// A collector with all queues empty.
    fn default() -> (gc: Self)
        ensures
            gc.bodies@ == Seq::<PhysicsRigidBodyTag>::empty(),
            gc.areas@ == Seq::<PhysicsAreaTag>::empty(),
            gc.shapes@ == Seq::<PhysicsShapeTag>::empty(),
            gc.joints@ == Seq::<PhysicsJointTag>::empty(),
    {
        let gc = PhysicsGarbageCollector {
            bodies: Vec::new(),
            areas: Vec::new(),
            shapes: Vec::new(),
            joints: Vec::new(),
        };
        proof {
            assert(gc.bodies@ =~= Seq::<PhysicsRigidBodyTag>::empty());
            assert(gc.areas@ =~= Seq::<PhysicsAreaTag>::empty());
            assert(gc.shapes@ =~= Seq::<PhysicsShapeTag>::empty());
            assert(gc.joints@ =~= Seq::<PhysicsJointTag>::empty());
        }
        gc
    }
}

/// Implemented by each resource tag kind; says which collector queue the
/// kind uses, and appends a released tag to it.
pub trait PhysicsTag: Sized + Copy {
    /// The collector queue used by this tag kind.
    spec fn queue(gc: PhysicsGarbageCollector) -> Seq<Self>;

    /// Everything a removal request changes: its own queue gains the tag at
    /// the end and every other queue of the collector is left as it was.
    spec fn removal_ok(
        gc_old: PhysicsGarbageCollector,
        gc_new: PhysicsGarbageCollector,
        tag: Self,
    ) -> bool;

    /// Called when the tag is no longer owned by any `PhysicsHandle`:
    /// appends the tag to its queue of the collector.
    fn request_resource_removal(&mut self, gc: &mut PhysicsGarbageCollector)
        ensures
            Self::queue(*final(gc)) == Self::queue(*old(gc)).push(*old(self)),
            Self::removal_ok(*old(gc), *final(gc), *old(self)),
            *final(self) == *old(self),
    ;
}

impl PhysicsTag for PhysicsRigidBodyTag {
    open spec fn queue(gc: PhysicsGarbageCollector) -> Seq<PhysicsRigidBodyTag> {
        gc.bodies@
    }

    open spec fn removal_ok(
        gc_old: PhysicsGarbageCollector,
        gc_new: PhysicsGarbageCollector,
        tag: PhysicsRigidBodyTag,
    ) -> bool {
        &&& gc_new.bodies@ == gc_old.bodies@.push(tag)
        &&& gc_new.areas@ == gc_old.areas@
        &&& gc_new.shapes@ == gc_old.shapes@
        &&& gc_new.joints@ == gc_old.joints@
    }

    fn request_resource_removal(&mut self, gc: &mut PhysicsGarbageCollector) {
        gc.bodies.push(*self);
    }
}

impl PhysicsTag for PhysicsAreaTag {
    open spec fn queue(gc: PhysicsGarbageCollector) -> Seq<PhysicsAreaTag> {
        gc.areas@
    }

    open spec fn removal_ok(
        gc_old: PhysicsGarbageCollector,
        gc_new: PhysicsGarbageCollector,
        tag: PhysicsAreaTag,
    ) -> bool {
        &&& gc_new.areas@ == gc_old.areas@.push(tag)
        &&& gc_new.bodies@ == gc_old.bodies@
        &&& gc_new.shapes@ == gc_old.shapes@
        &&& gc_new.joints@ == gc_old.joints@
    }

    fn request_resource_removal(&mut self, gc: &mut PhysicsGarbageCollector) {
        gc.areas.push(*self);
    }
}

impl PhysicsTag for PhysicsShapeTag {
    open spec fn queue(gc: PhysicsGarbageCollector) -> Seq<PhysicsShapeTag> {
        gc.shapes@
    }

    open spec fn removal_ok(
        gc_old: PhysicsGarbageCollector,
        gc_new: PhysicsGarbageCollector,
        tag: PhysicsShapeTag,
    ) -> bool {
        &&& gc_new.shapes@ == gc_old.shapes@.push(tag)
        &&& gc_new.bodies@ == gc_old.bodies@
        &&& gc_new.areas@ == gc_old.areas@
        &&& gc_new.joints@ == gc_old.joints@
    }

    fn request_resource_removal(&mut self, gc: &mut PhysicsGarbageCollector) {
        gc.shapes.push(*self);
    }
}

impl PhysicsTag for PhysicsJointTag {
    open spec fn queue(gc: PhysicsGarbageCollector) -> Seq<PhysicsJointTag> {
        gc.joints@
    }

    open spec fn removal_ok(
        gc_old: PhysicsGarbageCollector,
        gc_new: PhysicsGarbageCollector,
        tag: PhysicsJointTag,
    ) -> bool {
        &&& gc_new.joints@ == gc_old.joints@.push(tag)
        &&& gc_new.bodies@ == gc_old.bodies@
        &&& gc_new.areas@ == gc_old.areas@
        &&& gc_new.shapes@ == gc_old.shapes@
    }

    fn request_resource_removal(&mut self, gc: &mut PhysicsGarbageCollector) {
        gc.joints.push(*self);
    }
}

/// Tracks, per shared container, how many handles own it and whether its
/// destruction notification has already gone out. A handle's clones all
/// point at one container; the notification for a container is emitted
/// exactly once, when its owner count reaches zero, never before and never
/// again — regardless of the order the owners are released in.
pub struct HandleRegistry {
    owners: Vec<u64>,
    emitted: Ghost<Seq<bool>>,
}

impl HandleRegistry {
    /// How many containers were ever created.
    pub closed spec fn num_containers(self) -> int {
        self.owners@.len() as int
    }

    /// The number of live handles of container `c`.
    pub closed spec fn owner_count(self, c: int) -> int {
        self.owners@[c] as int
    }

    /// Whether the destruction notification for container `c` has been
    /// emitted.
    pub closed spec fn is_emitted(self, c: int) -> bool {
        self.emitted@[c]
    }

    /// Well-formedness: a container's notification has gone out exactly when
    /// it has no owners left.
    pub closed spec fn wf(self) -> bool {
        &&& self.emitted@.len() == self.owners@.len()
        &&& forall|c: int|
            0 <= c < self.owners@.len() ==> (self.owners@[c] == 0 <==> self.emitted@[c])
    }

    /// An empty registry.
    pub fn new() -> (r: Self)
        ensures
            r.wf(),
            r.num_containers() == 0,
    {
        HandleRegistry { owners: Vec::new(), emitted: Ghost(Seq::empty()) }
    }
}

/// Exactly-once destruction notification, stated over the registry alone:
/// in any well-formed registry a container's notification has been emitted
/// if and only if none of its owners is left. Together with the contract of
/// [`PhysicsHandle::release`] — which appends the tag to the collector queue
/// precisely on the release that drops the owner count to zero — this pins
/// down that for any `N >= 1` clones of a handle the notification for its
/// tag goes out exactly once, on the last release, whatever the release
/// order.
pub proof fn lemma_notification_exactly_once(registry: HandleRegistry, c: int)
    requires
        registry.wf(),
        0 <= c < registry.num_containers(),
    ensures
        registry.is_emitted(c) <==> registry.owner_count(c) == 0,
{
}

/// The physics handle tracks a physics resource's lifetime: all clones of a
/// handle share one container in the [`HandleRegistry`], and once the last
/// of them is released the tag is appended to the garbage collector queue
/// of its kind, exactly once.
///
/// All physics server APIs deal directly with the tag; use [`Self::get`] to
/// retrieve it. The tag itself does not affect the resource lifetime.
pub struct PhysicsHandle<T: PhysicsTag> {
    container_id: usize,
    tag: T,
}

impl<T: PhysicsTag> PhysicsHandle<T> {
    /// The shared container this handle owns a share of.
    pub closed spec fn id(self) -> int {
        self.container_id as int
    }

    /// The tag the handle protects.
    pub closed spec fn spec_tag(self) -> T {
        self.tag
    }

    /// A handle is live while its container still counts it as an owner.
    pub open spec fn live(self, registry: HandleRegistry) -> bool {
        &&& 0 <= self.id() < registry.num_containers()
        &&& registry.owner_count(self.id()) > 0
    }

    /// Creates a new `PhysicsHandle`: a fresh container with a single owner.
    ///
    /// This function is meant to be called by a physics backend, right after
    /// it created the resource the tag identifies.
    pub fn new(tag: T, registry: &mut HandleRegistry) -> (h: Self)
        requires
            old(registry).wf(),
        ensures
            final(registry).wf(),
            final(registry).num_containers() == old(registry).num_containers() + 1,
            h.id() == old(registry).num_containers(),
            h.spec_tag() == tag,
            h.live(*final(registry)),
            final(registry).owner_count(h.id()) == 1,
            !final(registry).is_emitted(h.id()),
            forall|c: int|
                0 <= c < old(registry).num_containers() ==> {
                    &&& final(registry).owner_count(c) == old(registry).owner_count(c)
                    &&& final(registry).is_emitted(c) == old(registry).is_emitted(c)
                },
    {
        let container_id = registry.owners.len();
        registry.owners.push(1);
        proof {
            registry.emitted@ = registry.emitted@.push(false);
        }
        PhysicsHandle { container_id, tag }
    }

    /// Returns the tag. Keep in mind that this doesn't alter the resource
    /// lifetime in any way.
    pub fn get(&self) -> (t: T)
        ensures
            t == self.spec_tag(),
    {
        self.tag
    }

    /// Clones the handle: the same container gains one more owner. The
    /// clone and the original protect the same tag.
    pub fn clone_with(&self, registry: &mut HandleRegistry) -> (h: Self)
        requires
            old(registry).wf(),
            self.live(*old(registry)),
            old(registry).owner_count(self.id()) < u64::MAX,
        ensures
            final(registry).wf(),
            final(registry).num_containers() == old(registry).num_containers(),
            h.id() == self.id(),
            h.spec_tag() == self.spec_tag(),
            final(registry).owner_count(self.id()) == old(registry).owner_count(self.id()) + 1,
            !final(registry).is_emitted(self.id()),
            forall|c: int|
                0 <= c < old(registry).num_containers() && c != self.id() ==> {
                    &&& final(registry).owner_count(c) == old(registry).owner_count(c)
                    &&& final(registry).is_emitted(c) == old(registry).is_emitted(c)
                },
    {
        let count = registry.owners[self.container_id];
        registry.owners.set(self.container_id, count + 1);
        PhysicsHandle { container_id: self.container_id, tag: self.tag }
    }

    /// Releases one owner of the container. If this was the last owner, the
    /// tag is appended to the collector queue of its kind — the one-time
    /// destruction notification; otherwise the collector is left untouched.
    pub fn release(self, registry: &mut HandleRegistry, gc: &mut PhysicsGarbageCollector)
        requires
            old(registry).wf(),
            self.live(*old(registry)),
        ensures
            final(registry).wf(),
            final(registry).num_containers() == old(registry).num_containers(),
            final(registry).owner_count(self.id())
                == old(registry).owner_count(self.id()) - 1,
            old(registry).owner_count(self.id()) == 1 ==> {
                &&& final(registry).is_emitted(self.id())
                &&& T::queue(*final(gc)) == T::queue(*old(gc)).push(self.spec_tag())
                &&& T::removal_ok(*old(gc), *final(gc), self.spec_tag())
            },
            old(registry).owner_count(self.id()) > 1 ==> {
                &&& !final(registry).is_emitted(self.id())
                &&& *final(gc) == *old(gc)
            },
            forall|c: int|
                0 <= c < old(registry).num_containers() && c != self.id() ==> {
                    &&& final(registry).owner_count(c) == old(registry).owner_count(c)
                    &&& final(registry).is_emitted(c) == old(registry).is_emitted(c)
                },
    {
        let count = registry.owners[self.container_id];
        if count == 1 {
            registry.owners.set(self.container_id, 0);
            proof {
                registry.emitted@ = registry.emitted@.update(self.container_id as int, true);
            }
            let mut tag = self.tag;
            tag.request_resource_removal(gc);
        } else {
            registry.owners.set(self.container_id, count - 1);
        }
    }
}

/// A per-entity cache of a resolved world-space pose, for entities whose
/// position follows a parent chain rather than direct backend authority.
/// It is overwritten on every attachment resolution pass.
#[derive(Clone, Copy, Debug, PartialEq, Eq, Structural)]
pub struct PhysicsAttachment {
    /// The cached world pose of the entity, as of the latest resolution.
    pub cache_world_transform: crate::math::Isometry,
}

impl Default for PhysicsAttachment {
    /// An attachment whose cached pose is the identity.
    fn default() -> (a: Self)
        ensures
            a.cache_world_transform == crate::math::Isometry::spec_identity(),
    {
        PhysicsAttachment { cache_world_transform: crate::math::Isometry::identity() }
    }
}

/// Declares which entity an entity's pose follows: the child's world pose
/// is its parent's world pose composed with its own local pose.
#[derive(Clone, Copy, Debug, PartialEq, Eq, Structural)]
pub struct Parent {
    /// The parent entity index.
    pub entity: u32,
}

/// A collision group a body or area belongs to or collides with.
#[derive(Clone, Copy, Debug, PartialEq, Eq, Hash, Structural)]
pub struct CollisionGroup {
    /// The group number.
    pub id: u8,
}

impl Default for CollisionGroup {
    /// The default collision group, number 1.
    fn default() -> (g: Self)
        ensures
            g.id == 1,
    {
        CollisionGroup { id: 1 }
    }
}

} // verus!
