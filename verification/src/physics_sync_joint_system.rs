//! Keeps joints and rigid bodies associated: assigning a joint handle to an
//! entity that carries a body handle attaches the body to the joint, and
//! removing either detaches it again. A side table remembers which body was
//! contributed by which entity, since the tags alone do not.

use vstd::prelude::*;

verus! {

use crate::commands::PhysicsCommand;
use crate::events::events_bound;
use crate::events::lemma_events_bound;
use crate::events::touched;
use crate::events::ComponentEvent;
use crate::events::BitSet;
use crate::events::ReaderId;
use crate::objects::PhysicsJointTag;
use crate::objects::PhysicsRigidBodyTag;
use crate::storage::BodyStorage;
use crate::storage::JointStorage;

/// One side-table entry: the owning entity, the joint it contributed to,
/// and the body it contributed.
pub type JointEntry = (u32, PhysicsJointTag, PhysicsRigidBodyTag);

/// Whether this pass must detach entity `e`'s body from its joint: a
/// modification or removal was logged for its body or joint handle.
/// A modification counts for both passes, so a modify nets out to a
/// detach followed by a re-attach.
pub open spec fn joint_removed(
    evs_b: Seq<ComponentEvent>,
    evs_j: Seq<ComponentEvent>,
    e: u32,
) -> bool {
    touched(evs_b, e, false, true, true) || touched(evs_j, e, false, true, true)
}

/// Whether this pass must attach entity `e`'s body to its joint: an
/// insertion or modification was logged for its body or joint handle.
pub open spec fn joint_inserted(
    evs_b: Seq<ComponentEvent>,
    evs_j: Seq<ComponentEvent>,
    e: u32,
) -> bool {
    touched(evs_b, e, true, true, false) || touched(evs_j, e, true, true, false)
}

/// The position of the first side-table entry owned by entity `e`, or
/// `table.len()` if there is none.
pub open spec fn first_entry(table: Seq<JointEntry>, e: u32) -> int
    decreases table.len(),
{
    if table.len() == 0 {
        0
    } else if table[0].0 == e {
        0
    } else {
        1 + first_entry(table.drop_first(), e)
    }
}

/// The removal pass over the entities below `n`, ascending: for each entity
/// flagged for removal, its first side-table entry (if any) is dropped and
/// a detach command for that entry is emitted. Returns the remaining table
/// and the commands.
pub open spec fn joint_removal_pass(
    table: Seq<JointEntry>,
    evs_b: Seq<ComponentEvent>,
    evs_j: Seq<ComponentEvent>,
    n: int,
) -> (Seq<JointEntry>, Seq<PhysicsCommand>)
    decreases n,
{
    if n <= 0 {
        (table, Seq::empty())
    } else {
        let (t, c) = joint_removal_pass(table, evs_b, evs_j, n - 1);
        let e = (n - 1) as u32;
        if joint_removed(evs_b, evs_j, e) {
            let i = first_entry(t, e);
            if i < t.len() {
                (
                    t.remove(i),
                    c.push(PhysicsCommand::RemoveJointRigidBody(t[i].1, t[i].2)),
                )
            } else {
                (t, c)
            }
        } else {
            (t, c)
        }
    }
}

/// The insertion pass over the entities below `n`, ascending: every entity
/// flagged for insertion that carries both a body and a joint handle gets
/// an attach command and a new side-table entry.
pub open spec fn joint_insert_pass(
    table: Seq<JointEntry>,
    bodies: BodyStorage,
    joints: JointStorage,
    evs_b: Seq<ComponentEvent>,
    evs_j: Seq<ComponentEvent>,
    n: int,
) -> (Seq<JointEntry>, Seq<PhysicsCommand>)
    decreases n,
{
    if n <= 0 {
        (table, Seq::empty())
    } else {
        let (t, c) = joint_insert_pass(table, bodies, joints, evs_b, evs_j, n - 1);
        let e = (n - 1) as u32;
        if joint_inserted(evs_b, evs_j, e) && bodies.has(n - 1) && joints.has(n - 1) {
            (
                t.push((e, joints.at(n - 1).spec_tag(), bodies.at(n - 1).spec_tag())),
                c.push(
                    PhysicsCommand::InsertJointRigidBody(
                        joints.at(n - 1).spec_tag(),
                        bodies.at(n - 1).spec_tag(),
                    ),
                ),
            )
        } else {
            (t, c)
        }
    }
}

/// A removal pass is unaffected by entities that are not flagged: the pass
/// bound can be moved across a span with no flagged entity.
proof fn lemma_removal_pass_stable(
    table: Seq<JointEntry>,
    evs_b: Seq<ComponentEvent>,
    evs_j: Seq<ComponentEvent>,
    n1: int,
    n2: int,
)
    requires
        0 <= n1 <= n2,
        forall|e: int| n1 <= e < n2 ==> !#[trigger] joint_removed(evs_b, evs_j, e as u32),
        n2 <= u32::MAX as int + 1,
    ensures
        joint_removal_pass(table, evs_b, evs_j, n2) == joint_removal_pass(
            table,
            evs_b,
            evs_j,
            n1,
        ),
    decreases n2 - n1,
{
    if n1 < n2 {
        lemma_removal_pass_stable(table, evs_b, evs_j, n1, n2 - 1);
    }
}

/// Attaches bodies to joints and detaches them, driven by the change logs
/// of the body and joint handle stores. Removals are applied before
/// insertions, so a modification nets out to zero.
pub struct PhysicsSyncJointSystem {
    rbodies_event_reader: ReaderId,
    joints_event_reader: ReaderId,
    joints: Vec<JointEntry>,
}

impl PhysicsSyncJointSystem {
    /// This subscriber's cursor into the body store's change log.
    pub closed spec fn bodies_cursor(self) -> int {
        self.rbodies_event_reader.cursor()
    }

    /// This subscriber's cursor into the joint store's change log.
    pub closed spec fn joints_cursor(self) -> int {
        self.joints_event_reader.cursor()
    }

    /// The side table: which entity contributed which body to which joint.
    pub closed spec fn table(self) -> Seq<JointEntry> {
        self.joints@
    }

    /// Creates the system, subscribing it to the body and joint stores,
    /// with an empty side table.
    pub fn new(bodies: &BodyStorage, joints: &JointStorage) -> (s: Self)
        ensures
            s.bodies_cursor() == bodies.log().len(),
            s.joints_cursor() == joints.log().len(),
            s.table() == Seq::<JointEntry>::empty(),
    {
        PhysicsSyncJointSystem {
            rbodies_event_reader: bodies.register_reader(),
            joints_event_reader: joints.register_reader(),
            joints: Vec::new(),
        }
    }

    /// The side table, for callers outside of proofs.
    pub fn table_entries(&self) -> (t: &Vec<JointEntry>)
        ensures
            t@ == self.table(),
    {
        &self.joints
    }

    /// One pass: reads the two change logs, then detaches every flagged
    /// entity's first side-table entry (ascending entity order), then
    /// attaches every flagged entity that carries both handles (ascending
    /// entity order), emitting the matching backend commands.
    pub fn run(&mut self, bodies: &BodyStorage, joints: &JointStorage) -> (cmds: Vec<
        PhysicsCommand,
    >)
        requires
            bodies.wf(),
            old(self).bodies_cursor() <= bodies.log().len(),
            old(self).joints_cursor() <= joints.log().len(),
        ensures
            final(self).bodies_cursor() == bodies.log().len(),
            final(self).joints_cursor() == joints.log().len(),
            ({
                let evs_b = bodies.log().subrange(
                    old(self).bodies_cursor(),
                    bodies.log().len() as int,
                );
                let evs_j = joints.log().subrange(
                    old(self).joints_cursor(),
                    joints.log().len() as int,
                );
                let bound = if events_bound(evs_b) > events_bound(evs_j) {
                    events_bound(evs_b)
                } else {
                    events_bound(evs_j)
                };
                let (t_rem, c_rem) = joint_removal_pass(old(self).table(), evs_b, evs_j, bound);
                let (t_fin, c_ins) = joint_insert_pass(
                    t_rem,
                    *bodies,
                    *joints,
                    evs_b,
                    evs_j,
                    bodies.span(),
                );
                final(self).table() == t_fin && cmds@ == c_rem + c_ins
            }),
    {
        let evs_b = bodies.read_events(&mut self.rbodies_event_reader);
        let evs_j = joints.read_events(&mut self.joints_event_reader);

        let mut removed_from_entities = BitSet::new();
        removed_from_entities.add_touched(&evs_b, false, true, true);
        removed_from_entities.add_touched(&evs_j, false, true, true);

        let mut inserted_to_entities = BitSet::new();
        inserted_to_entities.add_touched(&evs_b, true, true, false);
        inserted_to_entities.add_touched(&evs_j, true, true, false);

        let mut cmds: Vec<PhysicsCommand> = Vec::new();

        let ghost bound = if events_bound(evs_b@) > events_bound(evs_j@) {
            events_bound(evs_b@)
        } else {
            events_bound(evs_j@)
        };
        proof {
            lemma_events_bound(evs_b@);
            lemma_events_bound(evs_j@);
        }

        // Removal pass, before insertions so a modify nets out to zero.
        let nr = removed_from_entities.bound();
        let mut e: usize = 0;
        while e < nr
            invariant
                e <= nr,
                nr == removed_from_entities.span(),
                forall|i: u32| removed_from_entities.contains(i as int) <==> joint_removed(
                    evs_b@,
                    evs_j@,
                    i,
                ),
                (self.joints@, cmds@) == joint_removal_pass(
                    old(self).table(),
                    evs_b@,
                    evs_j@,
                    e as int,
                ),
                self.rbodies_event_reader.cursor() == bodies.log().len(),
                self.joints_event_reader.cursor() == joints.log().len(),
            decreases nr - e,
        {
            let eu = e as u32;
            if removed_from_entities.has(eu) {
                let k = Self::find_entry(&self.joints, eu);
                if k < self.joints.len() {
                    let entry = self.joints[k];
                    cmds.push(PhysicsCommand::RemoveJointRigidBody(entry.1, entry.2));
                    self.joints.remove(k);
                }
            }
            e = e + 1;
        }

        proof {
            // Between the set's own span and the events bound no entity is
            // flagged, so the pass result is the same at either bound.
            assert forall|i: u32| #[trigger] joint_removed(evs_b@, evs_j@, i)
                implies i < bound by {
                if touched(evs_b@, i, false, true, true) {
                    let k = choose|k: int|
                        0 <= k < evs_b@.len() && crate::events::event_selected(
                            #[trigger] evs_b@[k],
                            i,
                            false,
                            true,
                            true,
                        );
                    assert(evs_b@[k].index() < events_bound(evs_b@));
                } else {
                    let k = choose|k: int|
                        0 <= k < evs_j@.len() && crate::events::event_selected(
                            #[trigger] evs_j@[k],
                            i,
                            false,
                            true,
                            true,
                        );
                    assert(evs_j@[k].index() < events_bound(evs_j@));
                }
            }
            if nr as int <= bound {
                assert forall|i: int| nr <= i < bound
                    implies !#[trigger] joint_removed(evs_b@, evs_j@, i as u32) by {
                    assert(!removed_from_entities.contains(i));
                    assert(i == i as u32 as int);
                }
                lemma_removal_pass_stable(old(self).table(), evs_b@, evs_j@, nr as int, bound);
            } else {
                assert forall|i: int| bound <= i < nr
                    implies !#[trigger] joint_removed(evs_b@, evs_j@, i as u32) by {
                    assert(i <= u32::MAX);
                    assert(i == i as u32 as int);
                }
                lemma_removal_pass_stable(old(self).table(), evs_b@, evs_j@, bound, nr as int);
            }
            assert((self.joints@, cmds@) == joint_removal_pass(
                old(self).table(),
                evs_b@,
                evs_j@,
                bound,
            ));
        }

        let ghost t_rem = self.joints@;
        let ghost c_rem = cmds@;

        // Insertion pass.
        let nb = bodies.bound();
        let mut e: usize = 0;
        while e < nb
            invariant
                e <= nb,
                nb == bodies.span(),
                bodies.wf(),
                forall|i: u32| inserted_to_entities.contains(i as int) <==> joint_inserted(
                    evs_b@,
                    evs_j@,
                    i,
                ),
                cmds@.len() >= c_rem.len()
                    && cmds@.subrange(0, c_rem.len() as int) == c_rem,
                ({
                    let (t, c) = joint_insert_pass(t_rem, *bodies, *joints, evs_b@, evs_j@, e as int);
                    self.joints@ == t && cmds@ == c_rem + c
                }),
                self.rbodies_event_reader.cursor() == bodies.log().len(),
                self.joints_event_reader.cursor() == joints.log().len(),
            decreases nb - e,
        {
            let eu = e as u32;
            if inserted_to_entities.has(eu) {
                match (bodies.get(eu), joints.get(eu)) {
                    (Some(body), Some(joint)) => {
                        cmds.push(
                            PhysicsCommand::InsertJointRigidBody(joint.get(), body.get()),
                        );
                        self.joints.push((eu, joint.get(), body.get()));
                    },
                    _ => {},
                }
            }
            proof {
                let (t, c) = joint_insert_pass(t_rem, *bodies, *joints, evs_b@, evs_j@, e + 1);
                assert(self.joints@ =~= t);
                assert(cmds@ =~= c_rem + c);
            }
            e = e + 1;
        }

        cmds
    }

    /// The position of the first side-table entry owned by entity `e`, or
    /// the table length if there is none.
    fn find_entry(table: &Vec<JointEntry>, e: u32) -> (k: usize)
        ensures
            k == first_entry(table@, e),
            k <= table@.len(),
    {
        let mut i: usize = 0;
        proof {
            assert(table@.skip(0) =~= table@);
        }
        while i < table.len()
            invariant
                i <= table@.len(),
                first_entry(table@, e) == i + first_entry(table@.skip(i as int), e),
            decreases table@.len() - i,
        {
            proof {
                assert(table@.skip(i as int)[0] == table@[i as int]);
                assert(table@.skip(i as int).drop_first() =~= table@.skip(i + 1));
            }
            if table[i].0 == e {
                return i;
            }
            i = i + 1;
        }
        proof {
            assert(table@.skip(i as int).len() == 0);
        }
        i
    }
}

} // verus!
