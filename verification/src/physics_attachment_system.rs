//! Resolves the cached world pose of every attached entity by walking the
//! host-provided, parent-before-child entity order: a parent that is a
//! rigid body contributes the pose the backend reported for it, any other
//! parent contributes its own attachment cache (already resolved earlier in
//! the same pass).
//!
//! The pass runs once per frame outside sub-stepping and once per sub-step;
//! a single-shot skip flag keeps the bookkeeping call that follows the
//! pre-pass from repeating work on unchanged state.

use vstd::prelude::*;

verus! {

use crate::commands::PhysicsCommand;
use crate::math::Isometry;
use crate::objects::PhysicsAttachment;
use crate::objects::PhysicsRigidBodyTag;
use crate::physics_sync_transform_from_system::lookup_pose;
use crate::physics_sync_transform_from_system::pose_of;
use crate::physics_time::PhysicsTime;
use crate::storage::AreaStorage;
use crate::storage::AttachmentStorage;
use crate::storage::BodyStorage;
use crate::storage::ParentStorage;
use crate::storage::TransformStorage;

/// Whether a call of the resolution pass actually executes, given the
/// scheduler phase and the skip flag: outside sub-stepping it always runs
/// (the pre-pass); during sub-stepping an armed flag skips one call.
pub open spec fn skip_guard_executes(in_sub_step: bool, skip_before: bool) -> bool {
    !in_sub_step || !skip_before
}

/// The skip flag after a call: the pre-pass arms it, a call during
/// sub-stepping clears it.
pub open spec fn skip_guard_after(in_sub_step: bool, skip_before: bool) -> bool {
    !in_sub_step
}

/// The de-duplication guard nets out to exactly one execution for a frame
/// that runs zero sub-steps: the pre-pass executes the resolution and arms
/// the flag, and the bookkeeping call that would follow it inside the
/// sub-stepping phase is skipped — once, not zero and not twice.
pub proof fn lemma_skip_guard_once_when_no_sub_steps(skip_before: bool)
    ensures
        skip_guard_executes(false, skip_before),
        skip_guard_after(false, skip_before),
        !skip_guard_executes(true, skip_guard_after(false, skip_before)),
{
}

/// The pose an entity's parent `p` contributes: the backend-reported pose
/// when the parent is a rigid body, else the parent's own attachment
/// cache. `None` when the parent is neither (a configuration error) or
/// when the pose table does not answer the parent's body tag.
pub open spec fn resolved_parent_pose(
    att: Seq<Option<PhysicsAttachment>>,
    bodies: BodyStorage,
    poses: Seq<(PhysicsRigidBodyTag, Isometry)>,
    p: int,
) -> Option<Isometry> {
    if bodies.has(p) {
        pose_of(poses, bodies.at(p).spec_tag())
    } else if 0 <= p < att.len() && att[p] is Some {
        Some(att[p]->Some_0.cache_world_transform)
    } else {
        None
    }
}

/// One entity's resolution step, applied to the evolving pass state: the
/// attachment slots, the commands so far, and the entities skipped so far.
pub open spec fn resolve_step(
    st: (Seq<Option<PhysicsAttachment>>, Seq<PhysicsCommand>, Seq<u32>),
    parents: ParentStorage,
    transforms: TransformStorage,
    bodies: BodyStorage,
    areas: AreaStorage,
    poses: Seq<(PhysicsRigidBodyTag, Isometry)>,
    e: u32,
) -> (Seq<Option<PhysicsAttachment>>, Seq<PhysicsCommand>, Seq<u32>) {
    let (att, cmds, skipped) = st;
    if 0 <= e < att.len() && att[e as int] is Some && parents.has(e as int) {
        let p = parents.at(e as int).entity as int;
        match resolved_parent_pose(att, bodies, poses, p) {
            Some(parent_pose) => {
                let world = if transforms.has(e as int) {
                    Isometry::spec_mul(parent_pose, transforms.at(e as int))
                } else {
                    parent_pose
                };
                let att2 = att.update(
                    e as int,
                    Some(PhysicsAttachment { cache_world_transform: world }),
                );
                let cmds2 = if areas.has(e as int) {
                    cmds.push(
                        PhysicsCommand::SetAreaTransform(areas.at(e as int).spec_tag(), world),
                    )
                } else if bodies.has(e as int) {
                    cmds.push(
                        PhysicsCommand::SetBodyTransform(bodies.at(e as int).spec_tag(), world),
                    )
                } else {
                    cmds
                };
                (att2, cmds2, skipped)
            },
            None => (att, cmds, skipped.push(e)),
        }
    } else {
        (att, cmds, skipped)
    }
}

/// A whole resolution pass over `order`, the host's parent-before-child
/// entity order, applied left to right.
pub open spec fn resolve_pass(
    att: Seq<Option<PhysicsAttachment>>,
    parents: ParentStorage,
    transforms: TransformStorage,
    bodies: BodyStorage,
    areas: AreaStorage,
    poses: Seq<(PhysicsRigidBodyTag, Isometry)>,
    order: Seq<u32>,
) -> (Seq<Option<PhysicsAttachment>>, Seq<PhysicsCommand>, Seq<u32>)
    decreases order.len(),
{
    if order.len() == 0 {
        (att, Seq::empty(), Seq::empty())
    } else {
        resolve_step(
            resolve_pass(att, parents, transforms, bodies, areas, poses, order.drop_last()),
            parents,
            transforms,
            bodies,
            areas,
            poses,
            order.last(),
        )
    }
}

/// Attachment resolution composes parent chains left to right, parent
/// first: for a three-level chain of attached entities `e1 -> e2 -> e3`
/// (each the parent of the next) hanging under a rigid body whose reported
/// pose is `B`, with local poses `P1`, `P2`, `P3`, one resolution pass over
/// the order `[e1, e2, e3]` caches `((B * P1) * P2) * P3` as the world pose
/// of the leaf.
pub proof fn lemma_attachment_chain_composition(
    att: Seq<Option<PhysicsAttachment>>,
    parents: ParentStorage,
    transforms: TransformStorage,
    bodies: BodyStorage,
    areas: AreaStorage,
    poses: Seq<(PhysicsRigidBodyTag, Isometry)>,
    b: u32,
    e1: u32,
    e2: u32,
    e3: u32,
)
    requires
        b != e1 && b != e2 && b != e3 && e1 != e2 && e1 != e3 && e2 != e3,
        parents.has(e1 as int) && parents.at(e1 as int).entity == b,
        parents.has(e2 as int) && parents.at(e2 as int).entity == e1,
        parents.has(e3 as int) && parents.at(e3 as int).entity == e2,
        bodies.has(b as int),
        pose_of(poses, bodies.at(b as int).spec_tag()) is Some,
        0 <= e1 < att.len() && att[e1 as int] is Some,
        0 <= e2 < att.len() && att[e2 as int] is Some,
        0 <= e3 < att.len() && att[e3 as int] is Some,
        !bodies.has(e1 as int) && !bodies.has(e2 as int) && !bodies.has(e3 as int),
        transforms.has(e1 as int) && transforms.has(e2 as int) && transforms.has(e3 as int),
    ensures
        ({
            let bpose = pose_of(poses, bodies.at(b as int).spec_tag())->Some_0;
            let world = Isometry::spec_mul(
                Isometry::spec_mul(
                    Isometry::spec_mul(bpose, transforms.at(e1 as int)),
                    transforms.at(e2 as int),
                ),
                transforms.at(e3 as int),
            );
            resolve_pass(att, parents, transforms, bodies, areas, poses, seq![e1, e2, e3]).0[e3 as int]
                == Some(PhysicsAttachment { cache_world_transform: world })
        }),
{
    let bpose = pose_of(poses, bodies.at(b as int).spec_tag())->Some_0;
    let order: Seq<u32> = seq![e1, e2, e3];

    let s0: Seq<u32> = Seq::empty();
    let s1: Seq<u32> = seq![e1];
    let s2: Seq<u32> = seq![e1, e2];
    assert(order.drop_last() =~= s2);
    assert(s2.drop_last() =~= s1);
    assert(s1.drop_last() =~= s0);

    let st0 = resolve_pass(att, parents, transforms, bodies, areas, poses, s0);
    assert(st0.0 == att);

    let st1 = resolve_pass(att, parents, transforms, bodies, areas, poses, s1);
    assert(st1 == resolve_step(st0, parents, transforms, bodies, areas, poses, e1));
    let w1 = Isometry::spec_mul(bpose, transforms.at(e1 as int));
    assert(st1.0 == att.update(e1 as int, Some(PhysicsAttachment { cache_world_transform: w1 })));

    let st2 = resolve_pass(att, parents, transforms, bodies, areas, poses, s2);
    assert(st2 == resolve_step(st1, parents, transforms, bodies, areas, poses, e2));
    assert(st1.0[e1 as int] == Some(PhysicsAttachment { cache_world_transform: w1 }));
    assert(resolved_parent_pose(st1.0, bodies, poses, e1 as int) == Some(w1));
    let w2 = Isometry::spec_mul(w1, transforms.at(e2 as int));
    assert(st2.0 == st1.0.update(
        e2 as int,
        Some(PhysicsAttachment { cache_world_transform: w2 }),
    ));

    let st3 = resolve_pass(att, parents, transforms, bodies, areas, poses, order);
    assert(st3 == resolve_step(st2, parents, transforms, bodies, areas, poses, e3));
    assert(st2.0[e2 as int] == Some(PhysicsAttachment { cache_world_transform: w2 }));
    assert(resolved_parent_pose(st2.0, bodies, poses, e2 as int) == Some(w2));
    let w3 = Isometry::spec_mul(w2, transforms.at(e3 as int));
    assert(st3.0[e3 as int] == Some(PhysicsAttachment { cache_world_transform: w3 }));
}

/// Recomputes the cached world pose of every attached entity each pass,
/// and pushes the resolved pose to the backend for entities that are
/// themselves areas or bodies. An attachment whose parent pose cannot be
/// resolved is reported back to the caller and its cache is left alone.
pub struct PhysicsAttachmentSystem {
    skip_next_execution: bool,
}

impl PhysicsAttachmentSystem {
    /// Whether the next call inside the sub-stepping phase is to be
    /// skipped, because the pre-pass just did the same work.
    pub closed spec fn skip_next(self) -> bool {
        self.skip_next_execution
    }
}

impl Default for PhysicsAttachmentSystem {
    /// A resolver with the skip flag clear.
    fn default() -> (s: Self)
        ensures
            !s.skip_next(),
    {
        PhysicsAttachmentSystem { skip_next_execution: false }
    }
}

impl PhysicsAttachmentSystem {
    /// One call of the resolution, guarded against duplicate execution:
    /// outside sub-stepping it resolves and arms the skip flag; inside
    /// sub-stepping an armed flag skips exactly one call. When it executes,
    /// every attached, parented entity in `hierarchy` (a parent-before-
    /// child order) gets its cache overwritten with the parent's pose
    /// composed with its own local pose, and a pose push command is emitted
    /// if the entity is an area or a body; entities whose parent pose
    /// cannot be resolved are returned in the second component, their cache
    /// untouched.
    pub fn run(
        &mut self,
        physics_time: &PhysicsTime,
        hierarchy: &Vec<u32>,
        attachments: &mut AttachmentStorage,
        parents: &ParentStorage,
        transforms: &TransformStorage,
        bodies: &BodyStorage,
        areas: &AreaStorage,
        body_poses: &Vec<(PhysicsRigidBodyTag, Isometry)>,
    ) -> (r: (Vec<PhysicsCommand>, Vec<u32>))
        ensures
            final(self).skip_next() == skip_guard_after(
                physics_time.in_sub_step,
                old(self).skip_next(),
            ),
            skip_guard_executes(physics_time.in_sub_step, old(self).skip_next()) ==> ({
                let (att, cmds, skipped) = resolve_pass(
                    old(attachments).slots(),
                    *parents,
                    *transforms,
                    *bodies,
                    *areas,
                    body_poses@,
                    hierarchy@,
                );
                &&& final(attachments).slots() == att
                &&& final(attachments).log() == old(attachments).log()
                &&& r.0@ == cmds
                &&& r.1@ == skipped
            }),
            !skip_guard_executes(physics_time.in_sub_step, old(self).skip_next()) ==> {
                &&& *final(attachments) == *old(attachments)
                &&& r.0@ == Seq::<PhysicsCommand>::empty()
                &&& r.1@ == Seq::<u32>::empty()
            },
    {
        if !physics_time.in_sub_step() {
            self.skip_next_execution = true;
        } else if self.skip_next_execution {
            self.skip_next_execution = false;
            return (Vec::new(), Vec::new());
        }

        let mut cmds: Vec<PhysicsCommand> = Vec::new();
        let mut skipped: Vec<u32> = Vec::new();

        let mut k: usize = 0;
        proof {
            assert(hierarchy@.subrange(0, 0) =~= Seq::<u32>::empty());
        }
        while k < hierarchy.len()
            invariant
                k <= hierarchy@.len(),
                (attachments.slots(), cmds@, skipped@) == resolve_pass(
                    old(attachments).slots(),
                    *parents,
                    *transforms,
                    *bodies,
                    *areas,
                    body_poses@,
                    hierarchy@.subrange(0, k as int),
                ),
                attachments.log() == old(attachments).log(),
            decreases hierarchy@.len() - k,
        {
            let ghost prefix = hierarchy@.subrange(0, k as int);
            let ghost st = resolve_pass(
                old(attachments).slots(),
                *parents,
                *transforms,
                *bodies,
                *areas,
                body_poses@,
                prefix,
            );
            let e = hierarchy[k];

            if attachments.contains(e) {
                match parents.get(e) {
                    Some(parent) => {
                        let parent_pose: Option<Isometry> = match bodies.get(parent.entity) {
                            Some(body) => lookup_pose(body_poses, body.get()),
                            None => match attachments.get(parent.entity) {
                                Some(parent_attachment) => Some(
                                    parent_attachment.cache_world_transform,
                                ),
                                None => None,
                            },
                        };
                        match parent_pose {
                            Some(pp) => {
                                let world = match transforms.get(e) {
                                    Some(transform) => pp.mul(transform),
                                    None => pp,
                                };
                                attachments.set_quiet(
                                    e,
                                    PhysicsAttachment { cache_world_transform: world },
                                );
                                match areas.get(e) {
                                    Some(area) => {
                                        cmds.push(
                                            PhysicsCommand::SetAreaTransform(area.get(), world),
                                        );
                                    },
                                    None => match bodies.get(e) {
                                        Some(body) => {
                                            cmds.push(
                                                PhysicsCommand::SetBodyTransform(
                                                    body.get(),
                                                    world,
                                                ),
                                            );
                                        },
                                        None => {},
                                    },
                                }
                            },
                            None => {
                                skipped.push(e);
                            },
                        }
                    },
                    None => {},
                }
            }

            proof {
                let next_prefix = hierarchy@.subrange(0, k + 1);
                assert(next_prefix.drop_last() =~= prefix);
                assert(next_prefix.last() == hierarchy@[k as int]);
                let stepped = resolve_step(
                    st,
                    *parents,
                    *transforms,
                    *bodies,
                    *areas,
                    body_poses@,
                    hierarchy@[k as int],
                );
                assert(attachments.slots() =~= stepped.0);
                assert(cmds@ =~= stepped.1);
                assert(skipped@ =~= stepped.2);
            }
            k = k + 1;
        }

        proof {
            assert(hierarchy@.subrange(0, hierarchy@.len() as int) =~= hierarchy@);
        }
        (cmds, skipped)
    }
}

} // verus!
