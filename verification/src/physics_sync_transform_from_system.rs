//! The half of the transform sync that copies poses from the physics
//! engine back into the transform components, once per frame.

use vstd::prelude::*;

verus! {

use crate::events::ComponentEvent;
use crate::math::Isometry;
use crate::objects::PhysicsRigidBodyTag;
use crate::storage::BodyStorage;
use crate::storage::ParentStorage;
use crate::storage::TransformStorage;

/// The pose recorded for tag `t` in a backend pose table: the first entry
/// with that tag, if any.
pub open spec fn pose_of(
    poses: Seq<(PhysicsRigidBodyTag, Isometry)>,
    t: PhysicsRigidBodyTag,
) -> Option<Isometry>
    decreases poses.len(),
{
    if poses.len() == 0 {
        None
    } else if poses[0].0 == t {
        Some(poses[0].1)
    } else {
        pose_of(poses.drop_first(), t)
    }
}

/// Looks a body pose up in a backend pose table.
pub fn lookup_pose(
    poses: &Vec<(PhysicsRigidBodyTag, Isometry)>,
    t: PhysicsRigidBodyTag,
) -> (r: Option<Isometry>)
    ensures
        r == pose_of(poses@, t),
{
    let mut i: usize = 0;
    proof {
        assert(poses@.skip(0) =~= poses@);
    }
    while i < poses.len()
        invariant
            i <= poses@.len(),
            pose_of(poses@, t) == pose_of(poses@.skip(i as int), t),
        decreases poses@.len() - i,
    {
        let (tag, pose) = poses[i];
        proof {
            assert(poses@.skip(i as int)[0] == poses@[i as int]);
            assert(poses@.skip(i as int).drop_first() =~= poses@.skip(i + 1));
        }
        if tag == t {
            return Some(pose);
        }
        i = i + 1;
    }
    proof {
        assert(poses@.skip(i as int).len() == 0);
    }
    None
}

/// Whether entity `e` has its pose pulled from the backend: it carries a
/// transform and a rigid body, and no parent — a parented body's pose is
/// derivative, authored by the attachment resolution instead.
pub open spec fn pulls_pose(
    transforms: TransformStorage,
    bodies: BodyStorage,
    parents: ParentStorage,
    e: int,
) -> bool {
    transforms.has(e) && bodies.has(e) && !parents.has(e)
}

/// How one pull pass relates the transform store before (`t_old`) and after
/// (`t_new`): every un-parented body entity whose pose the backend reported
/// now carries that pose; every other slot is untouched.
pub open spec fn sync_from_rel(
    t_old: TransformStorage,
    t_new: TransformStorage,
    bodies: BodyStorage,
    parents: ParentStorage,
    poses: Seq<(PhysicsRigidBodyTag, Isometry)>,
) -> bool {
    &&& t_new.span() == t_old.span()
    &&& forall|e: int|
        #![trigger t_new.slot(e)]
        if pulls_pose(t_old, bodies, parents, e) {
            match pose_of(poses, bodies.at(e).spec_tag()) {
                Some(p) => t_new.slot(e) == Some(p),
                None => t_new.slot(e) == t_old.slot(e),
            }
        } else {
            t_new.slot(e) == t_old.slot(e)
        }
}

/// The change-log tail one pull pass appends: a `Modified` event for every
/// entity whose pose was pulled, in ascending entity order.
pub open spec fn from_pass_log(
    t_old: TransformStorage,
    bodies: BodyStorage,
    parents: ParentStorage,
    poses: Seq<(PhysicsRigidBodyTag, Isometry)>,
    n: int,
) -> Seq<ComponentEvent>
    decreases n,
{
    if n <= 0 {
        Seq::empty()
    } else {
        from_pass_log(t_old, bodies, parents, poses, n - 1) + if pulls_pose(
            t_old,
            bodies,
            parents,
            n - 1,
        ) && pose_of(poses, bodies.at(n - 1).spec_tag()) is Some {
            seq![ComponentEvent::Modified((n - 1) as u32)]
        } else {
            Seq::empty()
        }
    }
}

/// The system that copies the physics engine's poses back into the
/// transform components. Entities with a parent are skipped on purpose:
/// their pose follows the parent chain, not the backend directly.
pub struct PhysicsSyncTransformFromSystem {}

impl PhysicsSyncTransformFromSystem {
    /// Creates the system; it keeps no state between passes.
    pub fn new() -> PhysicsSyncTransformFromSystem {
        PhysicsSyncTransformFromSystem {}
    }

    /// One pull pass over `body_poses`, the backend's answer for each body
    /// tag. For every entity with a transform and an un-parented body whose
    /// tag the table answers, the transform is overwritten with the
    /// reported pose; all other transforms are left exactly as they were.
    pub fn run(
        &mut self,
        transforms: &mut TransformStorage,
        bodies: &BodyStorage,
        parents: &ParentStorage,
        body_poses: &Vec<(PhysicsRigidBodyTag, Isometry)>,
    )
        requires
            old(transforms).wf(),
        ensures
            final(transforms).wf(),
            sync_from_rel(*old(transforms), *final(transforms), *bodies, *parents, body_poses@),
            final(transforms).log() == old(transforms).log() + from_pass_log(
                *old(transforms),
                *bodies,
                *parents,
                body_poses@,
                old(transforms).span(),
            ),
    {
        let n = transforms.bound();
        let mut e: usize = 0;
        while e < n
            invariant
                transforms.wf(),
                n == old(transforms).span(),
                transforms.span() == n,
                e <= n,
                forall|j: int|
                    #![trigger transforms.slot(j)]
                    e <= j ==> transforms.slot(j) == old(transforms).slot(j),
                forall|j: int|
                    #![trigger transforms.slot(j)]
                    j < e ==> if pulls_pose(*old(transforms), *bodies, *parents, j) {
                        match pose_of(body_poses@, bodies.at(j).spec_tag()) {
                            Some(p) => transforms.slot(j) == Some(p),
                            None => transforms.slot(j) == old(transforms).slot(j),
                        }
                    } else {
                        transforms.slot(j) == old(transforms).slot(j)
                    },
                transforms.log() == old(transforms).log() + from_pass_log(
                    *old(transforms),
                    *bodies,
                    *parents,
                    body_poses@,
                    e as int,
                ),
            decreases n - e,
        {
            let eu = e as u32;
            if transforms.contains(eu) && bodies.contains(eu) && !parents.contains(eu) {
                match bodies.get(eu) {
                    Some(handle) => {
                        match lookup_pose(body_poses, handle.get()) {
                            Some(pose) => {
                                transforms.insert(eu, pose);
                                proof {
                                    assert(transforms.log() =~= old(transforms).log()
                                        + from_pass_log(
                                        *old(transforms),
                                        *bodies,
                                        *parents,
                                        body_poses@,
                                        e + 1,
                                    ));
                                }
                            },
                            None => {
                                proof {
                                    assert(transforms.log() =~= old(transforms).log()
                                        + from_pass_log(
                                        *old(transforms),
                                        *bodies,
                                        *parents,
                                        body_poses@,
                                        e + 1,
                                    ));
                                }
                            },
                        }
                    },
                    None => {},
                }
            } else {
                proof {
                    assert(transforms.log() =~= old(transforms).log() + from_pass_log(
                        *old(transforms),
                        *bodies,
                        *parents,
                        body_poses@,
                        e + 1,
                    ));
                }
            }
            e = e + 1;
        }
    }
}

/// Pulling from the physics twice with no step in between changes nothing
/// the second time: if one pass takes the transform store from `t1` to
/// `t2`, and a second pass with the same bodies, parents and reported
/// poses takes it from `t2` to `t3`, then every slot of `t3` equals the
/// slot of `t2`.
pub proof fn lemma_transform_from_idempotent(
    t1: TransformStorage,
    t2: TransformStorage,
    t3: TransformStorage,
    bodies: BodyStorage,
    parents: ParentStorage,
    poses: Seq<(PhysicsRigidBodyTag, Isometry)>,
)
    requires
        sync_from_rel(t1, t2, bodies, parents, poses),
        sync_from_rel(t2, t3, bodies, parents, poses),
    ensures
        forall|e: int| t3.slot(e) == t2.slot(e),
{
    assert forall|e: int| t3.slot(e) == t2.slot(e) by {
        assert(t2.slot(e) is Some <==> t1.slot(e) is Some);
        assert(pulls_pose(t2, bodies, parents, e) == pulls_pose(t1, bodies, parents, e));
    }
}

} // verus!
