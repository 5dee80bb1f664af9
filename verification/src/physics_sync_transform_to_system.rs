//! The half of the transform sync that pushes poses to the physics engine.
//!
//! Only freshly inserted transforms (and freshly inserted bodies and areas)
//! are pushed: modifications of an already-associated transform are not
//! forwarded. That asymmetry is deliberate and carried over from the
//! protocol this system implements, where hierarchy change detection could
//! not distinguish genuine edits; resolve it upstream before widening the
//! event filter here.

use vstd::prelude::*;

verus! {

use crate::commands::PhysicsCommand;
use crate::events::touched;
use crate::events::ComponentEvent;
use crate::events::BitSet;
use crate::events::ReaderId;
use crate::math::Isometry;
use crate::objects::Parent;
use crate::storage::AreaStorage;
use crate::storage::AttachmentStorage;
use crate::storage::BodyStorage;
use crate::storage::ParentStorage;
use crate::storage::TransformStorage;

/// The world pose contributed by an entity's ancestors: the composition of
/// the ancestors' local poses, top-down. An ancestor without a transform
/// contributes the identity. The recursion spends one unit of fuel per
/// ancestor, so it is total even on a malformed, cyclic parent chain; with
/// the fuel the callers pass (the parent store's span) fuel can only run
/// out on a cycle, where the chain has no well-defined pose anyway.
pub open spec fn spec_parent_transform(
    parents: ParentStorage,
    transforms: TransformStorage,
    parent: Parent,
    fuel: nat,
) -> Isometry
    decreases fuel,
{
    let i = if transforms.has(parent.entity as int) {
        transforms.at(parent.entity as int)
    } else {
        Isometry::spec_identity()
    };
    if parents.has(parent.entity as int) && fuel > 0 {
        Isometry::spec_mul(
            spec_parent_transform(
                parents,
                transforms,
                parents.at(parent.entity as int),
                (fuel - 1) as nat,
            ),
            i,
        )
    } else {
        i
    }
}

/// Resolves the pose contributed by the ancestors of an entity whose
/// parent component is `parent`.
pub fn parent_transform(
    parent: &Parent,
    transforms: &TransformStorage,
    parents: &ParentStorage,
    fuel: usize,
) -> (r: Isometry)
    ensures
        r == spec_parent_transform(*parents, *transforms, *parent, fuel as nat),
    decreases fuel,
{
    let i = match transforms.get(parent.entity) {
        Some(t) => *t,
        None => Isometry::identity(),
    };
    match parents.get(parent.entity) {
        Some(grandparent) => {
            if fuel > 0 {
                parent_transform(grandparent, transforms, parents, fuel - 1).mul(&i)
            } else {
                i
            }
        },
        None => i,
    }
}

/// Whether entity `e` has a pose to push this pass: its transform was just
/// inserted, or its body or area handle was.
pub open spec fn to_dirty(
    evs_t: Seq<ComponentEvent>,
    evs_b: Seq<ComponentEvent>,
    evs_a: Seq<ComponentEvent>,
    e: u32,
) -> bool {
    touched(evs_t, e, true, false, false) || touched(evs_b, e, true, false, false) || touched(
        evs_a,
        e,
        true,
        false,
        false,
    )
}

/// The command of the un-parented body phase for entity `e`.
pub open spec fn body_push_cmd_at(
    transforms: TransformStorage,
    bodies: BodyStorage,
    parents: ParentStorage,
    evs_t: Seq<ComponentEvent>,
    evs_b: Seq<ComponentEvent>,
    evs_a: Seq<ComponentEvent>,
    e: int,
) -> Seq<PhysicsCommand> {
    if to_dirty(evs_t, evs_b, evs_a, e as u32) && transforms.has(e) && bodies.has(e)
        && !parents.has(e) {
        seq![PhysicsCommand::SetBodyTransform(bodies.at(e).spec_tag(), transforms.at(e))]
    } else {
        Seq::empty()
    }
}

/// The un-parented body phase commands for the entities below `n`.
pub open spec fn body_push_cmds(
    transforms: TransformStorage,
    bodies: BodyStorage,
    parents: ParentStorage,
    evs_t: Seq<ComponentEvent>,
    evs_b: Seq<ComponentEvent>,
    evs_a: Seq<ComponentEvent>,
    n: int,
) -> Seq<PhysicsCommand>
    decreases n,
{
    if n <= 0 {
        Seq::empty()
    } else {
        body_push_cmds(transforms, bodies, parents, evs_t, evs_b, evs_a, n - 1)
            + body_push_cmd_at(transforms, bodies, parents, evs_t, evs_b, evs_a, n - 1)
    }
}

/// The command of the un-parented area phase for entity `e`.
pub open spec fn area_push_cmd_at(
    transforms: TransformStorage,
    areas: AreaStorage,
    parents: ParentStorage,
    evs_t: Seq<ComponentEvent>,
    evs_b: Seq<ComponentEvent>,
    evs_a: Seq<ComponentEvent>,
    e: int,
) -> Seq<PhysicsCommand> {
    if to_dirty(evs_t, evs_b, evs_a, e as u32) && transforms.has(e) && areas.has(e)
        && !parents.has(e) {
        seq![PhysicsCommand::SetAreaTransform(areas.at(e).spec_tag(), transforms.at(e))]
    } else {
        Seq::empty()
    }
}

/// The un-parented area phase commands for the entities below `n`.
pub open spec fn area_push_cmds(
    transforms: TransformStorage,
    areas: AreaStorage,
    parents: ParentStorage,
    evs_t: Seq<ComponentEvent>,
    evs_b: Seq<ComponentEvent>,
    evs_a: Seq<ComponentEvent>,
    n: int,
) -> Seq<PhysicsCommand>
    decreases n,
{
    if n <= 0 {
        Seq::empty()
    } else {
        area_push_cmds(transforms, areas, parents, evs_t, evs_b, evs_a, n - 1)
            + area_push_cmd_at(transforms, areas, parents, evs_t, evs_b, evs_a, n - 1)
    }
}

/// The command of the parented body phase for entity `e`: a dirty body
/// entity with a parent but no attachment cache gets the pose composed
/// through its ancestor chain.
pub open spec fn parented_body_cmd_at(
    transforms: TransformStorage,
    bodies: BodyStorage,
    parents: ParentStorage,
    attachments: AttachmentStorage,
    evs_t: Seq<ComponentEvent>,
    evs_b: Seq<ComponentEvent>,
    evs_a: Seq<ComponentEvent>,
    e: int,
) -> Seq<PhysicsCommand> {
    if to_dirty(evs_t, evs_b, evs_a, e as u32) && transforms.has(e) && bodies.has(e)
        && parents.has(e) && !attachments.has(e) {
        let computed = Isometry::spec_mul(
            spec_parent_transform(parents, transforms, parents.at(e), parents.span() as nat),
            transforms.at(e),
        );
        seq![PhysicsCommand::SetBodyTransform(bodies.at(e).spec_tag(), computed)]
    } else {
        Seq::empty()
    }
}

/// The parented body phase commands for the entities below `n`.
pub open spec fn parented_body_cmds(
    transforms: TransformStorage,
    bodies: BodyStorage,
    parents: ParentStorage,
    attachments: AttachmentStorage,
    evs_t: Seq<ComponentEvent>,
    evs_b: Seq<ComponentEvent>,
    evs_a: Seq<ComponentEvent>,
    n: int,
) -> Seq<PhysicsCommand>
    decreases n,
{
    if n <= 0 {
        Seq::empty()
    } else {
        parented_body_cmds(
            transforms,
            bodies,
            parents,
            attachments,
            evs_t,
            evs_b,
            evs_a,
            n - 1,
        ) + parented_body_cmd_at(
            transforms,
            bodies,
            parents,
            attachments,
            evs_t,
            evs_b,
            evs_a,
            n - 1,
        )
    }
}

/// The command of the parented area phase for entity `e`.
pub open spec fn parented_area_cmd_at(
    transforms: TransformStorage,
    areas: AreaStorage,
    parents: ParentStorage,
    attachments: AttachmentStorage,
    evs_t: Seq<ComponentEvent>,
    evs_b: Seq<ComponentEvent>,
    evs_a: Seq<ComponentEvent>,
    e: int,
) -> Seq<PhysicsCommand> {
    if to_dirty(evs_t, evs_b, evs_a, e as u32) && transforms.has(e) && areas.has(e)
        && parents.has(e) && !attachments.has(e) {
        let computed = Isometry::spec_mul(
            spec_parent_transform(parents, transforms, parents.at(e), parents.span() as nat),
            transforms.at(e),
        );
        seq![PhysicsCommand::SetAreaTransform(areas.at(e).spec_tag(), computed)]
    } else {
        Seq::empty()
    }
}

/// The parented area phase commands for the entities below `n`.
pub open spec fn parented_area_cmds(
    transforms: TransformStorage,
    areas: AreaStorage,
    parents: ParentStorage,
    attachments: AttachmentStorage,
    evs_t: Seq<ComponentEvent>,
    evs_b: Seq<ComponentEvent>,
    evs_a: Seq<ComponentEvent>,
    n: int,
) -> Seq<PhysicsCommand>
    decreases n,
{
    if n <= 0 {
        Seq::empty()
    } else {
        parented_area_cmds(
            transforms,
            areas,
            parents,
            attachments,
            evs_t,
            evs_b,
            evs_a,
            n - 1,
        ) + parented_area_cmd_at(
            transforms,
            areas,
            parents,
            attachments,
            evs_t,
            evs_b,
            evs_a,
            n - 1,
        )
    }
}

/// Pushes freshly associated transforms to the physics engine: un-parented
/// bodies and areas directly, parented ones (that carry no attachment
/// cache) through their ancestor chain.
pub struct PhysicsSyncTransformToSystem {
    transf_event_reader: ReaderId,
    rigid_bodies_event_reader: ReaderId,
    areas_event_reader: ReaderId,
}

impl PhysicsSyncTransformToSystem {
    /// This subscriber's cursor into the transform store's change log.
    pub closed spec fn transforms_cursor(self) -> int {
        self.transf_event_reader.cursor()
    }

    /// This subscriber's cursor into the body store's change log.
    pub closed spec fn bodies_cursor(self) -> int {
        self.rigid_bodies_event_reader.cursor()
    }

    /// This subscriber's cursor into the area store's change log.
    pub closed spec fn areas_cursor(self) -> int {
        self.areas_event_reader.cursor()
    }

    /// Creates the system, subscribing it to the three stores it watches.
    pub fn new(
        transforms: &TransformStorage,
        bodies: &BodyStorage,
        areas: &AreaStorage,
    ) -> (s: PhysicsSyncTransformToSystem)
        ensures
            s.transforms_cursor() == transforms.log().len(),
            s.bodies_cursor() == bodies.log().len(),
            s.areas_cursor() == areas.log().len(),
    {
        PhysicsSyncTransformToSystem {
            transf_event_reader: transforms.register_reader(),
            rigid_bodies_event_reader: bodies.register_reader(),
            areas_event_reader: areas.register_reader(),
        }
    }

    /// One pass: the dirty set is the transforms, bodies and areas freshly
    /// inserted since the last pass; the commands are, in this order, pose
    /// pushes for un-parented bodies, for un-parented areas, for parented
    /// bodies without an attachment, and for parented areas without an
    /// attachment — each phase in ascending entity order.
    pub fn run(
        &mut self,
        transforms: &TransformStorage,
        bodies: &BodyStorage,
        areas: &AreaStorage,
        attachments: &AttachmentStorage,
        parents: &ParentStorage,
    ) -> (cmds: Vec<PhysicsCommand>)
        requires
            bodies.wf(),
            areas.wf(),
            old(self).transforms_cursor() <= transforms.log().len(),
            old(self).bodies_cursor() <= bodies.log().len(),
            old(self).areas_cursor() <= areas.log().len(),
        ensures
            final(self).transforms_cursor() == transforms.log().len(),
            final(self).bodies_cursor() == bodies.log().len(),
            final(self).areas_cursor() == areas.log().len(),
            ({
                let evs_t = transforms.log().subrange(
                    old(self).transforms_cursor(),
                    transforms.log().len() as int,
                );
                let evs_b = bodies.log().subrange(
                    old(self).bodies_cursor(),
                    bodies.log().len() as int,
                );
                let evs_a = areas.log().subrange(
                    old(self).areas_cursor(),
                    areas.log().len() as int,
                );
                cmds@ == body_push_cmds(
                    *transforms,
                    *bodies,
                    *parents,
                    evs_t,
                    evs_b,
                    evs_a,
                    bodies.span(),
                ) + area_push_cmds(
                    *transforms,
                    *areas,
                    *parents,
                    evs_t,
                    evs_b,
                    evs_a,
                    areas.span(),
                ) + parented_body_cmds(
                    *transforms,
                    *bodies,
                    *parents,
                    *attachments,
                    evs_t,
                    evs_b,
                    evs_a,
                    bodies.span(),
                ) + parented_area_cmds(
                    *transforms,
                    *areas,
                    *parents,
                    *attachments,
                    evs_t,
                    evs_b,
                    evs_a,
                    areas.span(),
                )
            }),
    {
        let evs_t = transforms.read_events(&mut self.transf_event_reader);
        let evs_b = bodies.read_events(&mut self.rigid_bodies_event_reader);
        let evs_a = areas.read_events(&mut self.areas_event_reader);

        let mut edited_transforms = BitSet::new();
        edited_transforms.add_touched(&evs_t, true, false, false);
        edited_transforms.add_touched(&evs_b, true, false, false);
        edited_transforms.add_touched(&evs_a, true, false, false);

        let mut cmds: Vec<PhysicsCommand> = Vec::new();

        let nb = bodies.bound();
        let na = areas.bound();
        let fuel = parents.bound();

        let mut e: usize = 0;
        while e < nb
            invariant
                nb == bodies.span(),
                bodies.wf(),
                e <= nb,
                forall|i: u32| edited_transforms.contains(i as int) <==> to_dirty(
                    evs_t@,
                    evs_b@,
                    evs_a@,
                    i,
                ),
                cmds@ == body_push_cmds(
                    *transforms,
                    *bodies,
                    *parents,
                    evs_t@,
                    evs_b@,
                    evs_a@,
                    e as int,
                ),
                self.transf_event_reader.cursor() == transforms.log().len(),
                self.rigid_bodies_event_reader.cursor() == bodies.log().len(),
                self.areas_event_reader.cursor() == areas.log().len(),
            decreases nb - e,
        {
            let eu = e as u32;
            if edited_transforms.has(eu) && !parents.contains(eu) {
                match (transforms.get(eu), bodies.get(eu)) {
                    (Some(transform), Some(body)) => {
                        cmds.push(PhysicsCommand::SetBodyTransform(body.get(), *transform));
                    },
                    _ => {},
                }
            }
            proof {
                assert(cmds@ =~= body_push_cmds(
                    *transforms,
                    *bodies,
                    *parents,
                    evs_t@,
                    evs_b@,
                    evs_a@,
                    e + 1,
                ));
            }
            e = e + 1;
        }

        let ghost phase1 = cmds@;
        let mut e: usize = 0;
        while e < na
            invariant
                na == areas.span(),
                areas.wf(),
                e <= na,
                forall|i: u32| edited_transforms.contains(i as int) <==> to_dirty(
                    evs_t@,
                    evs_b@,
                    evs_a@,
                    i,
                ),
                cmds@ == phase1 + area_push_cmds(
                    *transforms,
                    *areas,
                    *parents,
                    evs_t@,
                    evs_b@,
                    evs_a@,
                    e as int,
                ),
                self.transf_event_reader.cursor() == transforms.log().len(),
                self.rigid_bodies_event_reader.cursor() == bodies.log().len(),
                self.areas_event_reader.cursor() == areas.log().len(),
            decreases na - e,
        {
            let eu = e as u32;
            if edited_transforms.has(eu) && !parents.contains(eu) {
                match (transforms.get(eu), areas.get(eu)) {
                    (Some(transform), Some(area)) => {
                        cmds.push(PhysicsCommand::SetAreaTransform(area.get(), *transform));
                    },
                    _ => {},
                }
            }
            proof {
                assert(cmds@ =~= phase1 + area_push_cmds(
                    *transforms,
                    *areas,
                    *parents,
                    evs_t@,
                    evs_b@,
                    evs_a@,
                    e + 1,
                ));
            }
            e = e + 1;
        }

        let ghost phase2 = cmds@;
        let mut e: usize = 0;
        while e < nb
            invariant
                nb == bodies.span(),
                bodies.wf(),
                e <= nb,
                fuel == parents.span(),
                forall|i: u32| edited_transforms.contains(i as int) <==> to_dirty(
                    evs_t@,
                    evs_b@,
                    evs_a@,
                    i,
                ),
                cmds@ == phase2 + parented_body_cmds(
                    *transforms,
                    *bodies,
                    *parents,
                    *attachments,
                    evs_t@,
                    evs_b@,
                    evs_a@,
                    e as int,
                ),
                self.transf_event_reader.cursor() == transforms.log().len(),
                self.rigid_bodies_event_reader.cursor() == bodies.log().len(),
                self.areas_event_reader.cursor() == areas.log().len(),
            decreases nb - e,
        {
            let eu = e as u32;
            if edited_transforms.has(eu) && !attachments.contains(eu) {
                match (transforms.get(eu), bodies.get(eu), parents.get(eu)) {
                    (Some(transform), Some(body), Some(parent)) => {
                        let computed = parent_transform(parent, transforms, parents, fuel).mul(
                            transform,
                        );
                        cmds.push(PhysicsCommand::SetBodyTransform(body.get(), computed));
                    },
                    _ => {},
                }
            }
            proof {
                assert(cmds@ =~= phase2 + parented_body_cmds(
                    *transforms,
                    *bodies,
                    *parents,
                    *attachments,
                    evs_t@,
                    evs_b@,
                    evs_a@,
                    e + 1,
                ));
            }
            e = e + 1;
        }

        let ghost phase3 = cmds@;
        let mut e: usize = 0;
        while e < na
            invariant
                na == areas.span(),
                areas.wf(),
                e <= na,
                fuel == parents.span(),
                forall|i: u32| edited_transforms.contains(i as int) <==> to_dirty(
                    evs_t@,
                    evs_b@,
                    evs_a@,
                    i,
                ),
                cmds@ == phase3 + parented_area_cmds(
                    *transforms,
                    *areas,
                    *parents,
                    *attachments,
                    evs_t@,
                    evs_b@,
                    evs_a@,
                    e as int,
                ),
                self.transf_event_reader.cursor() == transforms.log().len(),
                self.rigid_bodies_event_reader.cursor() == bodies.log().len(),
                self.areas_event_reader.cursor() == areas.log().len(),
            decreases na - e,
        {
            let eu = e as u32;
            if edited_transforms.has(eu) && !attachments.contains(eu) {
                match (transforms.get(eu), areas.get(eu), parents.get(eu)) {
                    (Some(transform), Some(area), Some(parent)) => {
                        let computed = parent_transform(parent, transforms, parents, fuel).mul(
                            transform,
                        );
                        cmds.push(PhysicsCommand::SetAreaTransform(area.get(), computed));
                    },
                    _ => {},
                }
            }
            proof {
                assert(cmds@ =~= phase3 + parented_area_cmds(
                    *transforms,
                    *areas,
                    *parents,
                    *attachments,
                    evs_t@,
                    evs_b@,
                    evs_a@,
                    e + 1,
                ));
            }
            e = e + 1;
        }

        cmds
    }
}

} // verus!
