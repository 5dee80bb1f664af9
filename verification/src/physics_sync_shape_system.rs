//! Keeps the shape assignment of bodies and areas in sync with the shape
//! handles the entities carry: it is enough to set a shape handle as a
//! component of an entity to use it as the entity's collision shape.

use vstd::prelude::*;

verus! {

use crate::commands::PhysicsCommand;
use crate::events::touched;
use crate::events::ComponentEvent;
use crate::events::BitSet;
use crate::events::ReaderId;
use crate::storage::AreaStorage;
use crate::storage::BodyStorage;
use crate::storage::ShapeStorage;

/// Whether entity `e` was touched by any of the three change logs this
/// pass, whatever the event kind: the dirty set of the shape sync.
pub open spec fn shape_dirty(
    evs_b: Seq<ComponentEvent>,
    evs_a: Seq<ComponentEvent>,
    evs_s: Seq<ComponentEvent>,
    e: u32,
) -> bool {
    touched(evs_b, e, true, true, true) || touched(evs_a, e, true, true, true) || touched(
        evs_s,
        e,
        true,
        true,
        true,
    )
}

/// The command of the assign-to-body phase for entity `e`: a dirty entity
/// holding both a body and a shape gets the shape assigned.
pub open spec fn body_assign_cmd_at(
    bodies: BodyStorage,
    shapes: ShapeStorage,
    evs_b: Seq<ComponentEvent>,
    evs_a: Seq<ComponentEvent>,
    evs_s: Seq<ComponentEvent>,
    e: int,
) -> Seq<PhysicsCommand> {
    if shape_dirty(evs_b, evs_a, evs_s, e as u32) && bodies.has(e) && shapes.has(e) {
        seq![
            PhysicsCommand::SetBodyShape(
                bodies.at(e).spec_tag(),
                Some(shapes.at(e).spec_tag()),
            ),
        ]
    } else {
        Seq::empty()
    }
}

/// The assign-to-body commands for the entities below `n`, ascending.
pub open spec fn body_assign_cmds(
    bodies: BodyStorage,
    shapes: ShapeStorage,
    evs_b: Seq<ComponentEvent>,
    evs_a: Seq<ComponentEvent>,
    evs_s: Seq<ComponentEvent>,
    n: int,
) -> Seq<PhysicsCommand>
    decreases n,
{
    if n <= 0 {
        Seq::empty()
    } else {
        body_assign_cmds(bodies, shapes, evs_b, evs_a, evs_s, n - 1) + body_assign_cmd_at(
            bodies,
            shapes,
            evs_b,
            evs_a,
            evs_s,
            n - 1,
        )
    }
}

/// The command of the clear-from-body phase for entity `e`: a dirty entity
/// holding a body but no longer a shape gets its shape cleared.
pub open spec fn body_clear_cmd_at(
    bodies: BodyStorage,
    shapes: ShapeStorage,
    evs_b: Seq<ComponentEvent>,
    evs_a: Seq<ComponentEvent>,
    evs_s: Seq<ComponentEvent>,
    e: int,
) -> Seq<PhysicsCommand> {
    if shape_dirty(evs_b, evs_a, evs_s, e as u32) && bodies.has(e) && !shapes.has(e) {
        seq![PhysicsCommand::SetBodyShape(bodies.at(e).spec_tag(), None)]
    } else {
        Seq::empty()
    }
}

/// The clear-from-body commands for the entities below `n`, ascending.
pub open spec fn body_clear_cmds(
    bodies: BodyStorage,
    shapes: ShapeStorage,
    evs_b: Seq<ComponentEvent>,
    evs_a: Seq<ComponentEvent>,
    evs_s: Seq<ComponentEvent>,
    n: int,
) -> Seq<PhysicsCommand>
    decreases n,
{
    if n <= 0 {
        Seq::empty()
    } else {
        body_clear_cmds(bodies, shapes, evs_b, evs_a, evs_s, n - 1) + body_clear_cmd_at(
            bodies,
            shapes,
            evs_b,
            evs_a,
            evs_s,
            n - 1,
        )
    }
}

/// The command of the assign-to-area phase for entity `e`.
pub open spec fn area_assign_cmd_at(
    areas: AreaStorage,
    shapes: ShapeStorage,
    evs_b: Seq<ComponentEvent>,
    evs_a: Seq<ComponentEvent>,
    evs_s: Seq<ComponentEvent>,
    e: int,
) -> Seq<PhysicsCommand> {
    if shape_dirty(evs_b, evs_a, evs_s, e as u32) && areas.has(e) && shapes.has(e) {
        seq![
            PhysicsCommand::SetAreaShape(
                areas.at(e).spec_tag(),
                Some(shapes.at(e).spec_tag()),
            ),
        ]
    } else {
        Seq::empty()
    }
}

/// The assign-to-area commands for the entities below `n`, ascending.
pub open spec fn area_assign_cmds(
    areas: AreaStorage,
    shapes: ShapeStorage,
    evs_b: Seq<ComponentEvent>,
    evs_a: Seq<ComponentEvent>,
    evs_s: Seq<ComponentEvent>,
    n: int,
) -> Seq<PhysicsCommand>
    decreases n,
{
    if n <= 0 {
        Seq::empty()
    } else {
        area_assign_cmds(areas, shapes, evs_b, evs_a, evs_s, n - 1) + area_assign_cmd_at(
            areas,
            shapes,
            evs_b,
            evs_a,
            evs_s,
            n - 1,
        )
    }
}

/// The command of the clear-from-area phase for entity `e`.
pub open spec fn area_clear_cmd_at(
    areas: AreaStorage,
    shapes: ShapeStorage,
    evs_b: Seq<ComponentEvent>,
    evs_a: Seq<ComponentEvent>,
    evs_s: Seq<ComponentEvent>,
    e: int,
) -> Seq<PhysicsCommand> {
    if shape_dirty(evs_b, evs_a, evs_s, e as u32) && areas.has(e) && !shapes.has(e) {
        seq![PhysicsCommand::SetAreaShape(areas.at(e).spec_tag(), None)]
    } else {
        Seq::empty()
    }
}

/// The clear-from-area commands for the entities below `n`, ascending.
pub open spec fn area_clear_cmds(
    areas: AreaStorage,
    shapes: ShapeStorage,
    evs_b: Seq<ComponentEvent>,
    evs_a: Seq<ComponentEvent>,
    evs_s: Seq<ComponentEvent>,
    n: int,
) -> Seq<PhysicsCommand>
    decreases n,
{
    if n <= 0 {
        Seq::empty()
    } else {
        area_clear_cmds(areas, shapes, evs_b, evs_a, evs_s, n - 1) + area_clear_cmd_at(
            areas,
            shapes,
            evs_b,
            evs_a,
            evs_s,
            n - 1,
        )
    }
}

/// Manages the automatic association of shapes to rigid bodies and areas:
/// a pass collects every entity touched in the body, area or shape store,
/// then assigns or clears shapes accordingly.
pub struct PhysicsSyncShapeSystem {
    bodies_event_reader: ReaderId,
    areas_event_reader: ReaderId,
    shapes_event_reader: ReaderId,
}

impl PhysicsSyncShapeSystem {
    /// This subscriber's cursor into the body store's change log.
    pub closed spec fn bodies_cursor(self) -> int {
        self.bodies_event_reader.cursor()
    }

    /// This subscriber's cursor into the area store's change log.
    pub closed spec fn areas_cursor(self) -> int {
        self.areas_event_reader.cursor()
    }

    /// This subscriber's cursor into the shape store's change log.
    pub closed spec fn shapes_cursor(self) -> int {
        self.shapes_event_reader.cursor()
    }

    /// Creates the system, subscribing it to the three stores it watches.
    pub fn new(bodies: &BodyStorage, areas: &AreaStorage, shapes: &ShapeStorage) -> (s: Self)
        ensures
            s.bodies_cursor() == bodies.log().len(),
            s.areas_cursor() == areas.log().len(),
            s.shapes_cursor() == shapes.log().len(),
    {
        PhysicsSyncShapeSystem {
            bodies_event_reader: bodies.register_reader(),
            areas_event_reader: areas.register_reader(),
            shapes_event_reader: shapes.register_reader(),
        }
    }

    /// One pass: the dirty set is the union of the three change logs read
    /// since the last pass; the commands are, in this order, shape
    /// assignments to bodies, shape clears from bodies, shape assignments
    /// to areas, shape clears from areas — each phase in ascending entity
    /// order.
    pub fn run(
        &mut self,
        bodies: &BodyStorage,
        areas: &AreaStorage,
        shapes: &ShapeStorage,
    ) -> (cmds: Vec<PhysicsCommand>)
        requires
            bodies.wf(),
            areas.wf(),
            old(self).bodies_cursor() <= bodies.log().len(),
            old(self).areas_cursor() <= areas.log().len(),
            old(self).shapes_cursor() <= shapes.log().len(),
        ensures
            final(self).bodies_cursor() == bodies.log().len(),
            final(self).areas_cursor() == areas.log().len(),
            final(self).shapes_cursor() == shapes.log().len(),
            ({
                let evs_b = bodies.log().subrange(
                    old(self).bodies_cursor(),
                    bodies.log().len() as int,
                );
                let evs_a = areas.log().subrange(
                    old(self).areas_cursor(),
                    areas.log().len() as int,
                );
                let evs_s = shapes.log().subrange(
                    old(self).shapes_cursor(),
                    shapes.log().len() as int,
                );
                cmds@ == body_assign_cmds(*bodies, *shapes, evs_b, evs_a, evs_s, bodies.span())
                    + body_clear_cmds(*bodies, *shapes, evs_b, evs_a, evs_s, bodies.span())
                    + area_assign_cmds(*areas, *shapes, evs_b, evs_a, evs_s, areas.span())
                    + area_clear_cmds(*areas, *shapes, evs_b, evs_a, evs_s, areas.span())
            }),
    {
        let evs_b = bodies.read_events(&mut self.bodies_event_reader);
        let evs_a = areas.read_events(&mut self.areas_event_reader);
        let evs_s = shapes.read_events(&mut self.shapes_event_reader);

        let mut dirty_shapes = BitSet::new();
        dirty_shapes.add_touched(&evs_b, true, true, true);
        dirty_shapes.add_touched(&evs_a, true, true, true);
        dirty_shapes.add_touched(&evs_s, true, true, true);

        let mut cmds: Vec<PhysicsCommand> = Vec::new();

        let nb = bodies.bound();
        let mut e: usize = 0;
        while e < nb
            invariant
                nb == bodies.span(),
                bodies.wf(),
                e <= nb,
                forall|i: u32| dirty_shapes.contains(i as int) <==> shape_dirty(
                    evs_b@,
                    evs_a@,
                    evs_s@,
                    i,
                ),
                cmds@ == body_assign_cmds(*bodies, *shapes, evs_b@, evs_a@, evs_s@, e as int),
            decreases nb - e,
        {
            let eu = e as u32;
            if dirty_shapes.has(eu) {
                match (bodies.get(eu), shapes.get(eu)) {
                    (Some(body), Some(shape)) => {
                        cmds.push(
                            PhysicsCommand::SetBodyShape(body.get(), Some(shape.get())),
                        );
                    },
                    _ => {},
                }
            }
            proof {
                assert(cmds@ =~= body_assign_cmds(*bodies, *shapes, evs_b@, evs_a@, evs_s@, e + 1));
            }
            e = e + 1;
        }

        let ghost phase1 = cmds@;
        let mut e: usize = 0;
        while e < nb
            invariant
                nb == bodies.span(),
                bodies.wf(),
                e <= nb,
                forall|i: u32| dirty_shapes.contains(i as int) <==> shape_dirty(
                    evs_b@,
                    evs_a@,
                    evs_s@,
                    i,
                ),
                cmds@ == phase1 + body_clear_cmds(*bodies, *shapes, evs_b@, evs_a@, evs_s@, e as int),
            decreases nb - e,
        {
            let eu = e as u32;
            if dirty_shapes.has(eu) {
                if bodies.contains(eu) && !shapes.contains(eu) {
                    match bodies.get(eu) {
                        Some(body) => {
                            cmds.push(PhysicsCommand::SetBodyShape(body.get(), None));
                        },
                        None => {},
                    }
                }
            }
            proof {
                assert(cmds@ =~= phase1
                    + body_clear_cmds(*bodies, *shapes, evs_b@, evs_a@, evs_s@, e + 1));
            }
            e = e + 1;
        }

        let ghost phase2 = cmds@;
        let na = areas.bound();
        let mut e: usize = 0;
        while e < na
            invariant
                na == areas.span(),
                areas.wf(),
                e <= na,
                forall|i: u32| dirty_shapes.contains(i as int) <==> shape_dirty(
                    evs_b@,
                    evs_a@,
                    evs_s@,
                    i,
                ),
                cmds@ == phase2 + area_assign_cmds(*areas, *shapes, evs_b@, evs_a@, evs_s@, e as int),
            decreases na - e,
        {
            let eu = e as u32;
            if dirty_shapes.has(eu) {
                match (areas.get(eu), shapes.get(eu)) {
                    (Some(area), Some(shape)) => {
                        cmds.push(
                            PhysicsCommand::SetAreaShape(area.get(), Some(shape.get())),
                        );
                    },
                    _ => {},
                }
            }
            proof {
                assert(cmds@ =~= phase2
                    + area_assign_cmds(*areas, *shapes, evs_b@, evs_a@, evs_s@, e + 1));
            }
            e = e + 1;
        }

        let ghost phase3 = cmds@;
        let mut e: usize = 0;
        while e < na
            invariant
                na == areas.span(),
                areas.wf(),
                e <= na,
                forall|i: u32| dirty_shapes.contains(i as int) <==> shape_dirty(
                    evs_b@,
                    evs_a@,
                    evs_s@,
                    i,
                ),
                cmds@ == phase3 + area_clear_cmds(*areas, *shapes, evs_b@, evs_a@, evs_s@, e as int),
            decreases na - e,
        {
            let eu = e as u32;
            if dirty_shapes.has(eu) {
                if areas.contains(eu) && !shapes.contains(eu) {
                    match areas.get(eu) {
                        Some(area) => {
                            cmds.push(PhysicsCommand::SetAreaShape(area.get(), None));
                        },
                        None => {},
                    }
                }
            }
            proof {
                assert(cmds@ =~= phase3
                    + area_clear_cmds(*areas, *shapes, evs_b@, evs_a@, evs_s@, e + 1));
            }
            e = e + 1;
        }

        cmds
    }
}

} // verus!
