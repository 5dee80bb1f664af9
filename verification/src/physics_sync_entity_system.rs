//! Associates the owning entity with every freshly created body and area,
//! so that backend-originated events can be correlated back to entities.

use vstd::prelude::*;

verus! {

use crate::commands::PhysicsCommand;
use crate::events::touched;
use crate::events::ComponentEvent;
use crate::events::BitSet;
use crate::events::ReaderId;
use crate::storage::AreaStorage;
use crate::storage::BodyStorage;

/// The command, if any, that entity `e` contributes to the body pass: a
/// `SetBodyEntity` when its body handle was just inserted.
pub open spec fn body_entity_cmd_at(
    bodies: BodyStorage,
    evs: Seq<ComponentEvent>,
    e: int,
) -> Seq<PhysicsCommand> {
    if touched(evs, e as u32, true, false, false) && bodies.has(e) {
        seq![PhysicsCommand::SetBodyEntity(bodies.at(e).spec_tag(), e as u32)]
    } else {
        Seq::empty()
    }
}

/// The body-pass commands for the entities below `n`, in ascending entity
/// order.
pub open spec fn body_entity_cmds(
    bodies: BodyStorage,
    evs: Seq<ComponentEvent>,
    n: int,
) -> Seq<PhysicsCommand>
    decreases n,
{
    if n <= 0 {
        Seq::empty()
    } else {
        body_entity_cmds(bodies, evs, n - 1) + body_entity_cmd_at(bodies, evs, n - 1)
    }
}

/// The command, if any, that entity `e` contributes to the area pass.
pub open spec fn area_entity_cmd_at(
    areas: AreaStorage,
    evs: Seq<ComponentEvent>,
    e: int,
) -> Seq<PhysicsCommand> {
    if touched(evs, e as u32, true, false, false) && areas.has(e) {
        seq![PhysicsCommand::SetAreaEntity(areas.at(e).spec_tag(), e as u32)]
    } else {
        Seq::empty()
    }
}

/// The area-pass commands for the entities below `n`, in ascending entity
/// order.
pub open spec fn area_entity_cmds(
    areas: AreaStorage,
    evs: Seq<ComponentEvent>,
    n: int,
) -> Seq<PhysicsCommand>
    decreases n,
{
    if n <= 0 {
        Seq::empty()
    } else {
        area_entity_cmds(areas, evs, n - 1) + area_entity_cmd_at(areas, evs, n - 1)
    }
}

/// Sets the owning entity on each newly inserted body and area. Removal is
/// left unhandled, an explicit gap carried over from the protocol this
/// system implements.
pub struct PhysicsSyncEntitySystem {
    bodies_event_reader: ReaderId,
    areas_event_reader: ReaderId,
}

impl PhysicsSyncEntitySystem {
    /// This subscriber's cursor into the body store's change log.
    pub closed spec fn bodies_cursor(self) -> int {
        self.bodies_event_reader.cursor()
    }

    /// This subscriber's cursor into the area store's change log.
    pub closed spec fn areas_cursor(self) -> int {
        self.areas_event_reader.cursor()
    }

    /// Creates the system, subscribing it to the body and area stores it
    /// will watch.
    pub fn new(bodies: &BodyStorage, areas: &AreaStorage) -> (s: Self)
        ensures
            s.bodies_cursor() == bodies.log().len(),
            s.areas_cursor() == areas.log().len(),
    {
        PhysicsSyncEntitySystem {
            bodies_event_reader: bodies.register_reader(),
            areas_event_reader: areas.register_reader(),
        }
    }

    /// One pass: reads the events written since the last pass, and emits a
    /// `SetBodyEntity` (then `SetAreaEntity`) command for every entity whose
    /// body (area) handle was inserted and is still present, in ascending
    /// entity order, bodies before areas.
    pub fn run(&mut self, bodies: &BodyStorage, areas: &AreaStorage) -> (cmds: Vec<
        PhysicsCommand,
    >)
        requires
            bodies.wf(),
            areas.wf(),
            old(self).bodies_cursor() <= bodies.log().len(),
            old(self).areas_cursor() <= areas.log().len(),
        ensures
            final(self).bodies_cursor() == bodies.log().len(),
            final(self).areas_cursor() == areas.log().len(),
            cmds@ == body_entity_cmds(
                *bodies,
                bodies.log().subrange(old(self).bodies_cursor(), bodies.log().len() as int),
                bodies.span(),
            ) + area_entity_cmds(
                *areas,
                areas.log().subrange(old(self).areas_cursor(), areas.log().len() as int),
                areas.span(),
            ),
    {
        let evs_b = bodies.read_events(&mut self.bodies_event_reader);
        let evs_a = areas.read_events(&mut self.areas_event_reader);

        let mut added_bodies = BitSet::new();
        added_bodies.add_touched(&evs_b, true, false, false);
        let mut added_areas = BitSet::new();
        added_areas.add_touched(&evs_a, true, false, false);

        let mut cmds: Vec<PhysicsCommand> = Vec::new();

        let nb = bodies.bound();
        let mut e: usize = 0;
        while e < nb
            invariant
                nb == bodies.span(),
                bodies.wf(),
                e <= nb,
                forall|i: u32| added_bodies.contains(i as int) <==> touched(
                    evs_b@,
                    i,
                    true,
                    false,
                    false,
                ),
                cmds@ == body_entity_cmds(*bodies, evs_b@, e as int),
            decreases nb - e,
        {
            let eu = e as u32;
            if added_bodies.has(eu) {
                match bodies.get(eu) {
                    Some(handle) => {
                        cmds.push(PhysicsCommand::SetBodyEntity(handle.get(), eu));
                    },
                    None => {},
                }
            }
            proof {
                assert(cmds@ =~= body_entity_cmds(*bodies, evs_b@, e + 1));
            }
            e = e + 1;
        }

        let na = areas.bound();
        let mut e: usize = 0;
        while e < na
            invariant
                na == areas.span(),
                areas.wf(),
                e <= na,
                forall|i: u32| added_areas.contains(i as int) <==> touched(
                    evs_a@,
                    i,
                    true,
                    false,
                    false,
                ),
                cmds@ == body_entity_cmds(*bodies, evs_b@, bodies.span())
                    + area_entity_cmds(*areas, evs_a@, e as int),
            decreases na - e,
        {
            let eu = e as u32;
            if added_areas.has(eu) {
                match areas.get(eu) {
                    Some(handle) => {
                        cmds.push(PhysicsCommand::SetAreaEntity(handle.get(), eu));
                    },
                    None => {},
                }
            }
            proof {
                assert(cmds@ =~= body_entity_cmds(*bodies, evs_b@, bodies.span())
                    + area_entity_cmds(*areas, evs_a@, e + 1));
            }
            e = e + 1;
        }

        cmds
    }
}

} // verus!
