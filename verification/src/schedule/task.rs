//! Tasks, what they require of a creep, and how a tick of one went.
use vstd::prelude::*;
use crate::model::{BodyPart, ControllerInfo, CreepInfo, Part, ResourceType, spec_free_capacity, spec_used_capacity};
use crate::schedule::tasks::harvest_energy_task::HarvestEnergyTask;
use crate::schedule::tasks::upgrade_room_controller_task::UpgradeRoomControllerTask;

verus! {

/// A requirement a creep must fulfil to be given a task.
#[derive(Clone, Debug)]
pub enum TaskRequirement {
    /// Carries at least this much of the resource.
    HasUsedCapacity(ResourceType, u32),
    /// Has at least this much room left for the resource.
    HasFreeCapacity(ResourceType, i32),
    /// Has at least one part of each listed kind.
    HasParts(Vec<Part>),
}

/// How a tick of a task went.
#[derive(Clone, Debug)]
pub enum TaskResult {
    Completed,
    InProgress,
    Error(String),
}

/// An error the game answered a creep's call with: its code and its
/// description as the game library prints it.
#[derive(Clone, Debug)]
pub struct GameError {
    pub code: i32,
    pub description: String,
}

/// The body has a part of kind `part` (active or not).
pub open spec fn body_has_part(body: Seq<BodyPart>, part: Part) -> bool {
    exists|i: int| 0 <= i < body.len() && #[trigger] body[i].part == part
}

impl TaskRequirement {
    pub open spec fn fulfilled_by(self, c: CreepInfo) -> bool {
        match self {
            TaskRequirement::HasUsedCapacity(resource, amount) =>
                spec_used_capacity(c.store@, resource) >= amount,
            TaskRequirement::HasFreeCapacity(resource, amount) =>
                spec_free_capacity(c.store@, resource) >= amount,
            TaskRequirement::HasParts(parts) =>
                forall|i: int| 0 <= i < parts@.len() ==> body_has_part(c.body@, #[trigger] parts@[i]),
        }
    }

    /// Whether the creep fulfils the requirement.
    pub fn does_fulfill(&self, creep: &CreepInfo) -> (b: bool)
        ensures
            b == self.fulfilled_by(*creep),
    {
        match self {
            TaskRequirement::HasUsedCapacity(resource, amount) => creep.used_capacity(*resource) >= *amount,
            TaskRequirement::HasFreeCapacity(resource, amount) => creep.free_capacity(*resource) >= *amount,
            TaskRequirement::HasParts(parts) => {
                let mut i: usize = 0;
                while i < parts.len()
                    invariant
                        *self == TaskRequirement::HasParts(*parts),
                        i <= parts@.len(),
                        forall|j: int| 0 <= j < i ==> body_has_part(creep.body@, #[trigger] parts@[j]),
                    decreases parts@.len() - i,
                {
                    if !has_part(&creep.body, parts[i]) {
                        assert(!body_has_part(creep.body@, parts@[i as int]));
                        assert(self->HasParts_0@ == parts@);
                        assert(!body_has_part(creep.body@, self->HasParts_0@[i as int]));
                        assert(!self.fulfilled_by(*creep));
                        return false;
                    }
                    i = i + 1;
                }
                true
            },
        }
    }
}

/// Whether the body has a part of a kind.
pub fn has_part(body: &Vec<BodyPart>, part: Part) -> (b: bool)
    ensures
        b == body_has_part(body@, part),
{
    let mut i: usize = 0;
    while i < body.len()
        invariant
            i <= body@.len(),
            forall|j: int| 0 <= j < i ==> body@[j].part != part,
        decreases body@.len() - i,
    {
        if body[i].part == part {
            return true;
        }
        i = i + 1;
    }
    false
}

/// A task the scheduler hands out.
#[derive(Clone, Copy, Debug, PartialEq, Eq, Structural)]
pub enum Task {
    HarvestEnergy(HarvestEnergyTask),
    UpgradeRoomController(UpgradeRoomControllerTask),
}

/// The controller with a given id among those the game resolves, if any
/// (the first that matches).
pub open spec fn spec_resolve(controllers: Seq<ControllerInfo>, id: crate::model::ObjectId) -> Option<ControllerInfo>
    decreases controllers.len(),
{
    if controllers.len() == 0 {
        None
    } else if controllers[0].id == id {
        Some(controllers[0])
    } else {
        spec_resolve(controllers.drop_first(), id)
    }
}

/// Looks a controller up by id (the game's `ObjectId::resolve`, on the
/// controllers read this tick).
pub fn resolve_controller(controllers: &Vec<ControllerInfo>, id: crate::model::ObjectId) -> (r: Option<ControllerInfo>)
    ensures
        r == spec_resolve(controllers@, id),
{
    let mut i: usize = 0;
    assert(controllers@.subrange(0, controllers@.len() as int) == controllers@);
    while i < controllers.len()
        invariant
            i <= controllers@.len(),
            spec_resolve(controllers@, id) == spec_resolve(controllers@.subrange(i as int, controllers@.len() as int), id),
        decreases controllers@.len() - i,
    {
        let ghost rest = controllers@.subrange(i as int, controllers@.len() as int);
        assert(rest.drop_first() == controllers@.subrange(i + 1, controllers@.len() as int));
        if controllers[i].id == id {
            return Some(controllers[i]);
        }
        i = i + 1;
    }
    None
}

} // verus!
