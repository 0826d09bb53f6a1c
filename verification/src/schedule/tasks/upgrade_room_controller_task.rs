//! Upgrade the room controller until it is at level 8 and safe from
//! downgrading.
use vstd::prelude::*;
use vstd::string::*;
use crate::model::{ControllerInfo, CreepInfo, ObjectId, Part, ResourceType, RoomInfo};
use crate::schedule::helper::{abs_diff, get_creep_move_speed, max_int, spec_move_speed};
use crate::schedule::task::{GameError, TaskRequirement, TaskResult};
use crate::schedule::tasks::harvest_energy_task::ticks_at_speed;
use crate::tasks::actions::{CONTROLLER_LEVEL_7_TIMER_GOAL, ERR_NOT_IN_RANGE};

verus! {

#[derive(Clone, Copy, Debug, PartialEq, Eq, Structural)]
pub struct UpgradeRoomControllerTask {
    pub target: ObjectId,
}

/// The distance between the creep and the controller inside a room: the
/// larger of the differences of their tile coordinates.
pub open spec fn tile_distance(c: CreepInfo, target: ControllerInfo) -> int {
    max_int(abs_diff(target.pos.x as int, c.pos.x as int), abs_diff(target.pos.y as int, c.pos.y as int))
}

/// What the first part of an upgrade tick decides.
#[derive(Clone, Debug)]
pub enum UpgradeStep {
    /// The target controller cannot be found.
    TargetMissing,
    /// The tick ends with this result.
    Done(TaskResult),
    /// The creep is to upgrade this controller.
    Upgrade(ControllerInfo),
}

/// What a failed upgrade call leads to.
#[derive(Clone, Debug)]
pub enum UpgradeFollowUp {
    Done(TaskResult),
    MoveToController,
}

impl UpgradeRoomControllerTask {
    /// The task for the controller of `room`, which must have one.
    pub fn from_room(room: &RoomInfo) -> (t: Self)
        requires
            room.controller is Some,
        ensures
            t.target == room.controller->0.id,
    {
        let controller = room.controller.unwrap();
        Self { target: controller.id }
    }

    /// Estimated ticks: the travel to the target (`usize::MAX` where the
    /// target cannot be found).
    pub open spec fn spec_estimate(c: CreepInfo, target: Option<ControllerInfo>) -> int {
        match target {
            None => usize::MAX as int,
            Some(t) => ticks_at_speed(tile_distance(c, t), spec_move_speed(c)),
        }
    }

    /// Estimate how many ticks are required to fulfill the task for the
    /// given creep; `target` is the controller the task's id resolves to.
    pub fn estimate_ticks(&self, creep: &CreepInfo, target: Option<ControllerInfo>) -> (ticks: usize)
        requires
            creep.wf(),
        ensures
            ticks == Self::spec_estimate(*creep, target),
    {
        let target = match target {
            None => return usize::MAX,
            Some(t) => t,
        };
        let move_speed = get_creep_move_speed(creep);
        let xs: Vec<i64> = vec![target.pos.x as i64, target.pos.y as i64];
        let ys: Vec<i64> = vec![creep.pos.x as i64, creep.pos.y as i64];
        let distance = crate::schedule::helper::chebyshev(xs.as_slice(), ys.as_slice());
        proof {
            let sx = seq![target.pos.x as i64];
            let sy = seq![creep.pos.x as i64];
            assert(xs@.drop_last() =~= sx);
            assert(ys@.drop_last() =~= sy);
            assert(sx.drop_last() =~= Seq::<i64>::empty());
            assert(sy.drop_last() =~= Seq::<i64>::empty());
            assert(crate::schedule::helper::spec_chebyshev(sx.drop_last(), sy.drop_last()) == 0);
            assert(crate::schedule::helper::spec_chebyshev(sx, sy) == abs_diff(target.pos.x as int, creep.pos.x as int));
            assert(distance == tile_distance(*creep, target));
        }
        if move_speed >= 1 {
            distance as usize
        } else if distance > 0 {
            usize::MAX
        } else {
            0
        }
    }

    /// The requirements: none where the target cannot be found (the task
    /// can then not be completed anyway); otherwise `Move`, `Carry` and
    /// `Work` parts and energy to upgrade with.
    pub fn get_requirements(&self, target: Option<ControllerInfo>) -> (reqs: Vec<TaskRequirement>)
        ensures
            target is None ==> reqs@.len() == 0,
            target is Some ==> {
                &&& reqs@.len() == 2
                &&& reqs@[0] matches TaskRequirement::HasParts(parts) && parts@ == seq![Part::Move, Part::Carry, Part::Work]
                &&& reqs@[1] == TaskRequirement::HasUsedCapacity(ResourceType::Energy, 1)
            },
    {
        if target.is_none() {
            return Vec::new();
        }
        let parts = vec![Part::Move, Part::Carry, Part::Work];
        vec![TaskRequirement::HasParts(parts), TaskRequirement::HasUsedCapacity(ResourceType::Energy, 1)]
    }

    /// The start of a tick: a missing target cannot be worked on; a
    /// controller at level 8 with at least `CONTROLLER_LEVEL_7_TIMER_GOAL`
    /// ticks to downgrade is done; otherwise upgrade it.
    pub fn begin_tick(&self, target: Option<ControllerInfo>) -> (step: UpgradeStep)
        ensures
            match target {
                None => step matches UpgradeStep::TargetMissing,
                Some(t) => if t.level >= 8 && (t.ticks_to_downgrade matches Some(d) && d >= CONTROLLER_LEVEL_7_TIMER_GOAL) {
                    step matches UpgradeStep::Done(TaskResult::Completed)
                } else {
                    step matches UpgradeStep::Upgrade(u) && u == t
                },
            },
    {
        let target = match target {
            None => return UpgradeStep::TargetMissing,
            Some(t) => t,
        };
        if target.level >= 8 {
            if let Some(downgrade_timer) = target.ticks_to_downgrade {
                if downgrade_timer >= CONTROLLER_LEVEL_7_TIMER_GOAL {
                    return UpgradeStep::Done(TaskResult::Completed);
                }
            }
        }
        UpgradeStep::Upgrade(target)
    }

    /// The result when the target cannot be found; `position` is how the
    /// game library prints the creep's position.
    pub fn target_missing(&self, position: &String) -> (r: TaskResult)
        ensures
            r matches TaskResult::Error(m) && m@ == "Room controller target "@ + position@ + " not found"@,
    {
        TaskResult::Error(String::from_str("Room controller target ").concat(position.as_str()).concat(" not found"))
    }

    /// After the upgrade call: success keeps the task in progress; out of
    /// range sends the creep to the controller; any other error fails.
    pub fn after_upgrade(&self, upgrade_result: Result<(), GameError>) -> (next: UpgradeFollowUp)
        ensures
            match upgrade_result {
                Ok(_) => next matches UpgradeFollowUp::Done(TaskResult::InProgress),
                Err(e) => if e.code == ERR_NOT_IN_RANGE {
                    next matches UpgradeFollowUp::MoveToController
                } else {
                    next matches UpgradeFollowUp::Done(TaskResult::Error(m))
                        && m@ == "Failed to upgrade controller: "@ + e.description@
                },
            },
    {
        match upgrade_result {
            Ok(_) => UpgradeFollowUp::Done(TaskResult::InProgress),
            Err(e) => {
                if e.code == ERR_NOT_IN_RANGE {
                    UpgradeFollowUp::MoveToController
                } else {
                    UpgradeFollowUp::Done(TaskResult::Error(
                        String::from_str("Failed to upgrade controller: ").concat(e.description.as_str()),
                    ))
                }
            },
        }
    }

    /// After the move call: success keeps the task in progress, an error
    /// fails it.
    pub fn after_move(&self, move_result: Result<(), GameError>) -> (r: TaskResult)
        ensures
            match move_result {
                Ok(_) => r matches TaskResult::InProgress,
                Err(e) => r matches TaskResult::Error(m) && m@ == "Failed to move to controller: "@ + e.description@,
            },
    {
        match move_result {
            Ok(_) => TaskResult::InProgress,
            Err(e) => TaskResult::Error(
                String::from_str("Failed to move to controller: ").concat(e.description.as_str()),
            ),
        }
    }
}

} // verus!
