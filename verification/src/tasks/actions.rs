//! The actions a plan is made of.
use vstd::prelude::*;
use crate::model::{
    ControllerInfo, CreepInfo, MineralInfo, Part, Position, ResourceType, RoomInfo, SourceInfo,
    count_active, spec_used_capacity,
};
use crate::schedule::helper::{
    chebyshev_pos, get_creep_move_speed, saturate_usize, spec_chebyshev_pos,
    spec_move_speed, spec_saturate,
};
use crate::tasks::requirements::{
    HasBodyPartRequirement, HasFreeCapacityRequirement, HasUsedCapacityRequirement,
    IsNearPositionRequirement, TaskRequirement,
};

verus! {

/// The energy needed to take a controller from level 7 to level 8
/// (the game's `CONTROLLER_LEVELS[7]` plus the levels below).
pub const CONTROLLER_LEVEL_8_ENERGY_GOAL: u32 = 16380200;

/// The downgrade timer that counts as "level 8 reached and safe": the
/// level-8 timer is 200000 ticks, and filling the level-7 timer ensures the
/// goal.
pub const CONTROLLER_LEVEL_7_TIMER_GOAL: u32 = 150000;

/// What a harvest action harvests.
#[derive(Clone, Copy, Debug, PartialEq, Eq, Structural)]
pub enum HarvestTarget {
    Source(SourceInfo),
    Mineral(MineralInfo),
}

impl HarvestTarget {
    pub open spec fn spec_pos(self) -> Position {
        match self {
            HarvestTarget::Source(s) => s.pos,
            HarvestTarget::Mineral(m) => m.pos,
        }
    }

    pub fn pos(&self) -> (p: Position)
        ensures
            p == self.spec_pos(),
    {
        match self {
            HarvestTarget::Source(s) => s.pos,
            HarvestTarget::Mineral(m) => m.pos,
        }
    }
}

/// Harvest a source or mineral until the creep holds `capacity_goal`.
#[derive(Clone, Copy, Debug, PartialEq, Eq, Structural)]
pub struct HarvestResourceAction {
    pub target: HarvestTarget,
    pub capacity_goal: u32,
}

/// Move until the creep is within `acceptable_range` of `target`.
#[derive(Clone, Copy, Debug, PartialEq, Eq, Structural)]
pub struct MoveToPositonAction {
    pub target: Position,
    pub acceptable_range: usize,
}

/// Upgrade a room controller.
#[derive(Clone, Copy, Debug, PartialEq, Eq, Structural)]
pub struct UpgradeRoomControllerAction {
    pub target: ControllerInfo,
}

/// One step of a plan.
#[derive(Clone, Copy, Debug, PartialEq, Eq, Structural)]
pub enum TaskAction {
    HarvestResource(HarvestResourceAction),
    MoveToPosition(MoveToPositonAction),
    UpgradeRoomController(UpgradeRoomControllerAction),
}

/// How an action's tick went.
#[derive(Clone, Copy, Debug, PartialEq, Eq, Structural)]
pub enum TaskActionResult {
    Completed,
    InProgress,
    Error(TaskActionError),
}

/// Why an action failed: the game's error code for the call.
#[derive(Clone, Copy, Debug, PartialEq, Eq, Structural)]
pub enum TaskActionError {
    UnknownError(i32),
}

impl TaskAction {
    /// The depth of an action in the requirement tree: moving needs no
    /// other action, harvesting may need a move, upgrading may need a
    /// harvest.
    pub open spec fn rank(self) -> nat {
        match self {
            TaskAction::MoveToPosition(_) => 0,
            TaskAction::HarvestResource(_) => 1,
            TaskAction::UpgradeRoomController(_) => 2,
        }
    }

    /// The requirements a creep must meet to perform the action.
    pub open spec fn requirements(self) -> Seq<TaskRequirement> {
        match self {
            TaskAction::HarvestResource(a) => seq![
                TaskRequirement::HasBodyPart(HasBodyPartRequirement { part: Part::Work, min_required: 1 }),
                TaskRequirement::HasBodyPart(HasBodyPartRequirement { part: Part::Carry, min_required: 1 }),
                TaskRequirement::IsNearPosition(IsNearPositionRequirement { target: a.target.spec_pos(), acceptable_range: 1 }),
                TaskRequirement::HasFreeCapacity(HasFreeCapacityRequirement { resource_type: ResourceType::Energy, free_capacity: a.capacity_goal as i32 }),
            ],
            TaskAction::MoveToPosition(_) => seq![
                TaskRequirement::HasBodyPart(HasBodyPartRequirement { part: Part::Move, min_required: 1 }),
            ],
            TaskAction::UpgradeRoomController(a) => seq![
                TaskRequirement::HasBodyPart(HasBodyPartRequirement { part: Part::Work, min_required: 1 }),
                TaskRequirement::HasBodyPart(HasBodyPartRequirement { part: Part::Carry, min_required: 1 }),
                TaskRequirement::IsNearPosition(IsNearPositionRequirement { target: a.target.pos, acceptable_range: 3 }),
                TaskRequirement::HasUsedCapacity(HasUsedCapacityRequirement { resource_type: ResourceType::Energy, capacity: 1 }),
            ],
        }
    }

    /// Get a list of requirements to meet for the task.
    pub fn get_requirements(&self) -> (reqs: Vec<TaskRequirement>)
        ensures
            reqs@ == self.requirements(),
    {
        match self {
            TaskAction::HarvestResource(a) => {
                let v = vec![
                    HasBodyPartRequirement::new_boxed(Part::Work, 1),
                    HasBodyPartRequirement::new_boxed(Part::Carry, 1),
                    IsNearPositionRequirement::new_boxed(a.target.pos(), 1),
                    HasFreeCapacityRequirement::new_boxed(ResourceType::Energy, a.capacity_goal as i32),
                ];
                assert(v@ =~= self.requirements());
                v
            },
            TaskAction::MoveToPosition(_) => {
                let v = vec![HasBodyPartRequirement::new_boxed(Part::Move, 1)];
                assert(v@ =~= self.requirements());
                v
            },
            TaskAction::UpgradeRoomController(a) => {
                let v = vec![
                    HasBodyPartRequirement::new_boxed(Part::Work, 1),
                    HasBodyPartRequirement::new_boxed(Part::Carry, 1),
                    IsNearPositionRequirement::new_boxed(a.target.pos, 3),
                    HasUsedCapacityRequirement::new_boxed(ResourceType::Energy, 1),
                ];
                assert(v@ =~= self.requirements());
                v
            },
        }
    }

    /// The inputs on which `estimate_ticks` is defined: a harvest or an
    /// upgrade needs an active `Work` part (the estimate divides by their
    /// number); a move needs a creep that is not already closer than the acceptable range.
    pub open spec fn estimate_defined(self, c: CreepInfo) -> bool {
        match self {
            TaskAction::HarvestResource(_) => count_active(c.body@, Part::Work) > 0,
            TaskAction::UpgradeRoomController(_) => count_active(c.body@, Part::Work) > 0,
            TaskAction::MoveToPosition(a) => {
                &&& spec_saturate(spec_chebyshev_pos(a.target, c.pos)) >= a.acceptable_range
            },
        }
    }

    /// The estimated number of ticks the action takes.
    pub open spec fn spec_estimate(self, c: CreepInfo) -> int {
        match self {
            TaskAction::HarvestResource(a) => a.capacity_goal as int / count_active(c.body@, Part::Work) as int,
            TaskAction::UpgradeRoomController(_) => CONTROLLER_LEVEL_8_ENERGY_GOAL as int / count_active(c.body@, Part::Work) as int,
            TaskAction::MoveToPosition(a) =>
                (spec_saturate(spec_chebyshev_pos(a.target, c.pos)) - a.acceptable_range) / spec_move_speed(c),
        }
    }

    /// Estimate ticks required to complete the task.
    pub fn estimate_ticks(&self, creep: &CreepInfo) -> (ticks: usize)
        requires
            creep.wf(),
            self.estimate_defined(*creep),
        ensures
            ticks == self.spec_estimate(*creep),
    {
        match self {
            TaskAction::HarvestResource(a) => {
                let work = creep.get_active_bodyparts(Part::Work) as u32;
                (a.capacity_goal / work) as usize
            },
            TaskAction::UpgradeRoomController(_) => {
                let work = creep.get_active_bodyparts(Part::Work) as usize;
                CONTROLLER_LEVEL_8_ENERGY_GOAL as usize / work
            },
            TaskAction::MoveToPosition(a) => {
                let move_speed = get_creep_move_speed(creep);
                let move_distance = saturate_usize(chebyshev_pos(a.target, creep.pos));
                (move_distance - a.acceptable_range) / move_speed
            },
        }
    }
}

/// The game's `ERR_NOT_ENOUGH_RESOURCES`.
pub const ERR_NOT_ENOUGH_RESOURCES: i32 = -6;
/// The game's `ERR_NOT_IN_RANGE`.
pub const ERR_NOT_IN_RANGE: i32 = -9;
/// The game's `ERR_TIRED`.
pub const ERR_TIRED: i32 = -11;

impl HarvestResourceAction {
    /// The resource the target yields.
    pub open spec fn spec_resource(self) -> ResourceType {
        match self.target {
            HarvestTarget::Source(_) => ResourceType::Energy,
            HarvestTarget::Mineral(m) => m.mineral_type,
        }
    }

    /// The outcome of a tick, given what the game answered to the harvest
    /// call and the creep as read after it: done once the creep holds the
    /// goal of the target's resource, an error when the call failed.
    pub open spec fn spec_tick(self, creep: CreepInfo, harvest_result: Result<(), i32>) -> TaskActionResult {
        match harvest_result {
            Ok(_) => if spec_used_capacity(creep.store@, self.spec_resource()) >= self.capacity_goal {
                TaskActionResult::Completed
            } else {
                TaskActionResult::InProgress
            },
            Err(code) => TaskActionResult::Error(TaskActionError::UnknownError(code)),
        }
    }

    /// Execute a tick for the task, after the creep was told to harvest.
    pub fn tick(&self, creep: &CreepInfo, harvest_result: Result<(), i32>) -> (r: TaskActionResult)
        ensures
            r == self.spec_tick(*creep, harvest_result),
    {
        match harvest_result {
            Ok(_) => {
                let resource = match self.target {
                    HarvestTarget::Source(_) => ResourceType::Energy,
                    HarvestTarget::Mineral(m) => m.mineral_type,
                };
                let used_capacity = creep.used_capacity(resource);
                if used_capacity >= self.capacity_goal {
                    TaskActionResult::Completed
                } else {
                    TaskActionResult::InProgress
                }
            },
            Err(code) => TaskActionResult::Error(TaskActionError::UnknownError(code)),
        }
    }

    pub fn new_source(source: SourceInfo, capacity_goal: u32) -> (a: Self)
        ensures
            a == (HarvestResourceAction { target: HarvestTarget::Source(source), capacity_goal }),
    {
        Self { target: HarvestTarget::Source(source), capacity_goal }
    }

    pub fn new_mineral(mineral: MineralInfo, capacity_goal: u32) -> (a: Self)
        ensures
            a == (HarvestResourceAction { target: HarvestTarget::Mineral(mineral), capacity_goal }),
    {
        Self { target: HarvestTarget::Mineral(mineral), capacity_goal }
    }

    pub fn new_boxed_source(source: SourceInfo, capacity_goal: u32) -> (a: TaskAction)
        ensures
            a == TaskAction::HarvestResource(HarvestResourceAction { target: HarvestTarget::Source(source), capacity_goal }),
    {
        TaskAction::HarvestResource(Self::new_source(source, capacity_goal))
    }

    pub fn new_boxed_mineral(mineral: MineralInfo, capacity_goal: u32) -> (a: TaskAction)
        ensures
            a == TaskAction::HarvestResource(HarvestResourceAction { target: HarvestTarget::Mineral(mineral), capacity_goal }),
    {
        TaskAction::HarvestResource(Self::new_mineral(mineral, capacity_goal))
    }
}

impl MoveToPositonAction {
    /// The outcome of a tick, given the game's answer to the move call
    /// and the creep as read after it: done within the acceptable range;
    /// a tired creep is still on its way; any other error fails.
    pub open spec fn spec_tick(self, creep: CreepInfo, move_result: Result<(), i32>) -> TaskActionResult {
        match move_result {
            Ok(_) => if spec_saturate(spec_chebyshev_pos(self.target, creep.pos)) <= self.acceptable_range {
                TaskActionResult::Completed
            } else {
                TaskActionResult::InProgress
            },
            Err(code) => if code == ERR_TIRED {
                TaskActionResult::InProgress
            } else {
                TaskActionResult::Error(TaskActionError::UnknownError(code))
            },
        }
    }

    /// Execute a tick for the task, after the creep was told to move.
    pub fn tick(&self, creep: &CreepInfo, move_result: Result<(), i32>) -> (r: TaskActionResult)
        ensures
            r == self.spec_tick(*creep, move_result),
    {
        match move_result {
            Ok(_) => {
                if saturate_usize(chebyshev_pos(self.target, creep.pos)) <= self.acceptable_range {
                    TaskActionResult::Completed
                } else {
                    TaskActionResult::InProgress
                }
            },
            Err(code) => {
                if code == ERR_TIRED {
                    TaskActionResult::InProgress
                } else {
                    TaskActionResult::Error(TaskActionError::UnknownError(code))
                }
            },
        }
    }

    pub fn new(target: Position, acceptable_range: usize) -> (a: MoveToPositonAction)
        ensures
            a == (MoveToPositonAction { target, acceptable_range }),
    {
        Self { target, acceptable_range }
    }

    pub fn new_boxed(target: Position, acceptable_range: usize) -> (a: TaskAction)
        ensures
            a == TaskAction::MoveToPosition(MoveToPositonAction { target, acceptable_range }),
    {
        TaskAction::MoveToPosition(Self::new(target, acceptable_range))
    }
}

impl UpgradeRoomControllerAction {
    /// The outcome of a tick, given the game's answer to the upgrade call
    /// and the controller as read after it: done at level 8 with a
    /// downgrade timer of at least `CONTROLLER_LEVEL_7_TIMER_GOAL`, or when
    /// the creep ran out of energy; any other error fails.
    pub open spec fn spec_tick(controller: ControllerInfo, upgrade_result: Result<(), i32>) -> TaskActionResult {
        match upgrade_result {
            Ok(_) => if controller.level >= 8 && (controller.ticks_to_downgrade matches Some(t)
                && t >= CONTROLLER_LEVEL_7_TIMER_GOAL) {
                TaskActionResult::Completed
            } else {
                TaskActionResult::InProgress
            },
            Err(code) => if code == ERR_NOT_ENOUGH_RESOURCES {
                TaskActionResult::Completed
            } else {
                TaskActionResult::Error(TaskActionError::UnknownError(code))
            },
        }
    }

    /// Execute a tick for the task, after the creep was told to upgrade
    /// the controller; `controller` is the target as read after the call.
    pub fn tick(&self, controller: &ControllerInfo, upgrade_result: Result<(), i32>) -> (r: TaskActionResult)
        ensures
            r == Self::spec_tick(*controller, upgrade_result),
    {
        match upgrade_result {
            Ok(_) => {
                let timer_reached = match controller.ticks_to_downgrade {
                    Some(t) => t >= CONTROLLER_LEVEL_7_TIMER_GOAL,
                    None => false,
                };
                if controller.level >= 8 && timer_reached {
                    TaskActionResult::Completed
                } else {
                    TaskActionResult::InProgress
                }
            },
            Err(code) => {
                if code == ERR_NOT_ENOUGH_RESOURCES {
                    TaskActionResult::Completed
                } else {
                    TaskActionResult::Error(TaskActionError::UnknownError(code))
                }
            },
        }
    }

    /// The action that upgrades the controller of `room`; the room must
    /// have one.
    pub fn new_room(room: &RoomInfo) -> (a: Self)
        requires
            room.controller is Some,
        ensures
            a.target == room.controller->0,
    {
        Self { target: room.controller.unwrap() }
    }
}

/// The harvest estimate is the number of ticks the creep's active `Work`
/// parts take to gather the goal, one unit per part per tick, counting
/// only full ticks: `w` parts gather at most the goal in that many ticks
/// and more than it in one tick more.
pub proof fn lemma_harvest_estimate_is_goal_per_work_part(a: HarvestResourceAction, c: CreepInfo)
    requires
        count_active(c.body@, Part::Work) > 0,
    ensures
        ({
            let w = count_active(c.body@, Part::Work) as int;
            let e = TaskAction::HarvestResource(a).spec_estimate(c);
            &&& 0 <= e
            &&& e * w <= a.capacity_goal
            &&& a.capacity_goal < (e + 1) * w
        }),
{
    let w = count_active(c.body@, Part::Work) as int;
    let g = a.capacity_goal as int;
    let e = TaskAction::HarvestResource(a).spec_estimate(c);
    assert(e == g / w);
    vstd::arithmetic::div_mod::lemma_fundamental_div_mod(g, w);
    assert(0 <= g % w < w) by {
        vstd::arithmetic::div_mod::lemma_mod_bound(g, w);
    }
    assert(0 <= e) by {
        vstd::arithmetic::div_mod::lemma_div_pos_is_pos(g, w);
    }
    assert(e * w == w * e) by (nonlinear_arith);
    assert((e + 1) * w == w * e + w) by (nonlinear_arith);
}

/// A creep with more active `Work` parts never gets a larger harvest
/// estimate for the same action.
pub proof fn lemma_more_work_parts_harvest_no_slower(a: HarvestResourceAction, c1: CreepInfo, c2: CreepInfo)
    requires
        0 < count_active(c1.body@, Part::Work) <= count_active(c2.body@, Part::Work),
    ensures
        TaskAction::HarvestResource(a).spec_estimate(c2) <= TaskAction::HarvestResource(a).spec_estimate(c1),
{
    let w1 = count_active(c1.body@, Part::Work) as int;
    let w2 = count_active(c2.body@, Part::Work) as int;
    vstd::arithmetic::div_mod::lemma_div_is_ordered_by_denominator(a.capacity_goal as int, w1, w2);
}

/// The upgrade estimate is the number of full ticks the creep's active
/// `Work` parts take to put `CONTROLLER_LEVEL_8_ENERGY_GOAL` energy into
/// the controller, one unit per part per tick.
pub proof fn lemma_upgrade_estimate_is_goal_per_work_part(a: UpgradeRoomControllerAction, c: CreepInfo)
    requires
        count_active(c.body@, Part::Work) > 0,
    ensures
        ({
            let w = count_active(c.body@, Part::Work) as int;
            let e = TaskAction::UpgradeRoomController(a).spec_estimate(c);
            &&& 0 <= e
            &&& e * w <= CONTROLLER_LEVEL_8_ENERGY_GOAL
            &&& CONTROLLER_LEVEL_8_ENERGY_GOAL < (e + 1) * w
        }),
{
    let w = count_active(c.body@, Part::Work) as int;
    let g = CONTROLLER_LEVEL_8_ENERGY_GOAL as int;
    let e = TaskAction::UpgradeRoomController(a).spec_estimate(c);
    assert(e == g / w);
    vstd::arithmetic::div_mod::lemma_fundamental_div_mod(g, w);
    assert(0 <= g % w < w) by {
        vstd::arithmetic::div_mod::lemma_mod_bound(g, w);
    }
    assert(0 <= e) by {
        vstd::arithmetic::div_mod::lemma_div_pos_is_pos(g, w);
    }
    assert(e * w == w * e) by (nonlinear_arith);
    assert((e + 1) * w == w * e + w) by (nonlinear_arith);
}

/// After a successful harvest call the action is done exactly when the
/// creep holds at least the goal of the target's resource; a failed call
/// is an error carrying the game's code.
pub proof fn lemma_harvest_done_when_goal_held(a: HarvestResourceAction, c: CreepInfo, result: Result<(), i32>)
    ensures
        result is Ok ==> (a.spec_tick(c, result) == TaskActionResult::Completed
            <==> spec_used_capacity(c.store@, a.spec_resource()) >= a.capacity_goal),
        result is Ok ==> a.spec_tick(c, result) != TaskActionResult::Completed ==> a.spec_tick(c, result)
            == TaskActionResult::InProgress,
        result matches Err(code) ==> a.spec_tick(c, result) == TaskActionResult::Error(TaskActionError::UnknownError(code)),
{
}

/// After a successful upgrade call the action is done only once the
/// controller is at level 8 or above with a downgrade timer of at least
/// `CONTROLLER_LEVEL_7_TIMER_GOAL`; below level 8 it goes on. Running out
/// of energy also ends it; any other failure is an error.
pub proof fn lemma_upgrade_done_only_at_level_8(controller: ControllerInfo, result: Result<(), i32>)
    ensures
        result is Ok ==> (UpgradeRoomControllerAction::spec_tick(controller, result) == TaskActionResult::Completed
            <==> (controller.level >= 8 && controller.ticks_to_downgrade is Some
                && controller.ticks_to_downgrade->0 >= CONTROLLER_LEVEL_7_TIMER_GOAL)),
        result is Ok && controller.level < 8 ==> UpgradeRoomControllerAction::spec_tick(controller, result)
            == TaskActionResult::InProgress,
        result is Ok ==> UpgradeRoomControllerAction::spec_tick(controller, result) !is Error,
        result matches Err(code) ==> (UpgradeRoomControllerAction::spec_tick(controller, result)
            == if code == ERR_NOT_ENOUGH_RESOURCES {
                TaskActionResult::Completed
            } else {
                TaskActionResult::Error(TaskActionError::UnknownError(code))
            }),
{
}

/// After a successful move the action is done exactly when the creep is
/// within the acceptable range of the target; a tired creep goes on, and
/// any other failure is an error.
pub proof fn lemma_move_done_within_range(a: MoveToPositonAction, c: CreepInfo, result: Result<(), i32>)
    ensures
        result is Ok ==> (a.spec_tick(c, result) == TaskActionResult::Completed
            <==> spec_saturate(spec_chebyshev_pos(a.target, c.pos)) <= a.acceptable_range),
        result is Ok ==> a.spec_tick(c, result) !is Error,
        result == Err::<(), i32>(ERR_TIRED) ==> a.spec_tick(c, result) == TaskActionResult::InProgress,
{
}

/// A move takes as many ticks as there are tiles to cover before the
/// creep is within the acceptable range: one tile per tick.
pub proof fn lemma_move_estimate_is_tiles_to_cover(a: MoveToPositonAction, c: CreepInfo)
    requires
        TaskAction::MoveToPosition(a).estimate_defined(c),
    ensures
        TaskAction::MoveToPosition(a).spec_estimate(c) + a.acceptable_range
            == spec_saturate(spec_chebyshev_pos(a.target, c.pos)),
{
    crate::schedule::helper::lemma_move_speed_is_one(c);
}

} // verus!
