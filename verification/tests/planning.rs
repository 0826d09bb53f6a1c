use screeps_bot::model::{
    BodyPart, ControllerInfo, CreepInfo, MineralInfo, ObjectId, Part, Position, ResourceType, RoomInfo,
    SourceInfo, StoreEntry,
};
use screeps_bot::schedule::helper::{chebyshev, chebyshev_pos, get_creep_move_speed, saturate_usize};
use screeps_bot::tasks::actions::{
    HarvestResourceAction, HarvestTarget, MoveToPositonAction, TaskAction, TaskActionError, TaskActionResult,
    UpgradeRoomControllerAction, ERR_NOT_ENOUGH_RESOURCES, ERR_NOT_IN_RANGE, ERR_TIRED,
};
use screeps_bot::tasks::requirements::{
    HasBodyPartRequirement, HasFreeCapacityRequirement, HasUsedCapacityRequirement, IsNearPositionRequirement,
    TaskRequirement,
};
use screeps_bot::tasks::resolver::resolve::resolve_task_tree;
use screeps_bot::tasks::resolver::task_plan::TaskPlan;
use screeps_bot::tasks::resolver::virtual_creep;

fn pos(x: u8, y: u8) -> Position {
    Position { room_x: 0, room_y: 0, x, y }
}

fn part(p: Part) -> BodyPart {
    BodyPart { part: p, hits: 100 }
}

fn source(id: u128, x: u8, y: u8) -> SourceInfo {
    SourceInfo { id: ObjectId { raw: id }, pos: pos(x, y), energy: 3000 }
}

fn controller() -> ControllerInfo {
    ControllerInfo { id: ObjectId { raw: 99 }, pos: pos(20, 10), level: 3, ticks_to_downgrade: Some(1000) }
}

fn worker(name: &str) -> CreepInfo {
    CreepInfo {
        name: name.to_string(),
        pos: pos(10, 10),
        body: vec![part(Part::Work), part(Part::Carry), part(Part::Move)],
        store: vec![StoreEntry { resource: ResourceType::Energy, used: 0, free: 50 }],
        room: Some(RoomInfo {
            sources: vec![source(1, 12, 10), source(2, 30, 30)],
            minerals: vec![MineralInfo { id: ObjectId { raw: 7 }, pos: pos(40, 40), mineral_type: ResourceType::Oxygen }],
            controller: Some(controller()),
        }),
    }
}

fn steps(plan: &TaskPlan) -> Vec<TaskAction> {
    plan.steps.iter().copied().collect()
}

#[test]
fn chebyshev_takes_largest_difference() {
    assert_eq!(chebyshev(&[1, 5, -3], &[4, 5, 3]), 6);
    assert_eq!(chebyshev(&[], &[]), 0);
    assert_eq!(chebyshev(&[i64::MIN], &[i64::MAX]), u64::MAX);
}

#[test]
fn chebyshev_pos_uses_world_coordinates() {
    let a = Position { room_x: 0, room_y: 0, x: 49, y: 10 };
    let b = Position { room_x: 1, room_y: 0, x: 0, y: 12 };
    assert_eq!(chebyshev_pos(a, b), 2);
    assert_eq!(chebyshev_pos(b, a), 2);
    assert_eq!(chebyshev_pos(a, a), 0);
    let c = Position { room_x: -1, room_y: 0, x: 49, y: 10 };
    assert_eq!(chebyshev_pos(a, c), 50);
    assert_eq!(saturate_usize(7), 7);
}

#[test]
fn move_speed_is_capped_at_one() {
    let creep = worker("a");
    assert_eq!(get_creep_move_speed(&creep), 1);
    let mut balanced = worker("b");
    balanced.body = vec![part(Part::Work), part(Part::Move)];
    assert_eq!(get_creep_move_speed(&balanced), 1);
    let mut fast = worker("c");
    fast.body = vec![part(Part::Work), part(Part::Move), part(Part::Move)];
    assert_eq!(get_creep_move_speed(&fast), 1);
    let mut slow = worker("d");
    slow.body = vec![part(Part::Work), part(Part::Carry), part(Part::Move)];
    assert_eq!(get_creep_move_speed(&slow), 1);
    let mut bare = worker("e");
    bare.body = vec![];
    assert_eq!(get_creep_move_speed(&bare), 1);
}

#[test]
fn requirements_are_checked_against_the_creep() {
    let creep = worker("a");
    assert!(HasBodyPartRequirement::new_boxed(Part::Work, 1).does_meet(&creep));
    assert!(!HasBodyPartRequirement::new_boxed(Part::Claim, 1).does_meet(&creep));
    assert!(HasFreeCapacityRequirement::new_boxed(ResourceType::Energy, 50).does_meet(&creep));
    assert!(!HasFreeCapacityRequirement::new_boxed(ResourceType::Energy, 51).does_meet(&creep));
    assert!(!HasUsedCapacityRequirement::new_boxed(ResourceType::Energy, 1).does_meet(&creep));
    assert!(IsNearPositionRequirement::new_boxed(pos(12, 10), 2).does_meet(&creep));
    assert!(!IsNearPositionRequirement::new_boxed(pos(13, 10), 2).does_meet(&creep));
    let mut wounded = worker("w");
    wounded.body[0].hits = 0;
    assert!(!HasBodyPartRequirement::new_boxed(Part::Work, 1).does_meet(&wounded));
}

#[test]
fn unmet_requirements_yield_actions() {
    let creep = worker("a");
    assert_eq!(HasBodyPartRequirement::new_boxed(Part::Claim, 1).to_meet(&creep), None);
    assert_eq!(HasFreeCapacityRequirement::new_boxed(ResourceType::Energy, 100).to_meet(&creep), None);
    assert_eq!(
        IsNearPositionRequirement::new_boxed(pos(20, 10), 3).to_meet(&creep),
        Some(vec![MoveToPositonAction::new_boxed(pos(20, 10), 3)])
    );
    assert_eq!(
        HasUsedCapacityRequirement::new_boxed(ResourceType::Energy, 5).to_meet(&creep),
        Some(vec![HarvestResourceAction::new_boxed_source(source(1, 12, 10), 5)])
    );
    let mineral = MineralInfo { id: ObjectId { raw: 7 }, pos: pos(40, 40), mineral_type: ResourceType::Oxygen };
    assert_eq!(
        HasUsedCapacityRequirement::new_boxed(ResourceType::Hydrogen, 5).to_meet(&creep),
        Some(vec![HarvestResourceAction::new_boxed_mineral(mineral, 5)])
    );
    let mut lost = worker("l");
    lost.room = None;
    assert_eq!(HasUsedCapacityRequirement::new_boxed(ResourceType::Energy, 5).to_meet(&lost), None);
}

#[test]
fn nearest_source_ties_go_to_the_first() {
    let mut creep = worker("a");
    creep.room.as_mut().unwrap().sources = vec![source(5, 14, 10), source(6, 6, 10), source(7, 10, 14)];
    assert_eq!(
        HasUsedCapacityRequirement::new_boxed(ResourceType::Energy, 1).to_meet(&creep),
        Some(vec![HarvestResourceAction::new_boxed_source(source(5, 14, 10), 1)])
    );
}

#[test]
fn action_estimates() {
    let creep = worker("a");
    let harvest = HarvestResourceAction::new_boxed_source(source(1, 12, 10), 100);
    assert_eq!(harvest.estimate_ticks(&creep), 100);
    let upgrade = TaskAction::UpgradeRoomController(UpgradeRoomControllerAction { target: controller() });
    assert_eq!(upgrade.estimate_ticks(&creep), 16380200);
    let movement = MoveToPositonAction::new_boxed(pos(20, 10), 3);
    assert_eq!(movement.estimate_ticks(&creep), 7);
    assert_eq!(movement.get_requirements(), vec![HasBodyPartRequirement::new_boxed(Part::Move, 1)]);
    assert_eq!(upgrade.get_requirements().len(), 4);
}

#[test]
fn action_ticks() {
    let mut creep = worker("a");
    let harvest = HarvestResourceAction::new_source(source(1, 12, 10), 20);
    assert_eq!(harvest.tick(&creep, Ok(())), TaskActionResult::InProgress);
    creep.store[0].used = 20;
    assert_eq!(harvest.tick(&creep, Ok(())), TaskActionResult::Completed);
    assert_eq!(harvest.tick(&creep, Err(-7)), TaskActionResult::Error(TaskActionError::UnknownError(-7)));

    let movement = MoveToPositonAction::new(pos(11, 10), 1);
    assert_eq!(movement.tick(&creep, Ok(())), TaskActionResult::Completed);
    assert_eq!(movement.tick(&creep, Err(ERR_TIRED)), TaskActionResult::InProgress);
    assert_eq!(movement.tick(&creep, Err(-2)), TaskActionResult::Error(TaskActionError::UnknownError(-2)));
    let far = MoveToPositonAction::new(pos(30, 10), 1);
    assert_eq!(far.tick(&creep, Ok(())), TaskActionResult::InProgress);

    let upgrade = UpgradeRoomControllerAction { target: controller() };
    let mut done = controller();
    done.level = 8;
    done.ticks_to_downgrade = Some(150000);
    assert_eq!(upgrade.tick(&done, Ok(())), TaskActionResult::Completed);
    done.ticks_to_downgrade = Some(149999);
    assert_eq!(upgrade.tick(&done, Ok(())), TaskActionResult::InProgress);
    assert_eq!(upgrade.tick(&controller(), Err(ERR_NOT_ENOUGH_RESOURCES)), TaskActionResult::Completed);
    assert_eq!(
        upgrade.tick(&controller(), Err(ERR_NOT_IN_RANGE)),
        TaskActionResult::Error(TaskActionError::UnknownError(ERR_NOT_IN_RANGE))
    );
    let room = worker("r").room.unwrap();
    assert_eq!(UpgradeRoomControllerAction::new_room(&room).target, controller());
}

#[test]
fn upgrade_plan_moves_harvests_then_upgrades() {
    let creep = worker("a");
    let upgrade = TaskAction::UpgradeRoomController(UpgradeRoomControllerAction { target: controller() });
    let plans = resolve_task_tree(&creep, upgrade);
    assert_eq!(plans.len(), 1);
    assert_eq!(plans[0].estimated_ticks, 16380209);
    assert_eq!(
        steps(&plans[0]),
        vec![
            MoveToPositonAction::new_boxed(pos(20, 10), 3),
            MoveToPositonAction::new_boxed(pos(12, 10), 1),
            HarvestResourceAction::new_boxed_source(source(1, 12, 10), 1),
            upgrade,
        ]
    );
}

#[test]
fn met_requirements_give_the_task_alone() {
    let mut creep = worker("a");
    creep.pos = pos(12, 11);
    let harvest = HarvestResourceAction::new_boxed_source(source(1, 12, 10), 10);
    let plans = resolve_task_tree(&creep, harvest);
    assert_eq!(plans.len(), 1);
    assert_eq!(plans[0].estimated_ticks, 10);
    assert_eq!(steps(&plans[0]), vec![harvest]);
}

#[test]
fn unmeetable_requirement_gives_no_plan() {
    let mut creep = worker("a");
    creep.body = vec![part(Part::Work), part(Part::Move), part(Part::Tough)];
    let upgrade = TaskAction::UpgradeRoomController(UpgradeRoomControllerAction { target: controller() });
    assert!(resolve_task_tree(&creep, upgrade).is_empty());
    let mut full = worker("f");
    full.store[0].free = 0;
    let harvest = HarvestResourceAction::new_boxed_source(source(1, 12, 10), 10);
    assert!(resolve_task_tree(&full, harvest).is_empty());
}

#[test]
fn a_creep_without_work_parts_has_no_harvest_plan() {
    let mut creep = worker("a");
    creep.body = vec![part(Part::Carry), part(Part::Move)];
    let harvest = HarvestResourceAction::new_boxed_source(source(1, 12, 10), 10);
    assert!(resolve_task_tree(&creep, harvest).is_empty());
    let upgrade = TaskAction::UpgradeRoomController(UpgradeRoomControllerAction { target: controller() });
    assert!(resolve_task_tree(&creep, upgrade).is_empty());
}

#[test]
fn earlier_planner_prepends_and_counts_the_estimate_twice() {
    let creep = worker("a");
    let upgrade = TaskAction::UpgradeRoomController(UpgradeRoomControllerAction { target: controller() });
    let plans = virtual_creep::resolve_task_tree(&creep, upgrade);
    assert_eq!(plans.len(), 1);
    assert_eq!(plans[0].cost, 32760418);
    assert_eq!(
        plans[0].tasks,
        vec![
            MoveToPositonAction::new_boxed(pos(12, 10), 1),
            HarvestResourceAction::new_boxed_source(source(1, 12, 10), 1),
            MoveToPositonAction::new_boxed(pos(20, 10), 3),
            upgrade,
        ]
    );
}

#[test]
fn plan_steps_run_in_order() {
    let a = MoveToPositonAction::new_boxed(pos(1, 1), 0);
    let b = MoveToPositonAction::new_boxed(pos(2, 2), 0);
    let mut plan = TaskPlan::new(5, vec![a, b]);
    assert_eq!(plan.get_current_task(), Some(&a));
    assert!(!plan.is_complete());
    plan.advance_step();
    assert_eq!(plan.get_current_task(), Some(&b));
    plan.advance_step();
    assert_eq!(plan.get_current_task(), None);
    assert!(plan.is_complete());
    plan.advance_step();
    assert!(plan.is_complete());
    assert_eq!(plan.estimated_ticks, 5);
}

#[test]
fn harvest_target_position() {
    let t = HarvestTarget::Source(source(1, 12, 10));
    assert_eq!(t.pos(), pos(12, 10));
}
