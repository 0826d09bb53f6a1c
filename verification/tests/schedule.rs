use screeps_bot::model::{
    BodyPart, ControllerInfo, CreepInfo, ObjectId, Part, Position, ResourceType, RoomInfo, SourceInfo, StoreEntry,
};
use screeps_bot::schedule::task::{resolve_controller, GameError, Task, TaskRequirement, TaskResult};
use screeps_bot::schedule::task_dispatcher::TaskDispatcher;
use screeps_bot::schedule::tasks::harvest_energy_task::{HarvestEnergyTask, HarvestFollowUp, HarvestStep};
use screeps_bot::schedule::tasks::upgrade_room_controller_task::{
    UpgradeFollowUp, UpgradeRoomControllerTask, UpgradeStep,
};
use screeps_bot::tasks::actions::ERR_NOT_IN_RANGE;

fn pos(x: u8, y: u8) -> Position {
    Position { room_x: 0, room_y: 0, x, y }
}

fn part(p: Part) -> BodyPart {
    BodyPart { part: p, hits: 100 }
}

fn controller() -> ControllerInfo {
    ControllerInfo { id: ObjectId { raw: 99 }, pos: pos(20, 10), level: 3, ticks_to_downgrade: Some(1000) }
}

fn room() -> RoomInfo {
    RoomInfo {
        sources: vec![
            SourceInfo { id: ObjectId { raw: 1 }, pos: pos(30, 30), energy: 3000 },
            SourceInfo { id: ObjectId { raw: 2 }, pos: pos(12, 10), energy: 3000 },
        ],
        minerals: vec![],
        controller: Some(controller()),
    }
}

fn creep(name: &str, body: Vec<Part>, used: u32, free: i32) -> CreepInfo {
    CreepInfo {
        name: name.to_string(),
        pos: pos(10, 10),
        body: body.into_iter().map(part).collect(),
        store: vec![StoreEntry { resource: ResourceType::Energy, used, free }],
        room: Some(room()),
    }
}

fn error_text(r: &TaskResult) -> String {
    match r {
        TaskResult::Error(m) => m.clone(),
        _ => String::new(),
    }
}

#[test]
fn requirements_are_fulfilled_by_store_and_body() {
    let c = creep("a", vec![Part::Move, Part::Work, Part::Carry], 5, 45);
    assert!(TaskRequirement::HasUsedCapacity(ResourceType::Energy, 5).does_fulfill(&c));
    assert!(!TaskRequirement::HasUsedCapacity(ResourceType::Energy, 6).does_fulfill(&c));
    assert!(!TaskRequirement::HasUsedCapacity(ResourceType::Oxygen, 1).does_fulfill(&c));
    assert!(TaskRequirement::HasFreeCapacity(ResourceType::Energy, -1).does_fulfill(&c));
    assert!(TaskRequirement::HasParts(vec![Part::Move, Part::Carry]).does_fulfill(&c));
    assert!(!TaskRequirement::HasParts(vec![Part::Move, Part::Claim]).does_fulfill(&c));
    assert!(TaskRequirement::HasParts(vec![]).does_fulfill(&c));
}

#[test]
fn harvest_energy_estimate_is_travel_plus_filling() {
    let c = creep("a", vec![Part::Move, Part::Work, Part::Carry], 0, 50);
    assert_eq!(HarvestEnergyTask::new().estimate_ticks(&c), 52);
    let two_work = creep("b", vec![Part::Move, Part::Work, Part::Work, Part::Carry], 0, 51);
    assert_eq!(HarvestEnergyTask::new().estimate_ticks(&two_work), 28);
    let mut lost = creep("c", vec![Part::Move, Part::Work, Part::Carry], 0, 50);
    lost.room = None;
    assert_eq!(HarvestEnergyTask::new().estimate_ticks(&lost), usize::MAX);
    let full = creep("d", vec![Part::Move, Part::Work, Part::Carry], 50, 0);
    assert_eq!(HarvestEnergyTask::new().estimate_ticks(&full), 2);
}

#[test]
fn upgrade_estimate_is_travel_inside_the_room() {
    let c = creep("a", vec![Part::Move, Part::Work, Part::Carry], 0, 50);
    let task = UpgradeRoomControllerTask::from_room(&room());
    assert_eq!(task.target, ObjectId { raw: 99 });
    assert_eq!(task.estimate_ticks(&c, Some(controller())), 10);
    assert_eq!(task.estimate_ticks(&c, None), usize::MAX);
    assert_eq!(task.get_requirements(None).len(), 0);
    assert_eq!(task.get_requirements(Some(controller())).len(), 2);
}

#[test]
fn harvest_energy_tick_steps() {
    let task = HarvestEnergyTask::new();
    let full = creep("a", vec![Part::Move, Part::Work, Part::Carry], 50, 0);
    assert!(matches!(task.begin_tick(&full), HarvestStep::Done(TaskResult::Completed)));
    let c = creep("b", vec![Part::Move, Part::Work, Part::Carry], 0, 50);
    match task.begin_tick(&c) {
        HarvestStep::Harvest(s) => assert_eq!(s.id, ObjectId { raw: 2 }),
        _ => panic!("expected a harvest"),
    }
    let mut lost = c.clone();
    lost.room = None;
    match task.begin_tick(&lost) {
        HarvestStep::Done(r) => assert_eq!(error_text(&r), "Creep is not in a room, cannot execute HarvestEnergyTask"),
        _ => panic!("expected an error"),
    }
    let mut barren = c.clone();
    barren.room.as_mut().unwrap().sources.clear();
    match task.begin_tick(&barren) {
        HarvestStep::Done(r) => assert_eq!(error_text(&r), "No energy sources found in room, cannot execute HarvestEnergyTask"),
        _ => panic!("expected an error"),
    }
    let mut drained = c.clone();
    drained.room.as_mut().unwrap().sources[1].energy = 0;
    assert!(matches!(task.begin_tick(&drained), HarvestStep::Done(TaskResult::Completed)));

    assert!(matches!(task.after_harvest(Ok(())), HarvestFollowUp::Done(TaskResult::InProgress)));
    let not_in_range = GameError { code: ERR_NOT_IN_RANGE, description: "NotInRange".to_string() };
    assert!(matches!(task.after_harvest(Err(not_in_range)), HarvestFollowUp::MoveToSource));
    match task.after_harvest(Err(GameError { code: -5, description: "NotEnoughResources".to_string() })) {
        HarvestFollowUp::Done(r) => assert_eq!(error_text(&r), "Failed to harvest source: NotEnoughResources"),
        _ => panic!("expected an error"),
    }
    assert!(matches!(task.after_move(Ok(())), TaskResult::InProgress));
    let moved = task.after_move(Err(GameError { code: -2, description: "NoPath".to_string() }));
    assert_eq!(error_text(&moved), "Failed to move to source: NoPath");
}

#[test]
fn upgrade_tick_steps() {
    let task = UpgradeRoomControllerTask::from_room(&room());
    assert!(matches!(task.begin_tick(None), UpgradeStep::TargetMissing));
    assert!(matches!(task.begin_tick(Some(controller())), UpgradeStep::Upgrade(_)));
    let mut done = controller();
    done.level = 8;
    done.ticks_to_downgrade = Some(150000);
    assert!(matches!(task.begin_tick(Some(done)), UpgradeStep::Done(TaskResult::Completed)));
    done.ticks_to_downgrade = None;
    assert!(matches!(task.begin_tick(Some(done)), UpgradeStep::Upgrade(_)));
    let missing = task.target_missing(&"[room E0N0 pos 10,10]".to_string());
    assert_eq!(error_text(&missing), "Room controller target [room E0N0 pos 10,10] not found");
    let not_in_range = GameError { code: ERR_NOT_IN_RANGE, description: "NotInRange".to_string() };
    assert!(matches!(task.after_upgrade(Err(not_in_range)), UpgradeFollowUp::MoveToController));
    match task.after_upgrade(Err(GameError { code: -6, description: "NotEnoughResources".to_string() })) {
        UpgradeFollowUp::Done(r) => assert_eq!(error_text(&r), "Failed to upgrade controller: NotEnoughResources"),
        _ => panic!("expected an error"),
    }
    assert_eq!(
        error_text(&task.after_move(Err(GameError { code: -2, description: "NoPath".to_string() }))),
        "Failed to move to controller: NoPath"
    );
}

#[test]
fn controllers_are_resolved_by_id() {
    let controllers = vec![controller()];
    assert_eq!(resolve_controller(&controllers, ObjectId { raw: 99 }), Some(controller()));
    assert_eq!(resolve_controller(&controllers, ObjectId { raw: 1 }), None);
}

#[test]
fn upgrade_goes_to_a_creep_with_energy() {
    let mut d = TaskDispatcher::new();
    let creeps = vec![
        creep("empty", vec![Part::Move, Part::Work, Part::Carry], 0, 50),
        creep("loaded", vec![Part::Move, Part::Work, Part::Carry], 50, 0),
    ];
    d.evaluate_and_assign(&creeps, &vec![room()], &vec![controller()]);
    let upgrade = Task::UpgradeRoomController(UpgradeRoomControllerTask { target: ObjectId { raw: 99 } });
    assert_eq!(d.task_of(&"loaded".to_string()), Some(upgrade));
    assert_eq!(d.task_of(&"empty".to_string()), None);
    // the upgrade task is assigned, so no second one is scheduled
    d.evaluate_and_assign(&creeps, &vec![room()], &vec![controller()]);
    assert_eq!(d.task_of(&"empty".to_string()), None);
}

#[test]
fn without_energy_a_harvest_task_is_given_instead() {
    let mut d = TaskDispatcher::new();
    let creeps = vec![creep("empty", vec![Part::Move, Part::Work, Part::Carry], 0, 50)];
    d.evaluate_and_assign(&creeps, &vec![room()], &vec![controller()]);
    assert_eq!(d.task_of(&"empty".to_string()), Some(Task::HarvestEnergy(HarvestEnergyTask::new())));
    d.record_result(&"empty".to_string(), &TaskResult::InProgress);
    assert!(d.task_of(&"empty".to_string()).is_some());
    d.record_result(&"empty".to_string(), &TaskResult::Completed);
    assert_eq!(d.task_of(&"empty".to_string()), None);
}

#[test]
fn an_unresolvable_controller_has_no_requirements() {
    let mut d = TaskDispatcher::new();
    let creeps = vec![creep("empty", vec![Part::Move], 0, 50)];
    d.evaluate_and_assign(&creeps, &vec![room()], &vec![]);
    let upgrade = Task::UpgradeRoomController(UpgradeRoomControllerTask { target: ObjectId { raw: 99 } });
    assert_eq!(d.task_of(&"empty".to_string()), Some(upgrade));
}
