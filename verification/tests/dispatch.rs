use screeps_bot::model::{
    BodyPart, ControllerInfo, CreepInfo, ObjectId, Part, Position, ResourceType, RoomInfo, SourceInfo, StoreEntry,
};
use screeps_bot::tasks::actions::{
    HarvestResourceAction, MoveToPositonAction, TaskAction, TaskActionError, TaskActionResult,
    UpgradeRoomControllerAction,
};
use screeps_bot::tasks::task_dispatcher::TaskDispatcher;
use screeps_bot::tasks::task_request::TaskRequest;

fn pos(x: u8, y: u8) -> Position {
    Position { room_x: 0, room_y: 0, x, y }
}

fn part(p: Part) -> BodyPart {
    BodyPart { part: p, hits: 100 }
}

fn controller() -> ControllerInfo {
    ControllerInfo { id: ObjectId { raw: 99 }, pos: pos(20, 10), level: 3, ticks_to_downgrade: Some(1000) }
}

fn source() -> SourceInfo {
    SourceInfo { id: ObjectId { raw: 1 }, pos: pos(12, 10), energy: 3000 }
}

fn creep(name: &str, x: u8, body: Vec<Part>) -> CreepInfo {
    CreepInfo {
        name: name.to_string(),
        pos: pos(x, 10),
        body: body.into_iter().map(part).collect(),
        store: vec![StoreEntry { resource: ResourceType::Energy, used: 0, free: 50 }],
        room: Some(RoomInfo { sources: vec![source()], minerals: vec![], controller: Some(controller()) }),
    }
}

fn upgrade() -> TaskAction {
    TaskAction::UpgradeRoomController(UpgradeRoomControllerAction { target: controller() })
}

#[test]
fn request_goes_to_the_creep_that_can_do_it() {
    let mut d = TaskDispatcher::new();
    d.request(TaskRequest::new(upgrade(), 1));
    let creeps = vec![
        creep("slacker", 10, vec![Part::Work, Part::Move, Part::Tough]),
        creep("worker", 10, vec![Part::Work, Part::Carry, Part::Move]),
    ];
    d.assign_from_request_queue(&creeps, &vec![42]);
    assert_eq!(d.assigned_creeps(), vec!["worker".to_string()]);
    assert_eq!(d.current_action(&"worker".to_string()), Some(MoveToPositonAction::new_boxed(pos(20, 10), 3)));
    assert_eq!(d.current_action(&"slacker".to_string()), None);
    // the request was assigned and does not repeat: nothing left to assign
    d.assign_from_request_queue(&creeps, &vec![]);
    assert_eq!(d.assigned_creeps(), vec!["worker".to_string()]);
}

#[test]
fn the_cheapest_creep_wins_and_ties_go_first() {
    let mut d = TaskDispatcher::new();
    let harvest = HarvestResourceAction::new_boxed_source(source(), 10);
    d.request(TaskRequest::new(harvest, 1));
    let creeps = vec![
        creep("far", 2, vec![Part::Work, Part::Carry, Part::Move]),
        creep("near", 11, vec![Part::Work, Part::Carry, Part::Move]),
        creep("near_too", 13, vec![Part::Work, Part::Carry, Part::Move]),
    ];
    d.assign_from_request_queue(&creeps, &vec![7]);
    assert_eq!(d.assigned_creeps(), vec!["near".to_string()]);
    assert_eq!(d.current_action(&"near".to_string()), Some(harvest));
}

#[test]
fn unassignable_and_repeating_requests_stay_queued() {
    let mut d = TaskDispatcher::new();
    let harvest = HarvestResourceAction::new_boxed_source(source(), 10);
    d.request(TaskRequest::repeating(harvest, 2));
    d.request(TaskRequest::new(upgrade(), 1));
    let creeps = vec![creep("worker", 11, vec![Part::Work, Part::Carry, Part::Move])];
    d.assign_from_request_queue(&creeps, &vec![1, 2]);
    assert_eq!(d.assigned_creeps(), vec!["worker".to_string()]);
    assert_eq!(d.current_action(&"worker".to_string()), Some(harvest));
    // both requests are still queued; a new creep picks up the first one
    let more = vec![
        creep("worker", 11, vec![Part::Work, Part::Carry, Part::Move]),
        creep("second", 12, vec![Part::Work, Part::Carry, Part::Move]),
    ];
    d.assign_from_request_queue(&more, &vec![3, 4]);
    let mut names = d.assigned_creeps();
    names.sort();
    assert_eq!(names, vec!["second".to_string(), "worker".to_string()]);
    assert_eq!(d.current_action(&"second".to_string()), Some(harvest));
}

#[test]
fn outcomes_advance_or_drop_plans() {
    let mut d = TaskDispatcher::default();
    d.request(TaskRequest::new(upgrade(), 1));
    let creeps = vec![creep("worker", 10, vec![Part::Work, Part::Carry, Part::Move])];
    d.assign_from_request_queue(&creeps, &vec![42]);
    let name = "worker".to_string();
    d.record_outcome(&name, true, TaskActionResult::InProgress);
    assert_eq!(d.current_action(&name), Some(MoveToPositonAction::new_boxed(pos(20, 10), 3)));
    d.record_outcome(&name, true, TaskActionResult::Completed);
    assert_eq!(d.current_action(&name), Some(MoveToPositonAction::new_boxed(pos(12, 10), 1)));
    d.record_outcome(&name, true, TaskActionResult::Error(TaskActionError::UnknownError(-7)));
    assert_eq!(d.current_action(&name), None);
    assert!(d.assigned_creeps().is_empty());
}

#[test]
fn a_vanished_creep_loses_its_plan() {
    let mut d = TaskDispatcher::new();
    d.request(TaskRequest::new(upgrade(), 1));
    let creeps = vec![creep("worker", 10, vec![Part::Work, Part::Carry, Part::Move])];
    d.assign_from_request_queue(&creeps, &vec![42]);
    d.record_outcome(&"worker".to_string(), false, TaskActionResult::InProgress);
    assert!(d.assigned_creeps().is_empty());
}

#[test]
fn a_finished_plan_is_dropped() {
    let mut d = TaskDispatcher::new();
    let harvest = HarvestResourceAction::new_boxed_source(source(), 10);
    d.request(TaskRequest::new(harvest, 1));
    let creeps = vec![creep("worker", 11, vec![Part::Work, Part::Carry, Part::Move])];
    d.assign_from_request_queue(&creeps, &vec![5]);
    let name = "worker".to_string();
    d.record_outcome(&name, true, TaskActionResult::Completed);
    assert_eq!(d.current_action(&name), None);
    assert_eq!(d.assigned_creeps(), vec![name.clone()]);
    d.record_outcome(&name, true, TaskActionResult::InProgress);
    assert!(d.assigned_creeps().is_empty());
}

#[test]
fn requests_keep_their_fields() {
    let r = TaskRequest::new(upgrade(), 3);
    assert_eq!(r.priority(), 3);
    assert!(!r.repeating);
    assert_eq!(r.task(), upgrade());
    assert_eq!(r.into_task(), upgrade());
    assert!(TaskRequest::repeating(upgrade(), 1).repeating);
}

#[test]
fn assigning_keeps_old_plans_and_gives_each_creep_its_own() {
    let mut d = TaskDispatcher::new();
    let harvest = HarvestResourceAction::new_boxed_source(source(), 10);
    d.request(TaskRequest::new(harvest, 1));
    let creeps = vec![
        creep("a", 11, vec![Part::Work, Part::Carry, Part::Move]),
        creep("b", 10, vec![Part::Work, Part::Carry, Part::Move]),
    ];
    d.assign_from_request_queue(&creeps, &vec![1]);
    assert_eq!(d.assigned_creeps(), vec!["a".to_string()]);
    d.request(TaskRequest::new(upgrade(), 1));
    d.assign_from_request_queue(&creeps, &vec![2]);
    assert_eq!(d.assigned_creeps(), vec!["a".to_string(), "b".to_string()]);
    assert_eq!(d.current_action(&"a".to_string()), Some(harvest));
    assert_eq!(d.current_action(&"b".to_string()), Some(MoveToPositonAction::new_boxed(pos(20, 10), 3)));
}

#[test]
fn a_plan_of_completed_steps_is_dropped_after_one_tick_more() {
    let mut d = TaskDispatcher::new();
    let harvest = HarvestResourceAction::new_boxed_source(source(), 10);
    d.request(TaskRequest::new(harvest, 1));
    d.request(TaskRequest::new(upgrade(), 1));
    let creeps = vec![
        creep("a", 11, vec![Part::Work, Part::Carry, Part::Move]),
        creep("b", 10, vec![Part::Work, Part::Carry, Part::Move]),
    ];
    d.assign_from_request_queue(&creeps, &vec![1, 2]);
    let a = "a".to_string();
    let b = "b".to_string();
    // the harvest plan has one step: one tick completes it, the next drops it
    d.record_outcome(&a, true, TaskActionResult::Completed);
    d.record_outcome(&b, true, TaskActionResult::InProgress);
    assert_eq!(d.current_action(&a), None);
    assert_eq!(d.assigned_creeps(), vec![a.clone(), b.clone()]);
    d.record_outcome(&a, true, TaskActionResult::Completed);
    d.record_outcome(&b, true, TaskActionResult::InProgress);
    assert_eq!(d.assigned_creeps(), vec![b.clone()]);
    assert_eq!(d.current_action(&b), Some(MoveToPositonAction::new_boxed(pos(20, 10), 3)));
}
