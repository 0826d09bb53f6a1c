use screeps_bot::creeps::manager::CreepManager;
use screeps_bot::creeps::roles::{
    create_parts_template, follow_up, CreepRoleHandler, Harvester, HarvesterState, RoleAction, RoleFollowUp, RoleWarning,
};
use screeps_bot::model::{
    BodyPart, ControllerInfo, CreepInfo, ObjectId, Part, Position, ResourceType, RoomInfo, SourceInfo, StoreEntry,
};
use screeps_bot::tasks::actions::ERR_NOT_IN_RANGE;

fn pos(x: u8, y: u8) -> Position {
    Position { room_x: 0, room_y: 0, x, y }
}

fn creep(name: &str, used: u32, free: i32) -> CreepInfo {
    CreepInfo {
        name: name.to_string(),
        pos: pos(10, 10),
        body: vec![
            BodyPart { part: Part::Work, hits: 100 },
            BodyPart { part: Part::Carry, hits: 100 },
            BodyPart { part: Part::Move, hits: 100 },
        ],
        store: vec![StoreEntry { resource: ResourceType::Energy, used, free }],
        room: Some(RoomInfo {
            sources: vec![
                SourceInfo { id: ObjectId { raw: 1 }, pos: pos(30, 30), energy: 3000 },
                SourceInfo { id: ObjectId { raw: 2 }, pos: pos(12, 10), energy: 3000 },
            ],
            minerals: vec![],
            controller: Some(ControllerInfo {
                id: ObjectId { raw: 99 },
                pos: pos(20, 10),
                level: 1,
                ticks_to_downgrade: None,
            }),
        }),
    }
}

#[test]
fn template_below_minimum_cost_is_none() {
    assert_eq!(create_parts_template(199), None);
    assert_eq!(create_parts_template(0), None);
}

#[test]
fn template_minimum_and_scaling() {
    assert_eq!(create_parts_template(200), Some(vec![Part::Carry, Part::Move, Part::Work]));
    assert_eq!(create_parts_template(249), Some(vec![Part::Carry, Part::Move, Part::Work]));
    assert_eq!(create_parts_template(250), Some(vec![Part::Carry, Part::Move, Part::Work, Part::Carry]));
    assert_eq!(
        create_parts_template(399),
        Some(vec![Part::Carry, Part::Move, Part::Work, Part::Carry, Part::Move, Part::Carry])
    );
    assert_eq!(<Harvester as CreepRoleHandler>::create_parts_template(300).map(|v| v.len()), Some(5));
    // one part for every full 50 energy beyond 200
    assert_eq!(create_parts_template(1000).map(|v| v.len()), Some(3 + 16));
}

#[test]
fn harvester_cycle() {
    let mut h = <Harvester as CreepRoleHandler>::new();
    assert_eq!(h.state, HarvesterState::Idle);
    let empty = creep("a", 0, 50);
    assert_eq!(h.tick(&empty), RoleAction::Wait);
    assert_eq!(h.state, HarvesterState::Harvesting(ObjectId { raw: 1 }, ResourceType::Energy));
    assert_eq!(h.tick(&empty), RoleAction::Harvest(ObjectId { raw: 1 }));
    let full = creep("a", 50, 0);
    assert_eq!(h.tick(&full), RoleAction::Wait);
    assert_eq!(h.state, HarvesterState::Idle);
    assert_eq!(h.tick(&full), RoleAction::Wait);
    assert_eq!(h.state, HarvesterState::UpgradingController(ObjectId { raw: 99 }));
    assert_eq!(h.tick(&full), RoleAction::UpgradeController(ObjectId { raw: 99 }));
    assert_eq!(h.tick(&empty), RoleAction::Wait);
    assert_eq!(h.state, HarvesterState::Idle);
}

#[test]
fn harvester_warnings() {
    let mut h = <Harvester as CreepRoleHandler>::new();
    let mut lost = creep("a", 0, 50);
    lost.room = None;
    assert_eq!(h.tick(&lost), RoleAction::Warn(RoleWarning::NotInRoom));
    let mut barren = creep("a", 0, 50);
    barren.room.as_mut().unwrap().sources.clear();
    assert_eq!(h.tick(&barren), RoleAction::Warn(RoleWarning::NoSource));
    let mut headless = creep("a", 50, 0);
    headless.room.as_mut().unwrap().controller = None;
    assert_eq!(h.tick(&headless), RoleAction::Warn(RoleWarning::NoController));
    assert_eq!(h.state, HarvesterState::Idle);
}

#[test]
fn transferring_harvester() {
    let mut h = Harvester { state: HarvesterState::Transferring(ObjectId { raw: 5 }, ResourceType::Energy) };
    assert_eq!(h.tick(&creep("a", 0, 50)), RoleAction::Transfer(ObjectId { raw: 5 }, ResourceType::Energy));
    assert_eq!(h.tick(&creep("a", 50, 0)), RoleAction::Wait);
    assert_eq!(h.state, HarvesterState::Idle);
}

#[test]
fn follow_ups() {
    let action = RoleAction::Harvest(ObjectId { raw: 1 });
    assert_eq!(follow_up(action, Ok(())), RoleFollowUp::Done);
    assert_eq!(follow_up(action, Err(ERR_NOT_IN_RANGE)), RoleFollowUp::MoveTo(ObjectId { raw: 1 }));
    assert_eq!(follow_up(action, Err(-7)), RoleFollowUp::Warn(-7));
    assert_eq!(follow_up(RoleAction::Wait, Err(-7)), RoleFollowUp::Done);
    let upgrade = RoleAction::UpgradeController(ObjectId { raw: 2 });
    assert_eq!(follow_up(upgrade, Err(ERR_NOT_IN_RANGE)), RoleFollowUp::MoveTo(ObjectId { raw: 2 }));
}

#[test]
fn manager_gives_new_creeps_a_role() {
    let mut m = CreepManager::new();
    let empty = creep("a", 0, 50);
    assert_eq!(m.tick_creep(&empty), RoleAction::Wait);
    assert_eq!(m.tick_creep(&empty), RoleAction::Wait);
    assert_eq!(m.tick_creep(&empty), RoleAction::Harvest(ObjectId { raw: 1 }));
}

#[test]
fn manager_spawns_what_energy_pays_for() {
    let mut m = CreepManager::new();
    assert_eq!(m.spawn_creep("poor".to_string(), 100), None);
    assert_eq!(m.spawn_creep("rich".to_string(), 300), Some(vec![Part::Carry, Part::Move, Part::Work, Part::Carry, Part::Move]));
    let rich = creep("rich", 0, 50);
    // registered as a harvester at spawn: the first tick already picks a job
    assert_eq!(m.tick_creep(&rich), RoleAction::Wait);
    assert_eq!(m.tick_creep(&rich), RoleAction::Harvest(ObjectId { raw: 1 }));
    let poor = creep("poor", 0, 50);
    assert_eq!(m.tick_creep(&poor), RoleAction::Wait);
    assert_eq!(m.tick_creep(&poor), RoleAction::Wait);
}
