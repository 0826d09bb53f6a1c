//! Creep roles. The harvester fills up at its room's first source, then
//! spends the energy on the room controller, and starts over.
use vstd::prelude::*;
use crate::model::{
    CreepInfo, ObjectId, Part, ResourceType, part_cost, spec_free_capacity, spec_part_cost,
    spec_used_capacity,
};
use crate::tasks::actions::ERR_NOT_IN_RANGE;

verus! {

/// The smallest harvester body: `[Carry, Move, Work]`.
pub open spec fn harvester_template_min() -> Seq<Part> {
    seq![Part::Carry, Part::Move, Part::Work]
}

/// The parts added, in turn, while energy lasts: `[Carry, Move]`, cycled.
pub open spec fn harvester_template_scale() -> Seq<Part> {
    seq![Part::Carry, Part::Move]
}

/// The `k`-th part of the cycled scale template.
pub open spec fn scale_part(k: int) -> Part {
    harvester_template_scale()[k % 2]
}

/// The spawn cost of a list of parts.
pub open spec fn body_cost(parts: Seq<Part>) -> nat
    decreases parts.len(),
{
    if parts.len() == 0 {
        0
    } else {
        body_cost(parts.drop_last()) + spec_part_cost(parts.last())
    }
}

/// `parts` is the minimal template followed by the first
/// `parts.len() - 3` parts of the cycled scale template.
pub open spec fn is_scaled_template(parts: Seq<Part>) -> bool {
    &&& parts.len() >= 3
    &&& parts.subrange(0, 3) == harvester_template_min()
    &&& forall|i: int| 3 <= i < parts.len() ==> #[trigger] parts[i] == scale_part(i - 3)
}

/// The body that `create_parts_template` builds for a given amount of
/// energy: `None` when the minimal template costs more than the energy;
/// otherwise the scaled template whose cost fits and to which the next
/// scale part would no longer fit.
pub open spec fn template_fits(available_energy: int, result: Option<Seq<Part>>) -> bool {
    match result {
        None => body_cost(harvester_template_min()) > available_energy,
        Some(parts) => {
            &&& is_scaled_template(parts)
            &&& body_cost(parts) <= available_energy
            &&& body_cost(parts) + spec_part_cost(scale_part(parts.len() - 3)) > available_energy
        },
    }
}

/// Builds the largest harvester body that `available_energy` pays for:
/// the minimal template, then scale parts in turn until the next one
/// would cost more than what is left.
pub fn create_parts_template(available_energy: usize) -> (res: Option<Vec<Part>>)
    ensures
        template_fits(available_energy as int, match res {
            Some(v) => Some(v@),
            None => None,
        }),
{
    let mut parts: Vec<Part> = vec![Part::Carry, Part::Move, Part::Work];
    let c0 = part_cost(Part::Carry);
    let c1 = part_cost(Part::Move);
    let c2 = part_cost(Part::Work);
    let mut current_cost: usize = c0 as usize + c1 as usize + c2 as usize;
    proof {
        let s = parts@;
        assert(s.drop_last().drop_last().drop_last() == Seq::<Part>::empty());
        assert(s.drop_last().drop_last() == seq![Part::Carry]);
        assert(s.drop_last() == seq![Part::Carry, Part::Move]);
        assert(s == harvester_template_min());
        let a = s.drop_last().drop_last();
        assert(a.drop_last() =~= Seq::<Part>::empty());
        assert(body_cost(a.drop_last()) == 0);
        assert(a.last() == Part::Carry);
        assert(body_cost(a) == 50);
        assert(s.subrange(0, 3) =~= s);
        assert(body_cost(s.drop_last()) == 100);
        assert(body_cost(s) == 200);
    }
    if current_cost > available_energy {
        return None;
    }
    let mut next: usize = 0;
    loop
        invariant
            is_scaled_template(parts@),
            current_cost == body_cost(parts@),
            current_cost <= available_energy,
            next < 2,
            next as int == (parts@.len() - 3) % 2,
        ensures
            current_cost + spec_part_cost(scale_part(parts@.len() - 3)) > available_energy,
        decreases available_energy - current_cost,
    {
        let part = if next == 0 { Part::Carry } else { Part::Move };
        let part_cost = part_cost(part) as usize;
        assert(part == scale_part(parts@.len() - 3));
        if part_cost > available_energy - current_cost {
            break;
        }
        let ghost before = parts@;
        parts.push(part);
        assert(parts@.drop_last() == before);
        assert(parts@.subrange(0, 3) == before.subrange(0, 3));
        current_cost = current_cost + part_cost;
        next = 1 - next;
    }
    Some(parts)
}

proof fn lemma_min_cost()
    ensures
        body_cost(harvester_template_min()) == 200,
{
    let s = harvester_template_min();
    let b = s.drop_last();
    let a = b.drop_last();
    assert(b =~= seq![Part::Carry, Part::Move]);
    assert(a =~= seq![Part::Carry]);
    assert(a.drop_last() =~= Seq::<Part>::empty());
    assert(body_cost(a.drop_last()) == 0);
    assert(body_cost(a) == 50);
    assert(body_cost(b) == 100);
}

proof fn lemma_scaled_cost(parts: Seq<Part>)
    requires
        is_scaled_template(parts),
    ensures
        body_cost(parts) == 200 + 50 * (parts.len() - 3),
    decreases parts.len(),
{
    if parts.len() == 3 {
        assert(parts == harvester_template_min()) by {
            assert(parts.subrange(0, 3) =~= parts);
        }
        lemma_min_cost();
    } else {
        let d = parts.drop_last();
        assert(d.subrange(0, 3) == parts.subrange(0, 3));
        assert forall|i: int| 3 <= i < d.len() implies #[trigger] d[i] == scale_part(i - 3) by {
            assert(d[i] == parts[i]);
        }
        lemma_scaled_cost(d);
        assert(parts.last() == scale_part(parts.len() - 4));
        assert(spec_part_cost(scale_part(parts.len() - 4)) == 50);
    }
}

/// Each scale part costs 50, so the body holds the three minimal parts
/// and one part more for every full 50 energy beyond their cost of 200;
/// below 200 energy there is no body.
pub proof fn lemma_template_size(available_energy: int, result: Option<Seq<Part>>)
    requires
        available_energy >= 0,
        template_fits(available_energy, result),
    ensures
        result is None <==> available_energy < 200,
        result matches Some(parts) ==> parts.len() == 3 + (available_energy - 200) / 50,
{
    lemma_min_cost();
    if let Some(parts) = result {
        lemma_scaled_cost(parts);
        assert(spec_part_cost(scale_part(parts.len() - 3)) == 50);
        let k = parts.len() - 3;
        assert(200 + 50 * k <= available_energy < 200 + 50 * k + 50);
        assert((available_energy - 200) / 50 == k) by (nonlinear_arith)
            requires
                200 + 50 * k <= available_energy < 200 + 50 * k + 50,
                k >= 0;
    }
}

/// What a harvester is doing.
#[derive(Clone, Copy, Debug, PartialEq, Eq, Structural)]
pub enum HarvesterState {
    Idle,
    Harvesting(ObjectId, ResourceType),
    UpgradingController(ObjectId),
    Transferring(ObjectId, ResourceType),
}

/// Why a harvester could not pick its next job.
#[derive(Clone, Copy, Debug, PartialEq, Eq, Structural)]
pub enum RoleWarning {
    NotInRoom,
    NoSource,
    NoController,
}

/// What a role asks of its creep this tick.
#[derive(Clone, Copy, Debug, PartialEq, Eq, Structural)]
pub enum RoleAction {
    /// Nothing to do.
    Wait,
    /// Nothing can be done; the reason is worth a warning.
    Warn(RoleWarning),
    /// Harvest the target.
    Harvest(ObjectId),
    /// Upgrade the controller.
    UpgradeController(ObjectId),
    /// Transfer the resource to the target.
    Transfer(ObjectId, ResourceType),
}

/// What follows the game's answer to a role action.
#[derive(Clone, Copy, Debug, PartialEq, Eq, Structural)]
pub enum RoleFollowUp {
    /// Nothing more this tick.
    Done,
    /// Out of range: move to the target.
    MoveTo(ObjectId),
    /// The call failed otherwise; worth a warning.
    Warn(i32),
}

/// A role a creep plays: it picks the creep's action each tick.
pub trait CreepRoleHandler {
    fn new() -> Self
        where Self: Sized;

    fn tick(&mut self, creep: &CreepInfo) -> RoleAction;

    fn create_parts_template(available_energy: usize) -> Option<Vec<Part>>
        where Self: Sized;
}

#[derive(Clone, Copy, Debug, PartialEq, Eq, Structural)]
pub struct Harvester {
    pub state: HarvesterState,
}

/// One tick of a harvester: the state it moves to and the action it takes.
///
/// Idle: with room for energy, harvest the room's first source; when full,
/// upgrade the room's controller (a creep out of a room, or in one without
/// the needed object, stays idle with a warning). Harvesting, upgrading or
/// transferring goes on while the creep has room for the resource (or,
/// upgrading, energy left); then it returns to idle.
pub open spec fn harvester_step(state: HarvesterState, c: CreepInfo) -> (HarvesterState, RoleAction) {
    match state {
        HarvesterState::Idle => if spec_free_capacity(c.store@, ResourceType::Energy) > 0 {
            match c.room {
                None => (state, RoleAction::Warn(RoleWarning::NotInRoom)),
                Some(room) => if room.sources@.len() == 0 {
                    (state, RoleAction::Warn(RoleWarning::NoSource))
                } else {
                    (HarvesterState::Harvesting(room.sources@[0].id, ResourceType::Energy), RoleAction::Wait)
                },
            }
        } else {
            match c.room {
                None => (state, RoleAction::Warn(RoleWarning::NotInRoom)),
                Some(room) => match room.controller {
                    None => (state, RoleAction::Warn(RoleWarning::NoController)),
                    Some(controller) => (HarvesterState::UpgradingController(controller.id), RoleAction::Wait),
                },
            }
        },
        HarvesterState::Harvesting(target, resource) => if spec_free_capacity(c.store@, resource) > 0 {
            (state, RoleAction::Harvest(target))
        } else {
            (HarvesterState::Idle, RoleAction::Wait)
        },
        HarvesterState::UpgradingController(target) => if spec_used_capacity(c.store@, ResourceType::Energy) > 0 {
            (state, RoleAction::UpgradeController(target))
        } else {
            (HarvesterState::Idle, RoleAction::Wait)
        },
        HarvesterState::Transferring(target, resource) => if spec_free_capacity(c.store@, resource) > 0 {
            (state, RoleAction::Transfer(target, resource))
        } else {
            (HarvesterState::Idle, RoleAction::Wait)
        },
    }
}

/// The follow-up of a harvester's action: out of range, move to the
/// action's target; another error is worth a warning.
pub open spec fn follow_up_spec(action: RoleAction, result: Result<(), i32>) -> RoleFollowUp {
    match result {
        Ok(_) => RoleFollowUp::Done,
        Err(code) => match action {
            RoleAction::Harvest(t) => if code == ERR_NOT_IN_RANGE { RoleFollowUp::MoveTo(t) } else { RoleFollowUp::Warn(code) },
            RoleAction::UpgradeController(t) => if code == ERR_NOT_IN_RANGE { RoleFollowUp::MoveTo(t) } else { RoleFollowUp::Warn(code) },
            RoleAction::Transfer(t, _) => if code == ERR_NOT_IN_RANGE { RoleFollowUp::MoveTo(t) } else { RoleFollowUp::Warn(code) },
            _ => RoleFollowUp::Done,
        },
    }
}

/// A harvester cycles between gathering and spending: it starts
/// harvesting or upgrading only from idle, returns to idle only from work,
/// and never starts transferring.
pub proof fn lemma_harvester_cycle(state: HarvesterState, c: CreepInfo)
    ensures
        harvester_step(state, c).0 is Transferring ==> state is Transferring,
        harvester_step(state, c).0 != state ==> (state is Idle <==> !(harvester_step(state, c).0 is Idle)),
        state is Idle && harvester_step(state, c).0 is Harvesting ==> harvester_step(state, c).0 == HarvesterState::Harvesting(
            c.room->0.sources@[0].id,
            ResourceType::Energy,
        ),
{
}

/// A harvester keeps at its work until it is done: while the creep has
/// room for the resource it keeps harvesting the same target (and while it
/// holds energy it keeps upgrading the same controller, while it has room
/// it keeps transferring to the same target); it turns idle only once the
/// store is full (or, upgrading, empty).
pub proof fn lemma_work_continues_until_done(c: CreepInfo, target: ObjectId, resource: ResourceType)
    ensures
        spec_free_capacity(c.store@, resource) > 0 ==> harvester_step(HarvesterState::Harvesting(target, resource), c)
            == (HarvesterState::Harvesting(target, resource), RoleAction::Harvest(target)),
        spec_free_capacity(c.store@, resource) <= 0 ==> harvester_step(HarvesterState::Harvesting(target, resource), c)
            == (HarvesterState::Idle, RoleAction::Wait),
        spec_used_capacity(c.store@, ResourceType::Energy) > 0 ==> harvester_step(HarvesterState::UpgradingController(target), c)
            == (HarvesterState::UpgradingController(target), RoleAction::UpgradeController(target)),
        spec_used_capacity(c.store@, ResourceType::Energy) <= 0 ==> harvester_step(HarvesterState::UpgradingController(target), c)
            == (HarvesterState::Idle, RoleAction::Wait),
        spec_free_capacity(c.store@, resource) > 0 ==> harvester_step(HarvesterState::Transferring(target, resource), c)
            == (HarvesterState::Transferring(target, resource), RoleAction::Transfer(target, resource)),
        spec_free_capacity(c.store@, resource) <= 0 ==> harvester_step(HarvesterState::Transferring(target, resource), c)
            == (HarvesterState::Idle, RoleAction::Wait),
{
}

/// An idle harvester with room for energy heads for the first source of
/// its room and one with a full store for the room's controller; it does
/// nothing else this tick.
pub proof fn lemma_idle_picks_a_job(c: CreepInfo)
    ensures
        harvester_step(HarvesterState::Idle, c).1 == RoleAction::Wait
            || harvester_step(HarvesterState::Idle, c).1 is Warn,
        harvester_step(HarvesterState::Idle, c).0 is Idle <==> harvester_step(HarvesterState::Idle, c).1 is Warn,
        (spec_free_capacity(c.store@, ResourceType::Energy) > 0 && c.room is Some && c.room->0.sources@.len() > 0)
            ==> harvester_step(HarvesterState::Idle, c).0 == HarvesterState::Harvesting(
            c.room->0.sources@[0].id,
            ResourceType::Energy,
        ),
        (spec_free_capacity(c.store@, ResourceType::Energy) <= 0 && c.room is Some && c.room->0.controller is Some)
            ==> harvester_step(HarvesterState::Idle, c).0 == HarvesterState::UpgradingController(
            c.room->0.controller->0.id,
        ),
{
}

/// The answer to a role action decides what follows: success ends the
/// tick; a target out of range makes the creep move to that target; any
/// other failure is reported with the game's code.
pub proof fn lemma_follow_up_moves_to_target_when_out_of_range(action: RoleAction, result: Result<(), i32>)
    ensures
        result is Ok ==> follow_up_spec(action, result) == RoleFollowUp::Done,
        result == Err::<(), i32>(ERR_NOT_IN_RANGE) ==> match action {
            RoleAction::Harvest(t) => follow_up_spec(action, result) == RoleFollowUp::MoveTo(t),
            RoleAction::UpgradeController(t) => follow_up_spec(action, result) == RoleFollowUp::MoveTo(t),
            RoleAction::Transfer(t, _) => follow_up_spec(action, result) == RoleFollowUp::MoveTo(t),
            _ => follow_up_spec(action, result) == RoleFollowUp::Done,
        },
        (result matches Err(code) && code != ERR_NOT_IN_RANGE && (action is Harvest || action is UpgradeController
            || action is Transfer)) ==> follow_up_spec(action, result) == RoleFollowUp::Warn(result->Err_0),
{
}

impl Harvester {
    fn next_state(&mut self, new_state: HarvesterState)
        ensures
            final(self).state == new_state,
    {
        self.state = new_state;
    }

    fn idle(&mut self, creep: &CreepInfo) -> (action: RoleAction)
        requires
            old(self).state == HarvesterState::Idle,
        ensures
            (final(self).state, action) == harvester_step(HarvesterState::Idle, *creep),
    {
        if creep.free_capacity(ResourceType::Energy) > 0 {
            // find energy source and enter harvesting state
            let room = match &creep.room {
                None => return RoleAction::Warn(RoleWarning::NotInRoom),
                Some(room) => room,
            };
            if room.sources.len() == 0 {
                return RoleAction::Warn(RoleWarning::NoSource);
            }
            self.next_state(HarvesterState::Harvesting(room.sources[0].id, ResourceType::Energy));
            RoleAction::Wait
        } else {
            // find controller and enter upgrading state
            let room = match &creep.room {
                None => return RoleAction::Warn(RoleWarning::NotInRoom),
                Some(room) => room,
            };
            match room.controller {
                None => RoleAction::Warn(RoleWarning::NoController),
                Some(controller) => {
                    self.next_state(HarvesterState::UpgradingController(controller.id));
                    RoleAction::Wait
                },
            }
        }
    }

    fn harvest(&mut self, creep: &CreepInfo, target: ObjectId, resource: ResourceType) -> (action: RoleAction)
        requires
            old(self).state == HarvesterState::Harvesting(target, resource),
        ensures
            (final(self).state, action) == harvester_step(old(self).state, *creep),
    {
        if creep.free_capacity(resource) > 0 {
            RoleAction::Harvest(target)
        } else {
            // enter next state
            self.state = HarvesterState::Idle;
            RoleAction::Wait
        }
    }

    fn upgrade_controller(&mut self, creep: &CreepInfo, target: ObjectId) -> (action: RoleAction)
        requires
            old(self).state == HarvesterState::UpgradingController(target),
        ensures
            (final(self).state, action) == harvester_step(old(self).state, *creep),
    {
        if creep.used_capacity(ResourceType::Energy) > 0 {
            RoleAction::UpgradeController(target)
        } else {
            // no energy left: back to idle
            self.state = HarvesterState::Idle;
            RoleAction::Wait
        }
    }

    fn transfer_resource(&mut self, creep: &CreepInfo, target: ObjectId, resource: ResourceType) -> (action: RoleAction)
        requires
            old(self).state == HarvesterState::Transferring(target, resource),
        ensures
            (final(self).state, action) == harvester_step(old(self).state, *creep),
    {
        if creep.free_capacity(resource) > 0 {
            RoleAction::Transfer(target, resource)
        } else {
            // enter next state
            self.state = HarvesterState::Idle;
            RoleAction::Wait
        }
    }
}

/// What follows the game's answer to the action a role took.
pub fn follow_up(action: RoleAction, result: Result<(), i32>) -> (f: RoleFollowUp)
    ensures
        f == follow_up_spec(action, result),
{
    match result {
        Ok(_) => RoleFollowUp::Done,
        Err(code) => {
            let target = match action {
                RoleAction::Harvest(t) => t,
                RoleAction::UpgradeController(t) => t,
                RoleAction::Transfer(t, _) => t,
                _ => return RoleFollowUp::Done,
            };
            if code == ERR_NOT_IN_RANGE {
                RoleFollowUp::MoveTo(target)
            } else {
                RoleFollowUp::Warn(code)
            }
        },
    }
}

impl CreepRoleHandler for Harvester {
    fn new() -> (h: Self)
        ensures
            h.state == HarvesterState::Idle,
    {
        Self { state: HarvesterState::Idle }
    }

    fn tick(&mut self, creep: &CreepInfo) -> (action: RoleAction)
        ensures
            (final(self).state, action) == harvester_step(old(self).state, *creep),
    {
        match self.state {
            HarvesterState::Idle => self.idle(creep),
            HarvesterState::Harvesting(target, resource) => self.harvest(creep, target, resource),
            HarvesterState::UpgradingController(target) => self.upgrade_controller(creep, target),
            HarvesterState::Transferring(target, resource) => self.transfer_resource(creep, target, resource),
        }
    }

    fn create_parts_template(available_energy: usize) -> (res: Option<Vec<Part>>)
        ensures
            template_fits(available_energy as int, match res {
                Some(v) => Some(v@),
                None => None,
            }),
    {
        create_parts_template(available_energy)
    }
}

} // verus!
