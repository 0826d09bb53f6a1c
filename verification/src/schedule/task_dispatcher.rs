//! The scheduler's dispatcher: keeps one controller-upgrade task in play
//! and gives each task to the free creep that can do it soonest.
use vstd::prelude::*;
use crate::model::{ControllerInfo, CreepInfo, Part, ResourceType, RoomInfo, spec_free_capacity, spec_used_capacity};
use crate::name_table::{find_name, insert_name, lemma_name_lookup, name_table, names_unique, remove_name};
use crate::schedule::task::{Task, TaskRequirement, TaskResult, body_has_part, resolve_controller, spec_resolve};
use crate::schedule::tasks::harvest_energy_task::HarvestEnergyTask;
use crate::schedule::tasks::upgrade_room_controller_task::UpgradeRoomControllerTask;

verus! {

impl Task {
    /// The creep fulfils every requirement of the task (an upgrade task
    /// whose controller cannot be found has none).
    pub open spec fn requirements_fulfilled(self, c: CreepInfo, controllers: Seq<ControllerInfo>) -> bool {
        match self {
            Task::HarvestEnergy(_) => {
                &&& spec_free_capacity(c.store@, ResourceType::Energy) >= -1
                &&& body_has_part(c.body@, Part::Move)
                &&& body_has_part(c.body@, Part::Work)
                &&& body_has_part(c.body@, Part::Carry)
            },
            Task::UpgradeRoomController(u) => spec_resolve(controllers, u.target) is Some ==> {
                &&& body_has_part(c.body@, Part::Move)
                &&& body_has_part(c.body@, Part::Carry)
                &&& body_has_part(c.body@, Part::Work)
                &&& spec_used_capacity(c.store@, ResourceType::Energy) >= 1
            },
        }
    }

    /// The task asks for carried resources: an upgrade task whose
    /// controller is found asks for energy.
    pub open spec fn needs_resources(self, controllers: Seq<ControllerInfo>) -> bool {
        match self {
            Task::HarvestEnergy(_) => false,
            Task::UpgradeRoomController(u) => spec_resolve(controllers, u.target) is Some,
        }
    }

    pub open spec fn estimate_defined(self, c: CreepInfo, controllers: Seq<ControllerInfo>) -> bool {
        &&& c.wf()
        &&& match self {
            Task::HarvestEnergy(_) => HarvestEnergyTask::estimate_defined(c),
            Task::UpgradeRoomController(_) => true,
        }
    }

    pub open spec fn spec_estimate(self, c: CreepInfo, controllers: Seq<ControllerInfo>) -> int {
        match self {
            Task::HarvestEnergy(_) => HarvestEnergyTask::spec_estimate(c),
            Task::UpgradeRoomController(u) => UpgradeRoomControllerTask::spec_estimate(c, spec_resolve(controllers, u.target)),
        }
    }

    /// Estimate how many ticks are required to fulfill the task for the
    /// given creep.
    pub fn estimate_ticks(&self, creep: &CreepInfo, controllers: &Vec<ControllerInfo>) -> (ticks: usize)
        requires
            self.estimate_defined(*creep, controllers@),
        ensures
            ticks == self.spec_estimate(*creep, controllers@),
    {
        match self {
            Task::HarvestEnergy(h) => h.estimate_ticks(creep),
            Task::UpgradeRoomController(u) => {
                let target = resolve_controller(controllers, u.target);
                u.estimate_ticks(creep, target)
            },
        }
    }

    /// Whether the creep fulfils every requirement of the task.
    pub fn fulfils_requirements(&self, creep: &CreepInfo, controllers: &Vec<ControllerInfo>) -> (b: bool)
        ensures
            b == self.requirements_fulfilled(*creep, controllers@),
    {
        let requirements = match self {
            Task::HarvestEnergy(h) => h.get_requirements(),
            Task::UpgradeRoomController(u) => u.get_requirements(resolve_controller(controllers, u.target)),
        };
        proof { self.lemma_requirements(*creep, controllers@, requirements@); }
        let mut i: usize = 0;
        while i < requirements.len()
            invariant
                i <= requirements@.len(),
                forall|j: int| 0 <= j < i ==> #[trigger] requirements@[j].fulfilled_by(*creep),
                self.requirements_fulfilled(*creep, controllers@) == (forall|j: int| 0 <= j < requirements@.len() ==> #[trigger] requirements@[j].fulfilled_by(*creep)),
            decreases requirements@.len() - i,
        {
            if !requirements[i].does_fulfill(creep) {
                return false;
            }
            i = i + 1;
        }
        true
    }

    proof fn lemma_requirements(self, c: CreepInfo, controllers: Seq<ControllerInfo>, reqs: Seq<TaskRequirement>)
        requires
            match self {
                Task::HarvestEnergy(_) => {
                    &&& reqs.len() == 2
                    &&& reqs[0] == TaskRequirement::HasFreeCapacity(ResourceType::Energy, -1i32)
                    &&& reqs[1] matches TaskRequirement::HasParts(parts) && parts@ == seq![Part::Move, Part::Work, Part::Carry]
                },
                Task::UpgradeRoomController(u) => {
                    &&& spec_resolve(controllers, u.target) is None ==> reqs.len() == 0
                    &&& spec_resolve(controllers, u.target) is Some ==> {
                        &&& reqs.len() == 2
                        &&& reqs[0] matches TaskRequirement::HasParts(parts) && parts@ == seq![Part::Move, Part::Carry, Part::Work]
                        &&& reqs[1] == TaskRequirement::HasUsedCapacity(ResourceType::Energy, 1)
                    }
                },
            },
        ensures
            self.requirements_fulfilled(c, controllers) == (forall|j: int| 0 <= j < reqs.len() ==> #[trigger] reqs[j].fulfilled_by(c)),
    {
        match self {
            Task::HarvestEnergy(_) => {
                let parts = reqs[1]->HasParts_0@;
                assert(parts[0] == Part::Move && parts[1] == Part::Work && parts[2] == Part::Carry);
                if self.requirements_fulfilled(c, controllers) {
                    assert forall|j: int| 0 <= j < reqs.len() implies #[trigger] reqs[j].fulfilled_by(c) by {
                        if j == 1 {
                            assert forall|i: int| 0 <= i < parts.len() implies body_has_part(c.body@, #[trigger] parts[i]) by {}
                        }
                    }
                } else {
                    assert(reqs[0].fulfilled_by(c) ==> !reqs[1].fulfilled_by(c));
                }
            },
            Task::UpgradeRoomController(u) => {
                if spec_resolve(controllers, u.target) is Some {
                    let parts = reqs[0]->HasParts_0@;
                    assert(parts[0] == Part::Move && parts[1] == Part::Carry && parts[2] == Part::Work);
                    if self.requirements_fulfilled(c, controllers) {
                        assert forall|j: int| 0 <= j < reqs.len() implies #[trigger] reqs[j].fulfilled_by(c) by {
                            if j == 0 {
                                assert forall|i: int| 0 <= i < parts.len() implies body_has_part(c.body@, #[trigger] parts[i]) by {}
                            }
                        }
                    } else {
                        assert(reqs[1].fulfilled_by(c) ==> !reqs[0].fulfilled_by(c));
                    }
                }
            },
        }
    }
}

/// The creep with index `k` may take the task: it has no task yet and
/// fulfils the task's requirements.
pub open spec fn eligible(
    assigned: Map<Seq<char>, Task>,
    task: Task,
    creeps: Seq<CreepInfo>,
    controllers: Seq<ControllerInfo>,
    k: int,
) -> bool {
    &&& !assigned.dom().contains(creeps[k].name@)
    &&& task.requirements_fulfilled(creeps[k], controllers)
}

/// Among the first `n` creeps, the first eligible one with the smallest
/// estimate (`min_by_key`).
pub open spec fn best_creep(
    assigned: Map<Seq<char>, Task>,
    task: Task,
    creeps: Seq<CreepInfo>,
    controllers: Seq<ControllerInfo>,
    n: nat,
) -> Option<int>
    decreases n,
{
    if n == 0 || n > creeps.len() {
        None
    } else {
        let prev = best_creep(assigned, task, creeps, controllers, (n - 1) as nat);
        let k = n - 1;
        if !eligible(assigned, task, creeps, controllers, k) {
            prev
        } else {
            match prev {
                Some(b) => if task.spec_estimate(creeps[k], controllers) < task.spec_estimate(creeps[b], controllers) {
                    Some(k)
                } else {
                    prev
                },
                None => Some(k),
            }
        }
    }
}

/// Every estimate `best_creep` computes is defined.
pub open spec fn estimates_defined(
    assigned: Map<Seq<char>, Task>,
    task: Task,
    creeps: Seq<CreepInfo>,
    controllers: Seq<ControllerInfo>,
) -> bool {
    forall|k: int| 0 <= k < creeps.len() && #[trigger] eligible(assigned, task, creeps, controllers, k)
        ==> task.estimate_defined(creeps[k], controllers)
}

/// The assignments after offering `task`: the best creep gets it; where
/// no creep can take it and the task needs carried resources, a harvest
/// task is offered in its place; otherwise the task is dropped.
pub open spec fn assign_task_spec(
    assigned: Map<Seq<char>, Task>,
    task: Task,
    creeps: Seq<CreepInfo>,
    controllers: Seq<ControllerInfo>,
) -> Map<Seq<char>, Task> {
    match best_creep(assigned, task, creeps, controllers, creeps.len()) {
        Some(b) => assigned.insert(creeps[b].name@, task),
        None => if task.needs_resources(controllers) {
            let harvest = Task::HarvestEnergy(HarvestEnergyTask {});
            match best_creep(assigned, harvest, creeps, controllers, creeps.len()) {
                Some(b) => assigned.insert(creeps[b].name@, harvest),
                None => assigned,
            }
        } else {
            assigned
        },
    }
}

/// `assign_task` neither divides by zero nor overflows.
pub open spec fn assign_task_defined(
    assigned: Map<Seq<char>, Task>,
    task: Task,
    creeps: Seq<CreepInfo>,
    controllers: Seq<ControllerInfo>,
) -> bool {
    &&& estimates_defined(assigned, task, creeps, controllers)
    &&& (best_creep(assigned, task, creeps, controllers, creeps.len()) is None && task.needs_resources(controllers))
        ==> estimates_defined(assigned, Task::HarvestEnergy(HarvestEnergyTask {}), creeps, controllers)
}

/// The assignments after offering the first `n` tasks in turn.
pub open spec fn assign_all_spec(
    assigned: Map<Seq<char>, Task>,
    tasks: Seq<Task>,
    creeps: Seq<CreepInfo>,
    controllers: Seq<ControllerInfo>,
    n: nat,
) -> Map<Seq<char>, Task>
    decreases n,
{
    if n == 0 || n > tasks.len() {
        assigned
    } else {
        assign_task_spec(assign_all_spec(assigned, tasks, creeps, controllers, (n - 1) as nat), tasks[n - 1], creeps, controllers)
    }
}

/// Offering every task in turn neither divides by zero nor overflows.
pub open spec fn assign_all_defined(
    assigned: Map<Seq<char>, Task>,
    tasks: Seq<Task>,
    creeps: Seq<CreepInfo>,
    controllers: Seq<ControllerInfo>,
) -> bool {
    forall|n: nat| n < tasks.len() ==> assign_task_defined(
        #[trigger] assign_all_spec(assigned, tasks, creeps, controllers, n),
        tasks[n as int],
        creeps,
        controllers,
    )
}

/// Some task, assigned or pending, is an upgrade task.
pub open spec fn upgrade_scheduled(assigned: Map<Seq<char>, Task>, pending: Seq<Task>) -> bool {
    ||| exists|n: Seq<char>| assigned.dom().contains(n) && #[trigger] assigned[n] is UpgradeRoomController
    ||| exists|i: int| 0 <= i < pending.len() && #[trigger] pending[i] is UpgradeRoomController
}

/// The pending tasks after scheduling: an upgrade task for the first room
/// is added unless one is already assigned or pending.
pub open spec fn schedule_spec(assigned: Map<Seq<char>, Task>, pending: Seq<Task>, rooms: Seq<RoomInfo>) -> Seq<Task> {
    if rooms.len() > 0 && !upgrade_scheduled(assigned, pending) {
        pending.push(Task::UpgradeRoomController(UpgradeRoomControllerTask { target: rooms[0].controller->0.id }))
    } else {
        pending
    }
}

/// Scheduling does not fail: where an upgrade task is to be added, the
/// first room has a controller.
pub open spec fn schedule_defined(assigned: Map<Seq<char>, Task>, pending: Seq<Task>, rooms: Seq<RoomInfo>) -> bool {
    (rooms.len() > 0 && !upgrade_scheduled(assigned, pending)) ==> rooms[0].controller is Some
}

/// Scheduling never adds a second upgrade task, and leaves one in play
/// whenever there is a room.
pub proof fn lemma_single_upgrade_task(assigned: Map<Seq<char>, Task>, pending: Seq<Task>, rooms: Seq<RoomInfo>)
    ensures
        upgrade_scheduled(assigned, pending) ==> schedule_spec(assigned, pending, rooms) == pending,
        rooms.len() > 0 ==> upgrade_scheduled(assigned, schedule_spec(assigned, pending, rooms)),
{
    if rooms.len() > 0 && !upgrade_scheduled(assigned, pending) {
        let p = schedule_spec(assigned, pending, rooms);
        assert(p[p.len() - 1] is UpgradeRoomController);
    }
}

proof fn lemma_best_creep_eligible(
    assigned: Map<Seq<char>, Task>,
    task: Task,
    creeps: Seq<CreepInfo>,
    controllers: Seq<ControllerInfo>,
    n: nat,
)
    ensures
        best_creep(assigned, task, creeps, controllers, n) matches Some(b) ==> {
            &&& 0 <= b < creeps.len()
            &&& eligible(assigned, task, creeps, controllers, b)
        },
    decreases n,
{
    if n > 0 && n <= creeps.len() {
        lemma_best_creep_eligible(assigned, task, creeps, controllers, (n - 1) as nat);
    }
}

/// The creep a task goes to can do it soonest: it is free, fulfils the
/// task's requirements, and its estimate is no larger than that of any
/// other free creep that fulfils them, and smaller than that of every such
/// creep before it. Where no creep is chosen, none is free and able.
pub proof fn lemma_best_creep_is_soonest(
    assigned: Map<Seq<char>, Task>,
    task: Task,
    creeps: Seq<CreepInfo>,
    controllers: Seq<ControllerInfo>,
    n: nat,
)
    requires
        n <= creeps.len(),
    ensures
        match best_creep(assigned, task, creeps, controllers, n) {
            Some(b) => {
                &&& 0 <= b < n
                &&& !assigned.dom().contains(creeps[b].name@)
                &&& task.requirements_fulfilled(creeps[b], controllers)
                &&& forall|k: int|
                    0 <= k < n && !assigned.dom().contains(#[trigger] creeps[k].name@)
                        && task.requirements_fulfilled(creeps[k], controllers)
                        ==> task.spec_estimate(creeps[b], controllers) <= task.spec_estimate(creeps[k], controllers)
                &&& forall|k: int|
                    0 <= k < b && !assigned.dom().contains(#[trigger] creeps[k].name@)
                        && task.requirements_fulfilled(creeps[k], controllers)
                        ==> task.spec_estimate(creeps[b], controllers) < task.spec_estimate(creeps[k], controllers)
            },
            None => forall|k: int|
                0 <= k < n ==> assigned.dom().contains(#[trigger] creeps[k].name@)
                    || !task.requirements_fulfilled(creeps[k], controllers),
        },
    decreases n,
{
    if n > 0 {
        lemma_best_creep_is_soonest(assigned, task, creeps, controllers, (n - 1) as nat);
    }
}

/// Where some free creep can do a task, offering it gives it to exactly
/// one free creep that can, with an estimate no larger than that of any
/// other such creep; nothing else changes.
pub proof fn lemma_offered_task_goes_to_soonest_creep(
    assigned: Map<Seq<char>, Task>,
    task: Task,
    creeps: Seq<CreepInfo>,
    controllers: Seq<ControllerInfo>,
    k0: int,
)
    requires
        0 <= k0 < creeps.len(),
        !assigned.dom().contains(creeps[k0].name@),
        task.requirements_fulfilled(creeps[k0], controllers),
    ensures
        exists|b: int| {
            &&& 0 <= b < creeps.len()
            &&& assign_task_spec(assigned, task, creeps, controllers) == assigned.insert(creeps[b].name@, task)
            &&& !assigned.dom().contains(creeps[b].name@)
            &&& task.requirements_fulfilled(creeps[b], controllers)
            &&& forall|k: int|
                0 <= k < creeps.len() && !assigned.dom().contains(#[trigger] creeps[k].name@)
                    && task.requirements_fulfilled(creeps[k], controllers)
                    ==> task.spec_estimate(creeps[b], controllers) <= task.spec_estimate(creeps[k], controllers)
        },
{
    lemma_best_creep_is_soonest(assigned, task, creeps, controllers, creeps.len());
    let b = best_creep(assigned, task, creeps, controllers, creeps.len())->0;
    assert(0 <= b < creeps.len());
}

/// A busy creep keeps its task: offering a task only ever gives it to a
/// creep without one.
pub proof fn lemma_busy_creeps_keep_their_tasks(
    assigned: Map<Seq<char>, Task>,
    task: Task,
    creeps: Seq<CreepInfo>,
    controllers: Seq<ControllerInfo>,
)
    ensures
        forall|name: Seq<char>| #[trigger] assigned.dom().contains(name) ==> {
            &&& assign_task_spec(assigned, task, creeps, controllers).dom().contains(name)
            &&& assign_task_spec(assigned, task, creeps, controllers)[name] == assigned[name]
        },
{
    lemma_best_creep_eligible(assigned, task, creeps, controllers, creeps.len());
    lemma_best_creep_eligible(assigned, Task::HarvestEnergy(HarvestEnergyTask {}), creeps, controllers, creeps.len());
}

/// A creep that is given a task fulfils its requirements (for the harvest
/// task offered in place of one that needs resources, the harvest task's).
pub proof fn lemma_assigned_creep_fulfils(
    assigned: Map<Seq<char>, Task>,
    task: Task,
    creeps: Seq<CreepInfo>,
    controllers: Seq<ControllerInfo>,
)
    ensures
        best_creep(assigned, task, creeps, controllers, creeps.len()) matches Some(b)
            ==> task.requirements_fulfilled(creeps[b], controllers),
{
    lemma_best_creep_eligible(assigned, task, creeps, controllers, creeps.len());
}

pub struct TaskDispatcher {
    pending_tasks: Vec<Task>,
    assigned_tasks: Vec<(String, Task)>,
}

impl TaskDispatcher {
    pub closed spec fn wf(&self) -> bool {
        names_unique(self.assigned_tasks@)
    }

    /// The tasks waiting for a creep.
    pub closed spec fn pending(&self) -> Seq<Task> {
        self.pending_tasks@
    }

    /// The task of each busy creep, by name.
    pub closed spec fn assigned(&self) -> Map<Seq<char>, Task> {
        name_table(self.assigned_tasks@)
    }

    pub fn new() -> (d: Self)
        ensures
            d.wf(),
            d.pending() == Seq::<Task>::empty(),
            d.assigned() == Map::<Seq<char>, Task>::empty(),
    {
        let d = TaskDispatcher { pending_tasks: Vec::new(), assigned_tasks: Vec::new() };
        assert(d.assigned() =~= Map::<Seq<char>, Task>::empty());
        d
    }

    /// Whether an upgrade task is assigned or pending.
    pub fn has_upgrade_task(&self) -> (b: bool)
        requires
            self.wf(),
        ensures
            b == upgrade_scheduled(self.assigned(), self.pending()),
    {
        let mut i: usize = 0;
        while i < self.assigned_tasks.len()
            invariant
                self.wf(),
                i <= self.assigned_tasks@.len(),
                forall|j: int| 0 <= j < i ==> !((#[trigger] self.assigned_tasks@[j]).1 is UpgradeRoomController),
            decreases self.assigned_tasks@.len() - i,
        {
            if let Task::UpgradeRoomController(_) = self.assigned_tasks[i].1 {
                proof { lemma_name_lookup(self.assigned_tasks@, i as int); }
                return true;
            }
            i = i + 1;
        }
        let mut j: usize = 0;
        while j < self.pending_tasks.len()
            invariant
                j <= self.pending_tasks@.len(),
                forall|k: int| 0 <= k < j ==> !((#[trigger] self.pending_tasks@[k]) is UpgradeRoomController),
            decreases self.pending_tasks@.len() - j,
        {
            if let Task::UpgradeRoomController(_) = self.pending_tasks[j] {
                return true;
            }
            j = j + 1;
        }
        proof {
            assert forall|n: Seq<char>| self.assigned().dom().contains(n) implies !(#[trigger] self.assigned()[n] is UpgradeRoomController) by {
                let k = choose|k: int| 0 <= k < self.assigned_tasks@.len() && self.assigned_tasks@[k].0@ == n;
                lemma_name_lookup(self.assigned_tasks@, k);
            }
        }
        false
    }

    /// Adds an upgrade task for the first room unless one is already
    /// assigned or pending.
    pub fn schedule_tasks(&mut self, rooms: &Vec<RoomInfo>)
        requires
            old(self).wf(),
            schedule_defined(old(self).assigned(), old(self).pending(), rooms@),
        ensures
            final(self).wf(),
            final(self).assigned() == old(self).assigned(),
            final(self).pending() == schedule_spec(old(self).assigned(), old(self).pending(), rooms@),
    {
        let mut r: usize = 0;
        while r < rooms.len()
            invariant
                self.wf(),
                self.assigned() == old(self).assigned(),
                r <= rooms@.len(),
                schedule_defined(old(self).assigned(), old(self).pending(), rooms@),
                r == 0 ==> self.pending() == old(self).pending(),
                r > 0 ==> self.pending() == schedule_spec(old(self).assigned(), old(self).pending(), rooms@),
                r > 0 ==> upgrade_scheduled(self.assigned(), self.pending()),
            decreases rooms@.len() - r,
        {
            // check both already-assigned and still-pending tasks to avoid duplicates
            let already_scheduled = self.has_upgrade_task();
            if !already_scheduled {
                let task = Task::UpgradeRoomController(UpgradeRoomControllerTask::from_room(&rooms[r]));
                self.pending_tasks.push(task);
                proof {
                    let p = self.pending();
                    assert(p[p.len() - 1] is UpgradeRoomController);
                }
            }
            r = r + 1;
        }
    }

    /// Gives `task` to the best free creep; where no creep can take it and
    /// it needs carried resources, offers a harvest task instead
    /// (`assign_task_spec`).
    pub fn assign_task(&mut self, task: Task, creeps: &Vec<CreepInfo>, controllers: &Vec<ControllerInfo>)
        requires
            old(self).wf(),
            assign_task_defined(old(self).assigned(), task, creeps@, controllers@),
        ensures
            final(self).wf(),
            final(self).pending() == old(self).pending(),
            final(self).assigned() == assign_task_spec(old(self).assigned(), task, creeps@, controllers@),
    {
        match self.best_creep_for(task, creeps, controllers) {
            Some(b) => {
                insert_name(&mut self.assigned_tasks, creeps[b].name.clone(), task);
            },
            None => {
                // requirements not fulfilled
                let needs_resources = match task {
                    Task::HarvestEnergy(_) => false,
                    Task::UpgradeRoomController(u) => resolve_controller(controllers, u.target).is_some(),
                };
                if needs_resources {
                    let harvest = Task::HarvestEnergy(HarvestEnergyTask::new());
                    match self.best_creep_for(harvest, creeps, controllers) {
                        Some(b) => {
                            insert_name(&mut self.assigned_tasks, creeps[b].name.clone(), harvest);
                        },
                        None => {},
                    }
                }
            },
        }
    }

    fn best_creep_for(&self, task: Task, creeps: &Vec<CreepInfo>, controllers: &Vec<ControllerInfo>) -> (r: Option<usize>)
        requires
            self.wf(),
            estimates_defined(self.assigned(), task, creeps@, controllers@),
        ensures
            match r {
                Some(b) => b < creeps@.len() && best_creep(self.assigned(), task, creeps@, controllers@, creeps@.len()) == Some(b as int),
                None => best_creep(self.assigned(), task, creeps@, controllers@, creeps@.len()) is None,
            },
    {
        let mut best: Option<(usize, usize)> = None;
        let mut k: usize = 0;
        while k < creeps.len()
            invariant
                self.wf(),
                k <= creeps@.len(),
                estimates_defined(self.assigned(), task, creeps@, controllers@),
                match best {
                    Some(b) => b.0 < k && best_creep(self.assigned(), task, creeps@, controllers@, k as nat) == Some(b.0 as int)
                        && b.1 == task.spec_estimate(creeps@[b.0 as int], controllers@),
                    None => best_creep(self.assigned(), task, creeps@, controllers@, k as nat) is None,
                },
            decreases creeps@.len() - k,
        {
            let creep = &creeps[k];
            let free = match find_name(&self.assigned_tasks, &creep.name) {
                Some(i) => {
                    proof { lemma_name_lookup(self.assigned_tasks@, i as int); }
                    false
                },
                None => {
                    proof {
                        if self.assigned().dom().contains(creep.name@) {
                            let i = choose|i: int| 0 <= i < self.assigned_tasks@.len() && self.assigned_tasks@[i].0@ == creep.name@;
                        }
                    }
                    true
                },
            };
            if free && task.fulfils_requirements(creep, controllers) {
                assert(eligible(self.assigned(), task, creeps@, controllers@, k as int));
                let estimate = task.estimate_ticks(creep, controllers);
                match best {
                    Some(b) => {
                        if estimate < b.1 {
                            best = Some((k, estimate));
                        }
                    },
                    None => {
                        best = Some((k, estimate));
                    },
                }
            }
            k = k + 1;
        }
        match best {
            Some(b) => Some(b.0),
            None => None,
        }
    }

    /// Schedules tasks, then offers every pending task in turn; pending
    /// tasks that find no creep are dropped (scheduling adds them again).
    pub fn evaluate_and_assign(&mut self, creeps: &Vec<CreepInfo>, rooms: &Vec<RoomInfo>, controllers: &Vec<ControllerInfo>)
        requires
            old(self).wf(),
            schedule_defined(old(self).assigned(), old(self).pending(), rooms@),
            assign_all_defined(
                old(self).assigned(),
                schedule_spec(old(self).assigned(), old(self).pending(), rooms@),
                creeps@,
                controllers@,
            ),
        ensures
            final(self).wf(),
            final(self).pending() == Seq::<Task>::empty(),
            ({
                let tasks = schedule_spec(old(self).assigned(), old(self).pending(), rooms@);
                final(self).assigned() == assign_all_spec(old(self).assigned(), tasks, creeps@, controllers@, tasks.len())
            }),
    {
        self.schedule_tasks(rooms);
        let ghost a0 = self.assigned();
        let mut tasks: Vec<Task> = Vec::new();
        std::mem::swap(&mut tasks, &mut self.pending_tasks);
        let mut i: usize = 0;
        while i < tasks.len()
            invariant
                self.wf(),
                self.pending() == Seq::<Task>::empty(),
                i <= tasks@.len(),
                assign_all_defined(a0, tasks@, creeps@, controllers@),
                self.assigned() == assign_all_spec(a0, tasks@, creeps@, controllers@, i as nat),
            decreases tasks@.len() - i,
        {
            proof {
                assert(assign_task_defined(assign_all_spec(a0, tasks@, creeps@, controllers@, i as nat), tasks@[i as int], creeps@, controllers@));
            }
            self.assign_task(tasks[i], creeps, controllers);
            i = i + 1;
        }
    }

    /// The task of a creep, if it has one.
    pub fn task_of(&self, creep_name: &String) -> (task: Option<Task>)
        requires
            self.wf(),
        ensures
            match task {
                Some(t) => self.assigned().dom().contains(creep_name@) && self.assigned()[creep_name@] == t,
                None => !self.assigned().dom().contains(creep_name@),
            },
    {
        match find_name(&self.assigned_tasks, creep_name) {
            Some(i) => {
                proof { lemma_name_lookup(self.assigned_tasks@, i as int); }
                Some(self.assigned_tasks[i].1)
            },
            None => {
                proof {
                    if self.assigned().dom().contains(creep_name@) {
                        let i = choose|i: int| 0 <= i < self.assigned_tasks@.len() && self.assigned_tasks@[i].0@ == creep_name@;
                    }
                }
                None
            },
        }
    }

    /// Applies the result of a creep's tick: a completed or failed task is
    /// taken from the creep; a task in progress stays.
    pub fn record_result(&mut self, creep_name: &String, result: &TaskResult)
        requires
            old(self).wf(),
        ensures
            final(self).wf(),
            final(self).pending() == old(self).pending(),
            final(self).assigned() == (match result {
                TaskResult::InProgress => old(self).assigned(),
                _ => old(self).assigned().remove(creep_name@),
            }),
    {
        match result {
            TaskResult::InProgress => {},
            TaskResult::Completed => {
                remove_name(&mut self.assigned_tasks, creep_name);
            },
            TaskResult::Error(_) => {
                remove_name(&mut self.assigned_tasks, creep_name);
            },
        }
    }
}

} // verus!
