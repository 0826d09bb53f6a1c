//! The dispatcher: queues requests, plans each for the idle creep that can
//! do it soonest, and follows every assigned plan step by step.
use vstd::prelude::*;
use std::collections::{HashMap, VecDeque};
use crate::model::CreepInfo;
use crate::tasks::actions::{TaskAction, TaskActionResult};
use crate::tasks::requirements::first_min_index;
use crate::tasks::resolver::resolve::{plans_of, plans_view, resolvable, resolve_task_tree};
use crate::tasks::resolver::task_plan::{PlanView, TaskPlan};
use crate::tasks::task_request::TaskRequest;
use crate::name_table::{find_name, insert_name, lemma_name_lookup, name_table, names_unique, remove_name};

verus! {

/// A plan id: a random version-4 UUID as a number.
pub type PlanId = u128;

pub struct TaskDispatcher {
    /// Pending high-level requests, oldest first.
    request_queue: VecDeque<TaskRequest>,
    /// Active plans keyed by a unique plan ID.
    active_plans: HashMap<PlanId, TaskPlan>,
    /// Creep name -> plan ID.
    assignments: Vec<(String, PlanId)>,
}

/// The plans of a plan table, by id.
pub open spec fn plan_map(m: Map<PlanId, TaskPlan>) -> Map<PlanId, PlanView> {
    m.map_values(|p: TaskPlan| p.view())
}

/// Sets the plan of an id, replacing any plan it had.
fn insert_plan(m: &mut HashMap<PlanId, TaskPlan>, id: PlanId, plan: TaskPlan)
    ensures
        plan_map(final(m)@) == plan_map(old(m)@).insert(id, plan.view()),
{
    broadcast use vstd::std_specs::hash::group_hash_axioms;
    let ghost pv = plan.view();
    m.insert(id, plan);
    assert(plan_map(m@) =~= plan_map(old(m)@).insert(id, pv));
}

/// Takes out the plan of an id, if it has one.
fn remove_plan(m: &mut HashMap<PlanId, TaskPlan>, id: PlanId) -> (taken: Option<TaskPlan>)
    ensures
        plan_map(final(m)@) == plan_map(old(m)@).remove(id),
        match taken {
            Some(p) => plan_map(old(m)@).dom().contains(id) && plan_map(old(m)@)[id] == p.view(),
            None => !plan_map(old(m)@).dom().contains(id),
        },
{
    broadcast use vstd::std_specs::hash::group_hash_axioms;
    let taken = m.remove(&id);
    assert(plan_map(m@) =~= plan_map(old(m)@).remove(id));
    taken
}

/// The cheapest of a creep's plans: the first one of smallest cost (what
/// a stable sort by cost puts first).
pub open spec fn cheapest_plan(plans: Seq<PlanView>) -> PlanView {
    plans[first_min_index(plans.map_values(|p: PlanView| p.0))]
}

/// The creep (by name) and plan chosen for `task` among the first `k`
/// creeps: a creep that has a plan already is passed over, as is one for
/// which no plan exists; among the rest the first whose cheapest plan is
/// strictly cheapest wins.
pub open spec fn best_candidate(
    creeps: Seq<CreepInfo>,
    assigned: Map<Seq<char>, PlanId>,
    task: TaskAction,
    k: nat,
) -> Option<(Seq<char>, PlanView)>
    decreases k,
{
    if k == 0 || k > creeps.len() {
        None
    } else {
        let prev = best_candidate(creeps, assigned, task, (k - 1) as nat);
        let c = creeps[k - 1];
        let ps = plans_of(c, task);
        if assigned.dom().contains(c.name@) || ps.len() == 0 {
            prev
        } else {
            let cp = cheapest_plan(ps);
            match prev {
                Some(b) => if b.1.0 <= cp.0 { prev } else { Some((c.name@, cp)) },
                None => Some((c.name@, cp)),
            }
        }
    }
}

/// The dispatcher after the first `n` queued requests have been offered
/// to the creeps: the assignments, the plans, the requests kept for the
/// next tick, and how many plan ids have been used. A request that finds
/// a creep gets the next unused id; it stays queued only if it repeats. A
/// request that finds none stays queued.
pub open spec fn assign_requests(
    creeps: Seq<CreepInfo>,
    queue: Seq<TaskRequest>,
    ids: Seq<PlanId>,
    assigned0: Map<Seq<char>, PlanId>,
    plans0: Map<PlanId, PlanView>,
    n: nat,
) -> (Map<Seq<char>, PlanId>, Map<PlanId, PlanView>, Seq<TaskRequest>, nat)
    decreases n,
{
    if n == 0 || n > queue.len() {
        (assigned0, plans0, Seq::empty(), 0)
    } else {
        let prev = assign_requests(creeps, queue, ids, assigned0, plans0, (n - 1) as nat);
        let r = queue[n - 1];
        match best_candidate(creeps, prev.0, r.task, creeps.len()) {
            Some(b) => (
                prev.0.insert(b.0, ids[prev.3 as int]),
                prev.1.insert(ids[prev.3 as int], b.1),
                if r.repeating { prev.2.push(r) } else { prev.2 },
                prev.3 + 1,
            ),
            None => (prev.0, prev.1, prev.2.push(r), prev.3),
        }
    }
}

/// What happens to the plan of creep `name` after a tick: with no
/// assignment, nothing. A creep that is gone loses its assignment and its
/// plan; an assignment whose plan is missing is dropped; a plan with no
/// step left is complete and dropped with the assignment. Otherwise the
/// current step's outcome decides: in progress changes nothing, completed
/// moves to the next step, an error drops the plan and the assignment.
pub open spec fn outcome_step(
    assigned: Map<Seq<char>, PlanId>,
    plans: Map<PlanId, PlanView>,
    name: Seq<char>,
    creep_present: bool,
    outcome: TaskActionResult,
) -> (Map<Seq<char>, PlanId>, Map<PlanId, PlanView>) {
    if !assigned.dom().contains(name) {
        (assigned, plans)
    } else {
        let id = assigned[name];
        if !creep_present {
            (assigned.remove(name), plans.remove(id))
        } else if !plans.dom().contains(id) {
            (assigned.remove(name), plans)
        } else if plans[id].1.len() == 0 {
            (assigned.remove(name), plans.remove(id))
        } else {
            match outcome {
                TaskActionResult::InProgress => (assigned, plans),
                TaskActionResult::Completed => (
                    assigned,
                    plans.insert(id, (plans[id].0, plans[id].1.drop_first())),
                ),
                TaskActionResult::Error(_) => (assigned.remove(name), plans.remove(id)),
            }
        }
    }
}

/// The step creep `name` performs now: the first step of its plan.
pub open spec fn spec_current_action(
    assigned: Map<Seq<char>, PlanId>,
    plans: Map<PlanId, PlanView>,
    name: Seq<char>,
) -> Option<TaskAction> {
    if assigned.dom().contains(name) && plans.dom().contains(assigned[name])
        && plans[assigned[name]].1.len() > 0 {
        Some(plans[assigned[name]].1[0])
    } else {
        None
    }
}

pub(crate) proof fn lemma_best_candidate_is_free(
    creeps: Seq<CreepInfo>,
    assigned: Map<Seq<char>, PlanId>,
    task: TaskAction,
    k: nat,
)
    ensures
        best_candidate(creeps, assigned, task, k) matches Some(b) ==> !assigned.dom().contains(b.0),
        (forall|j: int| 0 <= j < creeps.len() ==> assigned.dom().contains(#[trigger] creeps[j].name@))
            ==> best_candidate(creeps, assigned, task, k) is None,
    decreases k,
{
    if k > 0 && k <= creeps.len() {
        lemma_best_candidate_is_free(creeps, assigned, task, (k - 1) as nat);
        if forall|j: int| 0 <= j < creeps.len() ==> assigned.dom().contains(#[trigger] creeps[j].name@) {
            assert(assigned.dom().contains(creeps[k - 1].name@));
        }
    }
}

/// A creep that already follows a plan keeps it: assigning the queue only
/// gives plans to creeps that had none.
pub proof fn lemma_busy_creeps_keep_their_plans(
    creeps: Seq<CreepInfo>,
    queue: Seq<TaskRequest>,
    ids: Seq<PlanId>,
    assigned0: Map<Seq<char>, PlanId>,
    plans0: Map<PlanId, PlanView>,
    n: nat,
)
    ensures
        forall|name: Seq<char>| #[trigger] assigned0.dom().contains(name) ==> {
            &&& assign_requests(creeps, queue, ids, assigned0, plans0, n).0.dom().contains(name)
            &&& assign_requests(creeps, queue, ids, assigned0, plans0, n).0[name] == assigned0[name]
        },
    decreases n,
{
    if n > 0 && n <= queue.len() {
        lemma_busy_creeps_keep_their_plans(creeps, queue, ids, assigned0, plans0, (n - 1) as nat);
        let prev = assign_requests(creeps, queue, ids, assigned0, plans0, (n - 1) as nat);
        lemma_best_candidate_is_free(creeps, prev.0, queue[n - 1].task, creeps.len());
    }
}

/// When every creep already follows a plan, assigning changes nothing:
/// every request stays queued, in order.
pub proof fn lemma_no_free_creep_keeps_queue(
    creeps: Seq<CreepInfo>,
    queue: Seq<TaskRequest>,
    ids: Seq<PlanId>,
    assigned0: Map<Seq<char>, PlanId>,
    plans0: Map<PlanId, PlanView>,
    n: nat,
)
    requires
        forall|j: int| 0 <= j < creeps.len() ==> assigned0.dom().contains(#[trigger] creeps[j].name@),
        n <= queue.len(),
    ensures
        assign_requests(creeps, queue, ids, assigned0, plans0, n) == (assigned0, plans0, queue.subrange(0, n as int), 0nat),
    decreases n,
{
    if n > 0 {
        lemma_no_free_creep_keeps_queue(creeps, queue, ids, assigned0, plans0, (n - 1) as nat);
        lemma_best_candidate_is_free(creeps, assigned0, queue[n - 1].task, creeps.len());
        assert(queue.subrange(0, n - 1).push(queue[n - 1]) =~= queue.subrange(0, n as int));
    }
}

/// Every creep that is given a plan can find it: its plan id names an
/// active plan.
pub proof fn lemma_new_assignments_have_plans(
    creeps: Seq<CreepInfo>,
    queue: Seq<TaskRequest>,
    ids: Seq<PlanId>,
    assigned0: Map<Seq<char>, PlanId>,
    plans0: Map<PlanId, PlanView>,
    n: nat,
)
    ensures
        forall|name: Seq<char>|
            #[trigger] assign_requests(creeps, queue, ids, assigned0, plans0, n).0.dom().contains(name)
                && !assigned0.dom().contains(name) ==> assign_requests(creeps, queue, ids, assigned0, plans0, n).1.dom().contains(
                assign_requests(creeps, queue, ids, assigned0, plans0, n).0[name],
            ),
    decreases n,
{
    if n > 0 && n <= queue.len() {
        lemma_new_assignments_have_plans(creeps, queue, ids, assigned0, plans0, (n - 1) as nat);
        let prev = assign_requests(creeps, queue, ids, assigned0, plans0, (n - 1) as nat);
        let cur = assign_requests(creeps, queue, ids, assigned0, plans0, n);
        assert forall|name: Seq<char>| #[trigger] cur.0.dom().contains(name) && !assigned0.dom().contains(name)
            implies cur.1.dom().contains(cur.0[name]) by {
            match best_candidate(creeps, prev.0, queue[n - 1].task, creeps.len()) {
                Some(b) => {
                    if name != b.0 {
                        assert(prev.0.dom().contains(name));
                        assert(prev.1.dom().contains(prev.0[name]));
                    }
                },
                None => {
                    assert(prev.0.dom().contains(name));
                },
            }
        }
    }
}

/// The first cheapest plan (`is_first_min` over the costs).
fn cheapest_index(plans: &Vec<TaskPlan>) -> (i: usize)
    requires
        plans@.len() > 0,
    ensures
        i < plans@.len(),
        plans_view(plans@)[i as int] == cheapest_plan(plans_view(plans@)),
{
    let ghost keys = plans_view(plans@).map_values(|p: PlanView| p.0);
    let mut best: usize = 0;
    let mut i: usize = 1;
    while i < plans.len()
        invariant
            1 <= i <= plans@.len(),
            keys == plans_view(plans@).map_values(|p: PlanView| p.0),
            best < i,
            crate::tasks::requirements::is_first_min(keys.subrange(0, i as int), best as int),
        decreases plans@.len() - i,
    {
        if plans[i].estimated_ticks < plans[best].estimated_ticks {
            best = i;
        }
        i = i + 1;
        assert(crate::tasks::requirements::is_first_min(keys.subrange(0, i as int), best as int));
    }
    assert(keys.subrange(0, i as int) == keys);
    proof {
        crate::tasks::requirements::lemma_first_min_unique(keys, best as int);
    }
    best
}

impl TaskDispatcher {
    /// Creep names are unique in the assignment table.
    pub closed spec fn wf(&self) -> bool {
        names_unique(self.assignments@)
    }

    /// The pending requests, oldest first.
    pub closed spec fn queue(&self) -> Seq<TaskRequest> {
        self.request_queue@
    }

    /// The active plans by id.
    pub closed spec fn plans(&self) -> Map<PlanId, PlanView> {
        plan_map(self.active_plans@)
    }

    /// The plan id of each assigned creep, by name.
    pub closed spec fn assignments(&self) -> Map<Seq<char>, PlanId> {
        name_table(self.assignments@)
    }

    /// A dispatcher with nothing queued, planned or assigned.
    pub fn new() -> (d: Self)
        ensures
            d.wf(),
            d.queue() == Seq::<TaskRequest>::empty(),
            d.plans() == Map::<PlanId, PlanView>::empty(),
            d.assignments() == Map::<Seq<char>, PlanId>::empty(),
    {
        let d = TaskDispatcher { request_queue: VecDeque::new(), active_plans: HashMap::new(), assignments: Vec::new() };
        assert(d.plans() =~= Map::<PlanId, PlanView>::empty());
        assert(d.assignments() =~= Map::<Seq<char>, PlanId>::empty());
        d
    }

    /// Submit a new task request to the scheduler.
    pub fn request(&mut self, request: TaskRequest)
        requires
            old(self).wf(),
        ensures
            final(self).wf(),
            final(self).queue() == old(self).queue().push(request),
            final(self).plans() == old(self).plans(),
            final(self).assignments() == old(self).assignments(),
    {
        self.request_queue.push_back(request);
    }

    /// The number of pending requests.
    pub fn pending_requests(&self) -> (n: usize)
        ensures
            n == self.queue().len(),
    {
        self.request_queue.len()
    }

    /// The creep names that have a plan assigned.
    pub fn assigned_creeps(&self) -> (names: Vec<String>)
        requires
            self.wf(),
        ensures
            forall|i: int, j: int| 0 <= i < names@.len() && 0 <= j < names@.len() && i != j ==> #[trigger] names@[i]@ != #[trigger] names@[j]@,
            forall|i: int| 0 <= i < names@.len() ==> self.assignments().dom().contains(#[trigger] names@[i]@),
            forall|n: Seq<char>| self.assignments().dom().contains(n) ==> exists|i: int| 0 <= i < names@.len() && #[trigger] names@[i]@ == n,
    {
        let mut names: Vec<String> = Vec::new();
        let mut i: usize = 0;
        while i < self.assignments.len()
            invariant
                self.wf(),
                i <= self.assignments@.len(),
                names@.len() == i,
                forall|j: int| 0 <= j < i ==> #[trigger] names@[j]@ == self.assignments@[j].0@,
            decreases self.assignments@.len() - i,
        {
            names.push(self.assignments[i].0.clone());
            i = i + 1;
        }
        proof {
            assert forall|j: int| 0 <= j < names@.len() implies self.assignments().dom().contains(#[trigger] names@[j]@) by {
                lemma_name_lookup(self.assignments@, j);
            }
            assert forall|n: Seq<char>| self.assignments().dom().contains(n) implies exists|i: int| 0 <= i < names@.len() && #[trigger] names@[i]@ == n by {
                let j = choose|j: int| 0 <= j < self.assignments@.len() && self.assignments@[j].0@ == n;
                assert(names@[j]@ == n);
            }
        }
        assert(names@.len() == self.assignments@.len());
        names
    }

    /// The step the creep performs now, if it has a plan with a step left.
    pub fn current_action(&self, creep_name: &String) -> (action: Option<TaskAction>)
        requires
            self.wf(),
        ensures
            action == spec_current_action(self.assignments(), self.plans(), creep_name@),
    {
        broadcast use vstd::std_specs::hash::group_hash_axioms;
        match find_name(&self.assignments, creep_name) {
            None => None,
            Some(i) => {
                proof { lemma_name_lookup(self.assignments@, i as int); }
                let id = self.assignments[i].1;
                match self.active_plans.get(&id) {
                    None => None,
                    Some(plan) => match plan.get_current_task() {
                        Some(a) => Some(*a),
                        None => None,
                    },
                }
            },
        }
    }

    /// Applies what happened to creep `creep_name` this tick: whether the
    /// creep still exists and, if it performed its current step, how that
    /// went (`outcome_step`).
    pub fn record_outcome(&mut self, creep_name: &String, creep_present: bool, outcome: TaskActionResult)
        requires
            old(self).wf(),
        ensures
            final(self).wf(),
            final(self).queue() == old(self).queue(),
            (final(self).assignments(), final(self).plans()) == outcome_step(
                old(self).assignments(),
                old(self).plans(),
                creep_name@,
                creep_present,
                outcome,
            ),
    {
        let i = match find_name(&self.assignments, creep_name) {
            None => {
                proof {
                    assert(!self.assignments().dom().contains(creep_name@));
                }
                return;
            },
            Some(i) => i,
        };
        proof { lemma_name_lookup(self.assignments@, i as int); }
        let plan_id = self.assignments[i].1;
        if !creep_present {
            remove_name(&mut self.assignments, creep_name);
            let _ = remove_plan(&mut self.active_plans, plan_id);
            return;
        }
        let taken = remove_plan(&mut self.active_plans, plan_id);
        match taken {
            None => {
                remove_name(&mut self.assignments, creep_name);
            },
            Some(mut plan) => {
                if plan.is_complete() {
                    // plan completed
                    remove_name(&mut self.assignments, creep_name);
                } else {
                    match outcome {
                        TaskActionResult::InProgress => {
                            insert_plan(&mut self.active_plans, plan_id, plan);
                            proof {
                                assert(self.plans() =~= old(self).plans());
                            }
                        },
                        TaskActionResult::Completed => {
                            plan.advance_step();
                            insert_plan(&mut self.active_plans, plan_id, plan);
                            proof {
                                assert(self.plans() =~= old(self).plans().insert(plan_id, (old(self).plans()[plan_id].0, old(self).plans()[plan_id].1.drop_first())));
                            }
                        },
                        TaskActionResult::Error(_) => {
                            remove_name(&mut self.assignments, creep_name);
                        },
                    }
                }
            },
        }
    }

    /// Offers every queued request to the creeps that have no plan yet:
    /// each request goes to the creep that can complete it soonest
    /// (`assign_requests`), taking the next id of `plan_ids`.
    pub fn assign_from_request_queue(&mut self, creeps: &Vec<CreepInfo>, plan_ids: &Vec<PlanId>)
        requires
            old(self).wf(),
            plan_ids@.len() >= old(self).queue().len(),
            forall|k: int| 0 <= k < creeps@.len() ==> #[trigger] creeps@[k].wf(),
            forall|k: int, q: int|
                0 <= k < creeps@.len() && 0 <= q < old(self).queue().len()
                    && !assign_requests(
                    creeps@,
                    old(self).queue(),
                    plan_ids@,
                    old(self).assignments(),
                    old(self).plans(),
                    q as nat,
                ).0.dom().contains(creeps@[k].name@) ==> resolvable(
                    #[trigger] creeps@[k],
                    #[trigger] old(self).queue()[q].task,
                ),
        ensures
            final(self).wf(),
            ({
                let r = assign_requests(
                    creeps@,
                    old(self).queue(),
                    plan_ids@,
                    old(self).assignments(),
                    old(self).plans(),
                    old(self).queue().len(),
                );
                &&& final(self).assignments() == r.0
                &&& final(self).plans() == r.1
                &&& final(self).queue() == r.2
            }),
    {
        let ghost a0 = self.assignments();
        let ghost p0 = self.plans();
        let ghost queue = self.queue();
        let ghost cs = creeps@;
        let ghost ids = plan_ids@;
        let mut remaining: VecDeque<TaskRequest> = VecDeque::new();
        let mut used: usize = 0;
        let mut q: usize = 0;
        let qlen = self.request_queue.len();
        while q < qlen
            invariant
                self.wf(),
                qlen == queue.len(),
                queue == self.request_queue@,
                cs == creeps@,
                ids == plan_ids@,
                ids.len() >= queue.len(),
                q <= qlen,
                forall|k: int| 0 <= k < cs.len() ==> #[trigger] cs[k].wf(),
                forall|k: int, j: int|
                    0 <= k < cs.len() && 0 <= j < queue.len()
                        && !assign_requests(cs, queue, ids, a0, p0, j as nat).0.dom().contains(cs[k].name@)
                        ==> resolvable(#[trigger] cs[k], #[trigger] queue[j].task),
                a0.dom().subset_of(self.assignments().dom()),
                ({
                    let r = assign_requests(cs, queue, ids, a0, p0, q as nat);
                    &&& self.assignments() == r.0
                    &&& self.plans() == r.1
                    &&& remaining@ == r.2
                    &&& used == r.3
                }),
                used <= q,
            decreases qlen - q,
        {
            let request = self.request_queue[q];
            let ghost cur = self.assignments();
            assert forall|k: int| 0 <= k < cs.len() && !cur.dom().contains(cs[k].name@)
                implies resolvable(#[trigger] cs[k], request.task) by {
                assert(resolvable(cs[k], queue[q as int].task));
            }
            // find the best suitable (creep, plan) pair for this request
            let mut best: Option<(usize, TaskPlan)> = None;
            let mut k: usize = 0;
            while k < creeps.len()
                invariant
                    self.wf(),
                    cs == creeps@,
                    cur == self.assignments(),
                    request == queue[q as int],
                    q < queue.len(),
                    k <= cs.len(),
                    forall|k: int| 0 <= k < cs.len() ==> #[trigger] cs[k].wf(),
                    forall|k: int|
                        0 <= k < cs.len() && !cur.dom().contains(cs[k].name@)
                            ==> resolvable(#[trigger] cs[k], request.task),
                    a0.dom().subset_of(cur.dom()),
                    match best {
                        Some(b) => b.0 < k && best_candidate(cs, cur, request.task, k as nat) == Some((cs[b.0 as int].name@, b.1.view())),
                        None => best_candidate(cs, cur, request.task, k as nat) is None,
                    },
                decreases cs.len() - k,
            {
                let creep = &creeps[k];
                if find_name(&self.assignments, &creep.name).is_some() {
                    // already assigned
                    proof {
                        let i = choose|i: int| 0 <= i < self.assignments@.len() && self.assignments@[i].0@ == creep.name@;
                        lemma_name_lookup(self.assignments@, i);
                    }
                    k = k + 1;
                    continue;
                }
                proof {
                    assert(!cur.dom().contains(creep.name@)) by {
                        if cur.dom().contains(creep.name@) {
                            let i = choose|i: int| 0 <= i < self.assignments@.len() && self.assignments@[i].0@ == creep.name@;
                        }
                    }
                    assert(resolvable(cs[k as int], queue[q as int].task));
                }
                let mut plans = resolve_task_tree(creep, request.task);
                if plans.len() == 0 {
                    // no route possible for this creep
                    k = k + 1;
                    continue;
                }
                // select the cheapest plan
                let idx = cheapest_index(&plans);
                let replace = match &best {
                    Some(b) => !(b.1.estimated_ticks <= plans[idx].estimated_ticks),
                    None => true,
                };
                if replace {
                    let cheapest = plans.remove(idx);
                    best = Some((k, cheapest));
                }
                k = k + 1;
            }
            let ghost before = assign_requests(cs, queue, ids, a0, p0, q as nat);
            match best {
                Some(b) => {
                    let (creep_index, plan) = b;
                    let plan_id = plan_ids[used];
                    insert_plan(&mut self.active_plans, plan_id, plan);
                    insert_name(&mut self.assignments, creeps[creep_index].name.clone(), plan_id);
                    used = used + 1;
                    if request.repeating {
                        remaining.push_back(request);
                    }
                },
                None => {
                    remaining.push_back(request);
                },
            }
            q = q + 1;
        }
        self.request_queue = remaining;
    }
}

impl Default for TaskDispatcher {
    fn default() -> (d: Self)
        ensures
            d.wf(),
            d.queue() == Seq::<TaskRequest>::empty(),
            d.plans() == Map::<PlanId, PlanView>::empty(),
            d.assignments() == Map::<Seq<char>, PlanId>::empty(),
    {
        Self::new()
    }
}

} // verus!
