//! What the dispatcher keeps true of its tables over assigning requests and
//! over whole ticks of plan steps.
use vstd::prelude::*;
use crate::model::CreepInfo;
use crate::tasks::actions::TaskActionResult;
use crate::tasks::resolver::task_plan::PlanView;
use crate::tasks::requirements::{first_min_index, is_first_min, lemma_first_min_exists};
use crate::tasks::resolver::resolve::plans_of;
use crate::tasks::task_dispatcher::{
    assign_requests, best_candidate, cheapest_plan, lemma_best_candidate_is_free, outcome_step, PlanId,
};
use crate::tasks::task_request::TaskRequest;

verus! {

/// No two creeps share a plan id.
pub open spec fn ids_injective(assigned: Map<Seq<char>, PlanId>) -> bool {
    forall|n: Seq<char>, m: Seq<char>|
        assigned.dom().contains(n) && assigned.dom().contains(m) && n != m
            ==> #[trigger] assigned[n] != #[trigger] assigned[m]
}

/// The tables agree: every assigned plan id names an active plan, and no
/// two creeps share a plan id.
pub open spec fn tables_consistent(assigned: Map<Seq<char>, PlanId>, plans: Map<PlanId, PlanView>) -> bool {
    &&& forall|n: Seq<char>| #[trigger] assigned.dom().contains(n) ==> plans.dom().contains(assigned[n])
    &&& ids_injective(assigned)
}

/// The first `n` ids are new: none names an active plan, and no two are
/// equal.
pub open spec fn fresh_ids(ids: Seq<PlanId>, plans: Map<PlanId, PlanView>, n: nat) -> bool {
    &&& forall|i: int| 0 <= i < n ==> !plans.dom().contains(#[trigger] ids[i])
    &&& forall|i: int, j: int| 0 <= i < n && 0 <= j < n && i != j ==> #[trigger] ids[i] != #[trigger] ids[j]
}

/// What happened to one creep in a tick: its name, whether it still
/// exists, and the outcome of its current step.
pub type PlanEvent = (Seq<char>, bool, TaskActionResult);

/// The tables after the events of a tick, one creep after the other
/// (`outcome_step`).
pub open spec fn outcome_steps(
    assigned: Map<Seq<char>, PlanId>,
    plans: Map<PlanId, PlanView>,
    events: Seq<PlanEvent>,
) -> (Map<Seq<char>, PlanId>, Map<PlanId, PlanView>)
    decreases events.len(),
{
    if events.len() == 0 {
        (assigned, plans)
    } else {
        let prev = outcome_steps(assigned, plans, events.drop_last());
        let e = events.last();
        outcome_step(prev.0, prev.1, e.0, e.1, e.2)
    }
}

/// The tables after a sequence of ticks.
pub open spec fn run_ticks(
    assigned: Map<Seq<char>, PlanId>,
    plans: Map<PlanId, PlanView>,
    ticks: Seq<Seq<PlanEvent>>,
) -> (Map<Seq<char>, PlanId>, Map<PlanId, PlanView>)
    decreases ticks.len(),
{
    if ticks.len() == 0 {
        (assigned, plans)
    } else {
        let s = outcome_steps(assigned, plans, ticks[0]);
        run_ticks(s.0, s.1, ticks.drop_first())
    }
}

/// In the tick, creep `n` shows up exactly once: alive, its step
/// completed.
pub open spec fn completes_once(events: Seq<PlanEvent>, n: Seq<char>) -> bool {
    exists|j: int|
        0 <= j < events.len() && #[trigger] events[j] == (n, true, TaskActionResult::Completed) && forall|i: int|
            0 <= i < events.len() && i != j ==> (#[trigger] events[i]).0 != n
}

/// The state of the tables during assignment: consistent, holding every
/// old entry, and with new plan ids taken from the first `r.3` ids.
spec fn assign_inv(
    a0: Map<Seq<char>, PlanId>,
    p0: Map<PlanId, PlanView>,
    ids: Seq<PlanId>,
    r: (Map<Seq<char>, PlanId>, Map<PlanId, PlanView>, Seq<TaskRequest>, nat),
    n: nat,
) -> bool {
    &&& tables_consistent(r.0, r.1)
    &&& a0.submap_of(r.0)
    &&& p0.submap_of(r.1)
    &&& r.3 <= n
    &&& forall|id: PlanId| #[trigger] r.1.dom().contains(id)
        ==> p0.dom().contains(id) || exists|i: int| 0 <= i < r.3 && ids[i] == id
}

proof fn lemma_assign_inv(
    creeps: Seq<CreepInfo>,
    queue: Seq<TaskRequest>,
    ids: Seq<PlanId>,
    a0: Map<Seq<char>, PlanId>,
    p0: Map<PlanId, PlanView>,
    n: nat,
    bound: nat,
)
    requires
        tables_consistent(a0, p0),
        fresh_ids(ids, p0, bound),
        n <= bound,
    ensures
        assign_inv(a0, p0, ids, assign_requests(creeps, queue, ids, a0, p0, n), n),
    decreases n,
{
    if n == 0 || n > queue.len() {
        let r = assign_requests(creeps, queue, ids, a0, p0, n);
        assert(r.0 == a0 && r.1 == p0 && r.3 == 0);
    } else {
        lemma_assign_inv(creeps, queue, ids, a0, p0, (n - 1) as nat, bound);
        let prev = assign_requests(creeps, queue, ids, a0, p0, (n - 1) as nat);
        let r = assign_requests(creeps, queue, ids, a0, p0, n);
        let task = queue[n - 1].task;
        lemma_best_candidate_is_free(creeps, prev.0, task, creeps.len());
        match best_candidate(creeps, prev.0, task, creeps.len()) {
            Some(b) => {
                let id = ids[prev.3 as int];
                assert(!prev.1.dom().contains(id)) by {
                    if prev.1.dom().contains(id) {
                        if !p0.dom().contains(id) {
                            let i = choose|i: int| 0 <= i < prev.3 && ids[i] == id;
                            assert(ids[i] != ids[prev.3 as int]);
                        }
                    }
                }
                assert forall|x: Seq<char>| #[trigger] r.0.dom().contains(x) implies r.1.dom().contains(r.0[x]) by {
                    if x != b.0 {
                        assert(prev.0.dom().contains(x));
                    }
                }
                assert forall|x: Seq<char>, y: Seq<char>|
                    r.0.dom().contains(x) && r.0.dom().contains(y) && x != y implies #[trigger] r.0[x] != #[trigger] r.0[y] by {
                    if x == b.0 {
                        assert(prev.1.dom().contains(prev.0[y]));
                    } else if y == b.0 {
                        assert(prev.1.dom().contains(prev.0[x]));
                    } else {
                        assert(prev.0[x] != prev.0[y]);
                    }
                }
                assert forall|x: Seq<char>| #[trigger] a0.dom().contains(x) implies r.0.dom().contains(x) && r.0[x] == a0[x] by {
                    assert(prev.0.dom().contains(x));
                }
                assert forall|x: PlanId| #[trigger] p0.dom().contains(x) implies r.1.dom().contains(x) && r.1[x] == p0[x] by {
                    assert(prev.1.dom().contains(x));
                }
                assert forall|x: PlanId| #[trigger] r.1.dom().contains(x)
                    implies p0.dom().contains(x) || exists|i: int| 0 <= i < r.3 && ids[i] == x by {
                    if x == id {
                        assert(ids[prev.3 as int] == x);
                    } else {
                        assert(prev.1.dom().contains(x));
                        if !p0.dom().contains(x) {
                            let i = choose|i: int| 0 <= i < prev.3 && ids[i] == x;
                            assert(0 <= i < r.3 && ids[i] == x);
                        }
                    }
                }
            },
            None => {
                assert(r.0 == prev.0 && r.1 == prev.1 && r.3 == prev.3);
            },
        }
    }
}

/// Assigning the queue keeps the tables consistent, given plan ids that
/// are new: every assigned plan id still names an active plan, no two
/// creeps share one, and every old assignment and plan stays as it was.
pub proof fn lemma_assignment_keeps_tables_consistent(
    creeps: Seq<CreepInfo>,
    queue: Seq<TaskRequest>,
    ids: Seq<PlanId>,
    assigned0: Map<Seq<char>, PlanId>,
    plans0: Map<PlanId, PlanView>,
)
    requires
        tables_consistent(assigned0, plans0),
        fresh_ids(ids, plans0, queue.len()),
    ensures
        ({
            let r = assign_requests(creeps, queue, ids, assigned0, plans0, queue.len());
            &&& tables_consistent(r.0, r.1)
            &&& assigned0.submap_of(r.0)
            &&& plans0.submap_of(r.1)
        }),
{
    lemma_assign_inv(creeps, queue, ids, assigned0, plans0, queue.len(), queue.len());
}

/// What one creep's step leaves of the tables: no new creep or plan, and
/// no creep's plan id changed.
proof fn lemma_step_shrinks(
    a: Map<Seq<char>, PlanId>,
    p: Map<PlanId, PlanView>,
    e: PlanEvent,
)
    ensures
        ({
            let r = outcome_step(a, p, e.0, e.1, e.2);
            &&& r.0.dom().subset_of(a.dom())
            &&& r.1.dom().subset_of(p.dom())
            &&& forall|m: Seq<char>| #[trigger] r.0.dom().contains(m) ==> r.0[m] == a[m]
        }),
{
}

/// The tables after the first events of a tick: no creep or plan is
/// added, no plan id changes, and every creep whose event has been seen
/// and that kept its plan id finds its plan.
proof fn lemma_steps_prefix(
    a: Map<Seq<char>, PlanId>,
    p: Map<PlanId, PlanView>,
    events: Seq<PlanEvent>,
)
    requires
        ids_injective(a),
    ensures
        ({
            let r = outcome_steps(a, p, events);
            &&& r.0.dom().subset_of(a.dom())
            &&& r.1.dom().subset_of(p.dom())
            &&& forall|m: Seq<char>| #[trigger] r.0.dom().contains(m) ==> r.0[m] == a[m]
            &&& forall|m: Seq<char>|
                #[trigger] r.0.dom().contains(m) && (exists|i: int| 0 <= i < events.len() && events[i].0 == m)
                    ==> r.1.dom().contains(r.0[m])
        }),
    decreases events.len(),
{
    if events.len() > 0 {
        let rest = events.drop_last();
        lemma_steps_prefix(a, p, rest);
        let prev = outcome_steps(a, p, rest);
        let e = events.last();
        let r = outcome_steps(a, p, events);
        lemma_step_shrinks(prev.0, prev.1, e);
        assert forall|m: Seq<char>|
            #[trigger] r.0.dom().contains(m) && (exists|i: int| 0 <= i < events.len() && events[i].0 == m)
                implies r.1.dom().contains(r.0[m]) by {
            let i = choose|i: int| 0 <= i < events.len() && events[i].0 == m;
            assert(prev.0.dom().contains(m));
            if m == e.0 {
                // the creep kept its assignment, so its plan was there and stays
            } else {
                assert(rest[i] == events[i]);
                assert(prev.1.dom().contains(prev.0[m]));
                if prev.0.dom().contains(e.0) {
                    assert(prev.0[e.0] != prev.0[m]);
                }
            }
        }
    }
}

/// A tick in which every assigned creep takes its turn leaves the tables
/// consistent, given that no two creeps share a plan id: no creep or plan
/// is added, and every creep that keeps an assignment finds its plan.
pub proof fn lemma_tick_keeps_tables_consistent(
    assigned: Map<Seq<char>, PlanId>,
    plans: Map<PlanId, PlanView>,
    events: Seq<PlanEvent>,
)
    requires
        ids_injective(assigned),
        forall|m: Seq<char>| #[trigger] assigned.dom().contains(m)
            ==> exists|i: int| 0 <= i < events.len() && events[i].0 == m,
    ensures
        ({
            let r = outcome_steps(assigned, plans, events);
            &&& r.0.dom().subset_of(assigned.dom())
            &&& r.1.dom().subset_of(plans.dom())
            &&& tables_consistent(r.0, r.1)
        }),
{
    lemma_steps_prefix(assigned, plans, events);
    let r = outcome_steps(assigned, plans, events);
    assert forall|m: Seq<char>| #[trigger] r.0.dom().contains(m) implies r.1.dom().contains(r.0[m]) by {
        assert(assigned.dom().contains(m));
    }
    assert forall|x: Seq<char>, y: Seq<char>|
        r.0.dom().contains(x) && r.0.dom().contains(y) && x != y implies #[trigger] r.0[x] != #[trigger] r.0[y] by {
        assert(assigned[x] != assigned[y]);
    }
}

/// `outcome_steps` over two runs of events is the second run applied to
/// the tables the first leaves.
proof fn lemma_steps_concat(
    a: Map<Seq<char>, PlanId>,
    p: Map<PlanId, PlanView>,
    x: Seq<PlanEvent>,
    y: Seq<PlanEvent>,
)
    ensures
        outcome_steps(a, p, x + y) == ({
            let s = outcome_steps(a, p, x);
            outcome_steps(s.0, s.1, y)
        }),
    decreases y.len(),
{
    if y.len() > 0 {
        lemma_steps_concat(a, p, x, y.drop_last());
        assert((x + y).drop_last() == x + y.drop_last());
        assert((x + y).last() == y.last());
    }
}

/// Events of other creeps leave creep `n`, its plan id `id` and that plan
/// as they were, as long as no other creep holds `id`.
proof fn lemma_others_keep_plan(
    a: Map<Seq<char>, PlanId>,
    p: Map<PlanId, PlanView>,
    n: Seq<char>,
    id: PlanId,
    events: Seq<PlanEvent>,
)
    requires
        forall|m: Seq<char>| #[trigger] a.dom().contains(m) && m != n ==> a[m] != id,
        a.dom().contains(n) ==> a[n] == id,
        forall|i: int| 0 <= i < events.len() ==> (#[trigger] events[i]).0 != n,
    ensures
        ({
            let r = outcome_steps(a, p, events);
            &&& r.0.dom().subset_of(a.dom())
            &&& forall|m: Seq<char>| #[trigger] r.0.dom().contains(m) ==> r.0[m] == a[m]
            &&& r.0.dom().contains(n) == a.dom().contains(n)
            &&& r.1.dom().contains(id) == p.dom().contains(id)
            &&& p.dom().contains(id) ==> r.1[id] == p[id]
        }),
    decreases events.len(),
{
    if events.len() > 0 {
        let rest = events.drop_last();
        assert forall|i: int| 0 <= i < rest.len() implies (#[trigger] rest[i]).0 != n by {
            assert(rest[i] == events[i]);
        }
        lemma_others_keep_plan(a, p, n, id, rest);
        let prev = outcome_steps(a, p, rest);
        lemma_step_shrinks(prev.0, prev.1, events.last());
        assert(events[events.len() - 1].0 != n);
    }
}

/// One tick in which creep `n` completes its current step: a plan with
/// steps left loses its first step; an empty plan is dropped with the
/// assignment.
proof fn lemma_tick_completes_step(
    a: Map<Seq<char>, PlanId>,
    p: Map<PlanId, PlanView>,
    n: Seq<char>,
    id: PlanId,
    events: Seq<PlanEvent>,
)
    requires
        forall|m: Seq<char>| #[trigger] a.dom().contains(m) && m != n ==> a[m] != id,
        a.dom().contains(n),
        a[n] == id,
        p.dom().contains(id),
        completes_once(events, n),
    ensures
        ({
            let r = outcome_steps(a, p, events);
            &&& r.0.dom().subset_of(a.dom())
            &&& forall|m: Seq<char>| #[trigger] r.0.dom().contains(m) ==> r.0[m] == a[m]
            &&& p[id].1.len() == 0 ==> !r.0.dom().contains(n) && !r.1.dom().contains(id)
            &&& p[id].1.len() > 0 ==> {
                &&& r.0.dom().contains(n)
                &&& r.1.dom().contains(id)
                &&& r.1[id].1.len() == p[id].1.len() - 1
            }
        }),
{
    let j = choose|j: int|
        0 <= j < events.len() && #[trigger] events[j] == (n, true, TaskActionResult::Completed) && forall|i: int|
            0 <= i < events.len() && i != j ==> (#[trigger] events[i]).0 != n;
    let x = events.subrange(0, j);
    let y = events.subrange(j + 1, events.len() as int);
    let e = events[j];
    assert(events == x.push(e) + y);
    assert forall|i: int| 0 <= i < x.len() implies (#[trigger] x[i]).0 != n by {
        assert(x[i] == events[i]);
    }
    assert forall|i: int| 0 <= i < y.len() implies (#[trigger] y[i]).0 != n by {
        assert(y[i] == events[j + 1 + i]);
    }
    lemma_steps_concat(a, p, x.push(e), y);
    lemma_others_keep_plan(a, p, n, id, x);
    let s1 = outcome_steps(a, p, x);
    assert(x.push(e).drop_last() == x);
    let s2 = outcome_steps(a, p, x.push(e));
    lemma_step_shrinks(s1.0, s1.1, e);
    assert forall|m: Seq<char>| #[trigger] s2.0.dom().contains(m) && m != n implies s2.0[m] != id by {
        assert(a.dom().contains(m));
    }
    lemma_others_keep_plan(s2.0, s2.1, n, id, y);
}

/// A plan whose every step completes is done after as many ticks as it
/// has steps, and the tick after drops it: given creep `n` holds plan
/// `id` with `ticks.len() - 1` steps, no other creep holds `id`, and in
/// each tick `n` takes its turn once, alive and completing its step, then
/// after the ticks neither the assignment nor the plan is left.
pub proof fn lemma_completed_plan_is_dropped(
    assigned: Map<Seq<char>, PlanId>,
    plans: Map<PlanId, PlanView>,
    n: Seq<char>,
    id: PlanId,
    ticks: Seq<Seq<PlanEvent>>,
)
    requires
        forall|m: Seq<char>| #[trigger] assigned.dom().contains(m) && m != n ==> assigned[m] != id,
        assigned.dom().contains(n),
        assigned[n] == id,
        plans.dom().contains(id),
        ticks.len() == plans[id].1.len() + 1,
        forall|t: int| 0 <= t < ticks.len() ==> completes_once(#[trigger] ticks[t], n),
    ensures
        !run_ticks(assigned, plans, ticks).0.dom().contains(n),
        !run_ticks(assigned, plans, ticks).1.dom().contains(id),
    decreases ticks.len(),
{
    assert(completes_once(ticks[0], n));
    lemma_tick_completes_step(assigned, plans, n, id, ticks[0]);
    let s = outcome_steps(assigned, plans, ticks[0]);
    let rest = ticks.drop_first();
    if plans[id].1.len() == 0 {
        assert(rest.len() == 0);
        assert(run_ticks(s.0, s.1, rest) == s);
    } else {
        assert forall|t: int| 0 <= t < rest.len() implies completes_once(#[trigger] rest[t], n) by {
            assert(rest[t] == ticks[t + 1]);
        }
        assert forall|m: Seq<char>| #[trigger] s.0.dom().contains(m) && m != n implies s.0[m] != id by {
            assert(assigned.dom().contains(m));
        }
        lemma_completed_plan_is_dropped(s.0, s.1, n, id, rest);
    }
}

/// The cheapest of a creep's plans costs no more than any of them, and
/// less than every plan listed before it.
pub proof fn lemma_cheapest_plan_costs_least(plans: Seq<PlanView>) -> (i: int)
    requires
        plans.len() > 0,
    ensures
        0 <= i < plans.len(),
        cheapest_plan(plans) == plans[i],
        forall|j: int| 0 <= j < plans.len() ==> cheapest_plan(plans).0 <= (#[trigger] plans[j]).0,
        forall|j: int| 0 <= j < i ==> cheapest_plan(plans).0 < (#[trigger] plans[j]).0,
{
    let keys = plans.map_values(|p: PlanView| p.0);
    lemma_first_min_exists(keys);
    let i = first_min_index(keys);
    assert(is_first_min(keys, i));
    assert forall|j: int| 0 <= j < plans.len() implies cheapest_plan(plans).0 <= (#[trigger] plans[j]).0 by {
        assert(keys[j] == plans[j].0);
    }
    assert forall|j: int| 0 <= j < i implies cheapest_plan(plans).0 < (#[trigger] plans[j]).0 by {
        assert(keys[j] == plans[j].0);
    }
    i
}

/// A request goes to the creep that can complete it soonest: the chosen
/// creep has no plan yet, has some plan for the task, and its cheapest
/// plan costs no more than the cheapest plan of any other such creep, and
/// less than that of every such creep before it. Where no creep is
/// chosen, none is free with a plan.
pub proof fn lemma_best_candidate_is_cheapest(
    creeps: Seq<CreepInfo>,
    assigned: Map<Seq<char>, PlanId>,
    task: crate::tasks::actions::TaskAction,
    k: nat,
) -> (b: int)
    requires
        k <= creeps.len(),
    ensures
        match best_candidate(creeps, assigned, task, k) {
            Some(chosen) => {
                &&& 0 <= b < k
                &&& chosen.0 == creeps[b].name@
                &&& !assigned.dom().contains(creeps[b].name@)
                &&& plans_of(creeps[b], task).len() > 0
                &&& chosen.1 == cheapest_plan(plans_of(creeps[b], task))
                &&& forall|j: int|
                    0 <= j < k && !assigned.dom().contains(#[trigger] creeps[j].name@)
                        && plans_of(creeps[j], task).len() > 0
                        ==> chosen.1.0 <= cheapest_plan(plans_of(creeps[j], task)).0
                &&& forall|j: int|
                    0 <= j < b && !assigned.dom().contains(#[trigger] creeps[j].name@)
                        && plans_of(creeps[j], task).len() > 0
                        ==> chosen.1.0 < cheapest_plan(plans_of(creeps[j], task)).0
            },
            None => forall|j: int|
                0 <= j < k ==> assigned.dom().contains(#[trigger] creeps[j].name@)
                    || plans_of(creeps[j], task).len() == 0,
        },
    decreases k,
{
    if k == 0 {
        0
    } else {
        let prev_b = lemma_best_candidate_is_cheapest(creeps, assigned, task, (k - 1) as nat);
        let prev = best_candidate(creeps, assigned, task, (k - 1) as nat);
        let c = creeps[k - 1];
        if assigned.dom().contains(c.name@) || plans_of(c, task).len() == 0 {
            prev_b
        } else {
            match prev {
                Some(pb) => if pb.1.0 <= cheapest_plan(plans_of(c, task)).0 { prev_b } else { k - 1 },
                None => k - 1,
            }
        }
    }
}

} // verus!
