//! The earlier task-tree planner.
//!
//! It differs from `resolve`: every plan starts at the action's own
//! estimate (which is added again at the end), the steps that meet a
//! requirement go before the steps gathered so far, and a requirement that
//! leaves no plan does not end the resolution early.
use vstd::prelude::*;
use crate::model::CreepInfo;
use crate::tasks::actions::TaskAction;
use crate::tasks::resolver::resolve::{concat_steps, finalize, partial_view, partials_view};
use crate::tasks::resolver::task_plan::PlanView;

verus! {

/// A plan: its cost and its steps, first step first.
#[derive(Debug)]
pub struct TaskPlan {
    pub cost: usize,
    pub tasks: Vec<TaskAction>,
}

impl TaskPlan {
    pub open spec fn view(&self) -> PlanView {
        (self.cost as int, self.tasks@)
    }
}

/// Every plan of `plans` extended by every plan of `subs`, with the
/// sub-plan's steps first.
pub open spec fn combine_prepend(plans: Seq<PlanView>, subs: Seq<PlanView>) -> Seq<PlanView>
    decreases plans.len(),
{
    if plans.len() == 0 {
        Seq::empty()
    } else {
        combine_prepend(plans.drop_last(), subs) + subs.map_values(
            |s: PlanView| (plans.last().0 + s.0, s.1 + plans.last().1),
        )
    }
}

/// The plans of `task`: starting from one plan that costs the task's
/// estimate, the partial plans after every requirement, each finished
/// with the task and its estimate once more.
pub open spec fn plans_v(c: CreepInfo, task: TaskAction) -> Seq<PlanView>
    decreases task.rank(), 2nat, 0int,
{
    finalize(
        fold_requirements_v(c, task, 0, seq![(task.spec_estimate(c), Seq::<TaskAction>::empty())]),
        task,
        task.spec_estimate(c),
    )
}

pub open spec fn fold_requirements_v(c: CreepInfo, task: TaskAction, i: nat, plans: Seq<PlanView>) -> Seq<PlanView>
    decreases task.rank(), 1nat, task.requirements().len() - i,
{
    let reqs = task.requirements();
    if i >= reqs.len() {
        plans
    } else if reqs[i as int].meets(c) {
        fold_requirements_v(c, task, i + 1, plans)
    } else {
        match reqs[i as int].spec_to_meet(c) {
            None => Seq::empty(),
            Some(acts) => fold_requirements_v(
                c,
                task,
                i + 1,
                combine_prepend(plans, sub_plans_v(c, task.rank(), acts, 0)),
            ),
        }
    }
}

pub open spec fn sub_plans_v(c: CreepInfo, bound: nat, acts: Seq<TaskAction>, j: nat) -> Seq<PlanView>
    decreases bound, 0nat, acts.len() - j,
{
    if j >= acts.len() {
        Seq::empty()
    } else {
        (if acts[j as int].rank() < bound {
            plans_v(c, acts[j as int])
        } else {
            Seq::empty()
        }) + sub_plans_v(c, bound, acts, j + 1)
    }
}

/// The inputs on which this planner neither divides by zero nor overflows.
pub open spec fn resolvable_v(c: CreepInfo, task: TaskAction) -> bool
    decreases task.rank(), 2nat, 0int,
{
    let seed = seq![(task.spec_estimate(c), Seq::<TaskAction>::empty())];
    let partial = fold_requirements_v(c, task, 0, seed);
    &&& task.estimate_defined(c)
    &&& requirements_resolvable_v(c, task, 0, seed)
    &&& forall|k: int|
        0 <= k < partial.len() ==> #[trigger] partial[k].0 + task.spec_estimate(c) <= usize::MAX
}

pub open spec fn requirements_resolvable_v(c: CreepInfo, task: TaskAction, i: nat, plans: Seq<PlanView>) -> bool
    decreases task.rank(), 1nat, task.requirements().len() - i,
{
    let reqs = task.requirements();
    if i >= reqs.len() {
        true
    } else if reqs[i as int].meets(c) {
        requirements_resolvable_v(c, task, i + 1, plans)
    } else {
        match reqs[i as int].spec_to_meet(c) {
            None => true,
            Some(acts) => {
                let subs = sub_plans_v(c, task.rank(), acts, 0);
                &&& plans.len() > 0 ==> {
                    &&& subs_resolvable_v(c, task.rank(), acts, 0)
                    &&& forall|p: int, s: int|
                        0 <= p < plans.len() && 0 <= s < subs.len() ==> #[trigger] plans[p].0
                            + #[trigger] subs[s].0 <= usize::MAX
                }
                &&& requirements_resolvable_v(c, task, i + 1, combine_prepend(plans, subs))
            },
        }
    }
}

pub open spec fn subs_resolvable_v(c: CreepInfo, bound: nat, acts: Seq<TaskAction>, j: nat) -> bool
    decreases bound, 0nat, acts.len() - j,
{
    if j >= acts.len() {
        true
    } else {
        &&& (acts[j as int].rank() < bound ==> resolvable_v(c, acts[j as int]))
        &&& subs_resolvable_v(c, bound, acts, j + 1)
    }
}

pub open spec fn vplans_view(v: Seq<TaskPlan>) -> Seq<PlanView> {
    v.map_values(|p: TaskPlan| p.view())
}

/// Every partial plan extended by every sub-plan, sub-plan steps first.
fn combine_prepend_exec(
    plans: &Vec<(usize, Vec<TaskAction>)>,
    subs: &Vec<(usize, Vec<TaskAction>)>,
) -> (r: Vec<(usize, Vec<TaskAction>)>)
    requires
        forall|p: int, s: int|
            0 <= p < plans@.len() && 0 <= s < subs@.len() ==> #[trigger] partials_view(plans@)[p].0
                + #[trigger] partials_view(subs@)[s].0 <= usize::MAX,
    ensures
        partials_view(r@) == combine_prepend(partials_view(plans@), partials_view(subs@)),
{
    let ghost pv = partials_view(plans@);
    let ghost sv = partials_view(subs@);
    let mut r: Vec<(usize, Vec<TaskAction>)> = Vec::new();
    let mut p: usize = 0;
    while p < plans.len()
        invariant
            p <= plans@.len(),
            pv == partials_view(plans@),
            sv == partials_view(subs@),
            forall|p: int, s: int|
                0 <= p < plans@.len() && 0 <= s < subs@.len() ==> #[trigger] pv[p].0 + #[trigger] sv[s].0 <= usize::MAX,
            partials_view(r@) == combine_prepend(pv.subrange(0, p as int), sv),
        decreases plans@.len() - p,
    {
        let ghost before = partials_view(r@);
        let ghost f = |s: PlanView| (pv[p as int].0 + s.0, s.1 + pv[p as int].1);
        let mut s: usize = 0;
        while s < subs.len()
            invariant
                p < plans@.len(),
                s <= subs@.len(),
                pv == partials_view(plans@),
                sv == partials_view(subs@),
                forall|p: int, s: int|
                    0 <= p < plans@.len() && 0 <= s < subs@.len() ==> #[trigger] pv[p].0 + #[trigger] sv[s].0 <= usize::MAX,
                f == (|s: PlanView| (pv[p as int].0 + s.0, s.1 + pv[p as int].1)),
                partials_view(r@) == before + sv.subrange(0, s as int).map_values(f),
            decreases subs@.len() - s,
        {
            assert(pv[p as int].0 + sv[s as int].0 <= usize::MAX);
            let cost = plans[p].0 + subs[s].0;
            let steps = concat_steps(&subs[s].1, &plans[p].1);
            let ghost r_before = r@;
            r.push((cost, steps));
            proof {
                assert(r@ == r_before.push((cost, steps)));
                assert(partials_view(r@) == partials_view(r_before).push(partial_view((cost, steps))));
                assert(sv.subrange(0, s + 1).map_values(f) == sv.subrange(0, s as int).map_values(f).push(f(sv[s as int])));
            }
            s = s + 1;
        }
        proof {
            assert(sv.subrange(0, s as int) == sv);
            let q = pv.subrange(0, p + 1);
            assert(q.drop_last() == pv.subrange(0, p as int));
            assert(q.last() == pv[p as int]);
        }
        p = p + 1;
    }
    assert(pv.subrange(0, p as int) == pv);
    r
}

proof fn lemma_fold_empty_v(c: CreepInfo, task: TaskAction, i: nat)
    ensures
        fold_requirements_v(c, task, i, Seq::empty()) == Seq::<PlanView>::empty(),
    decreases task.requirements().len() - i,
{
    let reqs = task.requirements();
    if i < reqs.len() {
        lemma_fold_empty_v(c, task, i + 1);
        if !reqs[i as int].meets(c) {
            if let Some(acts) = reqs[i as int].spec_to_meet(c) {
                assert(combine_prepend(Seq::<PlanView>::empty(), sub_plans_v(c, task.rank(), acts, 0)) == Seq::<PlanView>::empty());
            }
        }
    }
}

/// Resolves the task tree of `task` for `creep` the earlier way
/// (`plans_v`).
pub fn resolve_task_tree(creep: &CreepInfo, task: TaskAction) -> (plans: Vec<TaskPlan>)
    requires
        creep.wf(),
        resolvable_v(*creep, task),
    ensures
        vplans_view(plans@) == plans_v(*creep, task),
    decreases task.rank(),
{
    let base_cost = task.estimate_ticks(creep);
    let requirements = task.get_requirements();
    let mut plans: Vec<(usize, Vec<TaskAction>)> = vec![(base_cost, Vec::new())];
    let ghost c = *creep;
    let ghost seed = seq![(task.spec_estimate(c), Seq::<TaskAction>::empty())];
    assert(partials_view(plans@) =~= seed);
    let ghost full = fold_requirements_v(c, task, 0, seed);
    assert(plans_v(c, task) == finalize(full, task, task.spec_estimate(c)));

    let mut i: usize = 0;
    while i < requirements.len()
        invariant
            creep.wf(),
            c == *creep,
            resolvable_v(c, task),
            plans_v(c, task) == finalize(full, task, task.spec_estimate(c)),
            requirements@ == task.requirements(),
            i <= requirements@.len(),
            full == fold_requirements_v(c, task, 0, seed),
            fold_requirements_v(c, task, i as nat, partials_view(plans@)) == full,
            requirements_resolvable_v(c, task, i as nat, partials_view(plans@)),
            base_cost == task.spec_estimate(c),
        decreases requirements@.len() - i,
    {
        let requirement = requirements[i];
        if requirement.does_meet(creep) {
            i = i + 1;
            continue;
        }
        let prereqs = match requirement.to_meet(creep) {
            Some(actions) => actions,
            None => {
                proof {
                    assert(full == Seq::<PlanView>::empty());
                }
                let empty: Vec<TaskPlan> = Vec::new();
                assert(vplans_view(empty@) =~= plans_v(c, task));
                return empty;
            },
        };
        let ghost acts = prereqs@;
        let ghost bound = task.rank();
        if plans.len() == 0 {
            proof {
                lemma_fold_empty_v(c, task, i as nat);
                assert(partials_view(plans@) =~= Seq::<PlanView>::empty());
                assert(full == Seq::<PlanView>::empty());
            }
            let empty: Vec<TaskPlan> = Vec::new();
            assert(vplans_view(empty@) =~= plans_v(c, task));
            return empty;
        }
        let mut subs: Vec<(usize, Vec<TaskAction>)> = Vec::new();
        let mut j: usize = 0;
        while j < prereqs.len()
            invariant
                creep.wf(),
                c == *creep,
                acts == prereqs@,
                bound == task.rank(),
                i < task.requirements().len(),
                task.requirements()[i as int].spec_to_meet(c) == Some(acts),
                j <= acts.len(),
                subs_resolvable_v(c, bound, acts, j as nat),
                partials_view(subs@) + sub_plans_v(c, bound, acts, j as nat) == sub_plans_v(c, bound, acts, 0),
            decreases acts.len() - j,
        {
            proof {
                crate::tasks::resolver::resolve::lemma_to_meet_lowers_rank(c, task, i as int, j as int);
            }
            let prereq_plans = resolve_task_tree(creep, prereqs[j]);
            let ghost sv = vplans_view(prereq_plans@);
            let ghost subs_before = partials_view(subs@);
            let mut k: usize = 0;
            while k < prereq_plans.len()
                invariant
                    k <= prereq_plans@.len(),
                    sv == vplans_view(prereq_plans@),
                    partials_view(subs@) == subs_before + sv.subrange(0, k as int),
                decreases prereq_plans@.len() - k,
            {
                let steps = concat_steps(&prereq_plans[k].tasks, &Vec::new());
                let ghost before = subs@;
                subs.push((prereq_plans[k].cost, steps));
                proof {
                    assert(prereq_plans[k as int].tasks@ + Seq::<TaskAction>::empty() == prereq_plans[k as int].tasks@);
                    assert(subs@ == before.push((prereq_plans[k as int].cost, steps)));
                    assert(partials_view(subs@) == partials_view(before).push(
                        partial_view((prereq_plans[k as int].cost, steps)),
                    ));
                    assert(sv.subrange(0, k + 1) == sv.subrange(0, k as int).push(sv[k as int]));
                }
                k = k + 1;
            }
            proof {
                assert(sv.subrange(0, k as int) == sv);
                assert(sub_plans_v(c, bound, acts, j as nat) == sv + sub_plans_v(c, bound, acts, (j + 1) as nat));
            }
            j = j + 1;
        }
        proof {
            assert(sub_plans_v(c, bound, acts, j as nat) == Seq::<PlanView>::empty());
            assert(partials_view(subs@) == sub_plans_v(c, bound, acts, 0));
        }
        plans = combine_prepend_exec(&plans, &subs);
        i = i + 1;
    }

    // append the task itself to all plans
    let mut result: Vec<TaskPlan> = Vec::new();
    let ghost pv = partials_view(plans@);
    assert(full == pv);
    let mut k: usize = 0;
    while k < plans.len()
        invariant
            k <= plans@.len(),
            pv == partials_view(plans@),
            pv == fold_requirements_v(c, task, 0, seed),
            resolvable_v(c, task),
            seed == seq![(task.spec_estimate(c), Seq::<TaskAction>::empty())],
            base_cost == task.spec_estimate(c),
            vplans_view(result@) == finalize(pv.subrange(0, k as int), task, base_cost as int),
        decreases plans@.len() - k,
    {
        assert(pv[k as int].0 + task.spec_estimate(c) <= usize::MAX);
        let mut tasks = concat_steps(&plans[k].1, &Vec::new());
        tasks.push(task);
        let plan = TaskPlan { cost: plans[k].0 + base_cost, tasks };
        let ghost before = result@;
        result.push(plan);
        proof {
            assert(plans[k as int].1@ + Seq::<TaskAction>::empty() == plans[k as int].1@);
            assert(result@ == before.push(plan));
            assert(vplans_view(result@) == vplans_view(before).push(plan.view()));
            assert(pv.subrange(0, k + 1) == pv.subrange(0, k as int).push(pv[k as int]));
        }
        k = k + 1;
    }
    assert(pv.subrange(0, k as int) == pv);
    result
}

} // verus!
