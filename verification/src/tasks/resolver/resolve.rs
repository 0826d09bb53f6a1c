//! The task-tree planner.
//!
//! An action is possible for a creep when every requirement is met or can be
//! met by other actions, which in turn are resolved the same way. Every
//! combination of ways to meet the unmet requirements is a plan; the action
//! itself is the last step of each.
use vstd::prelude::*;
use crate::model::CreepInfo;
use crate::tasks::actions::TaskAction;
use crate::tasks::requirements::TaskRequirement;
use crate::tasks::resolver::task_plan::{PlanView, TaskPlan};

verus! {

/// Every plan of `plans` extended by every plan of `subs`, in that nesting
/// order: costs add up, steps are concatenated.
pub open spec fn combine_all(plans: Seq<PlanView>, subs: Seq<PlanView>) -> Seq<PlanView>
    decreases plans.len(),
{
    if plans.len() == 0 {
        Seq::empty()
    } else {
        combine_all(plans.drop_last(), subs) + subs.map_values(
            |s: PlanView| (plans.last().0 + s.0, plans.last().1 + s.1),
        )
    }
}

/// Each plan ends with `task`, whose estimate is added to its cost.
pub open spec fn finalize(plans: Seq<PlanView>, task: TaskAction, base: int) -> Seq<PlanView> {
    plans.map_values(|p: PlanView| (p.0 + base, p.1.push(task)))
}

/// The plan that every resolution starts from: no steps, no cost.
pub open spec fn seed_plans() -> Seq<PlanView> {
    seq![(0int, Seq::<TaskAction>::empty())]
}

/// The plans that resolve `task` for creep `c`: the partial plans after
/// every requirement, each finished with the task itself.
pub open spec fn plans_of(c: CreepInfo, task: TaskAction) -> Seq<PlanView>
    decreases task.rank(), 2nat, 0int,
{
    finalize(fold_requirements(c, task, 0, seed_plans()), task, task.spec_estimate(c))
}

/// The partial plans after requirements `i..` of `task`, starting from
/// `plans`: a met requirement changes nothing; one that cannot be met
/// leaves no plan; otherwise every partial plan is extended by every plan
/// of every action that meets it.
pub open spec fn fold_requirements(c: CreepInfo, task: TaskAction, i: nat, plans: Seq<PlanView>) -> Seq<PlanView>
    decreases task.rank(), 1nat, task.requirements().len() - i,
{
    let reqs = task.requirements();
    if i >= reqs.len() {
        plans
    } else if reqs[i as int].meets(c) {
        fold_requirements(c, task, i + 1, plans)
    } else {
        match reqs[i as int].spec_to_meet(c) {
            None => Seq::empty(),
            Some(acts) => fold_requirements(
                c,
                task,
                i + 1,
                combine_all(plans, sub_plans(c, task.rank(), acts, 0)),
            ),
        }
    }
}

/// The plans of actions `j..` of `acts`, one action after the other (an
/// action not below `bound` in the tree contributes none; none of the
/// actions a requirement yields is, see `lemma_to_meet_lowers_rank`).
pub open spec fn sub_plans(c: CreepInfo, bound: nat, acts: Seq<TaskAction>, j: nat) -> Seq<PlanView>
    decreases bound, 0nat, acts.len() - j,
{
    if j >= acts.len() {
        Seq::empty()
    } else {
        (if acts[j as int].rank() < bound {
            plans_of(c, acts[j as int])
        } else {
            Seq::empty()
        }) + sub_plans(c, bound, acts, j + 1)
    }
}

/// The inputs on which resolving `task` neither divides by zero nor
/// overflows: every estimate that the resolution computes is defined, and
/// every cost it adds up fits in a `usize`. The task's own estimate is
/// computed only where some partial plan survives its requirements.
pub open spec fn resolvable(c: CreepInfo, task: TaskAction) -> bool
    decreases task.rank(), 2nat, 0int,
{
    let partial = fold_requirements(c, task, 0, seed_plans());
    &&& requirements_resolvable(c, task, 0, seed_plans())
    &&& partial.len() > 0 ==> {
        &&& task.estimate_defined(c)
        &&& forall|k: int|
            0 <= k < partial.len() ==> #[trigger] partial[k].0 + task.spec_estimate(c) <= usize::MAX
    }
}

/// `resolvable` for requirements `i..` of `task`, starting from `plans`.
pub open spec fn requirements_resolvable(c: CreepInfo, task: TaskAction, i: nat, plans: Seq<PlanView>) -> bool
    decreases task.rank(), 1nat, task.requirements().len() - i,
{
    let reqs = task.requirements();
    if i >= reqs.len() {
        true
    } else if reqs[i as int].meets(c) {
        requirements_resolvable(c, task, i + 1, plans)
    } else {
        match reqs[i as int].spec_to_meet(c) {
            None => true,
            Some(acts) => {
                let subs = sub_plans(c, task.rank(), acts, 0);
                &&& plans.len() > 0 ==> {
                    &&& subs_resolvable(c, task.rank(), acts, 0)
                    &&& forall|p: int, s: int|
                        0 <= p < plans.len() && 0 <= s < subs.len() ==> #[trigger] plans[p].0
                            + #[trigger] subs[s].0 <= usize::MAX
                }
                &&& requirements_resolvable(c, task, i + 1, combine_all(plans, subs))
            },
        }
    }
}

/// `resolvable` for actions `j..` of `acts`.
pub open spec fn subs_resolvable(c: CreepInfo, bound: nat, acts: Seq<TaskAction>, j: nat) -> bool
    decreases bound, 0nat, acts.len() - j,
{
    if j >= acts.len() {
        true
    } else {
        &&& (acts[j as int].rank() < bound ==> resolvable(c, acts[j as int]))
        &&& subs_resolvable(c, bound, acts, j + 1)
    }
}

/// The actions that meet a requirement of an action sit lower in the tree.
pub proof fn lemma_to_meet_lowers_rank(c: CreepInfo, task: TaskAction, i: int, k: int)
    requires
        0 <= i < task.requirements().len(),
        task.requirements()[i].spec_to_meet(c) is Some,
        0 <= k < task.requirements()[i].spec_to_meet(c)->0.len(),
    ensures
        task.requirements()[i].spec_to_meet(c)->0[k].rank() < task.rank(),
{
}

pub proof fn lemma_fold_empty(c: CreepInfo, task: TaskAction, i: nat)
    ensures
        fold_requirements(c, task, i, Seq::empty()) == Seq::<PlanView>::empty(),
    decreases task.requirements().len() - i,
{
    let reqs = task.requirements();
    if i < reqs.len() {
        lemma_fold_empty(c, task, i + 1);
        if !reqs[i as int].meets(c) {
            if let Some(acts) = reqs[i as int].spec_to_meet(c) {
                assert(combine_all(Seq::<PlanView>::empty(), sub_plans(c, task.rank(), acts, 0)) == Seq::<PlanView>::empty());
            }
        }
    }
}

/// Every plan ends with the task itself: whatever meets the requirements
/// comes first.
pub proof fn lemma_plans_end_with_task(c: CreepInfo, task: TaskAction)
    ensures
        forall|k: int| 0 <= k < plans_of(c, task).len() ==> {
            &&& (#[trigger] plans_of(c, task)[k]).1.len() > 0
            &&& plans_of(c, task)[k].1.last() == task
        },
{
}

proof fn lemma_fold_unmeetable(c: CreepInfo, task: TaskAction, j: nat, i: nat, plans: Seq<PlanView>)
    requires
        j <= i < task.requirements().len(),
        !task.requirements()[i as int].meets(c),
        task.requirements()[i as int].spec_to_meet(c) is None,
    ensures
        fold_requirements(c, task, j, plans) == Seq::<PlanView>::empty(),
    decreases i - j,
{
    if j < i {
        let reqs = task.requirements();
        if reqs[j as int].meets(c) {
            lemma_fold_unmeetable(c, task, j + 1, i, plans);
        } else if let Some(acts) = reqs[j as int].spec_to_meet(c) {
            lemma_fold_unmeetable(c, task, j + 1, i, combine_all(plans, sub_plans(c, task.rank(), acts, 0)));
        }
    }
}

/// A task with an unmet requirement that nothing can meet has no plan.
pub proof fn lemma_unmeetable_requirement_means_no_plan(c: CreepInfo, task: TaskAction, i: int)
    requires
        0 <= i < task.requirements().len(),
        !task.requirements()[i].meets(c),
        task.requirements()[i].spec_to_meet(c) is None,
    ensures
        plans_of(c, task).len() == 0,
{
    lemma_fold_unmeetable(c, task, 0, i as nat, seed_plans());
}

proof fn lemma_fold_all_met(c: CreepInfo, task: TaskAction, j: nat, plans: Seq<PlanView>)
    requires
        forall|i: int| 0 <= i < task.requirements().len() ==> #[trigger] task.requirements()[i].meets(c),
    ensures
        fold_requirements(c, task, j, plans) == plans,
    decreases task.requirements().len() - j,
{
    if j < task.requirements().len() {
        assert(task.requirements()[j as int].meets(c));
        lemma_fold_all_met(c, task, j + 1, plans);
    }
}

/// A creep that meets every requirement has exactly one plan: the task
/// alone, at its own estimate.
pub proof fn lemma_all_met_single_plan(c: CreepInfo, task: TaskAction)
    requires
        forall|i: int| 0 <= i < task.requirements().len() ==> #[trigger] task.requirements()[i].meets(c),
    ensures
        plans_of(c, task) == seq![(task.spec_estimate(c), seq![task])],
{
    lemma_fold_all_met(c, task, 0, seed_plans());
    assert(plans_of(c, task) =~= seq![(task.spec_estimate(c), seq![task])]);
}

/// The value of an internal partial plan.
pub open spec fn partial_view(p: (usize, Vec<TaskAction>)) -> PlanView {
    (p.0 as int, p.1@)
}

pub open spec fn partials_view(v: Seq<(usize, Vec<TaskAction>)>) -> Seq<PlanView> {
    v.map_values(|p: (usize, Vec<TaskAction>)| partial_view(p))
}

/// The value of a list of plans.
pub open spec fn plans_view(v: Seq<TaskPlan>) -> Seq<PlanView> {
    v.map_values(|p: TaskPlan| p.view())
}

/// `a` followed by `b`, copied.
pub(crate) fn concat_steps(a: &Vec<TaskAction>, b: &Vec<TaskAction>) -> (r: Vec<TaskAction>)
    ensures
        r@ == a@ + b@,
{
    let mut r: Vec<TaskAction> = Vec::new();
    let mut i: usize = 0;
    while i < a.len()
        invariant
            i <= a@.len(),
            r@ == a@.subrange(0, i as int),
        decreases a@.len() - i,
    {
        r.push(a[i]);
        i = i + 1;
    }
    let mut j: usize = 0;
    while j < b.len()
        invariant
            i == a@.len(),
            j <= b@.len(),
            r@ == a@ + b@.subrange(0, j as int),
        decreases b@.len() - j,
    {
        r.push(b[j]);
        j = j + 1;
    }
    assert(a@.subrange(0, i as int) == a@);
    assert(b@.subrange(0, j as int) == b@);
    r
}

/// Every partial plan extended by every sub-plan (`combine_all`).
fn combine(
    plans: &Vec<(usize, Vec<TaskAction>)>,
    subs: &Vec<(usize, Vec<TaskAction>)>,
) -> (r: Vec<(usize, Vec<TaskAction>)>)
    requires
        forall|p: int, s: int|
            0 <= p < plans@.len() && 0 <= s < subs@.len() ==> #[trigger] partials_view(plans@)[p].0
                + #[trigger] partials_view(subs@)[s].0 <= usize::MAX,
    ensures
        partials_view(r@) == combine_all(partials_view(plans@), partials_view(subs@)),
{
    let ghost pv = partials_view(plans@);
    let ghost sv = partials_view(subs@);
    let mut r: Vec<(usize, Vec<TaskAction>)> = Vec::new();
    let mut p: usize = 0;
    while p < plans.len()
        invariant
            p <= plans@.len(),
            pv == partials_view(plans@),
            sv == partials_view(subs@),
            forall|p: int, s: int|
                0 <= p < plans@.len() && 0 <= s < subs@.len() ==> #[trigger] pv[p].0 + #[trigger] sv[s].0 <= usize::MAX,
            partials_view(r@) == combine_all(pv.subrange(0, p as int), sv),
        decreases plans@.len() - p,
    {
        let ghost before = partials_view(r@);
        let ghost f = |s: PlanView| (pv[p as int].0 + s.0, pv[p as int].1 + s.1);
        let mut s: usize = 0;
        while s < subs.len()
            invariant
                p < plans@.len(),
                s <= subs@.len(),
                pv == partials_view(plans@),
                sv == partials_view(subs@),
                forall|p: int, s: int|
                    0 <= p < plans@.len() && 0 <= s < subs@.len() ==> #[trigger] pv[p].0 + #[trigger] sv[s].0 <= usize::MAX,
                f == (|s: PlanView| (pv[p as int].0 + s.0, pv[p as int].1 + s.1)),
                partials_view(r@) == before + sv.subrange(0, s as int).map_values(f),
            decreases subs@.len() - s,
        {
            assert(pv[p as int].0 + sv[s as int].0 <= usize::MAX);
            let cost = plans[p].0 + subs[s].0;
            let steps = concat_steps(&plans[p].1, &subs[s].1);
            let ghost r_before = r@;
            r.push((cost, steps));
            proof {
                assert(r@ == r_before.push((cost, steps)));
                assert(partials_view(r@) == partials_view(r_before).push(partial_view((cost, steps))));
                assert(sv.subrange(0, s + 1).map_values(f) == sv.subrange(0, s as int).map_values(f).push(f(sv[s as int])));
            }
            s = s + 1;
        }
        proof {
            assert(sv.subrange(0, s as int) == sv);
            let q = pv.subrange(0, p + 1);
            assert(q.drop_last() == pv.subrange(0, p as int));
            assert(q.last() == pv[p as int]);
        }
        p = p + 1;
    }
    assert(pv.subrange(0, p as int) == pv);
    r
}

/// Resolves the task tree of `task` for `creep`: every way to meet its
/// unmet requirements with other actions (resolved the same way), each
/// followed by `task`, with the sum of the estimates as the plan's cost.
/// No plan comes back where some unmet requirement cannot be met.
pub fn resolve_task_tree(creep: &CreepInfo, task: TaskAction) -> (plans: Vec<TaskPlan>)
    requires
        creep.wf(),
        resolvable(*creep, task),
    ensures
        plans_view(plans@) == plans_of(*creep, task),
    decreases task.rank(),
{
    let requirements = task.get_requirements();

    // start with an empty "seed" plan
    let mut plans: Vec<(usize, Vec<TaskAction>)> = vec![(0, Vec::new())];
    assert(partials_view(plans@) =~= seed_plans());
    let ghost c = *creep;
    let ghost full = fold_requirements(c, task, 0, seed_plans());

    let mut i: usize = 0;
    while i < requirements.len()
        invariant
            creep.wf(),
            c == *creep,
            resolvable(c, task),
            requirements@ == task.requirements(),
            i <= requirements@.len(),
            full == fold_requirements(c, task, 0, seed_plans()),
            fold_requirements(c, task, i as nat, partials_view(plans@)) == full,
            requirements_resolvable(c, task, i as nat, partials_view(plans@)),
            plans@.len() > 0,
        decreases requirements@.len() - i,
    {
        let requirement = requirements[i];
        if requirement.does_meet(creep) {
            // skip if already met
            i = i + 1;
            continue;
        }
        let requirement_actions = match requirement.to_meet(creep) {
            Some(actions) => actions,
            None => {
                // the requirement cannot be met, so neither can the task
                proof {
                    assert(full == Seq::<PlanView>::empty());
                }
                let empty: Vec<TaskPlan> = Vec::new();
                assert(plans_view(empty@) =~= plans_of(c, task));
                return empty;
            },
        };
        let ghost acts = requirement_actions@;
        let ghost bound = task.rank();

        // recursively resolve every prerequisite action
        let mut subs: Vec<(usize, Vec<TaskAction>)> = Vec::new();
        let mut j: usize = 0;
        while j < requirement_actions.len()
            invariant
                creep.wf(),
                c == *creep,
                acts == requirement_actions@,
                bound == task.rank(),
                i < task.requirements().len(),
                task.requirements()[i as int].spec_to_meet(c) == Some(acts),
                j <= acts.len(),
                subs_resolvable(c, bound, acts, j as nat),
                partials_view(subs@) + sub_plans(c, bound, acts, j as nat) == sub_plans(c, bound, acts, 0),
            decreases acts.len() - j,
        {
            proof {
                lemma_to_meet_lowers_rank(c, task, i as int, j as int);
            }
            let action = requirement_actions[j];
            let sub = resolve_task_tree(creep, action);
            let ghost sv = plans_view(sub@);
            let ghost subs_before = partials_view(subs@);
            let mut k: usize = 0;
            while k < sub.len()
                invariant
                    k <= sub@.len(),
                    sv == plans_view(sub@),
                    partials_view(subs@) == subs_before + sv.subrange(0, k as int),
                decreases sub@.len() - k,
            {
                let steps = vec_of_steps(&sub[k]);
                let ghost before = subs@;
                subs.push((sub[k].estimated_ticks, steps));
                proof {
                    assert(subs@ == before.push((sub[k as int].estimated_ticks, steps)));
                    assert(partials_view(subs@) == partials_view(before).push(
                        partial_view((sub[k as int].estimated_ticks, steps)),
                    ));
                    assert(sv.subrange(0, k + 1) == sv.subrange(0, k as int).push(sv[k as int]));
                }
                k = k + 1;
            }
            proof {
                assert(sv.subrange(0, k as int) == sv);
                assert(sub_plans(c, bound, acts, j as nat) == sv + sub_plans(c, bound, acts, (j + 1) as nat));
            }
            j = j + 1;
        }
        proof {
            assert(sub_plans(c, bound, acts, j as nat) == Seq::<PlanView>::empty());
            assert(partials_view(subs@) == sub_plans(c, bound, acts, 0));
        }

        let new_plans = combine(&plans, &subs);
        if new_plans.len() == 0 {
            // no viable path
            proof {
                lemma_fold_empty(c, task, (i + 1) as nat);
                assert(partials_view(new_plans@) =~= Seq::<PlanView>::empty());
                assert(full == Seq::<PlanView>::empty());
            }
            let empty: Vec<TaskPlan> = Vec::new();
            assert(plans_view(empty@) =~= plans_of(c, task));
            return empty;
        }
        plans = new_plans;
        i = i + 1;
    }
    proof {
        assert(full == partials_view(plans@));
        assert(full.len() > 0);
    }
    // the task's own cost, once some way to meet its requirements exists
    let base_cost = task.estimate_ticks(creep);

    // append the requested task as the final step of every plan
    let mut result: Vec<TaskPlan> = Vec::new();
    let ghost pv = partials_view(plans@);
    let mut k: usize = 0;
    while k < plans.len()
        invariant
            k <= plans@.len(),
            pv == partials_view(plans@),
            pv == fold_requirements(c, task, 0, seed_plans()),
            resolvable(c, task),
            base_cost == task.spec_estimate(c),
            plans_view(result@) == finalize(pv.subrange(0, k as int), task, base_cost as int),
        decreases plans@.len() - k,
    {
        assert(pv[k as int].0 + task.spec_estimate(c) <= usize::MAX);
        let mut steps = concat_steps(&plans[k].1, &Vec::new());
        let ghost steps_before = steps@;
        steps.push(task);
        let plan = TaskPlan::new(plans[k].0 + base_cost, steps);
        let ghost before = result@;
        result.push(plan);
        proof {
            assert(plans[k as int].1@ + Seq::<TaskAction>::empty() == plans[k as int].1@);
            assert(result@ == before.push(plan));
            assert(plans_view(result@) == plans_view(before).push(plan.view()));
            assert(pv.subrange(0, k + 1) == pv.subrange(0, k as int).push(pv[k as int]));
        }
        k = k + 1;
    }
    assert(pv.subrange(0, k as int) == pv);
    result
}

/// The steps of a plan as a `Vec`.
fn vec_of_steps(plan: &TaskPlan) -> (v: Vec<TaskAction>)
    ensures
        v@ == plan.steps@,
{
    let mut v: Vec<TaskAction> = Vec::new();
    let mut i: usize = 0;
    while i < plan.steps.len()
        invariant
            i <= plan.steps@.len(),
            v@ == plan.steps@.subrange(0, i as int),
        decreases plan.steps@.len() - i,
    {
        v.push(plan.steps[i]);
        i = i + 1;
    }
    assert(plan.steps@.subrange(0, i as int) == plan.steps@);
    v
}

} // verus!
