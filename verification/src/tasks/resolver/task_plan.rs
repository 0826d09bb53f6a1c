//! A plan: the actions a creep performs in order, and their estimated
//! duration.
use vstd::prelude::*;
use std::collections::VecDeque;
use crate::tasks::actions::TaskAction;

verus! {

/// A plan as a value: its estimated ticks and its steps.
pub type PlanView = (int, Seq<TaskAction>);

#[derive(Debug)]
pub struct TaskPlan {
    pub estimated_ticks: usize,
    /// action queue, first item gets executed first
    pub steps: VecDeque<TaskAction>,
}

impl TaskPlan {
    pub open spec fn view(&self) -> PlanView {
        (self.estimated_ticks as int, self.steps@)
    }

    pub fn new(estimated_ticks: usize, steps: Vec<TaskAction>) -> (plan: Self)
        ensures
            plan.estimated_ticks == estimated_ticks,
            plan.steps@ == steps@,
    {
        let mut queue: VecDeque<TaskAction> = VecDeque::new();
        let mut i: usize = 0;
        while i < steps.len()
            invariant
                i <= steps@.len(),
                queue@ == steps@.subrange(0, i as int),
            decreases steps@.len() - i,
        {
            queue.push_back(steps[i]);
            i = i + 1;
        }
        assert(steps@.subrange(0, i as int) == steps@);
        Self { estimated_ticks, steps: queue }
    }

    /// The step to perform now: the first one, if any is left.
    pub fn get_current_task(&self) -> (current: Option<&TaskAction>)
        ensures
            match current {
                Some(a) => self.steps@.len() > 0 && *a == self.steps@[0],
                None => self.steps@.len() == 0,
            },
    {
        if self.steps.len() > 0 {
            Some(&self.steps[0])
        } else {
            None
        }
    }

    /// Drops the current step.
    pub fn advance_step(&mut self)
        ensures
            final(self).estimated_ticks == old(self).estimated_ticks,
            final(self).steps@ == (if old(self).steps@.len() > 0 {
                old(self).steps@.drop_first()
            } else {
                old(self).steps@
            }),
    {
        let _ = self.steps.pop_front();
    }

    /// Whether no step is left.
    pub fn is_complete(&self) -> (b: bool)
        ensures
            b == (self.steps@.len() == 0),
    {
        self.steps.len() == 0
    }
}

} // verus!
