//! A request for an action to be planned and assigned to some creep.
use vstd::prelude::*;
use crate::tasks::actions::TaskAction;

verus! {

#[derive(Clone, Copy, Debug, PartialEq, Eq, Structural)]
pub struct TaskRequest {
    pub task: TaskAction,
    pub priority: usize,
    /// A repeating request stays queued after it has been assigned.
    pub repeating: bool,
}

impl TaskRequest {
    pub fn new(task: TaskAction, priority: usize) -> (r: Self)
        ensures
            r == (TaskRequest { task, priority, repeating: false }),
    {
        Self { task, priority, repeating: false }
    }

    pub fn repeating(task: TaskAction, priority: usize) -> (r: Self)
        ensures
            r == (TaskRequest { task, priority, repeating: true }),
    {
        Self { task, priority, repeating: true }
    }

    pub fn priority(&self) -> (p: usize)
        ensures
            p == self.priority,
    {
        self.priority
    }

    pub fn task(&self) -> (t: TaskAction)
        ensures
            t == self.task,
    {
        self.task
    }

    /// Consume the request and return ownership of the underlying task.
    pub fn into_task(self) -> (t: TaskAction)
        ensures
            t == self.task,
    {
        self.task
    }
}

} // verus!
