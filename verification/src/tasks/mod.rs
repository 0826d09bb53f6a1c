//! The planning task system: actions, the requirements they put on a
//! creep, the planner that resolves unmet requirements into plans, and the
//! dispatcher that hands plans to idle creeps.
pub mod actions;
pub mod requirements;
pub mod resolver;
pub mod task_request;
pub mod task_dispatcher;
pub mod dispatch_laws;
pub mod nearest;
