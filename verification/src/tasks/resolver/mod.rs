//! Resolving an action and its unmet requirements into plans.
pub mod task_plan;
pub mod resolve;
pub mod virtual_creep;
