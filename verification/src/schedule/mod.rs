//! The first-generation scheduler: tasks, their requirements, and the
//! dispatcher that hands them to creeps.
pub mod helper;
pub mod task;
pub mod tasks;
pub mod task_dispatcher;
