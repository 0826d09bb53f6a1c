//! Decision logic of a Screeps colony bot: body templates, role state
//! machines, task requirements, the task-tree planner and the dispatchers
//! that hand plans to creeps. Game objects are read into plain snapshots
//! (see `model`) so that every decision can be stated and proved.
pub mod model;
pub mod creeps;
pub mod schedule;
pub mod tasks;
pub mod name_table;
pub mod logging;
pub mod extensions;
