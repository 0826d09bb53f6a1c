//! The scheduler's task kinds.
pub mod harvest_energy_task;
pub mod upgrade_room_controller_task;
