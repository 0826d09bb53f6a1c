//! Creep roles and the manager that assigns them.
pub mod roles;
pub mod manager;
