//! Seeding the game's random number generator and making UUIDs.
pub mod random;
pub mod uuid;
