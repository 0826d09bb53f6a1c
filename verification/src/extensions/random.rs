//! A random number generator seeded from the game clock.
use vstd::prelude::*;
use rand_xorshift::XorShiftRng;

verus! {

#[verifier::external_type_specification]
#[verifier::external_body]
pub struct ExXorShiftRng(XorShiftRng);

/// The seed: the game tick in the low 32 bits, xor the CPU time used
/// (in thousandths of a CPU unit) shifted up by 32 bits.
pub fn seed_from_game_time(game_time: u32, cpu_millis: u64) -> (seed: u64)
    ensures
        seed == (game_time as u64) ^ (cpu_millis << 32u64),
{
    (game_time as u64) ^ (cpu_millis << 32u64)
}

/// The generator that `rand_core::SeedableRng::seed_from_u64` makes for
/// `XorShiftRng` from a seed: a function of the seed alone.
pub uninterp spec fn xorshift_of(seed: u64) -> XorShiftRng;

/// Calls `rand_core::SeedableRng::seed_from_u64` for `XorShiftRng`.
/// Trusted: the generator depends on the seed alone (the seed is expanded
/// by a fixed PCG32 stream; an all-zero state is replaced by a fixed one),
/// so it is named `xorshift_of(seed)`.
#[verifier::external_body]
fn xorshift_from_seed(seed: u64) -> (rng: XorShiftRng)
    ensures
        rng == xorshift_of(seed),
{
    <XorShiftRng as rand::SeedableRng>::seed_from_u64(seed)
}

pub trait ScreepsRng: Sized {
    /// A generator seeded from the game tick and the CPU time used.
    fn from_game_time(game_time: u32, cpu_millis: u64) -> Self;
}

impl ScreepsRng for XorShiftRng {
    /// The generator seeded with `seed_from_game_time(game_time, cpu_millis)`.
    fn from_game_time(game_time: u32, cpu_millis: u64) -> (rng: Self)
        ensures
            rng == xorshift_of((game_time as u64) ^ (cpu_millis << 32u64)),
    {
        let seed = seed_from_game_time(game_time, cpu_millis);
        xorshift_from_seed(seed)
    }
}

} // verus!
