//! Version-4 UUIDs from random bytes, as 128-bit numbers.
use vstd::prelude::*;
use crate::tasks::task_dispatcher::PlanId;

verus! {

/// The bytes with the version (4, random) and the variant (RFC 4122) set.
pub open spec fn v4_bytes(b: Seq<u8>) -> Seq<u8> {
    b.update(6, (b[6] & 0x0fu8) | 0x40u8).update(8, (b[8] & 0x3fu8) | 0x80u8)
}

/// The big-endian number the bytes spell.
pub open spec fn be_value(b: Seq<u8>) -> nat
    decreases b.len(),
{
    if b.len() == 0 {
        0nat
    } else {
        be_value(b.drop_last()) * 256 + (b.last() as nat)
    }
}

/// Calls `uuid::Builder::from_random_bytes(..).into_uuid().as_u128()`.
/// Trusted: the builder sets the version nibble of byte 6 to 4 and the top
/// bits of byte 8 to `10`, and `as_u128` reads the bytes big-endian.
#[verifier::external_body]
fn uuid_v4_value(random_bytes: [u8; 16]) -> (id: u128)
    ensures
        id == be_value(v4_bytes(random_bytes@)),
{
    uuid::Builder::from_random_bytes(random_bytes).into_uuid().as_u128()
}

/// The bytes of a generated id carry version 4 in the high nibble of byte
/// 6 and the RFC 4122 variant (`10`) in the top bits of byte 8; all other
/// bytes are the random ones.
pub proof fn lemma_v4_bits(b: Seq<u8>)
    requires
        b.len() == 16,
    ensures
        v4_bytes(b).len() == 16,
        v4_bytes(b)[6] >> 4u8 == 4u8,
        v4_bytes(b)[8] >> 6u8 == 2u8,
        forall|i: int| 0 <= i < 16 && i != 6 && i != 8 ==> #[trigger] v4_bytes(b)[i] == b[i],
{
    let x = b[6];
    let y = b[8];
    assert(((x & 0x0fu8) | 0x40u8) >> 4u8 == 4u8) by (bit_vector);
    assert(((y & 0x3fu8) | 0x80u8) >> 6u8 == 2u8) by (bit_vector);
}

pub trait UuidScreeps: Sized {
    /// A Screeps friendly UUID v4 generator: the random bytes come from a
    /// generator seeded with the game time and CPU usage.
    fn new_screeps_v4(random_bytes: [u8; 16]) -> Self;
}

impl UuidScreeps for PlanId {
    fn new_screeps_v4(random_bytes: [u8; 16]) -> (id: Self)
        ensures
            id == be_value(v4_bytes(random_bytes@)),
    {
        uuid_v4_value(random_bytes)
    }
}

} // verus!
