//! Plain-value snapshots of the game objects that the decision logic reads.
//!
//! The game hands out live JavaScript-backed objects; the caller copies what
//! the logic needs into these types once per tick, and every function of the
//! library decides on the copy.
use vstd::prelude::*;

verus! {

/// A body part kind (the game's `BODYPART_*` constants).
#[derive(Clone, Copy, Debug, PartialEq, Eq, Structural)]
pub enum Part {
    Move,
    Work,
    Carry,
    Attack,
    RangedAttack,
    Tough,
    Heal,
    Claim,
}

/// The energy cost of spawning one part (the game's `BODYPART_COST`).
pub open spec fn spec_part_cost(part: Part) -> nat {
    match part {
        Part::Move => 50,
        Part::Work => 100,
        Part::Carry => 50,
        Part::Attack => 80,
        Part::RangedAttack => 150,
        Part::Tough => 10,
        Part::Heal => 250,
        Part::Claim => 600,
    }
}

/// Calls `screeps::Part::cost` on the game's part of the same kind.
/// Trusted: the crate's `cost` is a `match` that returns the
/// `BODYPART_COST` table, which `spec_part_cost` restates.
#[verifier::external_body]
pub(crate) fn part_cost(part: Part) -> (cost: u32)
    ensures
        cost == spec_part_cost(part),
{
    let game_part = match part {
        Part::Move => screeps::Part::Move,
        Part::Work => screeps::Part::Work,
        Part::Carry => screeps::Part::Carry,
        Part::Attack => screeps::Part::Attack,
        Part::RangedAttack => screeps::Part::RangedAttack,
        Part::Tough => screeps::Part::Tough,
        Part::Heal => screeps::Part::Heal,
        Part::Claim => screeps::Part::Claim,
    };
    game_part.cost()
}

/// One part of a creep's body with its remaining hit points; a part with
/// no hits left is inactive.
#[derive(Clone, Copy, Debug, PartialEq, Eq, Structural)]
pub struct BodyPart {
    pub part: Part,
    pub hits: u32,
}

/// The resource kinds that the bot stores, harvests or asks for.
#[derive(Clone, Copy, Debug, PartialEq, Eq, Structural)]
pub enum ResourceType {
    Energy,
    Power,
    Hydrogen,
    Oxygen,
    Utrium,
    Lemergium,
    Keanium,
    Zynthium,
    Catalyst,
    Ghodium,
}

/// The id of a game object.
#[derive(Clone, Copy, Debug, PartialEq, Eq, Structural)]
pub struct ObjectId {
    pub raw: u128,
}

/// A position: the room's coordinates (`Wxx` rooms have `-xx - 1`, `Exx`
/// rooms `xx`; likewise `Nyy`/`Syy`) and the tile inside the room.
#[derive(Clone, Copy, Debug, PartialEq, Eq, Structural)]
pub struct Position {
    pub room_x: i32,
    pub room_y: i32,
    pub x: u8,
    pub y: u8,
}

impl Position {
    /// The horizontal world coordinate, `50 * room_x + x`.
    pub open spec fn spec_world_x(self) -> int {
        50 * self.room_x + self.x
    }

    /// The vertical world coordinate, `50 * room_y + y`.
    pub open spec fn spec_world_y(self) -> int {
        50 * self.room_y + self.y
    }

    pub fn world_x(&self) -> (w: i64)
        ensures
            w == self.spec_world_x(),
    {
        50 * (self.room_x as i64) + (self.x as i64)
    }

    pub fn world_y(&self) -> (w: i64)
        ensures
            w == self.spec_world_y(),
    {
        50 * (self.room_y as i64) + (self.y as i64)
    }
}

/// What a store holds of one resource and how much more it can take.
#[derive(Clone, Copy, Debug, PartialEq, Eq, Structural)]
pub struct StoreEntry {
    pub resource: ResourceType,
    pub used: u32,
    pub free: i32,
}

/// An energy source in a room.
#[derive(Clone, Copy, Debug, PartialEq, Eq, Structural)]
pub struct SourceInfo {
    pub id: ObjectId,
    pub pos: Position,
    pub energy: u32,
}

/// A mineral deposit in a room.
#[derive(Clone, Copy, Debug, PartialEq, Eq, Structural)]
pub struct MineralInfo {
    pub id: ObjectId,
    pub pos: Position,
    pub mineral_type: ResourceType,
}

/// A room controller.
#[derive(Clone, Copy, Debug, PartialEq, Eq, Structural)]
pub struct ControllerInfo {
    pub id: ObjectId,
    pub pos: Position,
    pub level: u8,
    pub ticks_to_downgrade: Option<u32>,
}

/// What the bot reads of a room; `sources` and `minerals` are in the order
/// in which the game's `find` lists them.
#[derive(Clone, Debug)]
pub struct RoomInfo {
    pub sources: Vec<SourceInfo>,
    pub minerals: Vec<MineralInfo>,
    pub controller: Option<ControllerInfo>,
}

/// What the bot reads of a creep: its name, position, body, store and the
/// room it stands in (`None` where the game gives it no room).
#[derive(Clone, Debug)]
pub struct CreepInfo {
    pub name: String,
    pub pos: Position,
    pub body: Vec<BodyPart>,
    pub store: Vec<StoreEntry>,
    pub room: Option<RoomInfo>,
}

/// The number of parts of a kind in a body, active or not.
pub open spec fn count_parts(body: Seq<BodyPart>, part: Part) -> nat
    decreases body.len(),
{
    if body.len() == 0 {
        0
    } else {
        count_parts(body.drop_last(), part) + (if body.last().part == part {
            1nat
        } else {
            0nat
        })
    }
}

/// The number of active parts (hits above zero) of a kind in a body.
pub open spec fn count_active(body: Seq<BodyPart>, part: Part) -> nat
    decreases body.len(),
{
    if body.len() == 0 {
        0
    } else {
        count_active(body.drop_last(), part) + (if body.last().part == part
            && body.last().hits > 0 {
            1nat
        } else {
            0nat
        })
    }
}

pub proof fn lemma_count_active_bounded(body: Seq<BodyPart>, part: Part)
    ensures
        count_active(body, part) <= body.len(),
        count_parts(body, part) <= body.len(),
    decreases body.len(),
{
    if body.len() > 0 {
        lemma_count_active_bounded(body.drop_last(), part);
    }
}

/// What a store holds of a resource: the first entry for it, or 0.
pub open spec fn spec_used_capacity(store: Seq<StoreEntry>, resource: ResourceType) -> int
    decreases store.len(),
{
    if store.len() == 0 {
        0
    } else if store[0].resource == resource {
        store[0].used as int
    } else {
        spec_used_capacity(store.drop_first(), resource)
    }
}

/// How much more of a resource a store can take: the first entry for it,
/// or 0.
pub open spec fn spec_free_capacity(store: Seq<StoreEntry>, resource: ResourceType) -> int
    decreases store.len(),
{
    if store.len() == 0 {
        0
    } else if store[0].resource == resource {
        store[0].free as int
    } else {
        spec_free_capacity(store.drop_first(), resource)
    }
}

/// The largest body the game spawns (`MAX_CREEP_SIZE`).
pub const MAX_CREEP_SIZE: usize = 50;

impl CreepInfo {
    /// A creep the game can hold: at most `MAX_CREEP_SIZE` parts.
    pub open spec fn wf(&self) -> bool {
        self.body@.len() <= MAX_CREEP_SIZE
    }

    /// The number of active parts of a kind (the game's
    /// `getActiveBodyparts`).
    pub fn get_active_bodyparts(&self, part: Part) -> (n: u8)
        requires
            self.wf(),
        ensures
            n == count_active(self.body@, part),
    {
        let mut n: u8 = 0;
        let mut i: usize = 0;
        while i < self.body.len()
            invariant
                self.wf(),
                i <= self.body@.len(),
                n == count_active(self.body@.subrange(0, i as int), part),
            decreases self.body@.len() - i,
        {
            proof {
                lemma_count_active_bounded(self.body@.subrange(0, i as int), part);
                assert(self.body@.subrange(0, i + 1).drop_last() == self.body@.subrange(0, i as int));
            }
            if self.body[i].part == part && self.body[i].hits > 0 {
                n = n + 1;
            }
            i = i + 1;
        }
        assert(self.body@.subrange(0, i as int) == self.body@);
        n
    }

    /// The amount of a resource in the creep's store.
    pub fn used_capacity(&self, resource: ResourceType) -> (n: u32)
        ensures
            n == spec_used_capacity(self.store@, resource),
    {
        let mut i: usize = 0;
        assert(self.store@.subrange(0, self.store@.len() as int) == self.store@);
        while i < self.store.len()
            invariant
                i <= self.store@.len(),
                spec_used_capacity(self.store@, resource) == spec_used_capacity(
                    self.store@.subrange(i as int, self.store@.len() as int),
                    resource,
                ),
            decreases self.store@.len() - i,
        {
            let ghost rest = self.store@.subrange(i as int, self.store@.len() as int);
            assert(rest.drop_first() == self.store@.subrange(i + 1, self.store@.len() as int));
            if self.store[i].resource == resource {
                return self.store[i].used;
            }
            i = i + 1;
        }
        0
    }

    /// How much more of a resource the creep's store can take.
    pub fn free_capacity(&self, resource: ResourceType) -> (n: i32)
        ensures
            n == spec_free_capacity(self.store@, resource),
    {
        let mut i: usize = 0;
        assert(self.store@.subrange(0, self.store@.len() as int) == self.store@);
        while i < self.store.len()
            invariant
                i <= self.store@.len(),
                spec_free_capacity(self.store@, resource) == spec_free_capacity(
                    self.store@.subrange(i as int, self.store@.len() as int),
                    resource,
                ),
            decreases self.store@.len() - i,
        {
            let ghost rest = self.store@.subrange(i as int, self.store@.len() as int);
            assert(rest.drop_first() == self.store@.subrange(i + 1, self.store@.len() as int));
            if self.store[i].resource == resource {
                return self.store[i].free;
            }
            i = i + 1;
        }
        0
    }
}

} // verus!
