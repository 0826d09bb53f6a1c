//! What an action requires of a creep, and the actions that meet an unmet
//! requirement.
use vstd::prelude::*;
use crate::model::{CreepInfo, Part, Position, ResourceType, count_active, spec_free_capacity, spec_used_capacity};
use crate::schedule::helper::{chebyshev_pos, saturate_usize, spec_chebyshev_pos, spec_saturate};
use crate::tasks::actions::{HarvestResourceAction, MoveToPositonAction, TaskAction, HarvestTarget};

verus! {

/// At least `min_required` active parts of a kind.
#[derive(Clone, Copy, Debug, PartialEq, Eq, Structural)]
pub struct HasBodyPartRequirement {
    pub part: Part,
    pub min_required: u8,
}

/// At least `free_capacity` room left for a resource.
#[derive(Clone, Copy, Debug, PartialEq, Eq, Structural)]
pub struct HasFreeCapacityRequirement {
    pub resource_type: ResourceType,
    pub free_capacity: i32,
}

/// At least `capacity` of a resource carried.
#[derive(Clone, Copy, Debug, PartialEq, Eq, Structural)]
pub struct HasUsedCapacityRequirement {
    pub resource_type: ResourceType,
    pub capacity: u32,
}

/// Within `acceptable_range` of `target`.
#[derive(Clone, Copy, Debug, PartialEq, Eq, Structural)]
pub struct IsNearPositionRequirement {
    pub target: Position,
    pub acceptable_range: usize,
}

/// A requirement an action puts on a creep.
#[derive(Clone, Copy, Debug, PartialEq, Eq, Structural)]
pub enum TaskRequirement {
    HasBodyPart(HasBodyPartRequirement),
    HasFreeCapacity(HasFreeCapacityRequirement),
    HasUsedCapacity(HasUsedCapacityRequirement),
    IsNearPosition(IsNearPositionRequirement),
}

/// `i` is the first index at which `keys` is smallest.
pub open spec fn is_first_min(keys: Seq<int>, i: int) -> bool {
    &&& 0 <= i < keys.len()
    &&& forall|j: int| 0 <= j < keys.len() ==> keys[i] <= #[trigger] keys[j]
    &&& forall|j: int| 0 <= j < i ==> keys[i] < #[trigger] keys[j]
}

/// The first index of a smallest key (`min_by_key`); `keys` must not be
/// empty.
pub open spec fn first_min_index(keys: Seq<int>) -> int {
    choose|i: int| is_first_min(keys, i)
}

/// The distance key by which the nearest object is picked: the Chebyshev
/// distance from the creep, saturated to `usize`.
pub open spec fn distance_key(from: Position, to: Position) -> int {
    spec_saturate(spec_chebyshev_pos(from, to))
}

impl TaskRequirement {
    /// Whether the creep meets the requirement.
    pub open spec fn meets(self, c: CreepInfo) -> bool {
        match self {
            TaskRequirement::HasBodyPart(r) => count_active(c.body@, r.part) >= r.min_required,
            TaskRequirement::HasFreeCapacity(r) => spec_free_capacity(c.store@, r.resource_type) >= r.free_capacity,
            TaskRequirement::HasUsedCapacity(r) => spec_used_capacity(c.store@, r.resource_type) >= r.capacity,
            TaskRequirement::IsNearPosition(r) => spec_saturate(spec_chebyshev_pos(r.target, c.pos)) <= r.acceptable_range,
        }
    }

    /// The actions that meet the requirement, or `None` where nothing the
    /// bot can do meets it: a creep cannot change its body or drop what it
    /// carries; a creep out of a room, or in a room without a source (for
    /// energy) or mineral (for anything else), cannot harvest.
    pub open spec fn spec_to_meet(self, c: CreepInfo) -> Option<Seq<TaskAction>> {
        match self {
            TaskRequirement::HasBodyPart(_) => None,
            TaskRequirement::HasFreeCapacity(_) => None,
            TaskRequirement::IsNearPosition(r) => Some(seq![
                TaskAction::MoveToPosition(MoveToPositonAction { target: r.target, acceptable_range: r.acceptable_range }),
            ]),
            TaskRequirement::HasUsedCapacity(r) => match c.room {
                None => None,
                Some(room) => if r.resource_type == ResourceType::Energy {
                    let keys = room.sources@.map_values(|s: crate::model::SourceInfo| distance_key(c.pos, s.pos));
                    if keys.len() == 0 {
                        None
                    } else {
                        Some(seq![TaskAction::HarvestResource(HarvestResourceAction {
                            target: HarvestTarget::Source(room.sources@[first_min_index(keys)]),
                            capacity_goal: r.capacity,
                        })])
                    }
                } else {
                    let keys = room.minerals@.map_values(|m: crate::model::MineralInfo| distance_key(c.pos, m.pos));
                    if keys.len() == 0 {
                        None
                    } else {
                        Some(seq![TaskAction::HarvestResource(HarvestResourceAction {
                            target: HarvestTarget::Mineral(room.minerals@[first_min_index(keys)]),
                            capacity_goal: r.capacity,
                        })])
                    }
                },
            },
        }
    }

    /// Whether the creep meets the requirement or not.
    pub fn does_meet(&self, creep: &CreepInfo) -> (b: bool)
        requires
            creep.wf(),
        ensures
            b == self.meets(*creep),
    {
        match self {
            TaskRequirement::HasBodyPart(r) => creep.get_active_bodyparts(r.part) >= r.min_required,
            TaskRequirement::HasFreeCapacity(r) => creep.free_capacity(r.resource_type) >= r.free_capacity,
            TaskRequirement::HasUsedCapacity(r) => creep.used_capacity(r.resource_type) >= r.capacity,
            TaskRequirement::IsNearPosition(r) => {
                let distance = saturate_usize(chebyshev_pos(r.target, creep.pos));
                distance <= r.acceptable_range
            },
        }
    }

    /// Tasks required to be executed to meet the requirements.
    pub fn to_meet(&self, creep: &CreepInfo) -> (res: Option<Vec<TaskAction>>)
        ensures
            match res {
                None => self.spec_to_meet(*creep) is None,
                Some(v) => self.spec_to_meet(*creep) == Some(v@),
            },
    {
        match self {
            TaskRequirement::HasBodyPart(_) => None,
            TaskRequirement::HasFreeCapacity(_) => None,
            TaskRequirement::IsNearPosition(r) => {
                let v = vec![MoveToPositonAction::new_boxed(r.target, r.acceptable_range)];
                assert(v@ =~= self.spec_to_meet(*creep)->0);
                Some(v)
            },
            TaskRequirement::HasUsedCapacity(r) => {
                match &creep.room {
                    None => None,
                    Some(room) => {
                        if r.resource_type == ResourceType::Energy {
                            let ghost keys = room.sources@.map_values(|s: crate::model::SourceInfo| distance_key(creep.pos, s.pos));
                            if room.sources.len() == 0 {
                                return None;
                            }
                            let mut best: usize = 0;
                            let mut best_key: usize = saturate_usize(chebyshev_pos(creep.pos, room.sources[0].pos));
                            let mut i: usize = 1;
                            while i < room.sources.len()
                                invariant
                                    1 <= i <= room.sources@.len(),
                                    keys.len() == room.sources@.len(),
                                    keys == room.sources@.map_values(|s: crate::model::SourceInfo| distance_key(creep.pos, s.pos)),
                                    best < i,
                                    best_key == keys[best as int],
                                    is_first_min(keys.subrange(0, i as int), best as int),
                                decreases room.sources@.len() - i,
                            {
                                let k = saturate_usize(chebyshev_pos(creep.pos, room.sources[i].pos));
                                if k < best_key {
                                    best = i;
                                    best_key = k;
                                }
                                i = i + 1;
                                assert(is_first_min(keys.subrange(0, i as int), best as int));
                            }
                            assert(keys.subrange(0, i as int) == keys);
                            proof { lemma_first_min_unique(keys, best as int); }
                            let v = vec![HarvestResourceAction::new_boxed_source(room.sources[best], r.capacity)];
                            assert(v@ =~= self.spec_to_meet(*creep)->0);
                            Some(v)
                        } else {
                            let ghost keys = room.minerals@.map_values(|m: crate::model::MineralInfo| distance_key(creep.pos, m.pos));
                            if room.minerals.len() == 0 {
                                return None;
                            }
                            let mut best: usize = 0;
                            let mut best_key: usize = saturate_usize(chebyshev_pos(creep.pos, room.minerals[0].pos));
                            let mut i: usize = 1;
                            while i < room.minerals.len()
                                invariant
                                    1 <= i <= room.minerals@.len(),
                                    keys.len() == room.minerals@.len(),
                                    keys == room.minerals@.map_values(|m: crate::model::MineralInfo| distance_key(creep.pos, m.pos)),
                                    best < i,
                                    best_key == keys[best as int],
                                    is_first_min(keys.subrange(0, i as int), best as int),
                                decreases room.minerals@.len() - i,
                            {
                                let k = saturate_usize(chebyshev_pos(creep.pos, room.minerals[i].pos));
                                if k < best_key {
                                    best = i;
                                    best_key = k;
                                }
                                i = i + 1;
                                assert(is_first_min(keys.subrange(0, i as int), best as int));
                            }
                            assert(keys.subrange(0, i as int) == keys);
                            proof { lemma_first_min_unique(keys, best as int); }
                            let v = vec![HarvestResourceAction::new_boxed_mineral(room.minerals[best], r.capacity)];
                            assert(v@ =~= self.spec_to_meet(*creep)->0);
                            Some(v)
                        }
                    },
                }
            },
        }
    }
}

/// The first smallest index is unique, so `first_min_index` names it.
pub proof fn lemma_first_min_unique(keys: Seq<int>, i: int)
    requires
        is_first_min(keys, i),
    ensures
        first_min_index(keys) == i,
{
    let k = first_min_index(keys);
    assert(is_first_min(keys, k));
    if k < i {
        assert(keys[i] < keys[k]);
    } else if k > i {
        assert(keys[k] < keys[i]);
    }
}

/// Every non-empty sequence of keys has a first smallest index.
pub proof fn lemma_first_min_exists(keys: Seq<int>)
    requires
        keys.len() > 0,
    ensures
        is_first_min(keys, first_min_index(keys)),
    decreases keys.len(),
{
    if keys.len() == 1 {
        assert(is_first_min(keys, 0));
    } else {
        let prefix = keys.drop_last();
        lemma_first_min_exists(prefix);
        let i0 = first_min_index(prefix);
        let last = keys.len() - 1;
        if keys[last] < keys[i0] {
            assert forall|j: int| 0 <= j < keys.len() implies keys[last] <= #[trigger] keys[j] by {
                if j < last {
                    assert(prefix[j] == keys[j]);
                }
            }
            assert forall|j: int| 0 <= j < last implies keys[last] < #[trigger] keys[j] by {
                assert(prefix[j] == keys[j]);
            }
            assert(is_first_min(keys, last));
        } else {
            assert forall|j: int| 0 <= j < keys.len() implies keys[i0] <= #[trigger] keys[j] by {
                if j < last {
                    assert(prefix[j] == keys[j]);
                }
            }
            assert forall|j: int| 0 <= j < i0 implies keys[i0] < #[trigger] keys[j] by {
                assert(prefix[j] == keys[j]);
            }
            assert(is_first_min(keys, i0));
        }
    }
}

impl HasBodyPartRequirement {
    pub fn new(part: Part, min_required: u8) -> (r: Self)
        ensures
            r == (HasBodyPartRequirement { part, min_required }),
    {
        Self { part, min_required }
    }

    pub fn new_boxed(part: Part, min_required: u8) -> (r: TaskRequirement)
        ensures
            r == TaskRequirement::HasBodyPart(HasBodyPartRequirement { part, min_required }),
    {
        TaskRequirement::HasBodyPart(Self::new(part, min_required))
    }
}

impl HasFreeCapacityRequirement {
    pub fn new(resource_type: ResourceType, free_capacity: i32) -> (r: Self)
        ensures
            r == (HasFreeCapacityRequirement { resource_type, free_capacity }),
    {
        Self { resource_type, free_capacity }
    }

    pub fn new_boxed(resource_type: ResourceType, free_capacity: i32) -> (r: TaskRequirement)
        ensures
            r == TaskRequirement::HasFreeCapacity(HasFreeCapacityRequirement { resource_type, free_capacity }),
    {
        TaskRequirement::HasFreeCapacity(Self::new(resource_type, free_capacity))
    }
}

impl HasUsedCapacityRequirement {
    pub fn new(resource_type: ResourceType, capacity: u32) -> (r: Self)
        ensures
            r == (HasUsedCapacityRequirement { resource_type, capacity }),
    {
        Self { resource_type, capacity }
    }

    pub fn new_boxed(resource_type: ResourceType, capacity: u32) -> (r: TaskRequirement)
        ensures
            r == TaskRequirement::HasUsedCapacity(HasUsedCapacityRequirement { resource_type, capacity }),
    {
        TaskRequirement::HasUsedCapacity(Self::new(resource_type, capacity))
    }
}

impl IsNearPositionRequirement {
    pub fn new(target: Position, acceptable_range: usize) -> (r: Self)
        ensures
            r == (IsNearPositionRequirement { target, acceptable_range }),
    {
        Self { target, acceptable_range }
    }

    pub fn new_boxed(target: Position, acceptable_range: usize) -> (r: TaskRequirement)
        ensures
            r == TaskRequirement::IsNearPosition(IsNearPositionRequirement { target, acceptable_range }),
    {
        TaskRequirement::IsNearPosition(Self::new(target, acceptable_range))
    }
}

} // verus!
