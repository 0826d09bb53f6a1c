//! Harvest energy at the nearest source until the creep is full.
use vstd::prelude::*;
use vstd::string::*;
use crate::model::{CreepInfo, Part, ResourceType, SourceInfo, count_parts, spec_free_capacity};
use crate::schedule::helper::{
    chebyshev_pos, get_creep_move_speed, saturate_usize, spec_chebyshev_pos,
    spec_move_speed, spec_saturate,
};
use crate::schedule::task::{GameError, TaskRequirement, TaskResult};
use crate::tasks::actions::ERR_NOT_IN_RANGE;
use crate::tasks::requirements::{first_min_index, is_first_min, lemma_first_min_exists, lemma_first_min_unique};

verus! {

#[derive(Clone, Copy, Debug, PartialEq, Eq, Structural)]
pub struct HarvestEnergyTask {}

/// The distance from the creep to each source of its room.
pub open spec fn source_distances(c: CreepInfo, sources: Seq<SourceInfo>) -> Seq<int> {
    sources.map_values(|s: SourceInfo| spec_chebyshev_pos(s.pos, c.pos))
}

/// `d` divided by a move speed of 0 or 1 as a float division cast to
/// `usize` gives it: by 1 it is `d` (saturated); by 0 it is `usize::MAX`
/// for a positive `d` (infinity) and 0 for `d = 0` (not a number).
pub open spec fn ticks_at_speed(d: int, speed: int) -> int {
    if speed >= 1 {
        spec_saturate(d)
    } else if d > 0 {
        usize::MAX as int
    } else {
        0
    }
}

/// The ticks needed to fill `capacity` at `speed` per tick, rounded up;
/// a non-positive capacity needs none, and no speed at all takes forever
/// (`usize::MAX`).
pub open spec fn fill_ticks(capacity: int, speed: int) -> int {
    if capacity <= 0 {
        0
    } else if speed == 0 {
        usize::MAX as int
    } else {
        (capacity + speed - 1) / speed
    }
}

/// The travel ticks to the nearest source: `usize::MAX` out of a room or
/// where the room has no source.
pub open spec fn harvest_travel_ticks(c: CreepInfo) -> int {
    match c.room {
        None => usize::MAX as int,
        Some(room) => {
            let d = source_distances(c, room.sources@);
            if d.len() == 0 {
                usize::MAX as int
            } else {
                ticks_at_speed(d[first_min_index(d)], spec_move_speed(c))
            }
        },
    }
}

/// The ticks to harvest until the creep is full, one energy per `Work`
/// part per tick.
pub open spec fn harvest_fill_ticks(c: CreepInfo) -> int {
    fill_ticks(spec_free_capacity(c.store@, ResourceType::Energy), count_parts(c.body@, Part::Work) as int)
}

/// For a creep in a room with a source, `Work` parts and room for energy,
/// the harvest estimate is the travel to the nearest source, one tile per
/// tick, plus the fewest whole ticks in which its `Work` parts, one energy
/// each per tick, fill the free capacity. The index of that source comes
/// back.
pub proof fn lemma_harvest_task_estimate(c: CreepInfo) -> (i: int)
    requires
        c.room is Some,
        c.room->0.sources@.len() > 0,
        count_parts(c.body@, Part::Work) > 0,
        spec_free_capacity(c.store@, ResourceType::Energy) > 0,
    ensures
        ({
            let sources = c.room->0.sources@;
            let w = count_parts(c.body@, Part::Work) as int;
            let free = spec_free_capacity(c.store@, ResourceType::Energy);
            let fill = HarvestEnergyTask::spec_estimate(c) - spec_saturate(spec_chebyshev_pos(sources[i].pos, c.pos));
            &&& 0 <= i < sources.len()
            &&& forall|j: int| 0 <= j < sources.len()
                ==> spec_chebyshev_pos(sources[i].pos, c.pos) <= spec_chebyshev_pos(#[trigger] sources[j].pos, c.pos)
            &&& fill * w >= free
            &&& (fill - 1) * w < free
        }),
{
    let sources = c.room->0.sources@;
    let d = source_distances(c, sources);
    lemma_first_min_exists(d);
    let i = first_min_index(d);
    crate::schedule::helper::lemma_move_speed_is_one(c);
    assert forall|j: int| 0 <= j < sources.len()
        implies spec_chebyshev_pos(sources[i].pos, c.pos) <= spec_chebyshev_pos(#[trigger] sources[j].pos, c.pos) by {
        assert(d[j] == spec_chebyshev_pos(sources[j].pos, c.pos));
    }
    let w = count_parts(c.body@, Part::Work) as int;
    let free = spec_free_capacity(c.store@, ResourceType::Energy);
    let f = (free + w - 1) / w;
    assert(harvest_fill_ticks(c) == f);
    vstd::arithmetic::div_mod::lemma_fundamental_div_mod(free + w - 1, w);
    vstd::arithmetic::div_mod::lemma_mod_bound(free + w - 1, w);
    assert(f * w == w * f) by (nonlinear_arith);
    assert((f - 1) * w == w * f - w) by (nonlinear_arith);
    i
}

impl HarvestEnergyTask {
    pub fn new() -> (t: Self)
        ensures
            t == (HarvestEnergyTask {}),
    {
        Self {}
    }

    /// The inputs on which the estimate is defined: out of a room it is
    /// `usize::MAX`; in a room travel plus harvest ticks must fit in a
    /// `usize`.
    pub open spec fn estimate_defined(c: CreepInfo) -> bool {
        c.room is Some ==> harvest_travel_ticks(c) + harvest_fill_ticks(c) <= usize::MAX
    }

    /// Estimated ticks: travel to the nearest source plus harvesting
    /// until full; `usize::MAX` for a creep that is not in a room.
    pub open spec fn spec_estimate(c: CreepInfo) -> int {
        match c.room {
            None => usize::MAX as int,
            Some(_) => harvest_travel_ticks(c) + harvest_fill_ticks(c),
        }
    }

    /// Estimate how many ticks are required to fulfill the task for the
    /// given creep.
    pub fn estimate_ticks(&self, creep: &CreepInfo) -> (ticks: usize)
        requires
            creep.wf(),
            Self::estimate_defined(*creep),
        ensures
            ticks == Self::spec_estimate(*creep),
    {
        let room = match &creep.room {
            None => return usize::MAX,
            Some(room) => room,
        };
        let move_speed = get_creep_move_speed(creep);
        let travel_ticks: usize = match nearest_source(creep, &room.sources) {
            None => usize::MAX,
            Some(i) => {
                let d = chebyshev_pos(room.sources[i].pos, creep.pos);
                if move_speed >= 1 {
                    saturate_usize(d)
                } else if d > 0 {
                    usize::MAX
                } else {
                    0
                }
            },
        };
        // time needed to harvest until full
        let mut harvest_speed: i64 = 0;
        let mut k: usize = 0;
        while k < creep.body.len()
            invariant
                creep.wf(),
                k <= creep.body@.len(),
                harvest_speed == count_parts(creep.body@.subrange(0, k as int), Part::Work),
                harvest_speed <= k,
            decreases creep.body@.len() - k,
        {
            proof {
                crate::model::lemma_count_active_bounded(creep.body@.subrange(0, k as int), Part::Work);
                assert(creep.body@.subrange(0, k + 1).drop_last() == creep.body@.subrange(0, k as int));
            }
            if creep.body[k].part == Part::Work {
                harvest_speed = harvest_speed + 1;
            }
            k = k + 1;
        }
        assert(creep.body@.subrange(0, k as int) == creep.body@);
        let capacity_goal = creep.free_capacity(ResourceType::Energy) as i64;
        let harvest_ticks: usize = if capacity_goal <= 0 {
            0
        } else if harvest_speed == 0 {
            usize::MAX
        } else {
            ((capacity_goal + harvest_speed - 1) / harvest_speed) as usize
        };
        assert(travel_ticks == harvest_travel_ticks(*creep));
        assert(harvest_ticks == harvest_fill_ticks(*creep));
        travel_ticks + harvest_ticks
    }

    /// Get the requirements: room for energy (at least -1 free, which
    /// every creep has) and `Move`, `Work` and `Carry` parts.
    pub fn get_requirements(&self) -> (reqs: Vec<TaskRequirement>)
        ensures
            reqs@.len() == 2,
            reqs@[0] == TaskRequirement::HasFreeCapacity(ResourceType::Energy, -1i32),
            reqs@[1] matches TaskRequirement::HasParts(parts) && parts@ == seq![Part::Move, Part::Work, Part::Carry],
    {
        let parts = vec![Part::Move, Part::Work, Part::Carry];
        vec![TaskRequirement::HasFreeCapacity(ResourceType::Energy, -1), TaskRequirement::HasParts(parts)]
    }
}

/// What the first part of a harvest tick decides.
#[derive(Clone, Debug)]
pub enum HarvestStep {
    /// The tick ends with this result.
    Done(TaskResult),
    /// The creep is to harvest this source.
    Harvest(SourceInfo),
}

/// What a failed harvest call leads to.
#[derive(Clone, Debug)]
pub enum HarvestFollowUp {
    /// The tick ends with this result.
    Done(TaskResult),
    /// The creep is to move to the source.
    MoveToSource,
}

/// The index of the nearest source (the first of the nearest).
fn nearest_source(creep: &CreepInfo, sources: &Vec<SourceInfo>) -> (r: Option<usize>)
    ensures
        match r {
            None => sources@.len() == 0,
            Some(i) => sources@.len() > 0 && i < sources@.len() && i == first_min_index(source_distances(*creep, sources@)),
        },
{
    if sources.len() == 0 {
        return None;
    }
    let ghost keys = source_distances(*creep, sources@);
    let mut best: usize = 0;
    let mut best_key: u64 = chebyshev_pos(sources[0].pos, creep.pos);
    let mut i: usize = 1;
    while i < sources.len()
        invariant
            1 <= i <= sources@.len(),
            keys == source_distances(*creep, sources@),
            best < i,
            best_key == keys[best as int],
            is_first_min(keys.subrange(0, i as int), best as int),
        decreases sources@.len() - i,
    {
        let k = chebyshev_pos(sources[i].pos, creep.pos);
        if k < best_key {
            best = i;
            best_key = k;
        }
        i = i + 1;
        assert(is_first_min(keys.subrange(0, i as int), best as int));
    }
    assert(keys.subrange(0, i as int) == keys);
    proof { lemma_first_min_unique(keys, best as int); }
    Some(best)
}

impl HarvestEnergyTask {
    /// The start of a tick: a full creep is done; a creep out of a room, or
    /// in one without sources, fails; an empty nearest source means done;
    /// otherwise harvest the nearest source.
    pub open spec fn spec_begin_tick(c: CreepInfo, step: HarvestStep) -> bool {
        if spec_free_capacity(c.store@, ResourceType::Energy) <= 0 {
            step matches HarvestStep::Done(TaskResult::Completed)
        } else {
            match c.room {
                None => step matches HarvestStep::Done(TaskResult::Error(m))
                    && m@ == "Creep is not in a room, cannot execute HarvestEnergyTask"@,
                Some(room) => {
                    let d = source_distances(c, room.sources@);
                    if d.len() == 0 {
                        step matches HarvestStep::Done(TaskResult::Error(m))
                            && m@ == "No energy sources found in room, cannot execute HarvestEnergyTask"@
                    } else if room.sources@[first_min_index(d)].energy <= 0 {
                        step matches HarvestStep::Done(TaskResult::Completed)
                    } else {
                        step == HarvestStep::Harvest(room.sources@[first_min_index(d)])
                    }
                },
            }
        }
    }

    /// Execute the deciding part of one tick of work on the given creep.
    pub fn begin_tick(&self, creep: &CreepInfo) -> (step: HarvestStep)
        ensures
            Self::spec_begin_tick(*creep, step),
    {
        if creep.free_capacity(ResourceType::Energy) <= 0 {
            return HarvestStep::Done(TaskResult::Completed);
        }
        let room = match &creep.room {
            None => return HarvestStep::Done(TaskResult::Error(
                String::from_str("Creep is not in a room, cannot execute HarvestEnergyTask"),
            )),
            Some(room) => room,
        };
        let target = match nearest_source(creep, &room.sources) {
            None => return HarvestStep::Done(TaskResult::Error(
                String::from_str("No energy sources found in room, cannot execute HarvestEnergyTask"),
            )),
            Some(i) => room.sources[i],
        };
        if target.energy <= 0 {
            return HarvestStep::Done(TaskResult::Completed);
        }
        HarvestStep::Harvest(target)
    }

    /// After the harvest call: success keeps the task in progress; out of
    /// range sends the creep to the source; any other error fails.
    pub fn after_harvest(&self, harvest_result: Result<(), GameError>) -> (next: HarvestFollowUp)
        ensures
            match harvest_result {
                Ok(_) => next matches HarvestFollowUp::Done(TaskResult::InProgress),
                Err(e) => if e.code == ERR_NOT_IN_RANGE {
                    next matches HarvestFollowUp::MoveToSource
                } else {
                    next matches HarvestFollowUp::Done(TaskResult::Error(m))
                        && m@ == "Failed to harvest source: "@ + e.description@
                },
            },
    {
        match harvest_result {
            Ok(_) => HarvestFollowUp::Done(TaskResult::InProgress),
            Err(e) => {
                if e.code == ERR_NOT_IN_RANGE {
                    HarvestFollowUp::MoveToSource
                } else {
                    HarvestFollowUp::Done(TaskResult::Error(
                        String::from_str("Failed to harvest source: ").concat(e.description.as_str()),
                    ))
                }
            },
        }
    }

    /// After the move call: success keeps the task in progress, an error
    /// fails it.
    pub fn after_move(&self, move_result: Result<(), GameError>) -> (r: TaskResult)
        ensures
            match move_result {
                Ok(_) => r matches TaskResult::InProgress,
                Err(e) => r matches TaskResult::Error(m) && m@ == "Failed to move to source: "@ + e.description@,
            },
    {
        match move_result {
            Ok(_) => TaskResult::InProgress,
            Err(e) => TaskResult::Error(
                String::from_str("Failed to move to source: ").concat(e.description.as_str()),
            ),
        }
    }
}

} // verus!
