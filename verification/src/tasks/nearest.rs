//! Where the resources a creep lacks come from: the nearest source or
//! mineral of its room.
use vstd::prelude::*;
use crate::model::{CreepInfo, MineralInfo, ResourceType, SourceInfo};
use crate::tasks::actions::{HarvestResourceAction, HarvestTarget, TaskAction};
use crate::tasks::requirements::{
    distance_key, first_min_index, lemma_first_min_exists, HasUsedCapacityRequirement, TaskRequirement,
};

verus! {

/// Energy that a creep lacks comes from the nearest source of its room:
/// the one harvest action that meets the requirement targets a source of
/// the creep's room whose distance from the creep is no larger than that of
/// any other source, and smaller than that of every source listed before
/// it; it gathers the required amount. Without a room or a source the
/// requirement cannot be met. The index of the chosen source comes back.
pub proof fn lemma_energy_comes_from_nearest_source(r: HasUsedCapacityRequirement, c: CreepInfo, sources: Seq<SourceInfo>) -> (i: int)
    requires
        r.resource_type == ResourceType::Energy,
        c.room is Some ==> sources == c.room->0.sources@,
    ensures
        (c.room is None || sources.len() == 0)
            ==> TaskRequirement::HasUsedCapacity(r).spec_to_meet(c) is None,
        (c.room is Some && sources.len() > 0) ==> {
            &&& 0 <= i < sources.len()
            &&& TaskRequirement::HasUsedCapacity(r).spec_to_meet(c) is Some
            &&& TaskRequirement::HasUsedCapacity(r).spec_to_meet(c)->0.len() == 1
            &&& TaskRequirement::HasUsedCapacity(r).spec_to_meet(c)->0[0] == TaskAction::HarvestResource(
                HarvestResourceAction { target: HarvestTarget::Source(sources[i]), capacity_goal: r.capacity },
            )
            &&& forall|j: int| 0 <= j < sources.len()
                ==> distance_key(c.pos, sources[i].pos) <= distance_key(c.pos, #[trigger] sources[j].pos)
            &&& forall|j: int| 0 <= j < i
                ==> distance_key(c.pos, sources[i].pos) < distance_key(c.pos, #[trigger] sources[j].pos)
        },
{
    let mut i: int = 0;
    if c.room is Some && sources.len() > 0 {
        let keys = sources.map_values(|s: SourceInfo| distance_key(c.pos, s.pos));
        lemma_first_min_exists(keys);
        i = first_min_index(keys);
        assert forall|j: int| 0 <= j < sources.len()
            implies distance_key(c.pos, sources[i].pos) <= distance_key(c.pos, #[trigger] sources[j].pos) by {
            assert(keys[j] == distance_key(c.pos, sources[j].pos));
        }
        assert forall|j: int| 0 <= j < i
            implies distance_key(c.pos, sources[i].pos) < distance_key(c.pos, #[trigger] sources[j].pos) by {
            assert(keys[j] == distance_key(c.pos, sources[j].pos));
        }
    }
    i
}

/// Any other resource that a creep lacks comes from the nearest mineral of
/// its room, chosen the same way; without a room or a mineral the
/// requirement cannot be met. The index of the chosen mineral comes back.
pub proof fn lemma_resource_comes_from_nearest_mineral(r: HasUsedCapacityRequirement, c: CreepInfo, minerals: Seq<MineralInfo>) -> (i: int)
    requires
        r.resource_type != ResourceType::Energy,
        c.room is Some ==> minerals == c.room->0.minerals@,
    ensures
        (c.room is None || minerals.len() == 0)
            ==> TaskRequirement::HasUsedCapacity(r).spec_to_meet(c) is None,
        (c.room is Some && minerals.len() > 0) ==> {
            &&& 0 <= i < minerals.len()
            &&& TaskRequirement::HasUsedCapacity(r).spec_to_meet(c) is Some
            &&& TaskRequirement::HasUsedCapacity(r).spec_to_meet(c)->0.len() == 1
            &&& TaskRequirement::HasUsedCapacity(r).spec_to_meet(c)->0[0] == TaskAction::HarvestResource(
                HarvestResourceAction { target: HarvestTarget::Mineral(minerals[i]), capacity_goal: r.capacity },
            )
            &&& forall|j: int| 0 <= j < minerals.len()
                ==> distance_key(c.pos, minerals[i].pos) <= distance_key(c.pos, #[trigger] minerals[j].pos)
            &&& forall|j: int| 0 <= j < i
                ==> distance_key(c.pos, minerals[i].pos) < distance_key(c.pos, #[trigger] minerals[j].pos)
        },
{
    let mut i: int = 0;
    if c.room is Some && minerals.len() > 0 {
        let keys = minerals.map_values(|m: MineralInfo| distance_key(c.pos, m.pos));
        lemma_first_min_exists(keys);
        i = first_min_index(keys);
        assert forall|j: int| 0 <= j < minerals.len()
            implies distance_key(c.pos, minerals[i].pos) <= distance_key(c.pos, #[trigger] minerals[j].pos) by {
            assert(keys[j] == distance_key(c.pos, minerals[j].pos));
        }
        assert forall|j: int| 0 <= j < i
            implies distance_key(c.pos, minerals[i].pos) < distance_key(c.pos, #[trigger] minerals[j].pos) by {
            assert(keys[j] == distance_key(c.pos, minerals[j].pos));
        }
    }
    i
}

} // verus!
