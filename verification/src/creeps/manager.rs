//! The creep manager: gives every creep a role and runs it.
use vstd::prelude::*;
use crate::creeps::roles::{
    CreepRoleHandler, Harvester, HarvesterState, RoleAction, harvester_step, template_fits,
};
use crate::model::{CreepInfo, Part};
use crate::name_table::{find_name, insert_name, lemma_name_lookup, name_table, names_unique};

verus! {

pub struct CreepManager {
    creep_role_map: Vec<(String, Harvester)>,
}

impl CreepManager {
    pub closed spec fn wf(&self) -> bool {
        names_unique(self.creep_role_map@)
    }

    /// The role of each managed creep, by name.
    pub closed spec fn roles(&self) -> Map<Seq<char>, Harvester> {
        name_table(self.creep_role_map@)
    }

    pub fn new() -> (m: Self)
        ensures
            m.wf(),
            m.roles() == Map::<Seq<char>, Harvester>::empty(),
    {
        let m = CreepManager { creep_role_map: Vec::new() };
        assert(m.roles() =~= Map::<Seq<char>, Harvester>::empty());
        m
    }

    /// Runs a creep's role for one tick. A creep without a role is made a
    /// harvester and does nothing this tick.
    pub fn tick_creep(&mut self, creep: &CreepInfo) -> (action: RoleAction)
        requires
            old(self).wf(),
        ensures
            final(self).wf(),
            !old(self).roles().dom().contains(creep.name@) ==> {
                &&& action == RoleAction::Wait
                &&& final(self).roles() == old(self).roles().insert(creep.name@, Harvester { state: HarvesterState::Idle })
            },
            old(self).roles().dom().contains(creep.name@) ==> {
                let step = harvester_step(old(self).roles()[creep.name@].state, *creep);
                &&& action == step.1
                &&& final(self).roles() == old(self).roles().insert(creep.name@, Harvester { state: step.0 })
            },
    {
        match find_name(&self.creep_role_map, &creep.name) {
            None => {
                proof {
                    if self.roles().dom().contains(creep.name@) {
                        let i = choose|i: int| 0 <= i < self.creep_role_map@.len() && self.creep_role_map@[i].0@ == creep.name@;
                    }
                }
                insert_name(&mut self.creep_role_map, creep.name.clone(), Harvester::new());
                RoleAction::Wait
            },
            Some(i) => {
                proof { lemma_name_lookup(self.creep_role_map@, i as int); }
                let mut handler = self.creep_role_map[i].1;
                let action = handler.tick(creep);
                insert_name(&mut self.creep_role_map, creep.name.clone(), handler);
                action
            },
        }
    }

    /// Prepares the spawning of a creep named `creep_name` with the energy
    /// the spawn holds: the harvester body that energy pays for, with the
    /// name registered as a harvester; `None`, and nothing registered,
    /// where not even the smallest body is affordable.
    pub fn spawn_creep(&mut self, creep_name: String, energy_available: u32) -> (body: Option<Vec<Part>>)
        requires
            old(self).wf(),
        ensures
            final(self).wf(),
            template_fits(energy_available as int, match body {
                Some(v) => Some(v@),
                None => None,
            }),
            body is None ==> final(self).roles() == old(self).roles(),
            body is Some ==> final(self).roles() == old(self).roles().insert(creep_name@, Harvester { state: HarvesterState::Idle }),
    {
        let creep_template = match Harvester::create_parts_template(energy_available as usize) {
            None => return None,
            Some(t) => t,
        };
        // assign new creep to role
        insert_name(&mut self.creep_role_map, creep_name, Harvester::new());
        Some(creep_template)
    }
}

} // verus!
