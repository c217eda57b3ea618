//! The facet that gives an entity health and a faction.
use vstd::prelude::*;
use crate::math::{Single, SpawnConfig, ZERO_BITS};
use crate::replica::{
    DestroyableConstruction, DestroyableSerialization, SerializationStatsInfo, StatsInfo,
    StatusImmunityInfo,
};
use crate::services::{GameObjectServiceMut, SetFaction};

verus! {

/// Encoding of 4, the health that every destroyable entity has.
pub const FOUR_BITS: u32 = 0x4080_0000;

/// The faction of a new entity.
pub const DEFAULT_FACTION: i32 = 1;

/// The facet that gives an entity health and a faction.
#[derive(Clone, Copy, Debug, PartialEq, Eq, Structural)]
pub struct DestroyableComponent {
    pub faction: i32,
}

impl DestroyableComponent {
    /// The component of a new entity: it belongs to the default faction.
    pub fn new(_config: &SpawnConfig) -> (c: Self)
        ensures
            c == (DestroyableComponent { faction: DEFAULT_FACTION }),
    {
        Self { faction: DEFAULT_FACTION }
    }

    /// Moves the entity to the faction that the request names.
    pub fn set_faction(&mut self, set_faction: &SetFaction)
        ensures
            *final(self) == (DestroyableComponent { faction: set_faction.0 }),
    {
        self.faction = set_faction.0;
    }

    /// This component after a mutating query: a request to change the faction is obeyed, any
    /// other query leaves it as it is.
    pub open spec fn spec_run_service_mut(
        &self,
        service: GameObjectServiceMut,
    ) -> DestroyableComponent {
        match service {
            GameObjectServiceMut::SetFaction(set_faction) => DestroyableComponent {
                faction: set_faction.0,
            },
            _ => *self,
        }
    }

    /// Obeys a request to change the faction; lets any other query pass.
    pub fn run_service_mut(&mut self, service: &GameObjectServiceMut)
        ensures
            *final(self) == old(self).spec_run_service_mut(*service),
    {
        match service {
            GameObjectServiceMut::SetFaction(set_faction) => self.set_faction(set_faction),
            _ => {},
        }
    }

    /// The full snapshot.
    pub open spec fn spec_construction(&self) -> DestroyableConstruction {
        DestroyableConstruction {
            status_immunity_info: Some(
                StatusImmunityInfo {
                    immune_to_basic_attack: 0,
                    immune_to_damage_over_time: 0,
                    immune_to_knockback: 0,
                    immune_to_interrupt: 0,
                    immune_to_speed: 0,
                    immune_to_imagination_gain: 0,
                    immune_to_imagination_loss: 0,
                    immune_to_quickbuild_interrupt: 0,
                    immune_to_pull_to_point: 0,
                },
            ),
            stats_info: Some(
                StatsInfo {
                    cur_health: 4,
                    max_health: Single { bits: FOUR_BITS },
                    cur_armor: 0,
                    max_armor: Single { bits: ZERO_BITS },
                    cur_imag: 0,
                    max_imag: Single { bits: ZERO_BITS },
                    damage_absorption_points: 0,
                    immunity: true,
                    is_gm_immune: false,
                    is_shielded: false,
                    actual_max_health: Single { bits: FOUR_BITS },
                    actual_max_armor: Single { bits: ZERO_BITS },
                    actual_max_imag: Single { bits: ZERO_BITS },
                    factions: [self.faction],
                    is_dead: false,
                    is_smashed: false,
                },
            ),
            is_on_a_threat_list: Some(false),
        }
    }

    /// The update snapshot.
    pub open spec fn spec_serialization(&self) -> DestroyableSerialization {
        DestroyableSerialization {
            serialization_stats_info: Some(
                SerializationStatsInfo {
                    cur_health: 4,
                    max_health: Single { bits: FOUR_BITS },
                    cur_armor: 0,
                    max_armor: Single { bits: ZERO_BITS },
                    cur_imag: 0,
                    max_imag: Single { bits: ZERO_BITS },
                    damage_absorption_points: 0,
                    immunity: true,
                    is_gm_immune: false,
                    is_shielded: false,
                    actual_max_health: Single { bits: FOUR_BITS },
                    actual_max_armor: Single { bits: ZERO_BITS },
                    actual_max_imag: Single { bits: ZERO_BITS },
                    factions: [self.faction],
                    is_smashable: false,
                },
            ),
            is_on_a_threat_list: None,
        }
    }

    /// The full snapshot.
    pub fn make_construction(&self) -> (r: DestroyableConstruction)
        ensures
            r == self.spec_construction(),
    {
        DestroyableConstruction {
            status_immunity_info: Some(
                StatusImmunityInfo {
                    immune_to_basic_attack: 0,
                    immune_to_damage_over_time: 0,
                    immune_to_knockback: 0,
                    immune_to_interrupt: 0,
                    immune_to_speed: 0,
                    immune_to_imagination_gain: 0,
                    immune_to_imagination_loss: 0,
                    immune_to_quickbuild_interrupt: 0,
                    immune_to_pull_to_point: 0,
                },
            ),
            stats_info: Some(
                StatsInfo {
                    cur_health: 4,
                    max_health: Single { bits: FOUR_BITS },
                    cur_armor: 0,
                    max_armor: Single { bits: ZERO_BITS },
                    cur_imag: 0,
                    max_imag: Single { bits: ZERO_BITS },
                    damage_absorption_points: 0,
                    immunity: true,
                    is_gm_immune: false,
                    is_shielded: false,
                    actual_max_health: Single { bits: FOUR_BITS },
                    actual_max_armor: Single { bits: ZERO_BITS },
                    actual_max_imag: Single { bits: ZERO_BITS },
                    factions: [self.faction],
                    is_dead: false,
                    is_smashed: false,
                },
            ),
            is_on_a_threat_list: Some(false),
        }
    }

    /// The update snapshot.
    pub fn make_serialization(&self) -> (r: DestroyableSerialization)
        ensures
            r == self.spec_serialization(),
    {
        DestroyableSerialization {
            serialization_stats_info: Some(
                SerializationStatsInfo {
                    cur_health: 4,
                    max_health: Single { bits: FOUR_BITS },
                    cur_armor: 0,
                    max_armor: Single { bits: ZERO_BITS },
                    cur_imag: 0,
                    max_imag: Single { bits: ZERO_BITS },
                    damage_absorption_points: 0,
                    immunity: true,
                    is_gm_immune: false,
                    is_shielded: false,
                    actual_max_health: Single { bits: FOUR_BITS },
                    actual_max_armor: Single { bits: ZERO_BITS },
                    actual_max_imag: Single { bits: ZERO_BITS },
                    factions: [self.faction],
                    is_smashable: false,
                },
            ),
            is_on_a_threat_list: None,
        }
    }
}

} // verus!
