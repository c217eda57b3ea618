//! Snapshots: what an entity and its components report about themselves.
//!
//! A *construction* is the full state, sent when a client first sees the entity. A
//! *serialization* is the smaller state sent on later updates. Both list the components'
//! snapshots by position, in composition order, so the order of the list is part of the
//! message. The records hold the sections that this server fills in, and those optional
//! fields of plain type that it leaves empty; sections that it never sends are not modelled.
use vstd::prelude::*;
use crate::ids::{Lot, ObjId};
use crate::math::{Quaternion, Single, Vector3};

verus! {

/// Where a controllable entity is and how it moves.
#[derive(Clone, Copy, Debug, PartialEq, Eq)]
pub struct FrameStats {
    pub position: Vector3,
    pub rotation: Quaternion,
    pub is_on_ground: bool,
    pub is_on_rail: bool,
    pub linear_velocity: Option<Vector3>,
    pub angular_velocity: Option<Vector3>,
}

#[derive(Clone, Copy, Debug, PartialEq, Eq)]
pub struct FrameStatsTeleportInfo {
    pub frame_stats: FrameStats,
    pub is_teleporting: bool,
}

#[derive(Clone, Copy, Debug, PartialEq, Eq)]
pub struct ControllablePhysicsConstruction {
    pub frame_stats: Option<FrameStats>,
}

#[derive(Clone, Copy, Debug, PartialEq, Eq)]
pub struct ControllablePhysicsSerialization {
    pub frame_stats_teleport_info: Option<FrameStatsTeleportInfo>,
}

#[derive(Clone, Copy, Debug, PartialEq, Eq)]
pub struct PositionRotationInfo {
    pub position: Vector3,
    pub rotation: Quaternion,
}

#[derive(Clone, Copy, Debug, PartialEq, Eq)]
pub struct SimplePhysicsConstruction {
    pub motion_type: Option<u32>,
    pub position_rotation_info: Option<PositionRotationInfo>,
}

#[derive(Clone, Copy, Debug, PartialEq, Eq)]
pub struct SimplePhysicsSerialization {
    pub motion_type: Option<u32>,
    pub position_rotation_info: Option<PositionRotationInfo>,
}

#[derive(Clone, Copy, Debug, PartialEq, Eq)]
pub enum TransitionState {
    Stationary,
    Arrive,
    Leave,
}

#[derive(Clone, Copy, Debug, PartialEq, Eq)]
pub enum GameActivity {
    Idle,
    Quickbuilding,
    ShootingGallery,
    Racing,
    Pinball,
    PetTaming,
}

#[derive(Clone, Copy, Debug, PartialEq, Eq)]
pub struct GmPvpInfo {
    pub pvp_enabled: bool,
    pub is_gm: bool,
    pub gm_level: u8,
    pub editor_enabled: bool,
    pub editor_level: u8,
}

#[derive(Clone, Copy, Debug, PartialEq, Eq)]
pub struct SocialInfo {
    pub guild_id: u64,
    pub guild_name: &'static str,
    pub is_lego_club_member: bool,
}

#[derive(Clone, Copy, Debug, PartialEq, Eq)]
pub struct CharacterConstruction {
    pub claim_code_1: Option<u64>,
    pub claim_code_2: Option<u64>,
    pub claim_code_3: Option<u64>,
    pub claim_code_4: Option<u64>,
    pub hair_color: u32,
    pub hair_style: u32,
    pub torso_color: u32,
    pub legs_color: u32,
    pub torso_decal: u32,
    pub eyebrows_style: u32,
    pub eyes_style: u32,
    pub mouth_style: u32,
    pub account_id: u64,
    pub last_logout: u64,
    pub prop_mod_last_display_time: u64,
    pub u_score: u64,
    pub is_free_trial: bool,
    pub total_currency_collected: u64,
    pub total_bricks_collected: u64,
    pub total_smashables_smashed: u64,
    pub total_quickbuilds_completed: u64,
    pub total_enemies_smashed: u64,
    pub total_rockets_used: u64,
    pub total_missions_completed: u64,
    pub total_pets_tamed: u64,
    pub total_imagination_powerups_collected: u64,
    pub total_life_powerups_collected: u64,
    pub total_armor_powerups_collected: u64,
    pub total_distance_traveled: u64,
    pub times_smashed_count: u64,
    pub total_damage_taken: u64,
    pub total_damage_healed: u64,
    pub total_armor_repaired: u64,
    pub total_imagination_restored: u64,
    pub total_imagination_used: u64,
    pub total_distance_driven: u64,
    pub total_time_airborne_in_a_race_car: u64,
    pub total_racing_imagination_powerups_collected: u64,
    pub total_racing_imagination_crates_smashed: u64,
    pub total_racing_car_boosts_activated: u64,
    pub total_racing_wrecks: u64,
    pub total_racing_smashables_smashed: u64,
    pub total_races_finished: u64,
    pub total_first_place_race_finishes: u64,
    pub transition_state: TransitionState,
    pub gm_pvp_info: Option<GmPvpInfo>,
    pub current_activity: Option<GameActivity>,
    pub social_info: Option<SocialInfo>,
}

#[derive(Clone, Copy, Debug, PartialEq, Eq)]
pub struct CharacterSerialization {
    pub gm_pvp_info: Option<GmPvpInfo>,
    pub current_activity: Option<GameActivity>,
    pub social_info: Option<SocialInfo>,
}

#[derive(Clone, Copy, Debug, PartialEq, Eq)]
pub struct StatusImmunityInfo {
    pub immune_to_basic_attack: u32,
    pub immune_to_damage_over_time: u32,
    pub immune_to_knockback: u32,
    pub immune_to_interrupt: u32,
    pub immune_to_speed: u32,
    pub immune_to_imagination_gain: u32,
    pub immune_to_imagination_loss: u32,
    pub immune_to_quickbuild_interrupt: u32,
    pub immune_to_pull_to_point: u32,
}

#[derive(Clone, Copy, Debug, PartialEq, Eq)]
pub struct StatsInfo {
    pub cur_health: u32,
    pub max_health: Single,
    pub cur_armor: u32,
    pub max_armor: Single,
    pub cur_imag: u32,
    pub max_imag: Single,
    pub damage_absorption_points: u32,
    pub immunity: bool,
    pub is_gm_immune: bool,
    pub is_shielded: bool,
    pub actual_max_health: Single,
    pub actual_max_armor: Single,
    pub actual_max_imag: Single,
    pub factions: [i32; 1],
    pub is_dead: bool,
    pub is_smashed: bool,
}

#[derive(Clone, Copy, Debug, PartialEq, Eq)]
pub struct SerializationStatsInfo {
    pub cur_health: u32,
    pub max_health: Single,
    pub cur_armor: u32,
    pub max_armor: Single,
    pub cur_imag: u32,
    pub max_imag: Single,
    pub damage_absorption_points: u32,
    pub immunity: bool,
    pub is_gm_immune: bool,
    pub is_shielded: bool,
    pub actual_max_health: Single,
    pub actual_max_armor: Single,
    pub actual_max_imag: Single,
    pub factions: [i32; 1],
    pub is_smashable: bool,
}

#[derive(Clone, Copy, Debug, PartialEq, Eq)]
pub struct DestroyableConstruction {
    pub status_immunity_info: Option<StatusImmunityInfo>,
    pub stats_info: Option<StatsInfo>,
    pub is_on_a_threat_list: Option<bool>,
}

#[derive(Clone, Copy, Debug, PartialEq, Eq)]
pub struct DestroyableSerialization {
    pub serialization_stats_info: Option<SerializationStatsInfo>,
    pub is_on_a_threat_list: Option<bool>,
}

/// One item that an entity wears.
#[derive(Clone, Copy, Debug, PartialEq, Eq)]
pub struct EquippedItemInfo {
    pub id: ObjId,
    pub lot: Lot,
    pub subkey: Option<ObjId>,
    pub count: Option<u32>,
    pub slot: Option<u16>,
    pub inventory_type: Option<u32>,
    pub is_bound: bool,
}

#[derive(Clone, Copy, Debug, PartialEq, Eq)]
pub struct InventoryConstruction {
    pub equipped_items: Option<[EquippedItemInfo; 2]>,
}

#[derive(Clone, Copy, Debug, PartialEq, Eq)]
pub struct InventorySerialization {
    pub equipped_items: Option<[EquippedItemInfo; 2]>,
}

#[derive(Clone, Copy, Debug, PartialEq, Eq)]
pub struct PlayerForcedMovementConstruction {
}

#[derive(Clone, Copy, Debug, PartialEq, Eq)]
pub struct PlayerForcedMovementSerialization {
}

#[derive(Clone, Copy, Debug, PartialEq, Eq)]
pub struct LevelProgressionConstruction {
    pub current_level: Option<u32>,
}

#[derive(Clone, Copy, Debug, PartialEq, Eq)]
pub struct LevelProgressionSerialization {
    pub current_level: Option<u32>,
}

#[derive(Clone, Copy, Debug, PartialEq, Eq)]
pub struct FxConstruction {
}

#[derive(Clone, Copy, Debug, PartialEq, Eq)]
pub struct FxSerialization {
}

#[derive(Clone, Copy, Debug, PartialEq, Eq)]
pub struct SkillConstruction {
}

#[derive(Clone, Copy, Debug, PartialEq, Eq)]
pub struct SkillSerialization {
}

#[derive(Clone, Copy, Debug, PartialEq, Eq)]
pub struct BbbConstruction {
    pub metadata_source_item: Option<ObjId>,
}

#[derive(Clone, Copy, Debug, PartialEq, Eq)]
pub struct BbbSerialization {
    pub metadata_source_item: Option<ObjId>,
}

#[derive(Clone, Copy, Debug, PartialEq, Eq)]
pub struct PossessionControlConstruction {
}

#[derive(Clone, Copy, Debug, PartialEq, Eq)]
pub struct PossessionControlSerialization {
}

#[derive(Clone, Copy, Debug, PartialEq, Eq)]
pub struct ScriptConstruction {
}

#[derive(Clone, Copy, Debug, PartialEq, Eq)]
pub struct ScriptSerialization {
}

#[derive(Clone, Copy, Debug, PartialEq, Eq)]
pub struct BaseCombatAiConstruction {
}

#[derive(Clone, Copy, Debug, PartialEq, Eq)]
pub struct BaseCombatAiSerialization {
}

#[derive(Clone, Copy, Debug, PartialEq, Eq)]
pub struct BuffConstruction {
}

#[derive(Clone, Copy, Debug, PartialEq, Eq)]
pub struct BuffSerialization {
}

/// The construction snapshot of one component.
#[derive(Clone, Copy, Debug, PartialEq, Eq)]
pub enum ComponentConstruction {
    ControllablePhysics(ControllablePhysicsConstruction),
    SimplePhysics(SimplePhysicsConstruction),
    Character(CharacterConstruction),
    Script(ScriptConstruction),
    Destroyable(DestroyableConstruction),
    Skill(SkillConstruction),
    Inventory(InventoryConstruction),
    Fx(FxConstruction),
    BaseCombatAi(BaseCombatAiConstruction),
    Buff(BuffConstruction),
    PlayerForcedMovement(PlayerForcedMovementConstruction),
    Bbb(BbbConstruction),
    LevelProgression(LevelProgressionConstruction),
    PossessionControl(PossessionControlConstruction),
}

/// The serialization snapshot of one component.
#[derive(Clone, Copy, Debug, PartialEq, Eq)]
pub enum ComponentSerialization {
    ControllablePhysics(ControllablePhysicsSerialization),
    SimplePhysics(SimplePhysicsSerialization),
    Character(CharacterSerialization),
    Script(ScriptSerialization),
    Destroyable(DestroyableSerialization),
    Skill(SkillSerialization),
    Inventory(InventorySerialization),
    Fx(FxSerialization),
    BaseCombatAi(BaseCombatAiSerialization),
    Buff(BuffSerialization),
    PlayerForcedMovement(PlayerForcedMovementSerialization),
    Bbb(BbbSerialization),
    LevelProgression(LevelProgressionSerialization),
    PossessionControl(PossessionControlSerialization),
}

/// The construction snapshot of an entity.
#[derive(Clone, Debug, PartialEq, Eq)]
pub struct ReplicaConstruction {
    pub network_id: u16,
    pub object_id: ObjId,
    pub lot: Lot,
    pub name: &'static str,
    pub time_since_created_on_server: u32,
    pub is_trigger: bool,
    pub spawner_id: Option<ObjId>,
    pub spawner_node_id: Option<u32>,
    pub scale: Option<Single>,
    /// One snapshot per component, in composition order.
    pub components: Vec<ComponentConstruction>,
}

/// The serialization snapshot of an entity.
#[derive(Clone, Debug, PartialEq, Eq)]
pub struct ReplicaSerialization {
    pub network_id: u16,
    /// One snapshot per component, in composition order.
    pub components: Vec<ComponentSerialization>,
}


/// The construction snapshot of an entity, as a mathematical value.
pub struct ReplicaConstructionView {
    pub network_id: u16,
    pub object_id: ObjId,
    pub lot: Lot,
    pub name: &'static str,
    pub time_since_created_on_server: u32,
    pub is_trigger: bool,
    pub spawner_id: Option<ObjId>,
    pub spawner_node_id: Option<u32>,
    pub scale: Option<Single>,
    pub components: Seq<ComponentConstruction>,
}

/// The serialization snapshot of an entity, as a mathematical value.
pub struct ReplicaSerializationView {
    pub network_id: u16,
    pub components: Seq<ComponentSerialization>,
}

impl View for ReplicaConstruction {
    type V = ReplicaConstructionView;

    open spec fn view(&self) -> ReplicaConstructionView {
        ReplicaConstructionView {
            network_id: self.network_id,
            object_id: self.object_id,
            lot: self.lot,
            name: self.name,
            time_since_created_on_server: self.time_since_created_on_server,
            is_trigger: self.is_trigger,
            spawner_id: self.spawner_id,
            spawner_node_id: self.spawner_node_id,
            scale: self.scale,
            components: self.components@,
        }
    }
}

impl View for ReplicaSerialization {
    type V = ReplicaSerializationView;

    open spec fn view(&self) -> ReplicaSerializationView {
        ReplicaSerializationView { network_id: self.network_id, components: self.components@ }
    }
}

impl ComponentConstruction {
    /// The capability tag of the kind of component that this snapshot is of.
    pub open spec fn spec_tag(&self) -> u32 {
        match self {
            ComponentConstruction::ControllablePhysics(_) => 1,
            ComponentConstruction::SimplePhysics(_) => 3,
            ComponentConstruction::Character(_) => 4,
            ComponentConstruction::Script(_) => 5,
            ComponentConstruction::Destroyable(_) => 7,
            ComponentConstruction::Skill(_) => 9,
            ComponentConstruction::Inventory(_) => 17,
            ComponentConstruction::Fx(_) => 44,
            ComponentConstruction::BaseCombatAi(_) => 60,
            ComponentConstruction::Buff(_) => 98,
            ComponentConstruction::PlayerForcedMovement(_) => 106,
            ComponentConstruction::Bbb(_) => 107,
            ComponentConstruction::LevelProgression(_) => 109,
            ComponentConstruction::PossessionControl(_) => 110,
        }
    }
}

impl ComponentSerialization {
    /// The capability tag of the kind of component that this snapshot is of.
    pub open spec fn spec_tag(&self) -> u32 {
        match self {
            ComponentSerialization::ControllablePhysics(_) => 1,
            ComponentSerialization::SimplePhysics(_) => 3,
            ComponentSerialization::Character(_) => 4,
            ComponentSerialization::Script(_) => 5,
            ComponentSerialization::Destroyable(_) => 7,
            ComponentSerialization::Skill(_) => 9,
            ComponentSerialization::Inventory(_) => 17,
            ComponentSerialization::Fx(_) => 44,
            ComponentSerialization::BaseCombatAi(_) => 60,
            ComponentSerialization::Buff(_) => 98,
            ComponentSerialization::PlayerForcedMovement(_) => 106,
            ComponentSerialization::Bbb(_) => 107,
            ComponentSerialization::LevelProgression(_) => 109,
            ComponentSerialization::PossessionControl(_) => 110,
        }
    }
}

} // verus!
