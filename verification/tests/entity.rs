use world_server::connection::Connection;
use world_server::error::Error;
use world_server::game_object::component::Component;
use world_server::game_object::GameObject;
use world_server::ids::{BITS_SPAWNED, SPAWNED_CAPACITY};
use world_server::math::{
    Quaternion, Single, SpawnConfig, Vector3, DEFAULT_POSITION_X_BITS, DEFAULT_POSITION_Y_BITS,
    DEFAULT_POSITION_Z_BITS,
};
use world_server::messages::{
    AddItemToInventoryClientSync, ClientGM, ClientSGM, EquipInventory, InventoryType, LootType,
    OutMessage, Outbound, ServerGM,
};
use world_server::replica::{
    ComponentConstruction, ComponentSerialization, FrameStats, GameActivity, TransitionState,
};
use world_server::services::{
    AddItem, GameObjectService, GameObjectServiceMut, GetPosition, GetRotation, SetFaction,
};
use world_server::state::State;
use world_server::templates::TemplateData;

fn single(x: f32) -> Single {
    Single::from_bits(x.to_bits())
}

fn entity(raw: Vec<u32>) -> GameObject {
    GameObject::new(5, BITS_SPAWNED + 9, 1234, &SpawnConfig::empty(), &raw).unwrap()
}

fn kinds(e: &GameObject) -> Vec<u32> {
    (0..e.component_count()).map(|i| e.component(i).unwrap().tag()).collect()
}

fn world() -> State {
    State::new(TemplateData::new(), 0)
}

#[test]
fn defaults_are_the_encodings_of_the_default_position() {
    assert_eq!(DEFAULT_POSITION_X_BITS, 156.0f32.to_bits());
    assert_eq!(DEFAULT_POSITION_Y_BITS, 380.0f32.to_bits());
    assert_eq!(DEFAULT_POSITION_Z_BITS, (-187.0f32).to_bits());
    assert_eq!(Single::from_bits(0).to_bits(), 0.0f32.to_bits());
    assert_eq!(world_server::game_object::destroyable::FOUR_BITS, 4.0f32.to_bits());
}

#[test]
fn new_entity_is_named_by_its_identifier() {
    let e = entity(vec![1, 7]);
    assert_eq!(e.name(), &(BITS_SPAWNED + 9).to_string());
    assert_eq!(e.object_id(), BITS_SPAWNED + 9);
    assert_eq!(e.network_id(), 5);
    assert_eq!(e.lot(), 1234);
    assert_eq!(kinds(&e), vec![1, 98, 7]);
    assert_eq!(e.component(3), None);
}

#[test]
fn unknown_capability_aborts_construction() {
    let r = GameObject::new(1, 2, 3, &SpawnConfig::empty(), &vec![1, 200]);
    assert_eq!(r.err(), Some(Error::UnknownComponent(200)));
}

#[test]
fn construction_lists_components_in_composition_order() {
    let e = entity(vec![9, 17, 7, 4, 1]);
    let c = e.make_construction();
    assert_eq!(c.network_id, 5);
    assert_eq!(c.object_id, BITS_SPAWNED + 9);
    assert_eq!(c.lot, 1234);
    assert_eq!(c.name, "Todd Howard");
    assert_eq!(c.time_since_created_on_server, 0);
    assert!(!c.is_trigger);
    assert_eq!(c.spawner_id, None);
    assert_eq!(c.spawner_node_id, None);
    assert_eq!(c.scale, None);
    assert_eq!(c.components.len(), 9);
    assert!(matches!(c.components[0], ComponentConstruction::ControllablePhysics(_)));
    assert!(matches!(c.components[1], ComponentConstruction::Buff(_)));
    assert!(matches!(c.components[2], ComponentConstruction::Destroyable(_)));
    assert!(matches!(c.components[3], ComponentConstruction::PossessionControl(_)));
    assert!(matches!(c.components[4], ComponentConstruction::LevelProgression(_)));
    assert!(matches!(c.components[5], ComponentConstruction::PlayerForcedMovement(_)));
    assert!(matches!(c.components[6], ComponentConstruction::Character(_)));
    assert!(matches!(c.components[7], ComponentConstruction::Inventory(_)));
    assert!(matches!(c.components[8], ComponentConstruction::Skill(_)));
    for i in 0..9 {
        assert_eq!(c.components[i], e.component(i).unwrap().make_construction());
    }
}

#[test]
fn snapshots_are_the_same_on_every_call() {
    let e = entity(vec![9, 17, 7, 4, 1, 3, 5, 60, 107, 2]);
    assert_eq!(e.make_construction(), e.make_construction());
    assert_eq!(e.make_serialization(), e.make_serialization());
    let s = e.make_serialization();
    assert_eq!(s.network_id, 5);
    assert_eq!(s.components.len(), e.component_count());
    for i in 0..s.components.len() {
        assert_eq!(s.components[i], e.component(i).unwrap().make_serialization());
    }
}

#[test]
fn character_snapshot_holds_the_fixed_appearance() {
    let e = entity(vec![4]);
    let c = match e.make_construction().components[3] {
        ComponentConstruction::Character(c) => c,
        _ => panic!("character expected at position 3"),
    };
    assert_eq!(c.hair_color, 11);
    assert_eq!(c.hair_style, 6);
    assert_eq!(c.torso_color, 1);
    assert_eq!(c.legs_color, 6);
    assert_eq!(c.torso_decal, 24);
    assert_eq!(c.eyebrows_style, 38);
    assert_eq!(c.eyes_style, 22);
    assert_eq!(c.mouth_style, 24);
    assert_eq!(c.account_id, 104116);
    assert_eq!(c.claim_code_1, None);
    assert_eq!(c.u_score, 0);
    assert!(!c.is_free_trial);
    assert_eq!(c.transition_state, TransitionState::Stationary);
    assert_eq!(c.current_activity, Some(GameActivity::Idle));
    let pvp = c.gm_pvp_info.unwrap();
    assert!(!pvp.pvp_enabled && !pvp.is_gm && !pvp.editor_enabled);
    assert_eq!((pvp.gm_level, pvp.editor_level), (0, 0));
    let social = c.social_info.unwrap();
    assert_eq!((social.guild_id, social.guild_name, social.is_lego_club_member), (0, "", false));
    match e.make_serialization().components[3] {
        ComponentSerialization::Character(s) => {
            assert_eq!(s.gm_pvp_info, None);
            assert_eq!(s.current_activity, None);
            assert_eq!(s.social_info, None);
        },
        _ => panic!("character expected at position 3"),
    }
}

#[test]
fn destroyable_snapshot_reports_health_and_faction() {
    let e = entity(vec![7]);
    let c = match e.make_construction().components[1] {
        ComponentConstruction::Destroyable(c) => c,
        _ => panic!("destroyable expected at position 1"),
    };
    let stats = c.stats_info.unwrap();
    assert_eq!(stats.cur_health, 4);
    assert_eq!(stats.max_health, single(4.0));
    assert_eq!(stats.actual_max_health, single(4.0));
    assert_eq!(stats.max_armor, single(0.0));
    assert_eq!(stats.max_imag, single(0.0));
    assert_eq!(stats.factions, [1]);
    assert!(stats.immunity);
    assert!(!stats.is_dead && !stats.is_smashed && !stats.is_gm_immune && !stats.is_shielded);
    assert_eq!(c.is_on_a_threat_list, Some(false));
    let immunity = c.status_immunity_info.unwrap();
    assert_eq!(immunity.immune_to_basic_attack, 0);
    assert_eq!(immunity.immune_to_pull_to_point, 0);
    let s = match e.make_serialization().components[1] {
        ComponentSerialization::Destroyable(s) => s,
        _ => panic!("destroyable expected at position 1"),
    };
    let stats = s.serialization_stats_info.unwrap();
    assert_eq!(stats.cur_health, 4);
    assert_eq!(stats.factions, [1]);
    assert!(!stats.is_smashable);
    assert_eq!(s.is_on_a_threat_list, None);
}

#[test]
fn inventory_snapshot_lists_the_two_equipped_items() {
    let e = entity(vec![17]);
    let c = match e.make_construction().components[0] {
        ComponentConstruction::Inventory(c) => c,
        _ => panic!("inventory expected"),
    };
    let items = c.equipped_items.unwrap();
    assert_eq!((items[0].id, items[0].lot, items[0].slot), (1152921510436607008, 4106, None));
    assert_eq!((items[1].id, items[1].lot, items[1].slot), (1152921510436607009, 2524, Some(1)));
    for item in items {
        assert_eq!(item.count, Some(1));
        assert_eq!(item.subkey, None);
        assert_eq!(item.inventory_type, None);
        assert!(item.is_bound);
    }
    match e.make_serialization().components[0] {
        ComponentSerialization::Inventory(s) => assert_eq!(s.equipped_items, Some(items)),
        _ => panic!("inventory expected"),
    }
}

#[test]
fn physics_snapshots_report_the_configured_place() {
    let position = Vector3 { x: single(1.5), y: single(-2.0), z: single(3.25) };
    let rotation = Quaternion { x: single(0.0), y: single(1.0), z: single(0.0), w: single(0.5) };
    let config = SpawnConfig::at(position, rotation);
    let e = GameObject::new(1, 2, 3, &config, &vec![1, 3]).unwrap();
    let c = e.make_construction();
    match c.components[0] {
        ComponentConstruction::ControllablePhysics(p) => {
            let stats = p.frame_stats.unwrap();
            assert_eq!(stats.position, position);
            assert_eq!(stats.rotation, rotation);
            assert!(stats.is_on_ground);
            assert!(!stats.is_on_rail);
            assert_eq!(stats.linear_velocity, None);
            assert_eq!(stats.angular_velocity, None);
        },
        _ => panic!("controllable physics expected"),
    }
    match c.components[1] {
        ComponentConstruction::SimplePhysics(p) => {
            let info = p.position_rotation_info.unwrap();
            assert_eq!((info.position, info.rotation), (position, rotation));
            assert_eq!(p.motion_type, None);
        },
        _ => panic!("simple physics expected"),
    }
    let s = e.make_serialization();
    match s.components[0] {
        ComponentSerialization::ControllablePhysics(p) => {
            let info = p.frame_stats_teleport_info.unwrap();
            assert_eq!(info.frame_stats.position, position);
            assert!(!info.is_teleporting);
        },
        _ => panic!("controllable physics expected"),
    }
    match s.components[1] {
        ComponentSerialization::SimplePhysics(p) => assert_eq!(p.position_rotation_info, None),
        _ => panic!("simple physics expected"),
    }
}

#[test]
fn a_part_that_the_configuration_leaves_open_falls_back_to_the_default() {
    let mut config = SpawnConfig::empty();
    config.position_y = Some(single(7.0));
    config.rotation_w = Some(single(1.0));
    assert_eq!(
        config.position(),
        Vector3 { x: single(156.0), y: single(7.0), z: single(-187.0) }
    );
    assert_eq!(
        config.rotation(),
        Quaternion { x: single(0.0), y: single(0.0), z: single(0.0), w: single(1.0) }
    );
}

#[test]
fn saved_data_wraps_the_components_parts() {
    let mut xml = String::from("<?xml?>");
    entity(vec![1, 17, 9]).write_xml(&mut xml);
    assert_eq!(
        xml,
        "<?xml?><obj v=\"1\"><inv><items><in t=\"0\"><i l=\"4106\" id=\"1152921510436607008\" s=\"0\" eq=\"1\"/><i l=\"2524\" id=\"1152921510436607009\" s=\"1\" eq=\"1\"/></in></items></inv></obj>"
    );
    let mut xml = String::new();
    entity(vec![1, 9]).write_xml(&mut xml);
    assert_eq!(xml, "<obj v=\"1\"></obj>");
}

#[test]
fn game_message_names_its_subject() {
    let e = entity(vec![]);
    assert_eq!(
        e.make_sgm(ClientGM::PlayerReady),
        ClientSGM { subject_id: BITS_SPAWNED + 9, message: ClientGM::PlayerReady }
    );
}

#[test]
fn position_query_is_answered_by_the_physics_component() {
    let e = entity(vec![7, 1, 9]);
    let mut query = GameObjectService::GetPosition(GetPosition::default());
    e.run_service(&mut query);
    assert_eq!(
        query,
        GameObjectService::GetPosition(GetPosition(Vector3 {
            x: single(156.0),
            y: single(380.0),
            z: single(-187.0),
        }))
    );
    let mut query = GameObjectService::GetRotation(GetRotation::default());
    e.run_service(&mut query);
    assert_eq!(query, GameObjectService::GetRotation(GetRotation(Quaternion::zero())));
}

#[test]
fn a_query_that_no_component_knows_comes_back_unanswered() {
    let e = entity(vec![7, 17]);
    let asked = GetPosition(Vector3 { x: single(9.0), y: single(9.0), z: single(9.0) });
    let mut query = GameObjectService::GetPosition(asked);
    e.run_service(&mut query);
    assert_eq!(query, GameObjectService::GetPosition(asked));
}

#[test]
fn set_faction_changes_the_destroyable_and_broadcasts_the_update() {
    let mut e = entity(vec![1, 7]);
    let mut state = world();
    let mut conn = Connection::new(1);
    let r = e.run_service_mut(&GameObjectServiceMut::SetFaction(SetFaction(77)), &mut state, &mut conn);
    assert_eq!(r, Ok(()));
    assert_eq!(
        e.component(2),
        Some(Component::Destroyable(
            world_server::game_object::destroyable::DestroyableComponent { faction: 77 }
        ))
    );
    assert_eq!(kinds(&e), vec![1, 98, 7]);
    let sent = conn.take_outbox();
    assert_eq!(sent, vec![Outbound::Broadcast(OutMessage::ReplicaSerialization(e.make_serialization()))]);
    match &sent[0] {
        Outbound::Broadcast(OutMessage::ReplicaSerialization(s)) => match s.components[2] {
            ComponentSerialization::Destroyable(d) => {
                assert_eq!(d.serialization_stats_info.unwrap().factions, [77])
            },
            _ => panic!("destroyable expected"),
        },
        _ => panic!("broadcast expected"),
    }
}

#[test]
fn set_faction_is_the_only_thing_that_set_faction_does() {
    let mut d = world_server::game_object::destroyable::DestroyableComponent::new(&SpawnConfig::empty());
    assert_eq!(d.faction, 1);
    d.set_faction(&SetFaction(-3));
    assert_eq!(d.faction, -3);
}

#[test]
fn frame_stats_replace_the_old_ones() {
    let mut e = entity(vec![1]);
    let mut state = world();
    let mut conn = Connection::new(1);
    let stats = FrameStats {
        position: Vector3 { x: single(1.0), y: single(2.0), z: single(3.0) },
        rotation: Quaternion { x: single(0.0), y: single(0.0), z: single(0.0), w: single(1.0) },
        is_on_ground: false,
        is_on_rail: true,
        linear_velocity: Some(Vector3 { x: single(4.0), y: single(5.0), z: single(6.0) }),
        angular_velocity: None,
    };
    let r = e.run_service_mut(&GameObjectServiceMut::SetFrameStats(stats), &mut state, &mut conn);
    assert_eq!(r, Ok(()));
    match e.make_construction().components[0] {
        ComponentConstruction::ControllablePhysics(p) => assert_eq!(p.frame_stats, Some(stats)),
        _ => panic!("controllable physics expected"),
    }
    let mut query = GameObjectService::GetPosition(GetPosition::default());
    e.run_service(&mut query);
    assert_eq!(query, GameObjectService::GetPosition(GetPosition(stats.position)));
}

#[test]
fn add_item_uses_a_spawned_identifier_and_tells_the_peer() {
    let mut e = entity(vec![1, 17]);
    let mut state = world();
    let mut conn = Connection::new(1);
    let r = e.run_service_mut(&GameObjectServiceMut::AddItem(AddItem { lot: 6086 }), &mut state, &mut conn);
    assert_eq!(r, Ok(()));
    assert_eq!(state.spawned_ids_left(), SPAWNED_CAPACITY - 1);
    let expected = AddItemToInventoryClientSync {
        bound: false,
        is_boe: false,
        is_bop: false,
        loot_type_source: LootType::Unspecified,
        obj_template: 6086,
        subkey: 0,
        inv_type: InventoryType::Default,
        item_count: 1,
        items_total: 1,
        new_obj_id: BITS_SPAWNED + 1,
        flying_loot_posit: Vector3::zero(),
        show_flying_loot: true,
        slot_id: 2,
    };
    assert_eq!(
        conn.take_outbox(),
        vec![
            Outbound::Send(OutMessage::SubjectGameMessage(ClientSGM {
                subject_id: BITS_SPAWNED + 9,
                message: ClientGM::AddItemToInventoryClientSync(expected),
            })),
            Outbound::Broadcast(OutMessage::ReplicaSerialization(e.make_serialization())),
        ]
    );
}

#[test]
fn failure_of_the_third_component_stops_the_fourth_and_is_not_undone() {
    // Four components; the inventory is the third. On a closed connection it cannot tell the
    // peer of the new item, and fails.
    let mut e = entity(vec![1, 3, 17, 9]);
    assert_eq!(kinds(&e), vec![1, 3, 17, 9]);
    let before = e.make_construction();
    let mut state = world();
    let mut conn = Connection::new(1);
    conn.close_conn();
    let r = e.run_service_mut(&GameObjectServiceMut::AddItem(AddItem { lot: 1 }), &mut state, &mut conn);
    assert_eq!(r, Err(Error::Transport));
    // The identifier that the inventory took before it failed stays taken.
    assert_eq!(state.spawned_ids_left(), SPAWNED_CAPACITY - 1);
    // Nothing was queued: neither the item, nor the update snapshot that follows a query
    // that every component has seen.
    assert!(conn.take_outbox().is_empty());
    // The components are where they were.
    assert_eq!(kinds(&e), vec![1, 3, 17, 9]);
    assert_eq!(e.make_construction(), before);
}

#[test]
fn add_item_concerns_only_an_inventory() {
    let mut e = entity(vec![17]);
    let mut state = world();
    let mut conn = Connection::new(1);
    // An inventory is not offered the query at all when the entity has none.
    let mut bare = entity(vec![1]);
    assert_eq!(
        bare.run_service_mut(&GameObjectServiceMut::AddItem(AddItem { lot: 1 }), &mut state, &mut conn),
        Ok(())
    );
    assert_eq!(state.spawned_ids_left(), SPAWNED_CAPACITY);
    assert_eq!(conn.take_outbox().len(), 1);
    assert_eq!(
        e.run_service_mut(&GameObjectServiceMut::AddItem(AddItem { lot: 1 }), &mut state, &mut conn),
        Ok(())
    );
    assert_eq!(state.spawned_ids_left(), SPAWNED_CAPACITY - 1);
}

#[test]
fn game_messages_that_no_component_reacts_to_change_nothing() {
    let mut e = entity(vec![1, 4, 17]);
    let before = e.make_construction();
    let mut state = world();
    let mut conn = Connection::new(1);
    for msg in [
        ServerGM::Other,
        ServerGM::EquipInventory(EquipInventory { item_to_equip: 1152921510436607008 }),
        ServerGM::ParseChatMessage(world_server::messages::ParseChatMessage {
            string: String::from("hello there"),
        }),
        ServerGM::ParseChatMessage(world_server::messages::ParseChatMessage { string: String::new() }),
    ] {
        assert_eq!(e.on_game_message(&msg, &mut state, &mut conn), Ok(()));
    }
    assert!(conn.take_outbox().is_empty());
    assert!(state.take_diagnostics().is_empty());
    assert_eq!(e.make_construction(), before);
}
