use std::cell::Cell;
use world_server::connection::Connection;
use world_server::error::Error;
use world_server::ids::{
    BITS_PERSISTENT, BITS_SPAWNED, NETWORK_CAPACITY, PARTITION_MASK, PERSISTENT_CAPACITY,
};
use world_server::math::SpawnConfig;
use world_server::messages::{ClientGM, OutMessage, Outbound};
use world_server::services::{GameObjectServiceMut, SetFaction};
use world_server::state::{AccountInfo, Diagnostic, State};
use world_server::templates::TemplateData;

fn templates() -> TemplateData {
    let mut t = TemplateData::new();
    // The player: listed out of order on purpose.
    for c in [9, 17, 7, 4, 1, 2] {
        t.add_row(1, c);
    }
    // A crate.
    for c in [3, 7] {
        t.add_row(2000, c);
    }
    // A template with a capability that no component exists for.
    for c in [1, 200] {
        t.add_row(3000, c);
    }
    t
}

fn world() -> State {
    State::new(templates(), 0)
}

#[test]
fn template_data_answers_in_row_order() {
    let t = templates();
    assert_eq!(t.capabilities_for(1), vec![9, 17, 7, 4, 1, 2]);
    assert_eq!(t.capabilities_for(2000), vec![3, 7]);
    assert_eq!(t.capabilities_for(4000), Vec::<u32>::new());
}

#[test]
fn spawn_files_the_entity_under_a_spawned_identifier() {
    let mut state = world();
    let id = state.spawn(2000, &SpawnConfig::empty()).unwrap();
    assert_eq!(id, BITS_SPAWNED + 1);
    let e = state.game_object(id).unwrap();
    assert_eq!(e.object_id(), id);
    assert_eq!(e.network_id(), 1);
    assert_eq!(e.lot(), 2000);
    assert_eq!(e.component_count(), 3);
    assert!(state.has_game_object(id));
    assert!(!state.has_game_object(id + 1));
    assert!(state.game_object(id + 1).is_none());
}

#[test]
fn spawned_and_persistent_identifiers_never_collide() {
    let mut state = world();
    let mut acc = AccountInfo::new(String::from("ann"));
    let mut ids = vec![];
    for i in 0..50 {
        if i % 2 == 0 {
            ids.push(state.spawn(2000, &SpawnConfig::empty()).unwrap());
        } else {
            let id = state.spawn_player(&mut acc).unwrap();
            assert_eq!(acc.active_character_id(), id);
            ids.push(id);
        }
    }
    for (i, a) in ids.iter().enumerate() {
        let marker = if i % 2 == 0 { BITS_SPAWNED } else { BITS_PERSISTENT };
        assert_eq!(a & PARTITION_MASK, marker);
        for b in &ids[..i] {
            assert_ne!(a, b);
        }
    }
    let live = state.all_game_objects();
    assert_eq!(live.len(), 50);
    for (e, id) in live.iter().zip(ids.iter()) {
        assert_eq!(e.object_id(), *id);
    }
}

#[test]
fn spawn_of_an_unknown_capability_files_nothing() {
    let mut state = world();
    let r = state.spawn(3000, &SpawnConfig::empty());
    assert_eq!(r, Err(Error::UnknownComponent(200)));
    assert!(state.all_game_objects().is_empty());
    // The identifiers that were taken for the entity stay taken.
    assert_eq!(state.network_ids_left(), NETWORK_CAPACITY - 1);
    assert_eq!(state.spawn(2000, &SpawnConfig::empty()), Ok(BITS_SPAWNED + 2));
}

#[test]
fn spawn_of_an_unknown_template_yields_an_entity_without_components() {
    let mut state = world();
    let id = state.spawn(4000, &SpawnConfig::empty()).unwrap();
    assert_eq!(state.game_object(id).unwrap().component_count(), 0);
}

#[test]
fn spawn_fails_when_the_persistent_partition_is_used_up() {
    let mut state = State::new(templates(), PERSISTENT_CAPACITY);
    let mut acc = AccountInfo::new(String::from("ann"));
    assert_eq!(state.persistent_ids_left(), 0);
    assert_eq!(state.spawn_player(&mut acc), Err(Error::IdSpaceExhausted));
    assert_eq!(acc.active_character_id(), 0);
    assert_eq!(state.network_ids_left(), NETWORK_CAPACITY);
    assert!(state.all_game_objects().is_empty());
    // The spawned partition is not affected.
    assert_eq!(state.spawn(2000, &SpawnConfig::empty()), Ok(BITS_SPAWNED + 1));
}

#[test]
fn spawn_fails_when_the_network_identifiers_are_used_up() {
    let mut state = world();
    for _ in 0..NETWORK_CAPACITY {
        state.spawn(4000, &SpawnConfig::empty()).unwrap();
    }
    assert_eq!(state.network_ids_left(), 0);
    let left = state.spawned_ids_left();
    assert_eq!(state.spawn(4000, &SpawnConfig::empty()), Err(Error::IdSpaceExhausted));
    assert_eq!(state.spawned_ids_left(), left);
    assert_eq!(state.all_game_objects().len(), NETWORK_CAPACITY as usize);
}

#[test]
fn with_game_object_on_a_missing_entity_does_not_run_the_callback() {
    let mut state = world();
    let mut conn = Connection::new(1);
    let called = Cell::new(false);
    let r = state.with_game_object(12345, &mut conn, |_state, _entity, _conn| {
        called.set(true);
        Ok(())
    });
    assert_eq!(r, Ok(()));
    assert!(!called.get());
    assert!(!state.has_game_object(12345));
    assert!(state.all_game_objects().is_empty());
    assert!(conn.take_outbox().is_empty());
    assert_eq!(state.take_diagnostics(), vec![Diagnostic::MissingGameObject(12345)]);
}

#[test]
fn with_game_object_hands_over_the_entity_and_files_it_again() {
    let mut state = world();
    let mut conn = Connection::new(1);
    let id = state.spawn(2000, &SpawnConfig::empty()).unwrap();
    let seen = Cell::new(0u64);
    let r = state.with_game_object(id, &mut conn, |state, entity, conn| {
        seen.set(entity.object_id());
        // While the entity is handled, the registry does not hold it.
        assert!(!state.has_game_object(entity.object_id()));
        // The callback may spawn.
        state.spawn(2000, &SpawnConfig::empty())?;
        entity.run_service_mut(&GameObjectServiceMut::SetFaction(SetFaction(5)), state, conn)
    });
    assert_eq!(r, Ok(()));
    assert_eq!(seen.get(), id);
    assert!(state.has_game_object(id));
    assert!(state.has_game_object(id + 1));
    let e = state.game_object(id).unwrap();
    let sent = conn.take_outbox();
    assert_eq!(sent, vec![Outbound::Broadcast(OutMessage::ReplicaSerialization(e.make_serialization()))]);
    assert!(state.take_diagnostics().is_empty());
}

#[test]
fn with_game_object_files_the_entity_again_after_a_failure() {
    let mut state = world();
    let mut conn = Connection::new(1);
    let id = state.spawn(2000, &SpawnConfig::empty()).unwrap();
    let r = state.with_game_object(id, &mut conn, |_state, entity, conn| {
        conn.send(OutMessage::SubjectGameMessage(entity.make_sgm(ClientGM::PlayerReady)))?;
        Err(Error::Storage)
    });
    assert_eq!(r, Err(Error::Storage));
    assert!(state.has_game_object(id));
    assert_eq!(conn.take_outbox().len(), 1);
}

#[test]
fn with_char_runs_on_the_bound_entity() {
    let mut state = world();
    let mut conn = Connection::new(1);
    let mut acc = AccountInfo::new(String::from("ann"));
    assert_eq!(acc.username(), "ann");
    let called = Cell::new(false);
    let r = state.with_char(&acc, &mut conn, |_s, _e, _c| {
        called.set(true);
        Ok(())
    });
    assert_eq!(r, Ok(()));
    assert!(!called.get());
    assert_eq!(state.take_diagnostics(), vec![Diagnostic::MissingGameObject(0)]);
    let id = state.spawn_player(&mut acc).unwrap();
    assert_eq!(id, BITS_PERSISTENT + 1);
    let r = state.with_char(&acc, &mut conn, |_s, e, _c| {
        called.set(e.object_id() == BITS_PERSISTENT + 1);
        Ok(())
    });
    assert_eq!(r, Ok(()));
    assert!(called.get());
}

#[test]
fn connection_takes_no_message_once_it_is_closed() {
    let mut conn = Connection::new(9);
    assert_eq!(conn.peer_addr(), 9);
    assert!(conn.is_open());
    let hello = OutMessage::CharacterDeleteResponse(
        world_server::messages::CharacterDeleteResponse { success: true },
    );
    assert_eq!(conn.send(hello.clone()), Ok(()));
    assert_eq!(conn.broadcast(hello.clone()), Ok(()));
    conn.close_conn();
    assert!(!conn.is_open());
    assert_eq!(conn.send(hello.clone()), Err(Error::Transport));
    assert_eq!(conn.broadcast(hello.clone()), Err(Error::Transport));
    assert_eq!(
        conn.take_outbox(),
        vec![Outbound::Send(hello.clone()), Outbound::Broadcast(hello.clone())]
    );
    assert!(conn.take_outbox().is_empty());
    assert!(!conn.is_open());
}
