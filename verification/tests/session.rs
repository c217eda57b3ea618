use world_server::connection::Connection;
use world_server::error::Error;
use world_server::ids::{BITS_PERSISTENT, BITS_SPAWNED};
use world_server::math::{Quaternion, Single, Vector3};
use world_server::messages::{
    CharacterCreateRequest, CharacterCreateResponse, CharacterDeleteRequest,
    CharacterDeleteResponse, CharacterListResponse, CharacterLoginRequest, ChatChannel,
    ChatModerationString, ClientChatMessage, ClientGM, ClientValidation, CreateCharacter,
    DisconnectNotify, IncMessage, InstanceType, LevelLoadComplete, LoadStaticZone, OutMessage,
    Outbound, ParseChatMessage, Pending, PositionUpdate, Reply, ServerChatMessage, ServerGM,
    ServerSGM, StringCheck, TransportStep, Verification, WorldMessage, ZoneId,
};
use world_server::models::Character;
use world_server::replica::{ComponentConstruction, FrameStats};
use world_server::state::{Diagnostic, SessionState, State};
use world_server::templates::TemplateData;

const PEER: u64 = 42;

fn single(x: f32) -> Single {
    Single::from_bits(x.to_bits())
}

fn world() -> State {
    let mut t = TemplateData::new();
    for c in [9, 17, 7, 4, 1, 2] {
        t.add_row(1, c);
    }
    for c in [3, 7] {
        t.add_row(2000, c);
    }
    State::new(t, 0)
}

fn invalid_session() -> Vec<Outbound> {
    vec![Outbound::Send(OutMessage::DisconnectNotify(DisconnectNotify::InvalidSessionKey))]
}

fn credentials() -> IncMessage {
    IncMessage::World(WorldMessage::ClientValidation(ClientValidation {
        username: String::from("ann"),
        session_key: String::from("s3cr3t"),
    }))
}

fn affirmative() -> Reply {
    Reply::Verification(Verification::Response { status_code: 200, body: vec![b'1'] })
}

/// A registry in which `PEER` has a validated session.
fn validated() -> State {
    let mut state = world();
    let mut conn = Connection::new(PEER);
    let pending = state.on_msg(&credentials(), &mut conn).unwrap();
    assert_eq!(state.on_reply(&pending, &affirmative(), &mut conn), Ok(Pending::Nothing));
    assert!(conn.is_open());
    assert!(conn.take_outbox().is_empty());
    state
}

/// A registry in which `PEER` has a session in the game.
fn in_game() -> State {
    let mut state = validated();
    let mut conn = Connection::new(PEER);
    let msg = IncMessage::World(WorldMessage::LevelLoadComplete(LevelLoadComplete {}));
    assert_eq!(state.on_msg(&msg, &mut conn), Ok(Pending::Nothing));
    state
}

fn position_update() -> WorldMessage {
    WorldMessage::PositionUpdate(PositionUpdate {
        frame_stats: FrameStats {
            position: Vector3 { x: single(1.0), y: single(2.0), z: single(3.0) },
            rotation: Quaternion { x: single(0.0), y: single(0.0), z: single(0.0), w: single(1.0) },
            is_on_ground: true,
            is_on_rail: false,
            linear_velocity: None,
            angular_velocity: None,
        },
    })
}

fn chat(text: &str) -> WorldMessage {
    WorldMessage::GeneralChatMessage(ServerChatMessage {
        chat_channel: ChatChannel::Other(4),
        source_id: 3,
        message: String::from(text),
    })
}

fn game_message(subject_id: u64, line: &str) -> WorldMessage {
    WorldMessage::SubjectGameMessage(ServerSGM {
        subject_id,
        message: ServerGM::ParseChatMessage(ParseChatMessage { string: String::from(line) }),
    })
}

fn restricted_messages() -> Vec<WorldMessage> {
    vec![
        WorldMessage::CharacterListRequest,
        WorldMessage::CharacterCreateRequest(CharacterCreateRequest {
            char_name: String::from("Bob"),
            torso_color: 1,
            legs_color: 2,
            hair_style: 3,
            hair_color: 4,
            eyebrows_style: 5,
            eyes_style: 6,
            mouth_style: 7,
        }),
        WorldMessage::CharacterLoginRequest(CharacterLoginRequest { char_id: 1 }),
        WorldMessage::CharacterDeleteRequest(CharacterDeleteRequest { char_id: 1 }),
        chat("hi"),
        game_message(BITS_PERSISTENT + 1, "/jetpack"),
        WorldMessage::LevelLoadComplete(LevelLoadComplete {}),
        position_update(),
        WorldMessage::StringCheck(StringCheck { request_id: 1, chat_mode: 2 }),
        WorldMessage::Other,
    ]
}

#[test]
fn the_transports_messages_are_handed_back() {
    let mut state = world();
    let mut conn = Connection::new(PEER);
    assert_eq!(
        state.on_msg(&IncMessage::InternalPing, &mut conn),
        Ok(Pending::Transport(TransportStep::InternalPing))
    );
    assert_eq!(
        state.on_msg(&IncMessage::ConnectionRequest, &mut conn),
        Ok(Pending::Transport(TransportStep::ConnectionRequest))
    );
    assert_eq!(
        state.on_msg(&IncMessage::Handshake, &mut conn),
        Ok(Pending::Transport(TransportStep::Handshake))
    );
    assert!(state.take_diagnostics().is_empty());
    assert_eq!(state.on_msg(&IncMessage::NewIncomingConnection, &mut conn), Ok(Pending::Nothing));
    assert_eq!(state.on_msg(&IncMessage::Other, &mut conn), Ok(Pending::Nothing));
    assert_eq!(
        state.take_diagnostics(),
        vec![Diagnostic::NewIncomingConnection, Diagnostic::Unsolicited]
    );
    assert!(conn.is_open());
    assert!(conn.take_outbox().is_empty());
}

#[test]
fn credentials_ask_for_a_verification() {
    let mut state = world();
    let mut conn = Connection::new(PEER);
    assert_eq!(
        state.on_msg(&credentials(), &mut conn),
        Ok(Pending::Verify { username: String::from("ann"), session_key: String::from("s3cr3t") })
    );
    assert!(!state.is_validated(PEER));
    assert!(conn.take_outbox().is_empty());
}

#[test]
fn an_affirmative_verdict_validates_the_session() {
    let state = validated();
    assert!(state.is_validated(PEER));
    assert!(!state.is_validated(PEER + 1));
    let session = state.session(PEER).unwrap();
    assert_eq!(session.username(), "ann");
    assert_eq!(session.active_character_id(), 0);
    assert!(state.session(PEER + 1).is_none());
}

#[test]
fn any_other_verdict_forces_a_disconnect() {
    let cases = vec![
        (Verification::CallFailed, DisconnectNotify::UnknownServerError, Diagnostic::VerificationUnavailable),
        (
            Verification::Response { status_code: 500, body: vec![b'1'] },
            DisconnectNotify::UnknownServerError,
            Diagnostic::VerificationError(500),
        ),
        (
            Verification::Response { status_code: 404, body: vec![] },
            DisconnectNotify::UnknownServerError,
            Diagnostic::VerificationError(404),
        ),
        (
            Verification::Response { status_code: 200, body: vec![b'0'] },
            DisconnectNotify::InvalidSessionKey,
            Diagnostic::InvalidSessionKey,
        ),
        (
            Verification::Response { status_code: 200, body: vec![] },
            DisconnectNotify::InvalidSessionKey,
            Diagnostic::InvalidSessionKey,
        ),
        (
            Verification::Response { status_code: 200, body: vec![b'1', b'\n'] },
            DisconnectNotify::InvalidSessionKey,
            Diagnostic::InvalidSessionKey,
        ),
        (
            Verification::Response { status_code: 200, body: vec![1] },
            DisconnectNotify::InvalidSessionKey,
            Diagnostic::InvalidSessionKey,
        ),
    ];
    for (verdict, notice, diagnostic) in cases {
        let mut state = world();
        let mut conn = Connection::new(PEER);
        let pending = state.on_msg(&credentials(), &mut conn).unwrap();
        let r = state.on_reply(&pending, &Reply::Verification(verdict.clone()), &mut conn);
        assert_eq!(r, Ok(Pending::Nothing), "verdict {:?}", verdict);
        assert!(!state.is_validated(PEER), "verdict {:?}", verdict);
        assert!(!conn.is_open(), "verdict {:?}", verdict);
        assert_eq!(conn.take_outbox(), vec![Outbound::Send(OutMessage::DisconnectNotify(notice))]);
        assert_eq!(state.take_diagnostics(), vec![diagnostic]);
    }
}

#[test]
fn a_restricted_message_from_an_unauthenticated_peer_forces_a_disconnect() {
    for msg in restricted_messages() {
        let mut state = world();
        let mut conn = Connection::new(PEER);
        let r = state.on_msg(&IncMessage::World(msg.clone()), &mut conn);
        assert_eq!(r, Ok(Pending::Nothing), "message {:?}", msg);
        assert!(!conn.is_open(), "message {:?}", msg);
        assert_eq!(conn.take_outbox(), invalid_session(), "message {:?}", msg);
        assert!(!state.is_validated(PEER));
        assert!(state.all_game_objects().is_empty());
        assert_eq!(state.take_diagnostics(), vec![Diagnostic::UnvalidatedClient(PEER)]);
    }
}

#[test]
fn a_session_of_another_peer_does_not_help() {
    let mut state = validated();
    let mut conn = Connection::new(PEER + 1);
    let r = state.on_msg(&IncMessage::World(WorldMessage::CharacterListRequest), &mut conn);
    assert_eq!(r, Ok(Pending::Nothing));
    assert!(!conn.is_open());
    assert_eq!(conn.take_outbox(), invalid_session());
}

#[test]
fn a_validated_session_is_served_what_needs_no_entity() {
    // The same message that gets an unauthenticated peer disconnected.
    let mut state = validated();
    let mut conn = Connection::new(PEER);
    let r = state.on_msg(&IncMessage::World(WorldMessage::CharacterListRequest), &mut conn);
    assert_eq!(r, Ok(Pending::LoadCharacters { username: String::from("ann") }));
    assert!(conn.is_open());
    assert!(conn.take_outbox().is_empty());
    let check = WorldMessage::StringCheck(StringCheck { request_id: 9, chat_mode: 3 });
    assert_eq!(state.on_msg(&IncMessage::World(check), &mut conn), Ok(Pending::Nothing));
    assert_eq!(
        conn.take_outbox(),
        vec![Outbound::Send(OutMessage::ChatModerationString(ChatModerationString {
            request_id: 9,
            chat_mode: 3,
            whisper_name: "",
        }))]
    );
    let login = WorldMessage::CharacterLoginRequest(CharacterLoginRequest { char_id: 5 });
    assert_eq!(state.on_msg(&IncMessage::World(login), &mut conn), Ok(Pending::Nothing));
    assert_eq!(
        conn.take_outbox(),
        vec![Outbound::Send(OutMessage::LoadStaticZone(LoadStaticZone {
            zone_id: ZoneId { map_id: 1100, instance_id: 0, clone_id: 0 },
            map_checksum: 0x49525511,
            player_position: Vector3::zero(),
            instance_type: InstanceType::Public,
        }))]
    );
    assert!(state.take_diagnostics().is_empty());
    assert!(state.is_validated(PEER));
}

#[test]
fn a_message_that_needs_an_entity_forces_a_disconnect_while_not_in_game() {
    for msg in [position_update(), chat("hi"), game_message(BITS_SPAWNED + 1, "/jetpack")] {
        let mut state = validated();
        // Even if the addressed entity exists.
        state.spawn(2000, &world_server::math::SpawnConfig::empty()).unwrap();
        let before = state.game_object(BITS_SPAWNED + 1).unwrap().make_construction();
        let mut conn = Connection::new(PEER);
        let r = state.on_msg(&IncMessage::World(msg.clone()), &mut conn);
        assert_eq!(r, Ok(Pending::Nothing), "message {:?}", msg);
        assert!(!conn.is_open(), "message {:?}", msg);
        assert_eq!(conn.take_outbox(), invalid_session(), "message {:?}", msg);
        assert_eq!(state.take_diagnostics(), vec![Diagnostic::NotInGame(PEER)]);
        // The session stays validated and unbound; the entity is untouched.
        assert_eq!(state.session(PEER).unwrap().active_character_id(), 0);
        assert_eq!(state.game_object(BITS_SPAWNED + 1).unwrap().make_construction(), before);
    }
}

#[test]
fn an_unrecognized_message_is_noted_and_dropped() {
    let mut state = validated();
    let mut conn = Connection::new(PEER);
    assert_eq!(state.on_msg(&IncMessage::World(WorldMessage::Other), &mut conn), Ok(Pending::Nothing));
    assert!(conn.is_open());
    assert!(conn.take_outbox().is_empty());
    assert_eq!(state.take_diagnostics(), vec![Diagnostic::UnrecognizedPacket]);
}

#[test]
fn level_load_spawns_the_character_and_binds_the_session() {
    let mut state = validated();
    state.spawn(2000, &world_server::math::SpawnConfig::empty()).unwrap();
    let mut conn = Connection::new(PEER);
    let msg = IncMessage::World(WorldMessage::LevelLoadComplete(LevelLoadComplete {}));
    assert_eq!(state.on_msg(&msg, &mut conn), Ok(Pending::Nothing));
    let id = BITS_PERSISTENT + 1;
    assert_eq!(state.session(PEER).unwrap().active_character_id(), id);
    let chara = state.game_object(id).unwrap();
    assert_eq!(chara.lot(), 1);
    assert_eq!(chara.network_id(), 2);
    let kinds: Vec<u32> = (0..chara.component_count()).map(|i| chara.component(i).unwrap().tag()).collect();
    assert_eq!(kinds, vec![1, 98, 7, 110, 109, 106, 4, 17, 9, 44]);
    let other = state.game_object(BITS_SPAWNED + 1).unwrap();
    let mut xml = String::new();
    chara.write_xml(&mut xml);
    assert_eq!(
        conn.take_outbox(),
        vec![
            Outbound::Send(OutMessage::CreateCharacter(CreateCharacter {
                objid: id,
                template: 1,
                name: id.to_string(),
                xml_data: xml,
            })),
            Outbound::Broadcast(OutMessage::ReplicaConstruction(other.make_construction())),
            Outbound::Broadcast(OutMessage::ReplicaConstruction(chara.make_construction())),
            Outbound::Send(OutMessage::SubjectGameMessage(
                chara.make_sgm(ClientGM::ServerDoneLoadingAllObjects)
            )),
            Outbound::Send(OutMessage::SubjectGameMessage(chara.make_sgm(ClientGM::PlayerReady))),
            Outbound::Send(OutMessage::SubjectGameMessage(
                chara.make_sgm(ClientGM::RestoreToPostLoadStats)
            )),
        ]
    );
    assert!(conn.is_open());
}

#[test]
fn level_load_on_a_closed_connection_sends_nothing() {
    let mut state = validated();
    let mut conn = Connection::new(PEER);
    conn.close_conn();
    let msg = IncMessage::World(WorldMessage::LevelLoadComplete(LevelLoadComplete {}));
    assert_eq!(state.on_msg(&msg, &mut conn), Err(Error::Transport));
    assert!(conn.take_outbox().is_empty());
    // The session is filed again in spite of the failure, bound to the spawned character.
    assert_eq!(state.session(PEER).unwrap().active_character_id(), BITS_PERSISTENT + 1);
    assert!(state.has_game_object(BITS_PERSISTENT + 1));
}

#[test]
fn a_position_update_moves_the_bound_entity() {
    let mut state = in_game();
    let mut conn = Connection::new(PEER);
    assert_eq!(state.on_msg(&IncMessage::World(position_update()), &mut conn), Ok(Pending::Nothing));
    let chara = state.game_object(BITS_PERSISTENT + 1).unwrap();
    match chara.make_construction().components[0] {
        ComponentConstruction::ControllablePhysics(p) => {
            assert_eq!(
                p.frame_stats.unwrap().position,
                Vector3 { x: single(1.0), y: single(2.0), z: single(3.0) }
            );
        },
        _ => panic!("controllable physics expected"),
    }
    assert_eq!(
        conn.take_outbox(),
        vec![Outbound::Broadcast(OutMessage::ReplicaSerialization(chara.make_serialization()))]
    );
}

#[test]
fn a_chat_message_goes_to_everyone_in_the_senders_name() {
    let mut state = in_game();
    let mut conn = Connection::new(PEER);
    assert_eq!(state.on_msg(&IncMessage::World(chat("hello")), &mut conn), Ok(Pending::Nothing));
    assert_eq!(
        conn.take_outbox(),
        vec![Outbound::Broadcast(OutMessage::GeneralChatMessage(ClientChatMessage {
            chat_channel: ChatChannel::Other(4),
            sender: BITS_PERSISTENT + 1,
            sender_name: "",
            source_id: 3,
            sender_gm_level: 0,
            message: String::from("hello"),
        }))]
    );
    assert!(state.has_game_object(BITS_PERSISTENT + 1));
}

#[test]
fn a_game_message_is_delivered_to_its_subject() {
    let mut state = in_game();
    let mut conn = Connection::new(PEER);
    let msg = game_message(BITS_PERSISTENT + 1, "/spawn 2000");
    assert_eq!(state.on_msg(&IncMessage::World(msg), &mut conn), Ok(Pending::Nothing));
    let spawned = state.game_object(BITS_SPAWNED + 1).expect("spawned entity");
    assert_eq!(
        conn.take_outbox(),
        vec![Outbound::Broadcast(OutMessage::ReplicaConstruction(spawned.make_construction()))]
    );
    assert!(state.has_game_object(BITS_PERSISTENT + 1));
    assert_eq!(state.all_game_objects().len(), 2);
}

#[test]
fn a_game_message_to_a_missing_entity_is_noted_and_dropped() {
    let mut state = in_game();
    let mut conn = Connection::new(PEER);
    let msg = game_message(999, "/jetpack");
    assert_eq!(state.on_msg(&IncMessage::World(msg), &mut conn), Ok(Pending::Nothing));
    assert!(conn.is_open());
    assert!(conn.take_outbox().is_empty());
    assert_eq!(state.take_diagnostics(), vec![Diagnostic::MissingGameObject(999)]);
    assert_eq!(state.all_game_objects().len(), 1);
}

#[test]
fn a_second_validation_starts_the_session_over() {
    let mut state = in_game();
    let mut conn = Connection::new(PEER);
    let pending = state.on_msg(&credentials(), &mut conn).unwrap();
    assert_eq!(state.on_reply(&pending, &affirmative(), &mut conn), Ok(Pending::Nothing));
    assert_eq!(state.session(PEER).unwrap().active_character_id(), 0);
    assert_eq!(state.on_msg(&IncMessage::World(position_update()), &mut conn), Ok(Pending::Nothing));
    assert!(!conn.is_open());
}

#[test]
fn creating_a_character_goes_through_storage() {
    let mut state = validated();
    let mut conn = Connection::new(PEER);
    let request = restricted_messages().remove(1);
    let pending = state.on_msg(&IncMessage::World(request), &mut conn).unwrap();
    let row = Character {
        id: 1,
        username: String::from("ann"),
        name: String::from("Bob"),
        torso_color: 1,
        legs_color: 2,
        hair_style: 3,
        hair_color: 4,
        eyebrows_style: 5,
        eyes_style: 6,
        mouth_style: 7,
        world_zone: 0,
        world_instance: 0,
        world_clone: 0,
    };
    assert_eq!(pending, Pending::InsertCharacter { row: row.clone() });
    assert!(conn.take_outbox().is_empty());
    // Storage has saved the row.
    let pending = state.on_reply(&pending, &Reply::Inserted(true), &mut conn).unwrap();
    assert_eq!(pending, Pending::LoadCharacters { username: String::from("ann") });
    assert_eq!(
        conn.take_outbox(),
        vec![Outbound::Send(OutMessage::CharacterCreateResponse(CharacterCreateResponse::Success))]
    );
    // Storage has loaded the account's characters.
    let r = state.on_reply(&pending, &Reply::Characters(Some(vec![row])), &mut conn);
    assert_eq!(r, Ok(Pending::Nothing));
    match &conn.take_outbox()[..] {
        [Outbound::Send(OutMessage::CharacterListResponse(CharacterListResponse { selected_char, chars }))] => {
            assert_eq!(*selected_char, 0);
            assert_eq!(chars.len(), 1);
            assert_eq!(chars[0].obj_id, BITS_PERSISTENT + 1);
            assert_eq!(chars[0].char_name, "Bob");
            assert_eq!(chars[0].pending_name, "");
            assert!(!chars[0].requires_rename && !chars[0].is_free_trial);
            assert_eq!(
                (chars[0].torso_color, chars[0].legs_color, chars[0].hair_style, chars[0].hair_color),
                (1, 2, 3, 4)
            );
            assert_eq!((chars[0].eyebrows_style, chars[0].eyes_style, chars[0].mouth_style), (5, 6, 7));
            assert_eq!(chars[0].last_location, ZoneId { map_id: 0, instance_id: 0, clone_id: 0 });
        },
        other => panic!("character list expected, got {:?}", other),
    }
    assert!(state.take_diagnostics().is_empty());
}

#[test]
fn a_character_that_storage_cannot_save_is_reported() {
    let mut state = validated();
    let mut conn = Connection::new(PEER);
    let request = restricted_messages().remove(1);
    let pending = state.on_msg(&IncMessage::World(request), &mut conn).unwrap();
    let r = state.on_reply(&pending, &Reply::Inserted(false), &mut conn);
    assert_eq!(r, Err(Error::Storage));
    assert_eq!(
        conn.take_outbox(),
        vec![Outbound::Send(OutMessage::CharacterCreateResponse(
            CharacterCreateResponse::GeneralFailure
        ))]
    );
    assert_eq!(state.take_diagnostics(), vec![Diagnostic::CharacterNotSaved]);
    assert!(state.is_validated(PEER));
    assert!(conn.is_open());
}

#[test]
fn a_character_cannot_be_created_without_an_identifier() {
    let mut state = State::new(TemplateData::new(), u64::MAX);
    let mut conn = Connection::new(PEER);
    let pending = state.on_msg(&credentials(), &mut conn).unwrap();
    state.on_reply(&pending, &affirmative(), &mut conn).unwrap();
    let request = restricted_messages().remove(1);
    let r = state.on_msg(&IncMessage::World(request), &mut conn);
    assert_eq!(r, Err(Error::IdSpaceExhausted));
    assert_eq!(
        conn.take_outbox(),
        vec![Outbound::Send(OutMessage::CharacterCreateResponse(
            CharacterCreateResponse::GeneralFailure
        ))]
    );
    // The session is filed again in spite of the failure.
    assert!(state.is_validated(PEER));
}

#[test]
fn deleting_a_character_goes_through_storage() {
    for success in [true, false] {
        let mut state = validated();
        let mut conn = Connection::new(PEER);
        let request = WorldMessage::CharacterDeleteRequest(CharacterDeleteRequest {
            char_id: BITS_PERSISTENT + 7,
        });
        let pending = state.on_msg(&IncMessage::World(request), &mut conn).unwrap();
        assert_eq!(pending, Pending::DeleteCharacter { username: String::from("ann"), char_id: 7 });
        let r = state.on_reply(&pending, &Reply::Deleted(success), &mut conn);
        assert_eq!(r, Ok(Pending::Nothing));
        assert_eq!(
            conn.take_outbox(),
            vec![Outbound::Send(OutMessage::CharacterDeleteResponse(CharacterDeleteResponse {
                success
            }))]
        );
        let expected = if success { vec![] } else { vec![Diagnostic::CharacterNotDeleted(7)] };
        assert_eq!(state.take_diagnostics(), expected);
    }
}

#[test]
fn characters_that_storage_cannot_load_are_a_failure() {
    let mut state = validated();
    let mut conn = Connection::new(PEER);
    let pending = Pending::LoadCharacters { username: String::from("ann") };
    assert_eq!(state.on_reply(&pending, &Reply::Characters(None), &mut conn), Err(Error::Storage));
    // The client is told, and disconnected.
    assert_eq!(
        conn.take_outbox(),
        vec![Outbound::Send(OutMessage::DisconnectNotify(DisconnectNotify::UnknownServerError))]
    );
    assert!(!conn.is_open());
    assert_eq!(state.take_diagnostics(), vec![Diagnostic::CharactersNotLoaded]);
    // The session itself is as it was.
    assert_eq!(state.session_state(PEER), SessionState::Validated);
}

#[test]
fn characters_that_cannot_be_loaded_on_a_closed_connection_are_a_transport_failure() {
    let mut state = validated();
    let mut conn = Connection::new(PEER);
    conn.close_conn();
    let pending = Pending::LoadCharacters { username: String::from("ann") };
    assert_eq!(
        state.on_reply(&pending, &Reply::Characters(None), &mut conn),
        Err(Error::Transport)
    );
    assert!(conn.take_outbox().is_empty());
    assert_eq!(state.take_diagnostics(), vec![Diagnostic::CharactersNotLoaded]);
}

#[test]
fn a_reply_that_answers_nothing_is_noted_and_dropped() {
    let mut state = validated();
    let mut conn = Connection::new(PEER);
    let cases = vec![
        (Pending::Nothing, Reply::Deleted(true)),
        (Pending::Transport(TransportStep::Handshake), affirmative()),
        (Pending::LoadCharacters { username: String::from("ann") }, Reply::Inserted(true)),
        (Pending::DeleteCharacter { username: String::from("ann"), char_id: 1 }, affirmative()),
        (
            Pending::Verify { username: String::from("ann"), session_key: String::from("k") },
            Reply::Characters(None),
        ),
    ];
    for (pending, reply) in cases {
        assert_eq!(state.on_reply(&pending, &reply, &mut conn), Ok(Pending::Nothing));
        assert_eq!(state.take_diagnostics(), vec![Diagnostic::UnexpectedReply]);
        assert!(conn.take_outbox().is_empty());
    }
}

#[test]
fn a_reply_from_storage_needs_a_validated_session() {
    let cases = vec![
        (Pending::LoadCharacters { username: String::from("ann") }, Reply::Characters(Some(vec![]))),
        (Pending::DeleteCharacter { username: String::from("ann"), char_id: 1 }, Reply::Deleted(true)),
    ];
    for (pending, reply) in cases {
        let mut state = world();
        let mut conn = Connection::new(PEER);
        assert_eq!(state.on_reply(&pending, &reply, &mut conn), Ok(Pending::Nothing));
        assert!(!conn.is_open());
        assert_eq!(conn.take_outbox(), invalid_session());
        assert_eq!(state.take_diagnostics(), vec![Diagnostic::UnvalidatedClient(PEER)]);
    }
}

#[test]
fn stored_keys_and_object_identifiers_convert_into_each_other() {
    let row = |id: i32| Character {
        id,
        username: String::new(),
        name: String::new(),
        torso_color: -1,
        legs_color: 0,
        hair_style: 0,
        hair_color: 0,
        eyebrows_style: 0,
        eyes_style: 0,
        mouth_style: 0,
        world_zone: 1100,
        world_instance: 2,
        world_clone: 3,
    };
    let entry = world_server::listeners::chara::char_list_char(&row(77));
    assert_eq!(entry.obj_id, BITS_PERSISTENT + 77);
    assert_eq!(entry.torso_color, u32::MAX);
    assert_eq!(entry.last_location, ZoneId { map_id: 1100, instance_id: 2, clone_id: 3 });
    let entry = world_server::listeners::chara::char_list_char(&row(-1));
    assert_eq!(entry.obj_id, u64::MAX);
}

#[test]
fn a_connection_goes_from_unauthenticated_to_validated_to_in_game() {
    let mut state = world();
    let mut conn = Connection::new(PEER);
    assert_eq!(state.session_state(PEER), SessionState::Unauthenticated);
    let pending = state.on_msg(&credentials(), &mut conn).unwrap();
    // Asking is not yet being validated.
    assert_eq!(state.session_state(PEER), SessionState::Unauthenticated);
    state.on_reply(&pending, &affirmative(), &mut conn).unwrap();
    assert_eq!(state.session_state(PEER), SessionState::Validated);
    // Nothing but the report that the world has loaded takes the session into the game.
    for msg in [
        WorldMessage::CharacterListRequest,
        WorldMessage::CharacterLoginRequest(CharacterLoginRequest { char_id: 1 }),
        WorldMessage::StringCheck(StringCheck { request_id: 1, chat_mode: 2 }),
        WorldMessage::Other,
    ] {
        state.on_msg(&IncMessage::World(msg), &mut conn).unwrap();
        assert_eq!(state.session_state(PEER), SessionState::Validated);
    }
    let msg = IncMessage::World(WorldMessage::LevelLoadComplete(LevelLoadComplete {}));
    state.on_msg(&msg, &mut conn).unwrap();
    assert_eq!(state.session_state(PEER), SessionState::InGame);
    assert_eq!(state.session_state(PEER + 1), SessionState::Unauthenticated);
    assert!(conn.is_open());
}

#[test]
fn a_character_that_cannot_be_spawned_leaves_the_session_validated() {
    let mut state = State::new(TemplateData::new(), u64::MAX);
    let mut conn = Connection::new(PEER);
    let pending = state.on_msg(&credentials(), &mut conn).unwrap();
    state.on_reply(&pending, &affirmative(), &mut conn).unwrap();
    let msg = IncMessage::World(WorldMessage::LevelLoadComplete(LevelLoadComplete {}));
    assert_eq!(state.on_msg(&msg, &mut conn), Err(Error::IdSpaceExhausted));
    assert_eq!(state.session_state(PEER), SessionState::Validated);
    assert!(state.all_game_objects().is_empty());
    assert!(conn.take_outbox().is_empty());
}

#[test]
fn a_character_cannot_be_created_beyond_the_keys_of_storage() {
    // Every key that storage can file is taken; the partition itself is not used up.
    let mut state = State::new(TemplateData::new(), i32::MAX as u64);
    let mut conn = Connection::new(PEER);
    let pending = state.on_msg(&credentials(), &mut conn).unwrap();
    state.on_reply(&pending, &affirmative(), &mut conn).unwrap();
    assert_eq!(state.storable_ids_left(), 0);
    assert!(state.persistent_ids_left() > 0);
    let request = restricted_messages().remove(1);
    assert_eq!(state.on_msg(&IncMessage::World(request), &mut conn), Err(Error::IdSpaceExhausted));
    assert_eq!(
        conn.take_outbox(),
        vec![Outbound::Send(OutMessage::CharacterCreateResponse(
            CharacterCreateResponse::GeneralFailure
        ))]
    );
    // A character can still be spawned: its identifier is not filed in storage.
    let msg = IncMessage::World(WorldMessage::LevelLoadComplete(LevelLoadComplete {}));
    assert_eq!(state.on_msg(&msg, &mut conn), Ok(Pending::Nothing));
    assert_eq!(
        state.session(PEER).unwrap().active_character_id(),
        BITS_PERSISTENT + i32::MAX as u64 + 1
    );
}

#[test]
fn the_last_key_of_storage_round_trips() {
    let mut state = State::new(TemplateData::new(), i32::MAX as u64 - 1);
    let mut conn = Connection::new(PEER);
    let pending = state.on_msg(&credentials(), &mut conn).unwrap();
    state.on_reply(&pending, &affirmative(), &mut conn).unwrap();
    let request = restricted_messages().remove(1);
    match state.on_msg(&IncMessage::World(request), &mut conn).unwrap() {
        Pending::InsertCharacter { row } => {
            assert_eq!(row.id, i32::MAX);
            let entry = world_server::listeners::chara::char_list_char(&row);
            assert_eq!(entry.obj_id, BITS_PERSISTENT + i32::MAX as u64);
        },
        other => panic!("insert expected, got {:?}", other),
    }
}
