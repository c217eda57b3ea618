use world_server::commands::{
    command, game_state, jetpack_mode, on_chat_command, scoreboard_hidden, scoreboard_shown,
    scoreboard_update, system_message, ui_debugger, Command,
};
use world_server::connection::Connection;
use world_server::error::Error;
use world_server::game_object::GameObject;
use world_server::ids::{BITS_SPAWNED, SPAWNED_CAPACITY};
use world_server::math::{Quaternion, Single, SpawnConfig, Vector3};
use world_server::messages::{
    ChatChannel, ClientChatMessage, ClientGM, OutMessage, Outbound, ParseChatMessage, ServerGM,
    UiArg, UiValue,
};
use world_server::replica::ComponentConstruction;
use world_server::state::State;
use world_server::templates::TemplateData;

fn single(x: f32) -> Single {
    Single::from_bits(x.to_bits())
}

fn world() -> State {
    let mut t = TemplateData::new();
    for c in [3, 7] {
        t.add_row(2000, c);
    }
    t.add_row(3000, 200);
    State::new(t, 0)
}

fn player_at(position: Vector3, rotation: Quaternion) -> GameObject {
    GameObject::new(1, 77, 1, &SpawnConfig::at(position, rotation), &vec![1, 4, 7, 17, 9]).unwrap()
}

fn player() -> GameObject {
    GameObject::new(1, 77, 1, &SpawnConfig::empty(), &vec![1, 4, 7, 17, 9]).unwrap()
}

fn sgm(e: &GameObject, gm: ClientGM) -> Outbound {
    Outbound::Send(OutMessage::SubjectGameMessage(e.make_sgm(gm)))
}

fn system(text: &str) -> Outbound {
    Outbound::Send(OutMessage::GeneralChatMessage(ClientChatMessage {
        chat_channel: ChatChannel::Local,
        sender: 0,
        sender_name: "",
        source_id: 0,
        sender_gm_level: 0,
        message: String::from(text),
    }))
}

fn run(line: &str) -> (State, GameObject, Vec<Outbound>, Result<(), Error>) {
    let mut state = world();
    let mut sender = player();
    let mut conn = Connection::new(1);
    let r = on_chat_command(&mut state, line, &mut sender, &mut conn);
    (state, sender, conn.take_outbox(), r)
}

#[test]
fn the_first_word_without_its_slash_names_the_command() {
    let word = |s: &str| -> Vec<char> { s.chars().collect() };
    assert_eq!(command(&word("/additem")), Command::AddItem);
    assert_eq!(command(&word("/gamestate")), Command::GameState);
    assert_eq!(command(&word("/jetpack")), Command::Jetpack);
    assert_eq!(command(&word("/uidebug")), Command::UiDebug);
    assert_eq!(command(&word("/toggle")), Command::Toggle);
    assert_eq!(command(&word("/spawn")), Command::Spawn);
    assert_eq!(command(&word("/dance")), Command::Dance);
    assert_eq!(command(&word("/fly")), Command::Unknown);
    assert_eq!(command(&word("/")), Command::Unknown);
    assert_eq!(command(&word("")), Command::Unknown);
    assert_eq!(command(&word("/Spawn")), Command::Unknown);
    assert_eq!(command(&word("/spawnx")), Command::Unknown);
}

#[test]
fn a_message_of_the_system_has_no_sender() {
    assert_eq!(system(&"hi"), Outbound::Send(OutMessage::GeneralChatMessage(system_message(String::from("hi")))));
}

#[test]
fn jetpack_speeds_are_twenty_thirty_and_one_and_a_half() {
    let m = jetpack_mode();
    assert!(m.bypass_checks && !m.do_hover && m.use_jetpack);
    assert_eq!(m.effect_id, 167);
    assert_eq!(m.airspeed, single(20.0));
    assert_eq!(m.max_airspeed, single(30.0));
    assert_eq!(m.vert_vel, single(1.5));
    assert_eq!(m.warning_effect_id, -1);
}

#[test]
fn user_interface_messages_carry_their_arguments() {
    let arg = |key, value| Some(UiArg { key, value });
    assert_eq!(ui_debugger().message_name, "ToggleUIDebugger");
    assert_eq!(ui_debugger().args, [arg("visible", UiValue::True), None, None, None]);
    assert_eq!(game_state().message_name, "pushGameState");
    assert_eq!(game_state().args, [arg("state", UiValue::Text("Survival")), None, None, None]);
    assert_eq!(scoreboard_hidden().message_name, "ToggleSurvivalScoreboard");
    assert_eq!(scoreboard_hidden().args, [arg("visible", UiValue::False), None, None, None]);
    assert_eq!(scoreboard_shown().args, [arg("visible", UiValue::True), None, None, None]);
    assert_eq!(scoreboard_update().message_name, "UpdateSurvivalScoreboard");
    assert_eq!(
        scoreboard_update().args,
        [
            arg("iplayerName", UiValue::Text("Allies")),
            arg("itime", UiValue::Text("200")),
            arg("inextbestname", UiValue::Text("Enemies")),
            arg("inextbesttime", UiValue::Text("321")),
        ]
    );
}

#[test]
fn jetpack_command_switches_the_jetpack_on() {
    let (_, sender, sent, r) = run("/jetpack");
    assert_eq!(r, Ok(()));
    assert_eq!(sent, vec![sgm(&sender, ClientGM::SetJetPackMode(jetpack_mode()))]);
}

#[test]
fn uidebug_and_gamestate_commands_send_one_message_each() {
    let (_, sender, sent, r) = run("/uidebug");
    assert_eq!(r, Ok(()));
    assert_eq!(sent, vec![sgm(&sender, ClientGM::UiMessageServerToSingleClient(ui_debugger()))]);
    let (_, sender, sent, r) = run("/gamestate now");
    assert_eq!(r, Ok(()));
    assert_eq!(sent, vec![sgm(&sender, ClientGM::UiMessageServerToSingleClient(game_state()))]);
}

#[test]
fn toggle_command_hides_shows_and_fills_the_scoreboard() {
    let (_, sender, sent, r) = run("/toggle");
    assert_eq!(r, Ok(()));
    assert_eq!(
        sent,
        vec![
            sgm(&sender, ClientGM::UiMessageServerToSingleClient(scoreboard_hidden())),
            sgm(&sender, ClientGM::UiMessageServerToSingleClient(scoreboard_shown())),
            sgm(&sender, ClientGM::UiMessageServerToSingleClient(scoreboard_update())),
        ]
    );
}

#[test]
fn dance_command_does_nothing() {
    let (mut state, _, sent, r) = run("/dance");
    assert_eq!(r, Ok(()));
    assert!(sent.is_empty());
    assert!(state.take_diagnostics().is_empty());
}

#[test]
fn unknown_command_is_answered_by_the_system() {
    let (_, _, sent, r) = run("/fly me to the moon");
    assert_eq!(r, Ok(()));
    assert_eq!(sent, vec![system("Unknown command.")]);
}

#[test]
fn a_line_without_words_does_nothing() {
    let (_, _, sent, r) = run("   ");
    assert_eq!(r, Ok(()));
    assert!(sent.is_empty());
}

#[test]
fn additem_command_adds_an_item_of_the_template() {
    let (state, sender, sent, r) = run("/additem 6086");
    assert_eq!(r, Ok(()));
    assert_eq!(state.spawned_ids_left(), SPAWNED_CAPACITY - 1);
    assert_eq!(sent.len(), 2);
    match &sent[0] {
        Outbound::Send(OutMessage::SubjectGameMessage(m)) => {
            assert_eq!(m.subject_id, 77);
            match m.message {
                ClientGM::AddItemToInventoryClientSync(add) => {
                    assert_eq!(add.obj_template, 6086);
                    assert_eq!(add.new_obj_id, BITS_SPAWNED + 1);
                },
                _ => panic!("item expected"),
            }
        },
        _ => panic!("game message expected"),
    }
    assert_eq!(sent[1], Outbound::Broadcast(OutMessage::ReplicaSerialization(sender.make_serialization())));
}

#[test]
fn commands_with_malformed_arguments_do_nothing() {
    for line in ["/additem", "/additem 1 2", "/additem x", "/additem -1", "/additem 4294967296",
        "/spawn", "/spawn 1 2", "/spawn lot", "/spawn 1.5"]
    {
        let (state, _, sent, r) = run(line);
        assert_eq!(r, Ok(()), "line {:?}", line);
        assert!(sent.is_empty(), "line {:?}", line);
        assert_eq!(state.spawned_ids_left(), SPAWNED_CAPACITY, "line {:?}", line);
        assert!(state.all_game_objects().is_empty(), "line {:?}", line);
    }
}

#[test]
fn spawn_command_spawns_where_the_sender_is() {
    let position = Vector3 { x: single(10.0), y: single(20.0), z: single(30.0) };
    let rotation = Quaternion { x: single(0.0), y: single(0.5), z: single(0.0), w: single(0.5) };
    let mut state = world();
    let mut sender = player_at(position, rotation);
    let mut conn = Connection::new(1);
    let r = on_chat_command(&mut state, "/spawn 2000", &mut sender, &mut conn);
    assert_eq!(r, Ok(()));
    let spawned = state.game_object(BITS_SPAWNED + 1).expect("spawned entity");
    assert_eq!(spawned.lot(), 2000);
    let replica = spawned.make_construction();
    match replica.components[0] {
        ComponentConstruction::SimplePhysics(p) => {
            let info = p.position_rotation_info.unwrap();
            assert_eq!(info.position, position);
            assert_eq!(info.rotation, rotation);
        },
        _ => panic!("simple physics expected"),
    }
    assert_eq!(conn.take_outbox(), vec![Outbound::Broadcast(OutMessage::ReplicaConstruction(replica))]);
}

#[test]
fn a_failed_command_is_reported_to_the_peer() {
    let (state, _, sent, r) = run("/spawn 3000");
    assert_eq!(r, Ok(()));
    assert_eq!(sent, vec![system("Error in command: component type 200 not implemented")]);
    assert!(state.all_game_objects().is_empty());
}

#[test]
fn a_failed_command_fails_if_it_cannot_be_reported() {
    let mut state = world();
    let mut sender = player();
    let mut conn = Connection::new(1);
    conn.close_conn();
    for line in ["/jetpack", "/toggle", "/fly", "/additem 1", "/spawn 2000"] {
        let r = on_chat_command(&mut state, line, &mut sender, &mut conn);
        assert_eq!(r, Err(Error::Transport), "line {:?}", line);
    }
    assert_eq!(on_chat_command(&mut state, "/dance", &mut sender, &mut conn), Ok(()));
    assert!(conn.take_outbox().is_empty());
    // What was done before the failure stays done: the item's identifier is taken, the
    // entity is spawned.
    assert_eq!(state.spawned_ids_left(), SPAWNED_CAPACITY - 2);
    assert_eq!(state.all_game_objects().len(), 1);
}

#[test]
fn a_chat_line_is_a_command_only_if_it_begins_with_a_slash() {
    let mut state = world();
    let mut sender = player();
    let mut conn = Connection::new(1);
    for line in ["jetpack", " /jetpack", "", "hello /jetpack"] {
        let msg = ServerGM::ParseChatMessage(ParseChatMessage { string: String::from(line) });
        assert_eq!(sender.on_game_message(&msg, &mut state, &mut conn), Ok(()));
        assert!(conn.take_outbox().is_empty(), "line {:?}", line);
    }
    let msg = ServerGM::ParseChatMessage(ParseChatMessage { string: String::from("/jetpack") });
    assert_eq!(sender.on_game_message(&msg, &mut state, &mut conn), Ok(()));
    assert_eq!(conn.take_outbox(), vec![sgm(&sender, ClientGM::SetJetPackMode(jetpack_mode()))]);
}

#[test]
fn a_command_reaches_only_an_entity_with_a_character() {
    let mut state = world();
    let mut conn = Connection::new(1);
    let mut crate_entity = GameObject::new(1, 5, 2000, &SpawnConfig::empty(), &vec![3, 7, 17]).unwrap();
    let msg = ServerGM::ParseChatMessage(ParseChatMessage { string: String::from("/jetpack") });
    assert_eq!(crate_entity.on_game_message(&msg, &mut state, &mut conn), Ok(()));
    assert!(conn.take_outbox().is_empty());
}

#[test]
fn additem_from_chat_works_on_the_rest_of_the_entity() {
    // While the character component handles the line, it is taken out of the entity: the
    // update snapshot that follows the query lists the entity without it.
    let mut state = world();
    let mut sender = player();
    let mut conn = Connection::new(1);
    let msg = ServerGM::ParseChatMessage(ParseChatMessage { string: String::from("/additem 3") });
    assert_eq!(sender.on_game_message(&msg, &mut state, &mut conn), Ok(()));
    let sent = conn.take_outbox();
    assert_eq!(sent.len(), 2);
    match &sent[1] {
        Outbound::Broadcast(OutMessage::ReplicaSerialization(s)) => {
            assert_eq!(s.components.len(), sender.component_count() - 1);
        },
        _ => panic!("update snapshot expected"),
    }
    // Afterwards the entity is whole again, in composition order.
    let kinds: Vec<u32> = (0..sender.component_count()).map(|i| sender.component(i).unwrap().tag()).collect();
    assert_eq!(kinds, vec![1, 98, 7, 110, 109, 106, 4, 17, 9]);
}
