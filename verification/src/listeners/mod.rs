//! Message listeners: what the server does in response to the messages of a validated
//! session.
pub mod chara;

use vstd::prelude::*;
use vstd::string::*;
use crate::connection::{Connection, ConnectionView};
use crate::error::{Error, Res};
use crate::game_object::{
    spec_on_game_message, spec_run_service_mut, GameObject, GameObjectView, Scene,
};
use crate::ids::ObjId;
use crate::messages::{
    ChatModerationString, ClientChatMessage, ClientChatMessageView, ClientGM, CreateCharacter,
    CreateCharacterView, DisconnectNotify, LevelLoadComplete, OutMessage, OutMessageView,
    Pending, PendingView, PositionUpdate, ServerChatMessage, ServerSGM, StringCheck,
    WorldMessage,
};
use crate::services::GameObjectServiceMut;
use crate::state::{AccountInfo, AccountInfoView, Diagnostic, State, StateView};
use crate::text::{decimal, spec_decimal};
use self::chara::{
    on_char_create_req, on_char_del_req, on_char_list_req, on_char_login_req,
    spec_load_static_zone, spec_on_char_create_req, spec_on_char_del_req, spec_on_char_list_req,
};

verus! {

/// What handling one message comes to: the registry and the connection afterwards, and what
/// the handler returns.
pub struct Turn {
    /// The world registry.
    pub state: StateView,
    /// The connection that the message came over.
    pub conn: ConnectionView,
    /// The failure, or the outside work that is left to do.
    pub result: Res<PendingView>,
}

/// The result of a handler that leaves no outside work.
pub open spec fn spec_done(result: Res<()>) -> Res<PendingView> {
    match result {
        Ok(_) => Ok(PendingView::Nothing),
        Err(e) => Err(e),
    }
}

/// Whether a message can only be handled for a session that plays an entity.
pub open spec fn spec_requires_in_game(msg: WorldMessage) -> bool {
    msg is GeneralChatMessage || msg is SubjectGameMessage || msg is PositionUpdate
}

/// The connection after a forced disconnect: the peer is told the reason, and the connection
/// is closed.
pub open spec fn spec_force_disconnect(
    conn: ConnectionView,
    reason: DisconnectNotify,
) -> ConnectionView {
    conn.send(OutMessageView::DisconnectNotify(reason)).close()
}

/// The turn in which the entity `obj_id` handles something: it is taken out of the registry,
/// `handle` runs on it, and it is filed again, whether `handle` failed or not. Where no such
/// entity is live, the miss is noted and nothing else happens.
pub open spec fn spec_with_game_object(
    state: StateView,
    obj_id: ObjId,
    conn: ConnectionView,
    handle: spec_fn(Scene) -> Scene,
) -> Turn {
    if !state.game_objects.contains_key(obj_id) {
        Turn {
            state: state.logged(Diagnostic::MissingGameObject(obj_id)),
            conn,
            result: Ok(PendingView::Nothing),
        }
    } else {
        let scene = handle(
            Scene {
                entity: state.game_objects[obj_id],
                state: state.without_game_object(obj_id),
                conn,
                result: Ok(()),
            },
        );
        Turn {
            state: scene.state.with_game_object(obj_id, scene.entity),
            conn: scene.conn,
            result: spec_done(scene.result),
        }
    }
}

/// The chat message that clients get when the entity `sender` says `msg`.
pub open spec fn spec_chat_message(sender: ObjId, msg: ServerChatMessage) -> ClientChatMessageView {
    ClientChatMessageView {
        chat_channel: msg.chat_channel,
        sender,
        sender_name: "",
        source_id: msg.source_id,
        sender_gm_level: 0,
        message: msg.message@,
    }
}

/// The turn that handles a chat message: it goes to every client, in the name of the
/// session's entity.
pub open spec fn spec_on_general_chat_msg(
    state: StateView,
    msg: ServerChatMessage,
    acc: AccountInfoView,
    conn: ConnectionView,
) -> Turn {
    spec_with_game_object(
        state,
        acc.active_character_id,
        conn,
        |scene: Scene|
            Scene {
                conn: scene.conn.broadcast(
                    OutMessageView::GeneralChatMessage(
                        spec_chat_message(scene.entity.object_id, msg),
                    ),
                ),
                result: scene.conn.attempt(),
                ..scene
            },
    )
}

/// The turn that handles a game message: it is delivered to the entity it is addressed to.
pub open spec fn spec_on_subject_game_msg(
    state: StateView,
    msg: ServerSGM,
    conn: ConnectionView,
) -> Turn {
    spec_with_game_object(
        state,
        msg.subject_id,
        conn,
        |scene: Scene| spec_on_game_message(scene, msg.message),
    )
}

/// The turn that handles a position update: the new frame stats are put to the session's
/// entity as a mutating query.
pub open spec fn spec_on_position_update(
    state: StateView,
    msg: PositionUpdate,
    acc: AccountInfoView,
    conn: ConnectionView,
) -> Turn {
    spec_with_game_object(
        state,
        acc.active_character_id,
        conn,
        |scene: Scene|
            spec_run_service_mut(scene, GameObjectServiceMut::SetFrameStats(msg.frame_stats)),
    )
}

/// The verdict on a text that a client wants checked.
pub open spec fn spec_moderation(msg: StringCheck) -> ChatModerationString {
    ChatModerationString { request_id: msg.request_id, chat_mode: msg.chat_mode, whisper_name: "" }
}

/// The connection after the full snapshots of the first `n` of `entities` went to every
/// client.
pub open spec fn spec_broadcast_constructions(
    conn: ConnectionView,
    entities: Seq<GameObjectView>,
    n: int,
) -> ConnectionView
    decreases n,
{
    if n <= 0 {
        conn
    } else {
        spec_broadcast_constructions(conn, entities, n - 1).broadcast(
            OutMessageView::ReplicaConstruction(entities[n - 1].spec_construction()),
        )
    }
}

/// The message that hands a client the character `entity`.
pub open spec fn spec_create_character(entity: GameObjectView) -> CreateCharacterView {
    CreateCharacterView {
        objid: entity.object_id,
        template: 1,
        name: spec_decimal(entity.object_id as nat),
        xml_data: entity.spec_xml(),
    }
}

/// What the client is sent once its world has loaded: its character, the full snapshot of
/// every live entity, and the three messages that end loading.
pub open spec fn spec_level_loaded(
    conn: ConnectionView,
    chara: GameObjectView,
    live: Seq<GameObjectView>,
) -> ConnectionView {
    spec_broadcast_constructions(
        conn.send(OutMessageView::CreateCharacter(spec_create_character(chara))),
        live,
        live.len() as int,
    ).send(
        OutMessageView::SubjectGameMessage(
            chara.spec_make_sgm(ClientGM::ServerDoneLoadingAllObjects),
        ),
    ).send(OutMessageView::SubjectGameMessage(chara.spec_make_sgm(ClientGM::PlayerReady))).send(
        OutMessageView::SubjectGameMessage(chara.spec_make_sgm(ClientGM::RestoreToPostLoadStats)),
    )
}

/// The session and the turn after a client reported that its world has loaded. The session's
/// character is spawned and the session is bound to it: from here on the session is in the
/// game. Then the client is sent what `spec_level_loaded` lists.
///
/// If the character cannot be spawned, the session stays as it was. If the connection is
/// closed, nothing is sent; the character stays spawned and bound.
pub open spec fn spec_on_level_load_complete(
    state: StateView,
    acc: AccountInfoView,
    conn: ConnectionView,
) -> (AccountInfoView, Turn) {
    let (spawned, obj_id) = state.spec_spawn_player();
    match obj_id {
        Err(e) => (acc, Turn { state: spawned, conn, result: Err(e) }),
        Ok(obj_id) => (
            AccountInfoView { active_character_id: obj_id, ..acc },
            Turn {
                state: spawned,
                conn: if conn.open {
                    spec_level_loaded(
                        conn,
                        spawned.game_objects[obj_id],
                        spawned.spec_all_game_objects(),
                    )
                } else {
                    conn
                },
                result: spec_done(conn.attempt()),
            },
        ),
    }
}

/// The session and the turn after a restricted message of a validated session was handled.
///
/// A message that can only be handled for a session in the game, from a session that is not,
/// ends in a forced disconnect: the miss is noted, the peer is told that its session is
/// invalid, and the connection is closed. Nothing else changes.
pub open spec fn spec_on_validated_msg(
    state: StateView,
    msg: WorldMessage,
    acc: AccountInfoView,
    conn: ConnectionView,
) -> (AccountInfoView, Turn) {
    if spec_requires_in_game(msg) && !acc.in_game() {
        (
            acc,
            Turn {
                state: state.logged(Diagnostic::NotInGame(conn.peer)),
                conn: spec_force_disconnect(conn, DisconnectNotify::InvalidSessionKey),
                result: spec_done(conn.attempt()),
            },
        )
    } else {
        match msg {
            WorldMessage::CharacterListRequest => (acc, spec_on_char_list_req(state, acc, conn)),
            WorldMessage::CharacterCreateRequest(m) => (
                acc,
                spec_on_char_create_req(state, m, acc, conn),
            ),
            WorldMessage::CharacterLoginRequest(_) => (
                acc,
                Turn {
                    state,
                    conn: conn.send(OutMessageView::LoadStaticZone(spec_load_static_zone())),
                    result: spec_done(conn.attempt()),
                },
            ),
            WorldMessage::CharacterDeleteRequest(m) => (
                acc,
                spec_on_char_del_req(state, m, acc, conn),
            ),
            WorldMessage::GeneralChatMessage(m) => (
                acc,
                spec_on_general_chat_msg(state, m, acc, conn),
            ),
            WorldMessage::SubjectGameMessage(m) => (acc, spec_on_subject_game_msg(state, m, conn)),
            WorldMessage::LevelLoadComplete(_) => spec_on_level_load_complete(state, acc, conn),
            WorldMessage::PositionUpdate(m) => (acc, spec_on_position_update(state, m, acc, conn)),
            WorldMessage::StringCheck(m) => (
                acc,
                Turn {
                    state,
                    conn: conn.send(OutMessageView::ChatModerationString(spec_moderation(m))),
                    result: spec_done(conn.attempt()),
                },
            ),
            _ => (
                acc,
                Turn {
                    state: state.logged(Diagnostic::UnrecognizedPacket),
                    conn,
                    result: Ok(PendingView::Nothing),
                },
            ),
        }
    }
}

/// Whether a message can only be handled for a session that plays an entity.
pub fn requires_in_game(msg: &WorldMessage) -> (b: bool)
    ensures
        b == spec_requires_in_game(*msg),
{
    match msg {
        WorldMessage::GeneralChatMessage(_) => true,
        WorldMessage::SubjectGameMessage(_) => true,
        WorldMessage::PositionUpdate(_) => true,
        _ => false,
    }
}

/// Tells the peer why it is disconnected, and closes the connection. Fails if the peer can no
/// longer be told; the connection is closed all the same.
pub fn force_disconnect(conn: &mut Connection, reason: DisconnectNotify) -> (r: Res<()>)
    ensures
        final(conn)@ == spec_force_disconnect(old(conn)@, reason),
        r == old(conn)@.attempt(),
{
    let r = conn.send(OutMessage::DisconnectNotify(reason));
    conn.close_conn();
    r
}

/// The handler's result, as the result of a handler that may leave outside work.
pub fn done(result: Res<()>) -> (r: Res<Pending>)
    ensures
        match r {
            Ok(pending) => spec_done(result) == Ok::<PendingView, Error>(pending@),
            Err(e) => spec_done(result) == Err::<PendingView, Error>(e),
        },
{
    match result {
        Ok(_) => Ok(Pending::Nothing),
        Err(e) => Err(e),
    }
}

/// Handles a restricted message of the validated session `acc_info`.
///
/// A message that can only be handled for a session in the game, from a session that is not,
/// ends in a forced disconnect. A message of a kind that has no handler is noted and dropped.
pub fn on_validated_msg(
    state: &mut State,
    msg: &WorldMessage,
    acc_info: &mut AccountInfo,
    conn: &mut Connection,
) -> (r: Res<Pending>)
    requires
        old(state)@.wf(),
    ensures
        final(state)@.follows(old(state)@),
        (
            final(acc_info)@,
            Turn {
                state: final(state)@,
                conn: final(conn)@,
                result: match r {
                    Ok(pending) => Ok(pending@),
                    Err(e) => Err(e),
                },
            },
        ) == spec_on_validated_msg(old(state)@, *msg, old(acc_info)@, old(conn)@),
{
    if requires_in_game(msg) && acc_info.active_character_id() == 0 {
        state.note(Diagnostic::NotInGame(conn.peer_addr()));
        return done(force_disconnect(conn, DisconnectNotify::InvalidSessionKey));
    }
    match msg {
        WorldMessage::CharacterListRequest => on_char_list_req(state, acc_info, conn),
        WorldMessage::CharacterCreateRequest(msg) => on_char_create_req(state, msg, acc_info, conn),
        WorldMessage::CharacterLoginRequest(msg) => done(
            on_char_login_req(state, msg, acc_info, conn),
        ),
        WorldMessage::CharacterDeleteRequest(msg) => on_char_del_req(state, msg, acc_info, conn),
        WorldMessage::GeneralChatMessage(msg) => done(
            on_general_chat_msg(state, msg, acc_info, conn),
        ),
        WorldMessage::SubjectGameMessage(msg) => done(on_subject_game_msg(state, msg, conn)),
        WorldMessage::LevelLoadComplete(msg) => done(
            on_level_load_complete(state, msg, acc_info, conn),
        ),
        WorldMessage::PositionUpdate(msg) => done(on_position_update(state, msg, acc_info, conn)),
        WorldMessage::StringCheck(msg) => done(on_string_check(state, msg, conn)),
        _ => {
            state.note(Diagnostic::UnrecognizedPacket);
            Ok(Pending::Nothing)
        },
    }
}

/// Handles a chat message: it goes to every client, in the name of the session's entity.
pub fn on_general_chat_msg(
    state: &mut State,
    msg: &ServerChatMessage,
    acc_info: &AccountInfo,
    conn: &mut Connection,
) -> (r: Res<()>)
    requires
        old(state)@.wf(),
    ensures
        final(state)@.follows(old(state)@),
        (Turn { state: final(state)@, conn: final(conn)@, result: spec_done(r) })
            == spec_on_general_chat_msg(old(state)@, *msg, acc_info@, old(conn)@),
{
    let say = |state: &mut State, sender: &mut GameObject, conn: &mut Connection| -> (r: Res<()>)
        ensures
            final(state)@ == old(state)@,
            final(sender)@ == old(sender)@,
            final(conn)@ == old(conn)@.broadcast(
                OutMessageView::GeneralChatMessage(
                    spec_chat_message(old(sender)@.object_id, *msg),
                ),
            ),
            r == old(conn)@.attempt(),
        {
            conn.broadcast(
                OutMessage::GeneralChatMessage(
                    ClientChatMessage {
                        chat_channel: msg.chat_channel,
                        sender: sender.object_id(),
                        sender_name: "",
                        source_id: msg.source_id,
                        sender_gm_level: 0,
                        message: msg.message.clone(),
                    },
                ),
            )
        };
    state.with_char(acc_info, conn, say)
}

/// Handles the client's report that its world has loaded: the session's character is
/// spawned, the session is bound to it, and the client is sent its character, the full
/// snapshot of every live entity, and the three messages that end loading.
pub fn on_level_load_complete(
    state: &mut State,
    _msg: &LevelLoadComplete,
    acc_info: &mut AccountInfo,
    conn: &mut Connection,
) -> (r: Res<()>)
    requires
        old(state)@.wf(),
    ensures
        final(state)@.follows(old(state)@),
        (final(acc_info)@, Turn { state: final(state)@, conn: final(conn)@, result: spec_done(r) })
            == spec_on_level_load_complete(old(state)@, old(acc_info)@, old(conn)@),
{
    let obj_id = match state.spawn_player(acc_info) {
        Ok(obj_id) => obj_id,
        Err(e) => {
            return Err(e);
        },
    };
    if !conn.is_open() {
        return Err(Error::Transport);
    }
    let chara = match state.game_object(obj_id) {
        Some(chara) => chara,
        None => {
            return Ok(());
        },
    };
    let mut xml = String::from_str("");
    proof {
        reveal_strlit("");
    }
    chara.write_xml(&mut xml);
    assert(xml@ =~= chara@.spec_xml());
    let chardata = CreateCharacter {
        objid: obj_id,
        template: 1,
        name: decimal(obj_id),
        xml_data: xml,
    };
    match conn.send(OutMessage::CreateCharacter(chardata)) {
        Ok(_) => {},
        Err(e) => {
            return Err(e);
        },
    }
    let live = state.all_game_objects();
    let ghost entities = state@.spec_all_game_objects();
    let ghost greeted = conn@;
    let mut i: usize = 0;
    while i < live.len()
        invariant
            i <= live@.len(),
            live@.len() == entities.len(),
            forall|j: int| 0 <= j < live@.len() ==> (#[trigger] live@[j])@ == entities[j],
            conn@.open,
            conn@ == spec_broadcast_constructions(greeted, entities, i as int),
        decreases live@.len() - i,
    {
        let replica = live[i].make_construction();
        match conn.broadcast(OutMessage::ReplicaConstruction(replica)) {
            Ok(_) => {},
            Err(e) => {
                return Err(e);
            },
        }
        i += 1;
    }
    match conn.send(
        OutMessage::SubjectGameMessage(chara.make_sgm(ClientGM::ServerDoneLoadingAllObjects)),
    ) {
        Ok(_) => {},
        Err(e) => {
            return Err(e);
        },
    }
    match conn.send(OutMessage::SubjectGameMessage(chara.make_sgm(ClientGM::PlayerReady))) {
        Ok(_) => {},
        Err(e) => {
            return Err(e);
        },
    }
    conn.send(OutMessage::SubjectGameMessage(chara.make_sgm(ClientGM::RestoreToPostLoadStats)))
}

/// Handles a game message: it is delivered to the entity it is addressed to. A message to an
/// entity that is not live is noted and dropped.
pub fn on_subject_game_msg(state: &mut State, msg: &ServerSGM, conn: &mut Connection) -> (r: Res<
    (),
>)
    requires
        old(state)@.wf(),
    ensures
        final(state)@.follows(old(state)@),
        (Turn { state: final(state)@, conn: final(conn)@, result: spec_done(r) })
            == spec_on_subject_game_msg(old(state)@, *msg, old(conn)@),
{
    let deliver = |state: &mut State, game_object: &mut GameObject, conn: &mut Connection| -> (r:
        Res<()>)
        requires
            old(state)@.wf(),
        ensures
            final(state)@.follows(old(state)@),
            final(game_object)@ == old(game_object)@,
            (Scene {
                entity: final(game_object)@,
                state: final(state)@,
                conn: final(conn)@,
                result: r,
            }) == spec_on_game_message(
                Scene {
                    entity: old(game_object)@,
                    state: old(state)@,
                    conn: old(conn)@,
                    result: Ok(()),
                },
                msg.message,
            ),
        { game_object.on_game_message(&msg.message, state, conn) };
    state.with_game_object(msg.subject_id, conn, deliver)
}

/// Handles a position update: the new frame stats are put to the session's entity as a
/// mutating query, and the entity's update snapshot goes to every client.
pub fn on_position_update(
    state: &mut State,
    msg: &PositionUpdate,
    acc_info: &AccountInfo,
    conn: &mut Connection,
) -> (r: Res<()>)
    requires
        old(state)@.wf(),
    ensures
        final(state)@.follows(old(state)@),
        (Turn { state: final(state)@, conn: final(conn)@, result: spec_done(r) })
            == spec_on_position_update(old(state)@, *msg, acc_info@, old(conn)@),
{
    let frame_stats = msg.frame_stats;
    let update = |state: &mut State, game_object: &mut GameObject, conn: &mut Connection| -> (r:
        Res<()>)
        requires
            old(state)@.wf(),
        ensures
            final(state)@.follows(old(state)@),
            final(game_object)@.same_identity(old(game_object)@),
            (Scene {
                entity: final(game_object)@,
                state: final(state)@,
                conn: final(conn)@,
                result: r,
            }) == spec_run_service_mut(
                Scene {
                    entity: old(game_object)@,
                    state: old(state)@,
                    conn: old(conn)@,
                    result: Ok(()),
                },
                GameObjectServiceMut::SetFrameStats(frame_stats),
            ),
        {
            game_object.run_service_mut(
                &GameObjectServiceMut::SetFrameStats(frame_stats),
                state,
                conn,
            )
        };
    state.with_char(acc_info, conn, update)
}

/// Handles a request to check a text: nothing in it is objected to.
pub fn on_string_check(_state: &State, msg: &StringCheck, conn: &mut Connection) -> (r: Res<()>)
    ensures
        final(conn)@ == old(conn)@.send(OutMessageView::ChatModerationString(spec_moderation(*msg))),
        r == old(conn)@.attempt(),
{
    let resp = ChatModerationString {
        request_id: msg.request_id,
        chat_mode: msg.chat_mode,
        whisper_name: "",
    };
    conn.send(OutMessage::ChatModerationString(resp))
}

} // verus!
