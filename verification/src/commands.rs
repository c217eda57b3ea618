//! Chat commands: lines of chat that begin with a slash.
//!
//! A command is the first word of the line without its slash; the words after it are its
//! arguments. A command works on the entity of the player who typed it, through the same
//! queries that are open to every caller. A command that is given the wrong number of
//! arguments, or an argument that is no number, does nothing.
use vstd::prelude::*;
use vstd::string::*;
use crate::connection::{Connection, ConnectionView};
use crate::error::{Error, Res};
use crate::game_object::{spec_run_service_mut, GameObject, GameObjectView, Scene};
use crate::math::{Quaternion, Single, SpawnConfig, Vector3};
use crate::messages::{
    ChatChannel, ClientChatMessage, ClientChatMessageView, ClientGM, OutMessage, OutMessageView,
    SetJetPackMode, UiArg, UiMessageServerToSingleClient, UiValue,
};
use crate::services::{AddItem, GameObjectService, GameObjectServiceMut, GetPosition, GetRotation};
use crate::state::State;
use crate::text::{parse_u32, spec_parse_u32, spec_words, spells, words, words_view};

verus! {

/// Encoding of 20, the speed of a jetpack.
pub const TWENTY_BITS: u32 = 0x41A0_0000;

/// Encoding of 30, the top speed of a jetpack.
pub const THIRTY_BITS: u32 = 0x41F0_0000;

/// Encoding of 1.5, the vertical speed of a jetpack.
pub const ONE_AND_A_HALF_BITS: u32 = 0x3FC0_0000;

/// What an unknown command is answered with.
pub const UNKNOWN_COMMAND: &'static str = "Unknown command.";

/// What the report of a failed command begins with.
pub const ERROR_PREFIX: &'static str = "Error in command: ";

/// The message that switches a jetpack on.
pub open spec fn spec_jetpack_mode() -> SetJetPackMode {
    SetJetPackMode {
        bypass_checks: true,
        do_hover: false,
        use_jetpack: true,
        effect_id: 167,
        airspeed: Single { bits: TWENTY_BITS },
        max_airspeed: Single { bits: THIRTY_BITS },
        vert_vel: Single { bits: ONE_AND_A_HALF_BITS },
        warning_effect_id: -1i32,
    }
}

/// The message that switches a jetpack on.
pub fn jetpack_mode() -> (m: SetJetPackMode)
    ensures
        m == spec_jetpack_mode(),
{
    SetJetPackMode {
        bypass_checks: true,
        do_hover: false,
        use_jetpack: true,
        effect_id: 167,
        airspeed: Single { bits: TWENTY_BITS },
        max_airspeed: Single { bits: THIRTY_BITS },
        vert_vel: Single { bits: ONE_AND_A_HALF_BITS },
        warning_effect_id: -1i32,
    }
}

/// The message that shows the user-interface debugger.
pub open spec fn spec_ui_debugger() -> UiMessageServerToSingleClient {
    UiMessageServerToSingleClient {
        args: [Some(UiArg { key: "visible", value: UiValue::True }), None, None, None],
        message_name: "ToggleUIDebugger",
    }
}

/// The message that shows the user-interface debugger.
pub fn ui_debugger() -> (m: UiMessageServerToSingleClient)
    ensures
        m == spec_ui_debugger(),
{
    UiMessageServerToSingleClient {
        args: [Some(UiArg { key: "visible", value: UiValue::True }), None, None, None],
        message_name: "ToggleUIDebugger",
    }
}

/// The message that puts the user interface into the survival state.
pub open spec fn spec_game_state() -> UiMessageServerToSingleClient {
    UiMessageServerToSingleClient {
        args: [Some(UiArg { key: "state", value: UiValue::Text("Survival") }), None, None, None],
        message_name: "pushGameState",
    }
}

/// The message that puts the user interface into the survival state.
pub fn game_state() -> (m: UiMessageServerToSingleClient)
    ensures
        m == spec_game_state(),
{
    UiMessageServerToSingleClient {
        args: [Some(UiArg { key: "state", value: UiValue::Text("Survival") }), None, None, None],
        message_name: "pushGameState",
    }
}

/// The message that hides the survival scoreboard.
pub open spec fn spec_scoreboard_hidden() -> UiMessageServerToSingleClient {
    UiMessageServerToSingleClient {
        args: [Some(UiArg { key: "visible", value: UiValue::False }), None, None, None],
        message_name: "ToggleSurvivalScoreboard",
    }
}

/// The message that hides the survival scoreboard.
pub fn scoreboard_hidden() -> (m: UiMessageServerToSingleClient)
    ensures
        m == spec_scoreboard_hidden(),
{
    UiMessageServerToSingleClient {
        args: [Some(UiArg { key: "visible", value: UiValue::False }), None, None, None],
        message_name: "ToggleSurvivalScoreboard",
    }
}

/// The message that shows the survival scoreboard.
pub open spec fn spec_scoreboard_shown() -> UiMessageServerToSingleClient {
    UiMessageServerToSingleClient {
        args: [Some(UiArg { key: "visible", value: UiValue::True }), None, None, None],
        message_name: "ToggleSurvivalScoreboard",
    }
}

/// The message that shows the survival scoreboard.
pub fn scoreboard_shown() -> (m: UiMessageServerToSingleClient)
    ensures
        m == spec_scoreboard_shown(),
{
    UiMessageServerToSingleClient {
        args: [Some(UiArg { key: "visible", value: UiValue::True }), None, None, None],
        message_name: "ToggleSurvivalScoreboard",
    }
}

/// The message that fills the survival scoreboard.
pub open spec fn spec_scoreboard_update() -> UiMessageServerToSingleClient {
    UiMessageServerToSingleClient {
        args: [
            Some(UiArg { key: "iplayerName", value: UiValue::Text("Allies") }),
            Some(UiArg { key: "itime", value: UiValue::Text("200") }),
            Some(UiArg { key: "inextbestname", value: UiValue::Text("Enemies") }),
            Some(UiArg { key: "inextbesttime", value: UiValue::Text("321") }),
        ],
        message_name: "UpdateSurvivalScoreboard",
    }
}

/// The message that fills the survival scoreboard.
pub fn scoreboard_update() -> (m: UiMessageServerToSingleClient)
    ensures
        m == spec_scoreboard_update(),
{
    UiMessageServerToSingleClient {
        args: [
            Some(UiArg { key: "iplayerName", value: UiValue::Text("Allies") }),
            Some(UiArg { key: "itime", value: UiValue::Text("200") }),
            Some(UiArg { key: "inextbestname", value: UiValue::Text("Enemies") }),
            Some(UiArg { key: "inextbesttime", value: UiValue::Text("321") }),
        ],
        message_name: "UpdateSurvivalScoreboard",
    }
}

/// The commands.
#[derive(Clone, Copy, Debug, PartialEq, Eq, Structural)]
pub enum Command {
    AddItem,
    GameState,
    Jetpack,
    UiDebug,
    Toggle,
    Spawn,
    Dance,
    Unknown,
}

/// The command that the first word of a line names, the slash not counted.
pub open spec fn spec_command(word: Seq<char>) -> Command {
    let name = word.skip(1);
    if word.len() < 1 {
        Command::Unknown
    } else if name == "additem"@ {
        Command::AddItem
    } else if name == "gamestate"@ {
        Command::GameState
    } else if name == "jetpack"@ {
        Command::Jetpack
    } else if name == "uidebug"@ {
        Command::UiDebug
    } else if name == "toggle"@ {
        Command::Toggle
    } else if name == "spawn"@ {
        Command::Spawn
    } else if name == "dance"@ {
        Command::Dance
    } else {
        Command::Unknown
    }
}

/// The command that the first word of a line names, the slash not counted.
pub fn command(word: &Vec<char>) -> (c: Command)
    ensures
        c == spec_command(word@),
{
    if spells(word, 1, "additem") {
        Command::AddItem
    } else if spells(word, 1, "gamestate") {
        Command::GameState
    } else if spells(word, 1, "jetpack") {
        Command::Jetpack
    } else if spells(word, 1, "uidebug") {
        Command::UiDebug
    } else if spells(word, 1, "toggle") {
        Command::Toggle
    } else if spells(word, 1, "spawn") {
        Command::Spawn
    } else if spells(word, 1, "dance") {
        Command::Dance
    } else {
        Command::Unknown
    }
}

/// A message of the system, with the given text.
pub open spec fn spec_system_message(text: Seq<char>) -> ClientChatMessageView {
    ClientChatMessageView {
        chat_channel: ChatChannel::Local,
        sender: 0,
        sender_name: "",
        source_id: 0,
        sender_gm_level: 0,
        message: text,
    }
}

/// A message of the system, with the given text.
pub fn system_message(string: String) -> (m: ClientChatMessage)
    ensures
        m@ == spec_system_message(string@),
{
    ClientChatMessage {
        chat_channel: ChatChannel::Local,
        sender: 0,
        sender_name: "",
        source_id: 0,
        sender_gm_level: 0,
        message: string,
    }
}

/// The scene after `message` was sent to the peer as a game message about the sender.
pub open spec fn spec_send_gm(scene: Scene, message: ClientGM) -> Scene {
    Scene {
        conn: scene.conn.send(
            OutMessageView::SubjectGameMessage(scene.entity.spec_make_sgm(message)),
        ),
        result: scene.conn.attempt(),
        ..scene
    }
}

/// `/additem <template>`: one item of the template is added to the sender's inventory.
pub open spec fn spec_add_item_cmd(args: Seq<Seq<char>>, scene: Scene) -> Scene {
    if args.len() != 2 {
        scene
    } else {
        match spec_parse_u32(args[1]) {
            Some(lot) => spec_run_service_mut(
                scene,
                GameObjectServiceMut::AddItem(AddItem { lot }),
            ),
            None => scene,
        }
    }
}

/// The connection after the three scoreboard messages about `entity` were sent: the survival
/// scoreboard is hidden, shown and filled. A closed connection takes none of the three.
pub open spec fn spec_scoreboard_sent(entity: GameObjectView, conn: ConnectionView) -> ConnectionView {
    conn.send(
        OutMessageView::SubjectGameMessage(
            entity.spec_make_sgm(ClientGM::UiMessageServerToSingleClient(spec_scoreboard_hidden())),
        ),
    ).send(
        OutMessageView::SubjectGameMessage(
            entity.spec_make_sgm(ClientGM::UiMessageServerToSingleClient(spec_scoreboard_shown())),
        ),
    ).send(
        OutMessageView::SubjectGameMessage(
            entity.spec_make_sgm(ClientGM::UiMessageServerToSingleClient(spec_scoreboard_update())),
        ),
    )
}

/// `/toggle`: the survival scoreboard is hidden, shown and filled.
pub open spec fn spec_send_toggle_scoreboard_cmd(scene: Scene) -> Scene {
    Scene {
        conn: spec_scoreboard_sent(scene.entity, scene.conn),
        result: scene.conn.attempt(),
        ..scene
    }
}

/// Where the entity says it is: the answer of its components, or the origin if none answers.
pub open spec fn spec_position_of(entity: GameObjectView) -> Vector3 {
    match entity.spec_run_service(GameObjectService::GetPosition(GetPosition(Vector3::spec_zero()))) {
        GameObjectService::GetPosition(answer) => answer.0,
        GameObjectService::GetRotation(_) => Vector3::spec_zero(),
    }
}

/// How the entity says it is turned: the answer of its components, or the zero rotation if
/// none answers.
pub open spec fn spec_rotation_of(entity: GameObjectView) -> Quaternion {
    match entity.spec_run_service(
        GameObjectService::GetRotation(GetRotation(Quaternion::spec_zero())),
    ) {
        GameObjectService::GetRotation(answer) => answer.0,
        GameObjectService::GetPosition(_) => Quaternion::spec_zero(),
    }
}

/// `/spawn <template>`: an entity of the template is spawned where the sender is, turned as
/// the sender is, and its full snapshot goes to every client.
pub open spec fn spec_spawn_cmd(args: Seq<Seq<char>>, scene: Scene) -> Scene {
    if args.len() != 2 {
        scene
    } else {
        match spec_parse_u32(args[1]) {
            None => scene,
            Some(lot) => {
                let config = SpawnConfig::spec_at(
                    spec_position_of(scene.entity),
                    spec_rotation_of(scene.entity),
                );
                let (state, spawned) = scene.state.spec_spawn(lot, &config);
                match spawned {
                    Err(e) => Scene { state, result: Err(e), ..scene },
                    Ok(obj_id) => Scene {
                        state,
                        conn: scene.conn.broadcast(
                            OutMessageView::ReplicaConstruction(
                                state.game_objects[obj_id].spec_construction(),
                            ),
                        ),
                        result: scene.conn.attempt(),
                        ..scene
                    },
                }
            },
        }
    }
}

/// The scene after the command that `args` spells has run.
pub open spec fn spec_run_command(args: Seq<Seq<char>>, scene: Scene) -> Scene {
    match spec_command(args[0]) {
        Command::AddItem => spec_add_item_cmd(args, scene),
        Command::GameState => spec_send_gm(
            scene,
            ClientGM::UiMessageServerToSingleClient(spec_game_state()),
        ),
        Command::Jetpack => spec_send_gm(scene, ClientGM::SetJetPackMode(spec_jetpack_mode())),
        Command::UiDebug => spec_send_gm(
            scene,
            ClientGM::UiMessageServerToSingleClient(spec_ui_debugger()),
        ),
        Command::Toggle => spec_send_toggle_scoreboard_cmd(scene),
        Command::Spawn => spec_spawn_cmd(args, scene),
        Command::Dance => scene,
        Command::Unknown => Scene {
            conn: scene.conn.send(
                OutMessageView::GeneralChatMessage(spec_system_message(UNKNOWN_COMMAND@)),
            ),
            result: scene.conn.attempt(),
            ..scene
        },
    }
}

/// The scene after a chat command was handled. `scene.entity` is the sender.
///
/// A line without words does nothing. A command that fails is reported to the peer in a
/// message of the system; the handling fails only if that report cannot be sent either.
#[verifier::opaque]
pub open spec fn spec_on_chat_command(string: Seq<char>, scene: Scene) -> Scene {
    let args = spec_words(string);
    if args.len() == 0 {
        scene
    } else {
        let ran = spec_run_command(args, scene);
        match ran.result {
            Ok(_) => ran,
            Err(error) => Scene {
                conn: ran.conn.send(
                    OutMessageView::GeneralChatMessage(
                        spec_system_message(ERROR_PREFIX@ + error.spec_describe()),
                    ),
                ),
                result: ran.conn.attempt(),
                ..ran
            },
        }
    }
}

/// Sends `message` to the peer as a game message about `sender`.
fn send_gm(sender: &GameObject, conn: &mut Connection, message: ClientGM) -> (r: Res<()>)
    ensures
        final(conn)@ == old(conn)@.send(
            OutMessageView::SubjectGameMessage(sender@.spec_make_sgm(message)),
        ),
        r == old(conn)@.attempt(),
{
    conn.send(OutMessage::SubjectGameMessage(sender.make_sgm(message)))
}

/// `/additem <template>`.
fn add_item_cmd(
    state: &mut State,
    sender: &mut GameObject,
    conn: &mut Connection,
    args: &Vec<Vec<char>>,
) -> (r: Res<()>)
    requires
        old(state)@.wf(),
    ensures
        final(state)@.follows(old(state)@),
        (Scene { entity: final(sender)@, state: final(state)@, conn: final(conn)@, result: r })
            == spec_add_item_cmd(
            words_view(args@),
            Scene { entity: old(sender)@, state: old(state)@, conn: old(conn)@, result: Ok(()) },
        ),
{
    if args.len() != 2 {
        return Ok(());
    }
    match parse_u32(&args[1]) {
        Some(lot) => sender.run_service_mut(
            &GameObjectServiceMut::AddItem(AddItem { lot }),
            state,
            conn,
        ),
        None => Ok(()),
    }
}

/// `/toggle`.
fn send_toggle_scoreboard_cmd(sender: &GameObject, conn: &mut Connection) -> (r: Res<()>)
    ensures
        final(conn)@ == spec_scoreboard_sent(sender@, old(conn)@),
        r == old(conn)@.attempt(),
{
    match send_gm(sender, conn, ClientGM::UiMessageServerToSingleClient(scoreboard_hidden())) {
        Ok(_) => {},
        Err(e) => {
            return Err(e);
        },
    }
    match send_gm(sender, conn, ClientGM::UiMessageServerToSingleClient(scoreboard_shown())) {
        Ok(_) => {},
        Err(e) => {
            return Err(e);
        },
    }
    send_gm(sender, conn, ClientGM::UiMessageServerToSingleClient(scoreboard_update()))
}

/// Where `sender` says it is.
fn position_of(sender: &GameObject) -> (position: Vector3)
    ensures
        position == spec_position_of(sender@),
{
    let mut get_pos = GameObjectService::GetPosition(GetPosition::default());
    sender.run_service(&mut get_pos);
    match get_pos {
        GameObjectService::GetPosition(answer) => answer.0,
        GameObjectService::GetRotation(_) => Vector3::zero(),
    }
}

/// How `sender` says it is turned.
fn rotation_of(sender: &GameObject) -> (rotation: Quaternion)
    ensures
        rotation == spec_rotation_of(sender@),
{
    let mut get_rot = GameObjectService::GetRotation(GetRotation::default());
    sender.run_service(&mut get_rot);
    match get_rot {
        GameObjectService::GetRotation(answer) => answer.0,
        GameObjectService::GetPosition(_) => Quaternion::zero(),
    }
}

/// `/spawn <template>`.
fn spawn_cmd(
    state: &mut State,
    sender: &mut GameObject,
    conn: &mut Connection,
    args: &Vec<Vec<char>>,
) -> (r: Res<()>)
    requires
        old(state)@.wf(),
    ensures
        final(state)@.follows(old(state)@),
        (Scene { entity: final(sender)@, state: final(state)@, conn: final(conn)@, result: r })
            == spec_spawn_cmd(
            words_view(args@),
            Scene { entity: old(sender)@, state: old(state)@, conn: old(conn)@, result: Ok(()) },
        ),
{
    if args.len() != 2 {
        return Ok(());
    }
    let lot = match parse_u32(&args[1]) {
        Some(lot) => lot,
        None => {
            return Ok(());
        },
    };
    let config = SpawnConfig::at(position_of(sender), rotation_of(sender));
    let obj_id = match state.spawn(lot, &config) {
        Ok(obj_id) => obj_id,
        Err(e) => {
            return Err(e);
        },
    };
    match state.game_object(obj_id) {
        Some(game_object) => {
            let replica = game_object.make_construction();
            conn.broadcast(OutMessage::ReplicaConstruction(replica))
        },
        None => Ok(()),
    }
}

/// Runs the command that `args` spells.
fn run_command(
    state: &mut State,
    sender: &mut GameObject,
    conn: &mut Connection,
    args: &Vec<Vec<char>>,
) -> (r: Res<()>)
    requires
        old(state)@.wf(),
        args@.len() > 0,
    ensures
        final(state)@.follows(old(state)@),
        (Scene { entity: final(sender)@, state: final(state)@, conn: final(conn)@, result: r })
            == spec_run_command(
            words_view(args@),
            Scene { entity: old(sender)@, state: old(state)@, conn: old(conn)@, result: Ok(()) },
        ),
{
    match command(&args[0]) {
        Command::AddItem => add_item_cmd(state, sender, conn, args),
        Command::GameState => send_gm(
            sender,
            conn,
            ClientGM::UiMessageServerToSingleClient(game_state()),
        ),
        Command::Jetpack => send_gm(sender, conn, ClientGM::SetJetPackMode(jetpack_mode())),
        Command::UiDebug => send_gm(
            sender,
            conn,
            ClientGM::UiMessageServerToSingleClient(ui_debugger()),
        ),
        Command::Toggle => send_toggle_scoreboard_cmd(sender, conn),
        Command::Spawn => spawn_cmd(state, sender, conn, args),
        Command::Dance => Ok(()),
        Command::Unknown => conn.send(
            OutMessage::GeneralChatMessage(system_message(String::from_str(UNKNOWN_COMMAND))),
        ),
    }
}

/// Handles a chat command that the player of `sender` typed.
///
/// A command that fails is reported to the peer in a message of the system. The handling
/// itself fails only if that report cannot be sent either.
pub fn on_chat_command(
    state: &mut State,
    string: &str,
    sender: &mut GameObject,
    conn: &mut Connection,
) -> (r: Res<()>)
    requires
        old(state)@.wf(),
    ensures
        final(state)@.follows(old(state)@),
        (Scene { entity: final(sender)@, state: final(state)@, conn: final(conn)@, result: r })
            == spec_on_chat_command(
            string@,
            Scene { entity: old(sender)@, state: old(state)@, conn: old(conn)@, result: Ok(()) },
        ),
{
    proof {
        reveal(spec_on_chat_command);
    }
    let args = words(string);
    if args.len() == 0 {
        return Ok(());
    }
    match run_command(state, sender, conn, &args) {
        Ok(_) => Ok(()),
        Err(error) => {
            let mut report = String::from_str(ERROR_PREFIX);
            report.append(error.describe().as_str());
            conn.send(OutMessage::GeneralChatMessage(system_message(report)))
        },
    }
}

/// A request to add an item changes no component: it uses up an identifier and tells the
/// peer.
pub proof fn lemma_add_item_leaves_components(scene: Scene, lot: u32, n: int)
    requires
        0 <= n <= scene.entity.components.len(),
    ensures
        crate::game_object::spec_offer_service_mut(
            scene,
            GameObjectServiceMut::AddItem(AddItem { lot }),
            n,
        ).entity == scene.entity,
    decreases n,
{
    let service = GameObjectServiceMut::AddItem(AddItem { lot });
    if n > 0 {
        lemma_add_item_leaves_components(scene, lot, n - 1);
        let before = crate::game_object::spec_offer_service_mut(scene, service, n - 1);
        if before.result is Ok {
            let rest = Scene { entity: before.entity.without(n - 1), ..before };
            let component = before.entity.components[n - 1];
            let (handled, after) = component.spec_run_service_mut(service, rest);
            assert(handled == component);
            assert(after.entity == rest.entity);
            assert(after.entity.with(n - 1, handled).components =~= before.entity.components);
        }
    }
}

/// A chat command leaves the sender as it was: what a command changes is the registry and
/// the connection.
pub proof fn lemma_chat_command_leaves_sender(string: Seq<char>, scene: Scene)
    ensures
        spec_on_chat_command(string, scene).entity == scene.entity,
{
    reveal(spec_on_chat_command);
    let args = spec_words(string);
    if args.len() > 0 && args.len() == 2 && spec_command(args[0]) == Command::AddItem {
        match spec_parse_u32(args[1]) {
            Some(lot) => {
                lemma_add_item_leaves_components(scene, lot, scene.entity.components.len() as int);
            },
            None => {},
        }
    }
}

} // verus!
