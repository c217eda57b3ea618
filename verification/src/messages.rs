//! The messages that the core reads and writes, already decoded.
//!
//! How a message looks on the wire is none of the core's business. These records hold what the
//! handlers read from an incoming message and what they put into an outgoing one. A text that is
//! the same in every message of its kind is a `&'static str`; a text that varies is a `String`.
use vstd::prelude::*;
use crate::ids::{Lot, ObjId};
use crate::math::{Single, Vector3};
use crate::models::{Character, CharacterView};
use crate::replica::{
    FrameStats, ReplicaConstruction, ReplicaConstructionView, ReplicaSerialization,
    ReplicaSerializationView,
};

verus! {

/// Why the server ends a connection.
#[derive(Clone, Copy, Debug, PartialEq, Eq, Structural)]
pub enum DisconnectNotify {
    UnknownServerError,
    InvalidSessionKey,
}

/// A world, and the copy of it that a player is in.
#[derive(Clone, Copy, Debug, PartialEq, Eq)]
pub struct ZoneId {
    pub map_id: u16,
    pub instance_id: u16,
    pub clone_id: u32,
}

#[derive(Clone, Copy, Debug, PartialEq, Eq)]
pub enum InstanceType {
    Public,
    Single,
    Team,
    Guild,
    Match,
}

/// Tells a client which world to load.
#[derive(Clone, Copy, Debug, PartialEq, Eq)]
pub struct LoadStaticZone {
    pub zone_id: ZoneId,
    pub map_checksum: u32,
    pub player_position: Vector3,
    pub instance_type: InstanceType,
}

/// One character in the list that a player chooses from.
#[derive(Clone, Debug, PartialEq, Eq)]
pub struct CharListChar {
    pub obj_id: ObjId,
    pub char_name: String,
    pub pending_name: &'static str,
    pub requires_rename: bool,
    pub is_free_trial: bool,
    pub torso_color: u32,
    pub legs_color: u32,
    pub hair_style: u32,
    pub hair_color: u32,
    pub eyebrows_style: u32,
    pub eyes_style: u32,
    pub mouth_style: u32,
    pub last_location: ZoneId,
}

/// The characters of an account.
#[derive(Clone, Debug, PartialEq, Eq)]
pub struct CharacterListResponse {
    pub selected_char: u8,
    pub chars: Vec<CharListChar>,
}

#[derive(Clone, Copy, Debug, PartialEq, Eq, Structural)]
pub enum CharacterCreateResponse {
    Success,
    GeneralFailure,
}

#[derive(Clone, Copy, Debug, PartialEq, Eq, Structural)]
pub struct CharacterDeleteResponse {
    pub success: bool,
}

/// Hands a client the character it plays.
#[derive(Clone, Debug, PartialEq, Eq)]
pub struct CreateCharacter {
    pub objid: ObjId,
    pub template: i32,
    pub name: String,
    pub xml_data: String,
}

/// The verdict on a text that a client wants checked: nothing in it is objected to.
#[derive(Clone, Copy, Debug, PartialEq, Eq)]
pub struct ChatModerationString {
    pub request_id: u8,
    pub chat_mode: u8,
    pub whisper_name: &'static str,
}

/// Where a chat message is heard. Only the local channel is named; any other is passed on by
/// its number.
#[derive(Clone, Copy, Debug, PartialEq, Eq)]
pub enum ChatChannel {
    Local,
    Other(u8),
}

/// A chat message as clients receive it.
#[derive(Clone, Debug, PartialEq, Eq)]
pub struct ClientChatMessage {
    pub chat_channel: ChatChannel,
    pub sender: ObjId,
    pub sender_name: &'static str,
    pub source_id: ObjId,
    pub sender_gm_level: u8,
    pub message: String,
}

#[derive(Clone, Copy, Debug, PartialEq, Eq)]
pub enum LootType {
    Unspecified,
    Chest,
    Mission,
    Mail,
    Currency,
    Achievement,
    Trade,
    Quickbuild,
    Deletion,
    Vendor,
    Activity,
    Pickup,
    Brick,
    Property,
    Moderation,
    Exhibit,
    Inventory,
    Claimcode,
    Consumption,
    Crafting,
    LevelReward,
    Relocate,
}

#[derive(Clone, Copy, Debug, PartialEq, Eq)]
pub enum InventoryType {
    Default,
    Bricks,
    TempItems,
    Models,
    TempModels,
    Behaviors,
    PropertyDeeds,
    VendorBuyback,
    Hidden,
    VaultItems,
    VaultModels,
}

/// Tells a client that an item has arrived in its inventory.
#[derive(Clone, Copy, Debug, PartialEq, Eq)]
pub struct AddItemToInventoryClientSync {
    pub bound: bool,
    pub is_boe: bool,
    pub is_bop: bool,
    pub loot_type_source: LootType,
    pub obj_template: Lot,
    pub subkey: ObjId,
    pub inv_type: InventoryType,
    pub item_count: u32,
    pub items_total: u32,
    pub new_obj_id: ObjId,
    pub flying_loot_posit: Vector3,
    pub show_flying_loot: bool,
    pub slot_id: i32,
}

/// Switches a player's jetpack on or off.
#[derive(Clone, Copy, Debug, PartialEq, Eq)]
pub struct SetJetPackMode {
    pub bypass_checks: bool,
    pub do_hover: bool,
    pub use_jetpack: bool,
    pub effect_id: i32,
    pub airspeed: Single,
    pub max_airspeed: Single,
    pub vert_vel: Single,
    pub warning_effect_id: i32,
}

/// A value in the arguments of a user-interface message.
#[derive(Clone, Copy, Debug, PartialEq, Eq)]
pub enum UiValue {
    True,
    False,
    Text(&'static str),
}

/// A named argument of a user-interface message.
#[derive(Clone, Copy, Debug, PartialEq, Eq)]
pub struct UiArg {
    pub key: &'static str,
    pub value: UiValue,
}

/// Asks a client's user interface to do something. At most four arguments go with it; the
/// unused places are `None`.
#[derive(Clone, Copy, Debug, PartialEq, Eq)]
pub struct UiMessageServerToSingleClient {
    pub args: [Option<UiArg>; 4],
    pub message_name: &'static str,
}

/// A game message from the server.
#[derive(Clone, Copy, Debug, PartialEq, Eq)]
pub enum ClientGM {
    ServerDoneLoadingAllObjects,
    PlayerReady,
    RestoreToPostLoadStats,
    AddItemToInventoryClientSync(AddItemToInventoryClientSync),
    SetJetPackMode(SetJetPackMode),
    UiMessageServerToSingleClient(UiMessageServerToSingleClient),
}

/// A game message from the server, with the entity that it is about.
#[derive(Clone, Copy, Debug, PartialEq, Eq)]
pub struct ClientSGM {
    pub subject_id: ObjId,
    pub message: ClientGM,
}

/// Everything the server sends.
#[derive(Clone, Debug, PartialEq, Eq)]
pub enum OutMessage {
    DisconnectNotify(DisconnectNotify),
    CharacterListResponse(CharacterListResponse),
    CharacterCreateResponse(CharacterCreateResponse),
    CharacterDeleteResponse(CharacterDeleteResponse),
    LoadStaticZone(LoadStaticZone),
    CreateCharacter(CreateCharacter),
    ReplicaConstruction(ReplicaConstruction),
    ReplicaSerialization(ReplicaSerialization),
    SubjectGameMessage(ClientSGM),
    ChatModerationString(ChatModerationString),
    GeneralChatMessage(ClientChatMessage),
}

/// A message on its way out: to the peer of this connection alone, or to every client.
#[derive(Clone, Debug, PartialEq, Eq)]
pub enum Outbound {
    Send(OutMessage),
    Broadcast(OutMessage),
}

/// A chat line that a player typed.
#[derive(Clone, Debug, PartialEq, Eq)]
pub struct ParseChatMessage {
    pub string: String,
}

/// A player equips an item.
#[derive(Clone, Copy, Debug, PartialEq, Eq)]
pub struct EquipInventory {
    pub item_to_equip: ObjId,
}

/// A game message from a client. Kinds that no component reacts to are `Other`.
#[derive(Clone, Debug, PartialEq, Eq)]
pub enum ServerGM {
    ParseChatMessage(ParseChatMessage),
    EquipInventory(EquipInventory),
    Other,
}

/// A game message from a client, with the entity that it is addressed to.
#[derive(Clone, Debug, PartialEq, Eq)]
pub struct ServerSGM {
    pub subject_id: ObjId,
    pub message: ServerGM,
}

/// A client presents its credentials.
#[derive(Clone, Debug, PartialEq, Eq)]
pub struct ClientValidation {
    pub username: String,
    pub session_key: String,
}

#[derive(Clone, Debug, PartialEq, Eq)]
pub struct CharacterCreateRequest {
    pub char_name: String,
    pub torso_color: u32,
    pub legs_color: u32,
    pub hair_style: u32,
    pub hair_color: u32,
    pub eyebrows_style: u32,
    pub eyes_style: u32,
    pub mouth_style: u32,
}

#[derive(Clone, Copy, Debug, PartialEq, Eq)]
pub struct CharacterLoginRequest {
    pub char_id: ObjId,
}

#[derive(Clone, Copy, Debug, PartialEq, Eq)]
pub struct CharacterDeleteRequest {
    pub char_id: ObjId,
}

#[derive(Clone, Copy, Debug, PartialEq, Eq)]
pub struct LevelLoadComplete {
}

#[derive(Clone, Copy, Debug, PartialEq, Eq)]
pub struct PositionUpdate {
    pub frame_stats: FrameStats,
}

#[derive(Clone, Copy, Debug, PartialEq, Eq)]
pub struct StringCheck {
    pub request_id: u8,
    pub chat_mode: u8,
}

/// A chat message as a client sends it.
#[derive(Clone, Debug, PartialEq, Eq)]
pub struct ServerChatMessage {
    pub chat_channel: ChatChannel,
    pub source_id: ObjId,
    pub message: String,
}

/// A message of the world service. Every kind but `ClientValidation` is *restricted*: it is
/// only accepted from a validated session. Kinds that the server has no handler for are
/// `Other`.
#[derive(Clone, Debug, PartialEq, Eq)]
pub enum WorldMessage {
    ClientValidation(ClientValidation),
    CharacterListRequest,
    CharacterCreateRequest(CharacterCreateRequest),
    CharacterLoginRequest(CharacterLoginRequest),
    CharacterDeleteRequest(CharacterDeleteRequest),
    GeneralChatMessage(ServerChatMessage),
    SubjectGameMessage(ServerSGM),
    LevelLoadComplete(LevelLoadComplete),
    PositionUpdate(PositionUpdate),
    StringCheck(StringCheck),
    Other,
}

/// Any incoming message. The first four kinds belong to the transport: the core only says
/// that they are the transport's to answer.
#[derive(Clone, Debug, PartialEq, Eq)]
pub enum IncMessage {
    InternalPing,
    ConnectionRequest,
    NewIncomingConnection,
    Handshake,
    World(WorldMessage),
    Other,
}

/// What the credential service said about a session key.
#[derive(Clone, Debug, PartialEq, Eq)]
pub enum Verification {
    /// The service could not be reached, or did not answer.
    CallFailed,
    /// The service answered with this status code and body.
    Response { status_code: i32, body: Vec<u8> },
}

/// Work that only the surrounding program can do. A handler that needs it returns the request;
/// the program does the work and hands the outcome to [`crate::state::State::on_reply`].
#[derive(Clone, Debug, PartialEq, Eq)]
pub enum Pending {
    /// Nothing is left to do.
    Nothing,
    /// The message belongs to the transport layer, which answers it.
    Transport(TransportStep),
    /// Ask the credential service whether `session_key` is the key of `username`.
    Verify { username: String, session_key: String },
    /// Load the characters of the account `username`.
    LoadCharacters { username: String },
    /// Store a new character.
    InsertCharacter { row: Character },
    /// Delete the character `char_id` of the account `username`.
    DeleteCharacter { username: String, char_id: i32 },
}

/// Which of the transport's own exchanges an incoming message belongs to.
#[derive(Clone, Copy, Debug, PartialEq, Eq, Structural)]
pub enum TransportStep {
    InternalPing,
    ConnectionRequest,
    Handshake,
}

/// The outcome of work that was asked for with a [`Pending`] request.
#[derive(Clone, Debug, PartialEq, Eq)]
pub enum Reply {
    /// Answer to `Pending::Verify`.
    Verification(Verification),
    /// Answer to `Pending::LoadCharacters`: the rows, or `None` where storage failed.
    Characters(Option<Vec<Character>>),
    /// Answer to `Pending::InsertCharacter`: whether the row was stored.
    Inserted(bool),
    /// Answer to `Pending::DeleteCharacter`: whether the deletion went through.
    Deleted(bool),
}


/// One character of a character list, as a mathematical value.
pub struct CharListCharView {
    pub obj_id: ObjId,
    pub char_name: Seq<char>,
    pub pending_name: &'static str,
    pub requires_rename: bool,
    pub is_free_trial: bool,
    pub torso_color: u32,
    pub legs_color: u32,
    pub hair_style: u32,
    pub hair_color: u32,
    pub eyebrows_style: u32,
    pub eyes_style: u32,
    pub mouth_style: u32,
    pub last_location: ZoneId,
}

impl View for CharListChar {
    type V = CharListCharView;

    open spec fn view(&self) -> CharListCharView {
        CharListCharView {
            obj_id: self.obj_id,
            char_name: self.char_name@,
            pending_name: self.pending_name,
            requires_rename: self.requires_rename,
            is_free_trial: self.is_free_trial,
            torso_color: self.torso_color,
            legs_color: self.legs_color,
            hair_style: self.hair_style,
            hair_color: self.hair_color,
            eyebrows_style: self.eyebrows_style,
            eyes_style: self.eyes_style,
            mouth_style: self.mouth_style,
            last_location: self.last_location,
        }
    }
}

/// A character list, as a mathematical value.
pub struct CharacterListResponseView {
    pub selected_char: u8,
    pub chars: Seq<CharListCharView>,
}

impl View for CharacterListResponse {
    type V = CharacterListResponseView;

    open spec fn view(&self) -> CharacterListResponseView {
        CharacterListResponseView {
            selected_char: self.selected_char,
            chars: Seq::new(self.chars@.len(), |i: int| self.chars@[i]@),
        }
    }
}

/// A `CreateCharacter` message, as a mathematical value.
pub struct CreateCharacterView {
    pub objid: ObjId,
    pub template: i32,
    pub name: Seq<char>,
    pub xml_data: Seq<char>,
}

impl View for CreateCharacter {
    type V = CreateCharacterView;

    open spec fn view(&self) -> CreateCharacterView {
        CreateCharacterView {
            objid: self.objid,
            template: self.template,
            name: self.name@,
            xml_data: self.xml_data@,
        }
    }
}

/// A chat message to clients, as a mathematical value.
pub struct ClientChatMessageView {
    pub chat_channel: ChatChannel,
    pub sender: ObjId,
    pub sender_name: &'static str,
    pub source_id: ObjId,
    pub sender_gm_level: u8,
    pub message: Seq<char>,
}

impl View for ClientChatMessage {
    type V = ClientChatMessageView;

    open spec fn view(&self) -> ClientChatMessageView {
        ClientChatMessageView {
            chat_channel: self.chat_channel,
            sender: self.sender,
            sender_name: self.sender_name,
            source_id: self.source_id,
            sender_gm_level: self.sender_gm_level,
            message: self.message@,
        }
    }
}

/// An outgoing message, as a mathematical value.
pub enum OutMessageView {
    DisconnectNotify(DisconnectNotify),
    CharacterListResponse(CharacterListResponseView),
    CharacterCreateResponse(CharacterCreateResponse),
    CharacterDeleteResponse(CharacterDeleteResponse),
    LoadStaticZone(LoadStaticZone),
    CreateCharacter(CreateCharacterView),
    ReplicaConstruction(ReplicaConstructionView),
    ReplicaSerialization(ReplicaSerializationView),
    SubjectGameMessage(ClientSGM),
    ChatModerationString(ChatModerationString),
    GeneralChatMessage(ClientChatMessageView),
}

impl View for OutMessage {
    type V = OutMessageView;

    open spec fn view(&self) -> OutMessageView {
        match self {
            OutMessage::DisconnectNotify(m) => OutMessageView::DisconnectNotify(*m),
            OutMessage::CharacterListResponse(m) => OutMessageView::CharacterListResponse(m@),
            OutMessage::CharacterCreateResponse(m) => OutMessageView::CharacterCreateResponse(*m),
            OutMessage::CharacterDeleteResponse(m) => OutMessageView::CharacterDeleteResponse(*m),
            OutMessage::LoadStaticZone(m) => OutMessageView::LoadStaticZone(*m),
            OutMessage::CreateCharacter(m) => OutMessageView::CreateCharacter(m@),
            OutMessage::ReplicaConstruction(m) => OutMessageView::ReplicaConstruction(m@),
            OutMessage::ReplicaSerialization(m) => OutMessageView::ReplicaSerialization(m@),
            OutMessage::SubjectGameMessage(m) => OutMessageView::SubjectGameMessage(*m),
            OutMessage::ChatModerationString(m) => OutMessageView::ChatModerationString(*m),
            OutMessage::GeneralChatMessage(m) => OutMessageView::GeneralChatMessage(m@),
        }
    }
}

/// A message on its way out, as a mathematical value.
pub enum OutboundView {
    Send(OutMessageView),
    Broadcast(OutMessageView),
}

impl View for Outbound {
    type V = OutboundView;

    open spec fn view(&self) -> OutboundView {
        match self {
            Outbound::Send(m) => OutboundView::Send(m@),
            Outbound::Broadcast(m) => OutboundView::Broadcast(m@),
        }
    }
}

/// A request for outside work, as a mathematical value.
pub enum PendingView {
    Nothing,
    Transport(TransportStep),
    Verify { username: Seq<char>, session_key: Seq<char> },
    LoadCharacters { username: Seq<char> },
    InsertCharacter { row: CharacterView },
    DeleteCharacter { username: Seq<char>, char_id: i32 },
}

impl View for Pending {
    type V = PendingView;

    open spec fn view(&self) -> PendingView {
        match self {
            Pending::Nothing => PendingView::Nothing,
            Pending::Transport(step) => PendingView::Transport(*step),
            Pending::Verify { username, session_key } => PendingView::Verify {
                username: username@,
                session_key: session_key@,
            },
            Pending::LoadCharacters { username } => PendingView::LoadCharacters {
                username: username@,
            },
            Pending::InsertCharacter { row } => PendingView::InsertCharacter { row: row@ },
            Pending::DeleteCharacter { username, char_id } => PendingView::DeleteCharacter {
                username: username@,
                char_id: *char_id,
            },
        }
    }
}

} // verus!
