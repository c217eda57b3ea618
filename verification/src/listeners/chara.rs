//! Handlers for choosing, creating and deleting characters.
//!
//! Characters live in storage, which the core cannot reach. A handler that needs storage
//! returns the request; the matching `_reply` handler takes the outcome and answers the
//! client.
use vstd::prelude::*;
use vstd::string::*;
use crate::connection::{Connection, ConnectionView};
use crate::error::{Error, Res};
use crate::ids::{Partition, BITS_PERSISTENT};
use crate::math::Vector3;
use crate::messages::{
    CharListChar, CharListCharView, CharacterCreateRequest, CharacterCreateResponse,
    CharacterDeleteRequest, CharacterDeleteResponse, CharacterListResponse,
    CharacterListResponseView, CharacterLoginRequest, InstanceType, LoadStaticZone, OutMessage,
    OutMessageView, Pending, PendingView, ZoneId,
};
use crate::models::{Character, CharacterView};
use crate::state::{AccountInfo, AccountInfoView, Diagnostic, State, StateView};
use super::Turn;

verus! {

/// The map that every character enters.
pub const START_MAP: u16 = 1100;

/// The checksum of that map.
pub const START_MAP_CHECKSUM: u32 = 0x4952_5511;

/// Stored characters, as mathematical values.
pub open spec fn rows_view(chars: Seq<Character>) -> Seq<CharacterView> {
    Seq::new(chars.len(), |i: int| chars[i]@)
}

/// The object identifier of the character that storage files under `id`.
pub open spec fn spec_char_obj_id(id: i32) -> u64 {
    (id as u64) | BITS_PERSISTENT
}

/// The key under which storage files the character with the object identifier `obj_id`.
pub open spec fn spec_char_key(obj_id: u64) -> i32 {
    obj_id as i32
}

/// A stored character, as the character list shows it.
pub open spec fn spec_char_list_char(chara: CharacterView) -> CharListCharView {
    CharListCharView {
        obj_id: spec_char_obj_id(chara.id),
        char_name: chara.name,
        pending_name: "",
        requires_rename: false,
        is_free_trial: false,
        torso_color: chara.torso_color as u32,
        legs_color: chara.legs_color as u32,
        hair_style: chara.hair_style as u32,
        hair_color: chara.hair_color as u32,
        eyebrows_style: chara.eyebrows_style as u32,
        eyes_style: chara.eyes_style as u32,
        mouth_style: chara.mouth_style as u32,
        last_location: ZoneId {
            map_id: chara.world_zone as u16,
            instance_id: chara.world_instance as u16,
            clone_id: chara.world_clone as u32,
        },
    }
}

/// The character list for the stored characters `rows`: one entry per row, in the order of
/// the rows, none selected.
pub open spec fn spec_char_list(rows: Seq<CharacterView>) -> CharacterListResponseView {
    CharacterListResponseView {
        selected_char: 0,
        chars: Seq::new(rows.len(), |i: int| spec_char_list_char(rows[i])),
    }
}

/// The row for a character that `msg` asks for, on the account `username`, under the object
/// identifier `obj_id`. A new character is in no world yet.
pub open spec fn spec_new_char(
    obj_id: u64,
    username: Seq<char>,
    msg: CharacterCreateRequest,
) -> CharacterView {
    CharacterView {
        id: spec_char_key(obj_id),
        username,
        name: msg.char_name@,
        torso_color: msg.torso_color as i32,
        legs_color: msg.legs_color as i32,
        hair_style: msg.hair_style as i32,
        hair_color: msg.hair_color as i32,
        eyebrows_style: msg.eyebrows_style as i32,
        eyes_style: msg.eyes_style as i32,
        mouth_style: msg.mouth_style as i32,
        world_zone: 0,
        world_instance: 0,
        world_clone: 0,
    }
}

/// Where a character that logs in is sent: the public copy of the start map.
pub open spec fn spec_load_static_zone() -> LoadStaticZone {
    LoadStaticZone {
        zone_id: ZoneId { map_id: START_MAP, instance_id: 0, clone_id: 0 },
        map_checksum: START_MAP_CHECKSUM,
        player_position: Vector3::spec_zero(),
        instance_type: InstanceType::Public,
    }
}

/// The turn that asks storage for the characters of the account `username`.
pub open spec fn spec_on_char_list_req(
    state: StateView,
    acc: AccountInfoView,
    conn: ConnectionView,
) -> Turn {
    Turn { state, conn, result: Ok(PendingView::LoadCharacters { username: acc.username }) }
}

/// The connection after the character list for `rows` was sent.
pub open spec fn spec_on_char_list_reply(
    rows: Seq<CharacterView>,
    conn: ConnectionView,
) -> ConnectionView {
    conn.send(OutMessageView::CharacterListResponse(spec_char_list(rows)))
}

/// The turn that handles a request for a new character: a persistent identifier is used up
/// for it, and storage is asked to save the row. Where no persistent identifier is left that
/// storage can file, the client is told of a failure and nothing else happens.
pub open spec fn spec_on_char_create_req(
    state: StateView,
    msg: CharacterCreateRequest,
    acc: AccountInfoView,
    conn: ConnectionView,
) -> Turn {
    if state.ids.spec_storable_left() <= 0 {
        Turn {
            state,
            conn: conn.send(
                OutMessageView::CharacterCreateResponse(CharacterCreateResponse::GeneralFailure),
            ),
            result: match conn.attempt() {
                Ok(_) => Err(Error::IdSpaceExhausted),
                Err(e) => Err(e),
            },
        }
    } else {
        Turn {
            state: StateView { ids: state.ids.spec_advance(Partition::Persistent), ..state },
            conn,
            result: Ok(
                PendingView::InsertCharacter {
                    row: spec_new_char(
                        state.ids.spec_next(Partition::Persistent),
                        acc.username,
                        msg,
                    ),
                },
            ),
        }
    }
}

/// The turn that handles storage's answer to a request to save a character of the account
/// `username`. A saved character is confirmed, and storage is asked for the account's
/// characters. A failure is noted and reported to the client.
pub open spec fn spec_on_char_create_reply(
    state: StateView,
    username: Seq<char>,
    inserted: bool,
    conn: ConnectionView,
) -> Turn {
    if inserted {
        Turn {
            state,
            conn: conn.send(
                OutMessageView::CharacterCreateResponse(CharacterCreateResponse::Success),
            ),
            result: match conn.attempt() {
                Ok(_) => Ok(PendingView::LoadCharacters { username }),
                Err(e) => Err(e),
            },
        }
    } else {
        Turn {
            state: state.logged(Diagnostic::CharacterNotSaved),
            conn: conn.send(
                OutMessageView::CharacterCreateResponse(CharacterCreateResponse::GeneralFailure),
            ),
            result: match conn.attempt() {
                Ok(_) => Err(Error::Storage),
                Err(e) => Err(e),
            },
        }
    }
}

/// The turn that asks storage to delete a character of the account `username`.
pub open spec fn spec_on_char_del_req(
    state: StateView,
    msg: CharacterDeleteRequest,
    acc: AccountInfoView,
    conn: ConnectionView,
) -> Turn {
    Turn {
        state,
        conn,
        result: Ok(
            PendingView::DeleteCharacter {
                username: acc.username,
                char_id: spec_char_key(msg.char_id),
            },
        ),
    }
}

/// The turn that handles storage's answer to a request to delete the character `char_id`:
/// the client is told the outcome, and a failure is noted.
pub open spec fn spec_on_char_del_reply(
    state: StateView,
    char_id: i32,
    success: bool,
    conn: ConnectionView,
) -> Turn {
    Turn {
        state: if success {
            state
        } else {
            state.logged(Diagnostic::CharacterNotDeleted(char_id))
        },
        conn: conn.send(
            OutMessageView::CharacterDeleteResponse(CharacterDeleteResponse { success }),
        ),
        result: match conn.attempt() {
            Ok(_) => Ok(PendingView::Nothing),
            Err(e) => Err(e),
        },
    }
}

/// The key of a new character round-trips: the character list shows the character under the
/// identifier that was issued for it.
pub proof fn lemma_char_key_round_trip(obj_id: u64)
    requires
        crate::ids::is_storable(obj_id),
    ensures
        spec_char_obj_id(spec_char_key(obj_id)) == obj_id,
        spec_char_key(obj_id) > 0,
{
    assert(0x1000_0000_0000_0000u64 < obj_id && obj_id <= 0x1000_0000_7FFF_FFFFu64 ==> (((obj_id
        as i32) as u64) | 0x1000_0000_0000_0000u64) == obj_id && (obj_id as i32) > 0)
        by (bit_vector);
}

/// A character that is created is filed under the key of the identifier that was issued for
/// it, and the character list shows it under that identifier again.
pub proof fn lemma_new_character_keeps_its_identifier(
    state: StateView,
    msg: CharacterCreateRequest,
    acc: AccountInfoView,
    conn: ConnectionView,
)
    requires
        state.wf(),
        state.ids.spec_storable_left() > 0,
    ensures
        spec_on_char_create_req(state, msg, acc, conn).result is Ok,
        spec_on_char_create_req(state, msg, acc, conn).result->Ok_0 is InsertCharacter,
        spec_char_list_char(
            spec_on_char_create_req(state, msg, acc, conn).result->Ok_0->row,
        ).obj_id == state.ids.spec_next(Partition::Persistent),
        spec_on_char_create_req(state, msg, acc, conn).state.ids.issued(
            state.ids.spec_next(Partition::Persistent),
        ),
        !state.ids.issued(state.ids.spec_next(Partition::Persistent)),
{
    lemma_char_key_round_trip(state.ids.spec_next(Partition::Persistent));
}

/// A stored character, as the character list shows it.
pub fn char_list_char(chara: &Character) -> (entry: CharListChar)
    ensures
        entry@ == spec_char_list_char(chara@),
{
    CharListChar {
        obj_id: (#[verifier::truncate] (chara.id as u64)) | BITS_PERSISTENT,
        char_name: chara.name.clone(),
        pending_name: "",
        requires_rename: false,
        is_free_trial: false,
        torso_color: #[verifier::truncate] (chara.torso_color as u32),
        legs_color: #[verifier::truncate] (chara.legs_color as u32),
        hair_style: #[verifier::truncate] (chara.hair_style as u32),
        hair_color: #[verifier::truncate] (chara.hair_color as u32),
        eyebrows_style: #[verifier::truncate] (chara.eyebrows_style as u32),
        eyes_style: #[verifier::truncate] (chara.eyes_style as u32),
        mouth_style: #[verifier::truncate] (chara.mouth_style as u32),
        last_location: ZoneId {
            map_id: #[verifier::truncate] (chara.world_zone as u16),
            instance_id: #[verifier::truncate] (chara.world_instance as u16),
            clone_id: #[verifier::truncate] (chara.world_clone as u32),
        },
    }
}

/// Handles a request for the character list: storage is asked for the characters of the
/// session's account.
pub fn on_char_list_req(state: &State, acc_info: &AccountInfo, conn: &mut Connection) -> (r: Res<
    Pending,
>)
    ensures
        final(conn)@ == old(conn)@,
        r is Ok,
        (Turn { state: state@, conn: final(conn)@, result: Ok(r->Ok_0@) })
            == spec_on_char_list_req(state@, acc_info@, old(conn)@),
{
    Ok(Pending::LoadCharacters { username: acc_info.username().clone() })
}

/// Sends the character list for the characters that storage has loaded.
pub fn on_char_list_reply(chars: &Vec<Character>, conn: &mut Connection) -> (r: Res<()>)
    ensures
        final(conn)@ == spec_on_char_list_reply(rows_view(chars@), old(conn)@),
        r == old(conn)@.attempt(),
{
    let mut list_chars: Vec<CharListChar> = Vec::new();
    let mut i: usize = 0;
    while i < chars.len()
        invariant
            i <= chars@.len(),
            list_chars@.len() == i,
            forall|j: int| 0 <= j < i ==> (#[trigger] list_chars@[j])@ == spec_char_list_char(
                chars@[j]@,
            ),
        decreases chars@.len() - i,
    {
        list_chars.push(char_list_char(&chars[i]));
        i += 1;
    }
    let response = CharacterListResponse { selected_char: 0, chars: list_chars };
    assert(response@.chars =~= spec_char_list(rows_view(chars@)).chars);
    conn.send(OutMessage::CharacterListResponse(response))
}

/// Handles a request for a new character.
pub fn on_char_create_req(
    state: &mut State,
    msg: &CharacterCreateRequest,
    acc_info: &AccountInfo,
    conn: &mut Connection,
) -> (r: Res<Pending>)
    requires
        old(state)@.wf(),
    ensures
        final(state)@.follows(old(state)@),
        (Turn {
            state: final(state)@,
            conn: final(conn)@,
            result: match r {
                Ok(pending) => Ok(pending@),
                Err(e) => Err(e),
            },
        }) == spec_on_char_create_req(old(state)@, *msg, acc_info@, old(conn)@),
{
    if state.storable_ids_left() == 0 {
        match conn.send(OutMessage::CharacterCreateResponse(CharacterCreateResponse::GeneralFailure)) {
            Ok(_) => {
                return Err(Error::IdSpaceExhausted);
            },
            Err(e) => {
                return Err(e);
            },
        }
    }
    let obj_id = state.new_persistent_id();
    let new_char = Character {
        id: #[verifier::truncate] (obj_id as i32),
        username: acc_info.username().clone(),
        name: msg.char_name.clone(),
        torso_color: #[verifier::truncate] (msg.torso_color as i32),
        legs_color: #[verifier::truncate] (msg.legs_color as i32),
        hair_style: #[verifier::truncate] (msg.hair_style as i32),
        hair_color: #[verifier::truncate] (msg.hair_color as i32),
        eyebrows_style: #[verifier::truncate] (msg.eyebrows_style as i32),
        eyes_style: #[verifier::truncate] (msg.eyes_style as i32),
        mouth_style: #[verifier::truncate] (msg.mouth_style as i32),
        world_zone: 0,
        world_instance: 0,
        world_clone: 0,
    };
    Ok(Pending::InsertCharacter { row: new_char })
}

/// Handles storage's answer to a request to save a character of the account `username`.
pub fn on_char_create_reply(
    state: &mut State,
    username: &String,
    inserted: bool,
    conn: &mut Connection,
) -> (r: Res<Pending>)
    ensures
        (Turn {
            state: final(state)@,
            conn: final(conn)@,
            result: match r {
                Ok(pending) => Ok(pending@),
                Err(e) => Err(e),
            },
        }) == spec_on_char_create_reply(old(state)@, username@, inserted, old(conn)@),
{
    if !inserted {
        state.note(Diagnostic::CharacterNotSaved);
        match conn.send(OutMessage::CharacterCreateResponse(CharacterCreateResponse::GeneralFailure)) {
            Ok(_) => {
                return Err(Error::Storage);
            },
            Err(e) => {
                return Err(e);
            },
        }
    }
    match conn.send(OutMessage::CharacterCreateResponse(CharacterCreateResponse::Success)) {
        Ok(_) => Ok(Pending::LoadCharacters { username: username.clone() }),
        Err(e) => Err(e),
    }
}

/// Handles a character's login: the client is told which world to load.
pub fn on_char_login_req(
    _state: &State,
    _msg: &CharacterLoginRequest,
    _acc_info: &AccountInfo,
    conn: &mut Connection,
) -> (r: Res<()>)
    ensures
        final(conn)@ == old(conn)@.send(OutMessageView::LoadStaticZone(spec_load_static_zone())),
        r == old(conn)@.attempt(),
{
    let lsz = LoadStaticZone {
        zone_id: ZoneId { map_id: START_MAP, instance_id: 0, clone_id: 0 },
        map_checksum: START_MAP_CHECKSUM,
        player_position: Vector3::zero(),
        instance_type: InstanceType::Public,
    };
    conn.send(OutMessage::LoadStaticZone(lsz))
}

/// Handles a request to delete a character: storage is asked to delete it.
pub fn on_char_del_req(
    state: &State,
    msg: &CharacterDeleteRequest,
    acc_info: &AccountInfo,
    conn: &mut Connection,
) -> (r: Res<Pending>)
    ensures
        final(conn)@ == old(conn)@,
        r is Ok,
        (Turn { state: state@, conn: final(conn)@, result: Ok(r->Ok_0@) }) == spec_on_char_del_req(
            state@,
            *msg,
            acc_info@,
            old(conn)@,
        ),
{
    Ok(
        Pending::DeleteCharacter {
            username: acc_info.username().clone(),
            char_id: #[verifier::truncate] (msg.char_id as i32),
        },
    )
}

/// Handles storage's answer to a request to delete the character `char_id`.
pub fn on_char_del_reply(state: &mut State, char_id: i32, success: bool, conn: &mut Connection) -> (r:
    Res<Pending>)
    ensures
        (Turn {
            state: final(state)@,
            conn: final(conn)@,
            result: match r {
                Ok(pending) => Ok(pending@),
                Err(e) => Err(e),
            },
        }) == spec_on_char_del_reply(old(state)@, char_id, success, old(conn)@),
{
    if !success {
        state.note(Diagnostic::CharacterNotDeleted(char_id));
    }
    match conn.send(OutMessage::CharacterDeleteResponse(CharacterDeleteResponse { success })) {
        Ok(_) => Ok(Pending::Nothing),
        Err(e) => Err(e),
    }
}

} // verus!
