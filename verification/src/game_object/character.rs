//! The facet that makes an entity a player's character.
use vstd::prelude::*;
use vstd::string::*;
use crate::commands::{on_chat_command, spec_on_chat_command};
use crate::connection::Connection;
use crate::error::Res;
use crate::math::SpawnConfig;
use crate::messages::{ParseChatMessage, ServerGM};
use crate::state::State;
use super::{GameObject, Scene};
use crate::replica::{
    CharacterConstruction, CharacterSerialization, GameActivity, GmPvpInfo, SocialInfo,
    TransitionState,
};

verus! {

/// The facet that makes an entity a player's character. It holds no state of its own: every
/// character reports the same appearance and an empty record of achievements.
#[derive(Clone, Copy, Debug, PartialEq, Eq, Structural)]
pub struct CharacterComponent {
}

impl CharacterComponent {
    /// The component of a new entity. The spawn configuration has no bearing on it.
    pub fn new(_config: &SpawnConfig) -> (c: Self)
        ensures
            c == (CharacterComponent {}),
    {
        Self {}
    }

    /// Whether a chat line is a command: it begins with a slash.
    pub open spec fn spec_is_command(string: Seq<char>) -> bool {
        string.len() > 0 && string[0] == '/'
    }

    /// The scene after a chat line was looked at: a command is run, any other line is left
    /// alone.
    pub open spec fn spec_on_parse_chat_message(string: Seq<char>, scene: Scene) -> Scene {
        if Self::spec_is_command(string) {
            spec_on_chat_command(string, scene)
        } else {
            scene
        }
    }

    /// The scene after this component has seen a game message.
    pub open spec fn spec_on_game_message(msg: ServerGM, scene: Scene) -> Scene {
        match msg {
            ServerGM::ParseChatMessage(x) => Self::spec_on_parse_chat_message(x.string@, scene),
            _ => scene,
        }
    }

    /// Looks at a chat line that the player typed, and runs it if it is a command.
    pub fn on_parse_chat_message(
        &mut self,
        msg: &ParseChatMessage,
        game_object: &mut GameObject,
        state: &mut State,
        conn: &mut Connection,
    ) -> (r: Res<()>)
        requires
            old(state)@.wf(),
        ensures
            final(state)@.follows(old(state)@),
            *final(self) == *old(self),
            (Scene {
                entity: final(game_object)@,
                state: final(state)@,
                conn: final(conn)@,
                result: r,
            }) == Self::spec_on_parse_chat_message(
                msg.string@,
                Scene {
                    entity: old(game_object)@,
                    state: old(state)@,
                    conn: old(conn)@,
                    result: Ok(()),
                },
            ),
    {
        let string = msg.string.as_str();
        if string.unicode_len() > 0 && string.get_char(0) == '/' {
            on_chat_command(state, string, game_object, conn)
        } else {
            Ok(())
        }
    }

    /// Reacts to a game message: only a chat line concerns a character.
    pub fn on_game_message(
        &mut self,
        msg: &ServerGM,
        game_object: &mut GameObject,
        state: &mut State,
        conn: &mut Connection,
    ) -> (r: Res<()>)
        requires
            old(state)@.wf(),
        ensures
            final(state)@.follows(old(state)@),
            *final(self) == *old(self),
            (Scene {
                entity: final(game_object)@,
                state: final(state)@,
                conn: final(conn)@,
                result: r,
            }) == Self::spec_on_game_message(
                *msg,
                Scene {
                    entity: old(game_object)@,
                    state: old(state)@,
                    conn: old(conn)@,
                    result: Ok(()),
                },
            ),
    {
        match msg {
            ServerGM::ParseChatMessage(x) => self.on_parse_chat_message(
                x,
                game_object,
                state,
                conn,
            ),
            _ => Ok(()),
        }
    }

    /// The full snapshot.
    pub open spec fn spec_construction(&self) -> CharacterConstruction {
        CharacterConstruction {
            claim_code_1: None,
            claim_code_2: None,
            claim_code_3: None,
            claim_code_4: None,
            hair_color: 11,
            hair_style: 6,
            torso_color: 1,
            legs_color: 6,
            torso_decal: 24,
            eyebrows_style: 38,
            eyes_style: 22,
            mouth_style: 24,
            account_id: 104116,
            last_logout: 0,
            prop_mod_last_display_time: 0,
            u_score: 0,
            is_free_trial: false,
            total_currency_collected: 0,
            total_bricks_collected: 0,
            total_smashables_smashed: 0,
            total_quickbuilds_completed: 0,
            total_enemies_smashed: 0,
            total_rockets_used: 0,
            total_missions_completed: 0,
            total_pets_tamed: 0,
            total_imagination_powerups_collected: 0,
            total_life_powerups_collected: 0,
            total_armor_powerups_collected: 0,
            total_distance_traveled: 0,
            times_smashed_count: 0,
            total_damage_taken: 0,
            total_damage_healed: 0,
            total_armor_repaired: 0,
            total_imagination_restored: 0,
            total_imagination_used: 0,
            total_distance_driven: 0,
            total_time_airborne_in_a_race_car: 0,
            total_racing_imagination_powerups_collected: 0,
            total_racing_imagination_crates_smashed: 0,
            total_racing_car_boosts_activated: 0,
            total_racing_wrecks: 0,
            total_racing_smashables_smashed: 0,
            total_races_finished: 0,
            total_first_place_race_finishes: 0,
            transition_state: TransitionState::Stationary,
            gm_pvp_info: Some(
                GmPvpInfo {
                    pvp_enabled: false,
                    is_gm: false,
                    gm_level: 0,
                    editor_enabled: false,
                    editor_level: 0,
                },
            ),
            current_activity: Some(GameActivity::Idle),
            social_info: Some(
                SocialInfo { guild_id: 0, guild_name: "", is_lego_club_member: false },
            ),
        }
    }

    /// The update snapshot.
    pub open spec fn spec_serialization(&self) -> CharacterSerialization {
        CharacterSerialization { gm_pvp_info: None, current_activity: None, social_info: None }
    }

    /// The full snapshot.
    pub fn make_construction(&self) -> (r: CharacterConstruction)
        ensures
            r == self.spec_construction(),
    {
        CharacterConstruction {
            claim_code_1: None,
            claim_code_2: None,
            claim_code_3: None,
            claim_code_4: None,
            hair_color: 11,
            hair_style: 6,
            torso_color: 1,
            legs_color: 6,
            torso_decal: 24,
            eyebrows_style: 38,
            eyes_style: 22,
            mouth_style: 24,
            account_id: 104116,
            last_logout: 0,
            prop_mod_last_display_time: 0,
            u_score: 0,
            is_free_trial: false,
            total_currency_collected: 0,
            total_bricks_collected: 0,
            total_smashables_smashed: 0,
            total_quickbuilds_completed: 0,
            total_enemies_smashed: 0,
            total_rockets_used: 0,
            total_missions_completed: 0,
            total_pets_tamed: 0,
            total_imagination_powerups_collected: 0,
            total_life_powerups_collected: 0,
            total_armor_powerups_collected: 0,
            total_distance_traveled: 0,
            times_smashed_count: 0,
            total_damage_taken: 0,
            total_damage_healed: 0,
            total_armor_repaired: 0,
            total_imagination_restored: 0,
            total_imagination_used: 0,
            total_distance_driven: 0,
            total_time_airborne_in_a_race_car: 0,
            total_racing_imagination_powerups_collected: 0,
            total_racing_imagination_crates_smashed: 0,
            total_racing_car_boosts_activated: 0,
            total_racing_wrecks: 0,
            total_racing_smashables_smashed: 0,
            total_races_finished: 0,
            total_first_place_race_finishes: 0,
            transition_state: TransitionState::Stationary,
            gm_pvp_info: Some(
                GmPvpInfo {
                    pvp_enabled: false,
                    is_gm: false,
                    gm_level: 0,
                    editor_enabled: false,
                    editor_level: 0,
                },
            ),
            current_activity: Some(GameActivity::Idle),
            social_info: Some(
                SocialInfo { guild_id: 0, guild_name: "", is_lego_club_member: false },
            ),
        }
    }

    /// The update snapshot.
    pub fn make_serialization(&self) -> (r: CharacterSerialization)
        ensures
            r == self.spec_serialization(),
    {
        CharacterSerialization { gm_pvp_info: None, current_activity: None, social_info: None }
    }
}

} // verus!
