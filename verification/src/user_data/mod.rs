//! The records that the service keeps for a player and sends to the game
//! client.

use crate::text::{hex_value, is_hyphenated, literal_uuid, strip_hyphens, uuid_text_value};
use vstd::prelude::*;

pub mod backpack;
pub mod dungeon;
pub mod quest;

verus! {

broadcast use vstd::string::group_string_axioms;

/// The free-form data of a character. Each field holds a JSON document as
/// its text.
#[derive(Debug)]
pub struct CompleteCharacterData {
    pub customization: String,
    pub new_flags: String,
    pub dialog: String,
}

impl Default for CompleteCharacterData {
    /// Three empty JSON objects.
    fn default() -> (r: Self)
        ensures
            r.customization@ == "{}"@,
            r.new_flags@ == "{}"@,
            r.dialog@ == "{}"@,
    {
        CompleteCharacterData {
            customization: "{}".to_string(),
            new_flags: "{}".to_string(),
            dialog: "{}".to_string(),
        }
    }
}

#[derive(Clone, Copy, Debug)]
pub struct CharacterChallengeSeason {
    pub current_session_id: u128,
    pub rank: i64,
    pub rank_rewarded: i64,
    pub points: i64,
    pub season_year: u64,
    pub premium: bool,
}

/// A character, as sent to the client (also without its id on the initial
/// sync).
#[derive(Debug)]
pub struct CompleteCharacter {
    pub name: String,
    pub tag_id: String,
    pub version: u64,
    pub level: u16,
    pub experience: u64,
    pub maximum_abyss_level_reached: u16,
    pub current_quest_dungeon: Option<()>,
    pub last_jobs_reset_time: u64,
    pub inventory_level: u16,
    pub stamina_attribute_points: u32,
    pub magicka_attribute_points: u32,
    pub challenge_season: CharacterChallengeSeason,
    pub last_guild_exchange_request_time: u64,
    pub last_guild_exchange_donation_time: u64,
    pub guild_exchange_donation_count: i64,
    pub pvp_chest_meter: i64,
    pub pvp_winning_streak: i64,
    pub pvp_exception_easier_match_remaining: i64,
    pub pvp_exception_harder_match_remaining: i64,
    pub matchmaking_pvp_trophies: i64,
    pub pvp_trophies: i64,
    pub highest_arena_reached: u64,
    pub highest_level_arena_reached: u64,
    pub number_pvp_match_played: i64,
    pub trophy_count_modified: i64,
    pub pvp_season_id: u128,
    pub job_difficulty_cycle_index: i64,
    pub validation_flags: u32,
    pub treasury_level: u32,
    pub name_validated: bool,
    pub avatar_icon_id: Option<u128>,
}

/// The id of the challenge season that new characters start in.
pub open spec fn starting_challenge_session() -> u128 {
    0x3d336fe7be6046a1b88b540f3ad5efa2u128
}

/// Whether `c` is the character that a new player starts with: no name,
/// tag `1234`, level 1, in the starting challenge season, and so on.
pub open spec fn is_new_character(c: CompleteCharacter) -> bool {
    &&& c.name@ == Seq::<char>::empty()
    &&& is_new_character_but_name(c)
}

/// Whether `c` is the character that a new player starts with, but for its
/// name.
pub open spec fn is_new_character_but_name(c: CompleteCharacter) -> bool {
    &&& c.tag_id@ == "1234"@
    &&& c.version == 1
    &&& c.level == 1
    &&& c.experience == 1
    &&& c.maximum_abyss_level_reached == 0
    &&& c.current_quest_dungeon is None
    &&& c.last_jobs_reset_time == 0
    &&& c.inventory_level == 0
    &&& c.stamina_attribute_points == 0
    &&& c.magicka_attribute_points == 0
    &&& c.challenge_season == CharacterChallengeSeason {
        current_session_id: starting_challenge_session(),
        rank: 1,
        rank_rewarded: 0,
        points: 0,
        season_year: 2026,
        premium: false,
    }
    &&& c.last_guild_exchange_request_time == 0
    &&& c.last_guild_exchange_donation_time == 0
    &&& c.guild_exchange_donation_count == 0
    &&& c.pvp_chest_meter == 0
    &&& c.pvp_winning_streak == 0
    &&& c.pvp_exception_easier_match_remaining == 0
    &&& c.pvp_exception_harder_match_remaining == 0
    &&& c.matchmaking_pvp_trophies == 0
    &&& c.pvp_trophies == 0
    &&& c.highest_arena_reached == 1
    &&& c.highest_level_arena_reached == 1
    &&& c.number_pvp_match_played == 0
    &&& c.trophy_count_modified == 0
    &&& c.pvp_season_id == 0
    &&& c.job_difficulty_cycle_index == 0
    &&& c.validation_flags == 1
    &&& c.treasury_level == 0
    &&& c.name_validated
    &&& c.avatar_icon_id is None
}

/// A new character stands at the start of the game: level 1 with one point
/// of experience, no progress in the abyss, the guild exchange or the arena
/// beyond the first arena, no attribute points, the validated tag `1234`,
/// and the 2026 challenge season `3d336fe7-be60-46a1-b88b-540f3ad5efa2` at
/// rank 1 with no points, nothing rewarded and no premium pass.
pub proof fn lemma_new_character_starts_the_game(c: CompleteCharacter)
    requires
        is_new_character_but_name(c),
    ensures
        c.tag_id@ == "1234"@,
        c.version == 1 && c.level == 1 && c.experience == 1,
        c.maximum_abyss_level_reached == 0 && c.current_quest_dungeon is None,
        c.last_jobs_reset_time == 0 && c.inventory_level == 0,
        c.stamina_attribute_points == 0 && c.magicka_attribute_points == 0,
        c.challenge_season.current_session_id == 0x3d336fe7_be60_46a1_b88b_540f3ad5efa2u128,
        c.challenge_season.rank == 1 && c.challenge_season.rank_rewarded == 0,
        c.challenge_season.points == 0 && c.challenge_season.season_year == 2026,
        !c.challenge_season.premium,
        c.last_guild_exchange_request_time == 0 && c.last_guild_exchange_donation_time == 0,
        c.guild_exchange_donation_count == 0,
        c.pvp_chest_meter == 0 && c.pvp_winning_streak == 0,
        c.pvp_exception_easier_match_remaining == 0 && c.pvp_exception_harder_match_remaining == 0,
        c.matchmaking_pvp_trophies == 0 && c.pvp_trophies == 0,
        c.highest_arena_reached == 1 && c.highest_level_arena_reached == 1,
        c.number_pvp_match_played == 0 && c.trophy_count_modified == 0,
        c.pvp_season_id == 0 && c.job_difficulty_cycle_index == 0,
        c.validation_flags == 1 && c.treasury_level == 0,
        c.name_validated && c.avatar_icon_id is None,
{
}

impl Default for CompleteCharacter {
    fn default() -> (r: Self)
        ensures
            is_new_character(r),
            !r.challenge_season.premium,
            r.challenge_season.rank == 1,
            r.challenge_season.season_year == 2026,
    {
        let session_text = "3d336fe7-be60-46a1-b88b-540f3ad5efa2";
        proof {
            reveal_strlit("3d336fe7-be60-46a1-b88b-540f3ad5efa2");
            reveal_with_fuel(hex_value, 33);
            assert(is_hyphenated(session_text@));
            assert(hex_value(strip_hyphens(session_text@)) == starting_challenge_session());
        }
        let current_session_id = literal_uuid(session_text);
        CompleteCharacter {
            name: String::new(),
            tag_id: "1234".to_string(),
            version: 1,
            level: 1,
            experience: 1,
            maximum_abyss_level_reached: 0,
            current_quest_dungeon: None,
            last_jobs_reset_time: 0,
            inventory_level: 0,
            stamina_attribute_points: 0,
            magicka_attribute_points: 0,
            challenge_season: CharacterChallengeSeason {
                current_session_id,
                rank: 1,
                rank_rewarded: 0,
                points: 0,
                season_year: 2026,
                premium: false,
            },
            last_guild_exchange_request_time: 0,
            last_guild_exchange_donation_time: 0,
            guild_exchange_donation_count: 0,
            pvp_chest_meter: 0,
            pvp_winning_streak: 0,
            pvp_exception_easier_match_remaining: 0,
            pvp_exception_harder_match_remaining: 0,
            matchmaking_pvp_trophies: 0,
            pvp_trophies: 0,
            highest_arena_reached: 1,
            highest_level_arena_reached: 1,
            number_pvp_match_played: 0,
            trophy_count_modified: 0,
            pvp_season_id: 0,
            job_difficulty_cycle_index: 0,
            validation_flags: 1,
            treasury_level: 0,
            name_validated: true,
            avatar_icon_id: None,
        }
    }
}

/// A character with its id, without its data.
#[derive(Debug)]
pub struct CompleteCharacterWithIdWithoutData {
    pub id: u128,
    pub character: CompleteCharacter,
}

/// A character with its id and its data.
#[derive(Debug)]
pub struct CompleteCharacterWithIdAndData {
    pub data: CompleteCharacterData,
    pub id: u128,
    pub character: CompleteCharacter,
}

/// A player account: the Google Play device ids it was used from. No
/// device id occurs twice.
#[derive(Debug)]
pub struct UserAccount {
    pub gp_deviceids: Vec<String>,
}

/// The device ids of an account, as a set of texts.
pub open spec fn device_ids(ids: Seq<String>) -> Set<Seq<char>> {
    ids.map_values(|s: String| s@).to_set()
}

impl UserAccount {
    /// Whether no device id occurs twice.
    pub open spec fn well_formed(&self) -> bool {
        self.gp_deviceids@.map_values(|s: String| s@).no_duplicates()
    }

    /// A new account with no device id.
    pub fn new_random() -> (r: Self)
        ensures
            r.well_formed(),
            r.gp_deviceids@.len() == 0,
    {
        let r = UserAccount { gp_deviceids: Vec::new() };
        assert(r.gp_deviceids@.map_values(|s: String| s@) =~= Seq::<Seq<char>>::empty());
        r
    }
}

/// Data that the client sends and gets back as base64 text.
#[derive(Debug)]
pub struct B64EncodedData {
    pub b64: String,
}

} // verus!
