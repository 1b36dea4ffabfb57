//! The character record as the server persists it, and player accounts
//! with their secret id.

use crate::text::{has_version_and_variant, new_random_uuid};
use vstd::prelude::*;

verus! {

broadcast use vstd::string::group_string_axioms;

/// The free-form data of a persisted character: its customization, a JSON
/// document held as its text.
#[derive(Debug)]
pub struct CompleteData {
    pub customization: String,
}

impl Default for CompleteData {
    /// An empty JSON object.
    fn default() -> (r: Self)
        ensures
            r.customization@ == "{}"@,
    {
        CompleteData { customization: "{}".to_string() }
    }
}

/// A character as the server persists it.
#[derive(Debug)]
pub struct CompleteCharacter {
    pub name: String,
    pub tag_id: String,
    pub version: u64,
    pub level: u16,
    pub experience: u64,
    pub maximum_abyss_level_reached: u16,
    pub current_quest_dungeon: Option<()>,
    pub last_jobs_reset_time: u64,
    pub inventory_level: u16,
    pub stamina_attribute_points: u32,
    pub magicka_attribute_points: u32,
    pub last_guild_exchange_request_time: u64,
    pub last_guild_exchange_donation_time: u64,
    pub guild_exchange_donation_count: i64,
    pub pvp_chest_meter: i64,
    pub pvp_winning_streak: i64,
    pub pvp_exception_easier_match_remaining: i64,
    pub pvp_exception_harder_match_remaining: i64,
    pub matchmaking_pvp_trophies: i64,
    pub pvp_trophies: i64,
    pub highest_arena_reached: u64,
    pub highest_level_arena_reached: u64,
    pub number_pvp_match_played: i64,
    pub trophy_count_modified: i64,
    pub pvp_season_id: u128,
    pub job_difficulty_cycle_index: i64,
    pub data: CompleteData,
    pub validation_flags: u32,
    pub trasury_level: u32,
    pub name_validated: bool,
}

/// Whether `c` is a persisted character as it starts: no name, no tag,
/// version 0, level 1, empty customization, and so on.
pub open spec fn is_new_persisted_character(c: CompleteCharacter) -> bool {
    &&& c.name@ == Seq::<char>::empty()
    &&& c.tag_id@ == Seq::<char>::empty()
    &&& c.version == 0
    &&& c.level == 1
    &&& c.experience == 1
    &&& c.maximum_abyss_level_reached == 0
    &&& c.current_quest_dungeon is None
    &&& c.last_jobs_reset_time == 0
    &&& c.inventory_level == 0
    &&& c.stamina_attribute_points == 0
    &&& c.magicka_attribute_points == 0
    &&& c.last_guild_exchange_request_time == 0
    &&& c.last_guild_exchange_donation_time == 0
    &&& c.guild_exchange_donation_count == 0
    &&& c.pvp_chest_meter == 0
    &&& c.pvp_winning_streak == 0
    &&& c.pvp_exception_easier_match_remaining == 0
    &&& c.pvp_exception_harder_match_remaining == 0
    &&& c.matchmaking_pvp_trophies == 0
    &&& c.pvp_trophies == 0
    &&& c.highest_arena_reached == 1
    &&& c.highest_level_arena_reached == 1
    &&& c.number_pvp_match_played == 0
    &&& c.trophy_count_modified == 0
    &&& c.pvp_season_id == 0
    &&& c.job_difficulty_cycle_index == 0
    &&& c.validation_flags == 1
    &&& c.trasury_level == 0
    &&& c.name_validated
    &&& c.data.customization@ == "{}"@
}

/// A persisted character as it starts has no name and no tag, is at
/// version 0, level 1 with one point of experience, has made no progress
/// (no abyss, guild exchange or arena progress beyond the first arena, no
/// attribute points, no trophies), is validated, and its customization is
/// the empty JSON object.
pub proof fn lemma_new_persisted_character_starts_the_game(c: CompleteCharacter)
    requires
        is_new_persisted_character(c),
    ensures
        c.name@.len() == 0 && c.tag_id@.len() == 0,
        c.version == 0 && c.level == 1 && c.experience == 1,
        c.maximum_abyss_level_reached == 0 && c.current_quest_dungeon is None,
        c.last_jobs_reset_time == 0 && c.inventory_level == 0,
        c.stamina_attribute_points == 0 && c.magicka_attribute_points == 0,
        c.last_guild_exchange_request_time == 0 && c.last_guild_exchange_donation_time == 0,
        c.guild_exchange_donation_count == 0,
        c.pvp_chest_meter == 0 && c.pvp_winning_streak == 0,
        c.pvp_exception_easier_match_remaining == 0 && c.pvp_exception_harder_match_remaining == 0,
        c.matchmaking_pvp_trophies == 0 && c.pvp_trophies == 0,
        c.highest_arena_reached == 1 && c.highest_level_arena_reached == 1,
        c.number_pvp_match_played == 0 && c.trophy_count_modified == 0,
        c.pvp_season_id == 0 && c.job_difficulty_cycle_index == 0,
        c.validation_flags == 1 && c.trasury_level == 0,
        c.name_validated,
        c.data.customization@ == "{}"@,
{
}

impl Default for CompleteCharacter {
    fn default() -> (r: Self)
        ensures
            is_new_persisted_character(r),
    {
        CompleteCharacter {
            name: String::new(),
            tag_id: String::new(),
            version: 0,
            level: 1,
            experience: 1,
            maximum_abyss_level_reached: 0,
            current_quest_dungeon: None,
            last_jobs_reset_time: 0,
            inventory_level: 0,
            stamina_attribute_points: 0,
            magicka_attribute_points: 0,
            last_guild_exchange_request_time: 0,
            last_guild_exchange_donation_time: 0,
            guild_exchange_donation_count: 0,
            pvp_chest_meter: 0,
            pvp_winning_streak: 0,
            pvp_exception_easier_match_remaining: 0,
            pvp_exception_harder_match_remaining: 0,
            matchmaking_pvp_trophies: 0,
            pvp_trophies: 0,
            highest_arena_reached: 1,
            highest_level_arena_reached: 1,
            number_pvp_match_played: 0,
            trophy_count_modified: 0,
            pvp_season_id: 0,
            job_difficulty_cycle_index: 0,
            validation_flags: 1,
            trasury_level: 0,
            name_validated: true,
            data: CompleteData::default(),
        }
    }
}

/// The inventory as the server persists it (nothing yet).
#[derive(Clone, Copy, Debug)]
pub struct CompleteInventory {}

impl Default for CompleteInventory {
    fn default() -> (r: Self) {
        CompleteInventory {  }
    }
}

/// Everything the server persists for a character. `user_id` is what
/// queries look the character up by; it stays the same while the server
/// runs.
#[derive(Debug)]
pub struct PersistedCharacterData {
    pub user_id: u128,
    pub character: CompleteCharacter,
    pub inventory: CompleteInventory,
}

impl Default for PersistedCharacterData {
    fn default() -> (r: Self)
        ensures
            r.user_id == 0,
            is_new_persisted_character(r.character),
    {
        PersistedCharacterData {
            user_id: 0,
            character: CompleteCharacter::default(),
            inventory: CompleteInventory::default(),
        }
    }
}

/// A player account: the Google Play device ids it was used from (none
/// twice), and the user id that the client is told, which stays secret.
#[derive(Debug)]
pub struct UserAccount {
    pub gp_deviceids: Vec<String>,
    pub secret_id: u128,
}

impl UserAccount {
    /// Whether no device id occurs twice.
    pub open spec fn well_formed(&self) -> bool {
        self.gp_deviceids@.map_values(|s: String| s@).no_duplicates()
    }

    /// A new account: no device id, and a fresh random secret id.
    pub fn create_new_user() -> (r: Self)
        ensures
            r.well_formed(),
            r.gp_deviceids@.len() == 0,
            has_version_and_variant(r.secret_id, 4),
    {
        let r = UserAccount { gp_deviceids: Vec::new(), secret_id: new_random_uuid() };
        assert(r.gp_deviceids@.map_values(|s: String| s@) =~= Seq::<Seq<char>>::empty());
        r
    }
}

} // verus!
