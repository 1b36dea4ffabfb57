use blades::arena::{empty_leaderboard, set_avatar, set_avatar_response};
use blades::character::{
    challenges_response, character_creation_response, character_record, characters_with_data,
    new_character_entry, starting_inventory, DURABILITY_0, DURABILITY_100, DURABILITY_75,
};
use blades::character_data::{check_updated_rows, fields_to_update, DataField, DataUpdateError};
use blades::character_storage::{
    check_new_character_allowed, AddCharacterError, CharacterFullDataLocalConfig,
    CharacterFullDataLocalEntry,
};
use blades::daily_reward::daily_reward_status;
use blades::database::{LazyEntry, LazyWriterAndCacheConfig, UserId};
use blades::migration::{
    migration_sql, next_migration, starting_point, MigrationDecision, MigrationError,
    MigrationStep, StartingPoint, VersionLookup, EXPECTED_FINAL_VERSION,
};
use blades::models::{
    get_only_single_character_and_check_permission, CharacterAccessError, CharacterDbAlone,
    CharacterDbEntryCharacterAlone, CharacterDbEntryCharacterAndData, CompleteWallet,
    JsonDbWrapper,
};
use blades::saved_data;
use blades::session::Session;
use blades::user_data::{
    CompleteCharacter, CompleteCharacterData, UserAccount,
};
use std::sync::Arc;
use std::time::Instant;

fn session_of(user: u128) -> Session {
    Session { user_id: user, secret_user_id: 0, extra_secret: 0, expire_unix_timestamp: 0 }
}

#[test]
fn new_character_defaults() {
    let c = CompleteCharacter::default();
    assert_eq!(c.name, "");
    assert_eq!(c.tag_id, "1234");
    assert_eq!((c.version, c.level, c.experience), (1, 1, 1));
    assert_eq!(c.challenge_season.current_session_id, 0x3d336fe7_be60_46a1_b88b_540f3ad5efa2);
    assert_eq!(c.challenge_season.season_year, 2026);
    assert_eq!(c.challenge_season.rank, 1);
    assert_eq!((c.highest_arena_reached, c.highest_level_arena_reached), (1, 1));
    assert_eq!(c.validation_flags, 1);
    assert!(c.name_validated);
    assert!(c.avatar_icon_id.is_none());
    let d = CompleteCharacterData::default();
    assert_eq!((d.customization.as_str(), d.new_flags.as_str(), d.dialog.as_str()), ("{}", "{}", "{}"));
    assert!(UserAccount::new_random().gp_deviceids.is_empty());
    assert_eq!(CompleteWallet::default().json, "{}");
}

#[test]
fn persisted_character_defaults() {
    let c = saved_data::CompleteCharacter::default();
    assert_eq!(c.tag_id, "");
    assert_eq!(c.version, 0);
    assert_eq!(c.level, 1);
    assert_eq!(c.data.customization, "{}");
    let p = saved_data::PersistedCharacterData::default();
    assert_eq!(p.user_id, 0);
    let u = saved_data::UserAccount::create_new_user();
    assert!(u.gp_deviceids.is_empty());
    assert_eq!((u.secret_id >> 76) & 0xf, 4);
}

#[test]
fn starting_inventory_holds_the_starting_equipment() {
    let inv = starting_inventory();
    assert!(inv.backpack.items.0.is_empty());
    assert!(inv.backpack.stackable_items.0.is_empty());
    assert!(inv.treasury.chests.is_empty());
    assert!(inv.overflow_treasury.chests.is_empty());
    assert_eq!((inv.backpack_version, inv.treasury_version), (1, 0));
    let expected = [
        (0x417e79de_c810_42f8_8273_f9759df6ae25u128, 0x606c8bf6_9dc7_4c5f_b44b_36eb02306c96u128, 75.0f64),
        (0x862605de_c67f_4bce_b527_4e5fb6f25162, 0xc6f7fab4_eadc_4e8c_bf7f_e0ea095a3acf, 100.0),
        (0x897a600c_91d6_4449_af09_173da88a907e, 0x42b6fad8_5ac9_4215_aeff_133715c4c22e, 0.0),
        (0xe273a4d7_fb87_4f7e_8f1e_398be59afbcb, 0x2571f818_6ae4_4355_b89a_4a6253089e6c, 0.0),
    ];
    assert_eq!(inv.loadout.equipped_items.0.len(), 4);
    for (slot, template, durability) in expected {
        let e = &inv.loadout.equipped_items.0[&slot];
        assert_eq!(e.slot, slot);
        assert_eq!(e.item.item_template_id, template);
        assert_eq!(f64::from_bits(e.item.durability_bits), durability);
        assert_eq!(e.item.tempering_level, 0);
        assert!(e.item.properties.enchanting.is_empty() && e.item.properties.grading.is_empty());
        assert_eq!((e.id >> 76) & 0xf, 4);
    }
    assert_eq!(DURABILITY_75, 75.0f64.to_bits());
    assert_eq!(DURABILITY_100, 100.0f64.to_bits());
    assert_eq!(DURABILITY_0, 0.0f64.to_bits());
}

#[test]
fn new_character_entry_and_answer() {
    let entry = new_character_entry("Ayla".to_string(), "{\"hair\":3}".to_string(), 42);
    assert_eq!(entry.user_id, 42);
    assert_eq!((entry.id >> 76) & 0xf, 4);
    assert_eq!(entry.character.0.name, "Ayla");
    assert_eq!(entry.character.0.tag_id, "1234");
    assert_eq!(entry.data.0.customization, "{\"hair\":3}");
    assert_eq!(entry.data.0.dialog, "{}");
    assert_eq!(entry.wallet.0.json, "{}");
    assert_eq!(entry.inventory.0.loadout.equipped_items.0.len(), 4);
    let id = entry.id;
    let response = character_creation_response(entry);
    assert_eq!(response.character.id, id);
    assert_eq!(response.character.character.name, "Ayla");
    assert_eq!(response.character.data.customization, "{\"hair\":3}");
    assert_eq!(response.inventory.backpack_version, 1);
}

fn character_row(id: u128, user: u128, name: &str) -> CharacterDbEntryCharacterAndData {
    let mut character = CompleteCharacter::default();
    character.name = name.to_string();
    CharacterDbEntryCharacterAndData {
        id,
        user_id: user,
        character: JsonDbWrapper(character),
        data: JsonDbWrapper(CompleteCharacterData::default()),
    }
}

#[test]
fn character_listing_follows_rows() {
    let list = characters_with_data(vec![character_row(1, 9, "a"), character_row(2, 9, "b")]);
    assert_eq!(list.len(), 2);
    assert_eq!((list[0].id, list[0].character.name.as_str()), (1, "a"));
    assert_eq!((list[1].id, list[1].character.name.as_str()), (2, "b"));
    let record = character_record(7, character_row(7, 9, "c"));
    assert_eq!(record.id, 7);
    assert_eq!(record.character.name, "c");
    assert_eq!(record.data.dialog, "{}");
}

#[test]
fn single_character_permission_check() {
    let one = |user: u128| vec![CharacterDbAlone { id: 1, user_id: user }];
    assert_eq!(
        get_only_single_character_and_check_permission(one(5), &session_of(5)).map(|c| c.id).ok(),
        Some(1)
    );
    assert_eq!(
        get_only_single_character_and_check_permission(one(5), &session_of(6)).err(),
        Some(CharacterAccessError::Unauthorized)
    );
    assert_eq!(
        get_only_single_character_and_check_permission(Vec::<CharacterDbAlone>::new(), &session_of(5)).err(),
        Some(CharacterAccessError::CharacterNotFound)
    );
    let two = vec![CharacterDbAlone { id: 1, user_id: 5 }, CharacterDbAlone { id: 2, user_id: 5 }];
    assert_eq!(
        get_only_single_character_and_check_permission(two, &session_of(5)).err(),
        Some(CharacterAccessError::MoreThanOneCharacter)
    );
}

#[test]
fn challenges_and_avatar() {
    let mut row = CharacterDbEntryCharacterAlone { id: 3, user_id: 4, character: JsonDbWrapper(CompleteCharacter::default()) };
    let challenges = challenges_response(3, CharacterDbEntryCharacterAlone { id: 3, user_id: 4, character: JsonDbWrapper(CompleteCharacter::default()) });
    assert_eq!(challenges.character.id, 3);
    assert!(challenges.challenge_status.is_empty());
    set_avatar(&mut row, 0xabc);
    assert_eq!(row.character.0.avatar_icon_id, Some(0xabc));
    assert_eq!((row.id, row.user_id), (3, 4));
    assert_eq!(row.character.0.tag_id, "1234");
    let response = set_avatar_response(3, row.character.0);
    assert_eq!(response.character.id, 3);
    assert_eq!(response.character.character.avatar_icon_id, Some(0xabc));
    let board = empty_leaderboard();
    assert_eq!((board.leaderboard.total_entries, board.leaderboard.current_page, board.leaderboard.total_pages), (0, 0, 0));
    assert!(board.leaderboard.entries.is_empty());
}

#[test]
fn lazy_writer_config() {
    let mut config = LazyWriterAndCacheConfig::new();
    assert_eq!(config.write_delay, 30);
    assert_eq!(config.with_write_delay(5).write_delay, 5);
    assert_eq!(config.write_delay, 5);
    assert_eq!(UserId(3), UserId(3));
}

#[test]
fn one_persistence_per_batch_of_writes() {
    let mut config = LazyWriterAndCacheConfig::new();
    config.with_write_delay(12);
    let mut entry: LazyEntry<u64> = LazyEntry::empty(Arc::new(config));
    assert!(entry.value.is_none());
    assert!(entry.first_non_persisted_write_at.is_none());
    let now = Instant::now();
    assert_eq!(entry.plan_persistance(now), Some(12));
    assert_eq!(entry.plan_persistance(Instant::now()), None);
    assert_eq!(entry.first_non_persisted_write_at, Some(now));
    entry.mark_persisted();
    assert!(entry.first_non_persisted_write_at.is_none());
    assert_eq!(entry.plan_persistance(Instant::now()), Some(12));
}

#[test]
fn character_cache_entry_batches_writes() {
    let mut entry = CharacterFullDataLocalEntry::empty(Arc::new(CharacterFullDataLocalConfig { write_delay: 7 }));
    assert!(entry.value.is_none());
    assert_eq!(entry.plan_persistance(Instant::now()), Some(7));
    assert_eq!(entry.plan_persistance(Instant::now()), None);
    entry.mark_persisted();
    assert_eq!(entry.plan_persistance(Instant::now()), Some(7));
    assert_eq!(check_new_character_allowed(0), Ok(()));
    assert_eq!(check_new_character_allowed(1), Err(AddCharacterError::UserAlreadyHasCharacter));
}

fn assert_send_sync<T: Send + Sync>() {}

#[test]
fn cache_entries_are_send_and_sync() {
    assert_send_sync::<LazyEntry<saved_data::PersistedCharacterData>>();
    assert_send_sync::<CharacterFullDataLocalEntry>();
}

#[test]
fn migration_starting_point() {
    assert_eq!(
        starting_point(&VersionLookup::NoGlobalsTable),
        Ok(StartingPoint { version: 1, create_globals: true })
    );
    assert_eq!(
        starting_point(&VersionLookup::Found("2".to_string())),
        Ok(StartingPoint { version: 2, create_globals: false })
    );
    assert_eq!(starting_point(&VersionLookup::NoVersionRow), Err(MigrationError::NoVersionRow));
    assert_eq!(
        starting_point(&VersionLookup::Found("two".to_string())),
        Err(MigrationError::UnparsableVersion)
    );
}

#[test]
fn migration_steps() {
    assert_eq!(
        next_migration(1),
        MigrationDecision::Apply { step: MigrationStep::CreateUsersTable, new_version: 2 }
    );
    assert_eq!(
        next_migration(2),
        MigrationDecision::Apply { step: MigrationStep::CreateCharactersTable, new_version: 3 }
    );
    assert_eq!(next_migration(3), MigrationDecision::Finished);
    assert_eq!(next_migration(0), MigrationDecision::Refuse);
    assert_eq!(next_migration(4), MigrationDecision::Refuse);
    assert_eq!(
        migration_sql(MigrationStep::CreateUsersTable),
        "CREATE TABLE users (id UUID PRIMARY KEY, data JSONB)"
    );
    assert_eq!(
        migration_sql(MigrationStep::CreateCharactersTable),
        "CREATE TABLE characters (id UUID PRIMARY KEY, data JSONB)"
    );
}

#[test]
fn migration_reaches_final_version_from_every_older_one() {
    for start in 1..=EXPECTED_FINAL_VERSION {
        let mut version = start;
        let mut steps = Vec::new();
        loop {
            match next_migration(version) {
                MigrationDecision::Apply { step, new_version } => {
                    steps.push(step);
                    version = new_version;
                }
                MigrationDecision::Finished => break,
                MigrationDecision::Refuse => panic!("refused at {}", version),
            }
        }
        assert_eq!(version, EXPECTED_FINAL_VERSION);
        let all = [MigrationStep::CreateUsersTable, MigrationStep::CreateCharactersTable];
        assert_eq!(steps, all[(start - 1) as usize..].to_vec());
    }
}

#[test]
fn daily_reward_is_an_hour_ahead() {
    let r = daily_reward_status(Some(1_000));
    assert_eq!(r.until, 3_601_000);
    assert_eq!(r.reward_uid, "eefb9db4-0632-49b9-ae35-1da398ca0003");
    assert_eq!(r.daily_reward.stackable_items, vec![("42d91529-c88b-4c5b-815b-b55508b4e7ef".to_string(), 2)]);
    assert!(!r.collected);
    assert_eq!(daily_reward_status(None).until, 3_600_000);
}

#[test]
fn data_update_fields_and_errors() {
    assert!(fields_to_update(false, false).is_empty());
    assert_eq!(fields_to_update(true, false), vec![DataField::NewFlags]);
    assert_eq!(fields_to_update(false, true), vec![DataField::Dialog]);
    assert_eq!(fields_to_update(true, true), vec![DataField::NewFlags, DataField::Dialog]);
    assert_eq!(DataField::NewFlags.key(), "new-flags");
    assert_eq!(DataField::Dialog.key(), "dialog");
    assert_eq!(check_updated_rows(1), Ok(()));
    assert_eq!(check_updated_rows(0), Err(DataUpdateError::CharacterNotUpdated));
    assert_eq!(DataUpdateError::CharacterNotUpdated.codes(), (400, 1003, 2));
}

#[test]
fn character_access_error_codes() {
    assert_eq!(CharacterAccessError::MoreThanOneCharacter.codes(), Some((500, 1, 100)));
    assert_eq!(CharacterAccessError::CharacterNotFound.codes(), Some((404, 20000, 2)));
    assert_eq!(CharacterAccessError::Unauthorized.codes(), None);
}
