use blades::dungeon_entry::{dungeon_response, enter_dungeon};
use blades::models::{JsonDbWrapper, QuestDbEntryDungeonStateAndInitialState};
use blades::user_data::backpack::{Item, ItemPropertiesAll, Items};
use blades::user_data::dungeon::{
    ChestGeneratedData, DungeonEnemyResult, DungeonGeneratedData, DungeonState, DungeonStatus,
    EnemyIndex, EnemyIndexParseError, EnemyStatus, LootTableResult,
};
use blades::user_data::B64EncodedData;
use std::collections::HashMap;

fn loot(stackable: &[(u128, u64)], currencies: &[(u128, u64)], items: &[(u128, u128)]) -> LootTableResult {
    let mut item = HashMap::new();
    for (id, template) in items {
        item.insert(
            *id,
            Item {
                item_template_id: *template,
                tempering_level: 0,
                durability_bits: 0,
                properties: ItemPropertiesAll::default(),
            },
        );
    }
    LootTableResult {
        stackable_items: stackable.iter().copied().collect(),
        currencies: currencies.iter().copied().collect(),
        item: Items(item),
    }
}

fn counts(m: &HashMap<u128, u64>) -> Vec<(u128, u64)> {
    let mut v: Vec<(u128, u64)> = m.iter().map(|(k, v)| (*k, *v)).collect();
    v.sort();
    v
}

fn item_templates(l: &LootTableResult) -> Vec<(u128, u128)> {
    let mut v: Vec<(u128, u128)> = l.item.0.iter().map(|(k, v)| (*k, v.item_template_id)).collect();
    v.sort();
    v
}

#[test]
fn merge_adds_amounts_and_items() {
    let mut a = loot(&[(1, 2), (2, 3)], &[(9, 100)], &[(20, 200)]);
    let b = loot(&[(2, 4), (3, 1)], &[(9, 5), (8, 1)], &[(20, 201), (21, 210)]);
    a.merge(b);
    assert_eq!(counts(&a.stackable_items), vec![(1, 2), (2, 7), (3, 1)]);
    assert_eq!(counts(&a.currencies), vec![(8, 1), (9, 105)]);
    // the merged-in item replaces the one with the same id
    assert_eq!(item_templates(&a), vec![(20, 201), (21, 210)]);
}

#[test]
fn merge_with_empty_is_identity() {
    let mut a = loot(&[(1, 2)], &[(9, 1)], &[(20, 200)]);
    a.merge(LootTableResult::default());
    assert_eq!(counts(&a.stackable_items), vec![(1, 2)]);
    assert_eq!(counts(&a.currencies), vec![(9, 1)]);
    assert_eq!(item_templates(&a), vec![(20, 200)]);
    let mut e = LootTableResult::default();
    e.merge(loot(&[(1, 2)], &[(9, 1)], &[(20, 200)]));
    assert_eq!(counts(&e.stackable_items), vec![(1, 2)]);
    assert_eq!(item_templates(&e), vec![(20, 200)]);
}

#[test]
fn merge_amounts_commute() {
    let mut ab = loot(&[(1, 2), (2, 3)], &[(9, 4)], &[]);
    ab.merge(loot(&[(2, 5)], &[(9, 6), (7, 1)], &[]));
    let mut ba = loot(&[(2, 5)], &[(9, 6), (7, 1)], &[]);
    ba.merge(loot(&[(1, 2), (2, 3)], &[(9, 4)], &[]));
    assert_eq!(counts(&ab.stackable_items), counts(&ba.stackable_items));
    assert_eq!(counts(&ab.currencies), counts(&ba.currencies));
}

#[test]
fn merge_is_associative() {
    let parts = || {
        (
            loot(&[(1, 1)], &[(9, 1)], &[(20, 1)]),
            loot(&[(1, 2), (2, 2)], &[], &[(20, 2), (21, 2)]),
            loot(&[(2, 3)], &[(9, 3)], &[(21, 3)]),
        )
    };
    let (a, b, c) = parts();
    let mut left = a;
    left.merge(b);
    left.merge(c);
    let (a, b, c) = parts();
    let mut bc = b;
    bc.merge(c);
    let mut right = a;
    right.merge(bc);
    assert_eq!(counts(&left.stackable_items), counts(&right.stackable_items));
    assert_eq!(counts(&left.currencies), counts(&right.currencies));
    assert_eq!(item_templates(&left), item_templates(&right));
}

#[test]
fn merged_loot_table_sums_all_tables() {
    let mut spawn_group_loot = HashMap::new();
    spawn_group_loot.insert(1u128, loot(&[(5, 1)], &[(9, 10)], &[(30, 300)]));
    let mut loot_table_loot = HashMap::new();
    loot_table_loot.insert(2u128, loot(&[(5, 2), (6, 1)], &[], &[]));
    loot_table_loot.insert(3u128, loot(&[(6, 4)], &[(9, 1)], &[(31, 310)]));
    let enemy = DungeonEnemyResult { enemy_level: 3, given_xp: 10, spawn_group_loot, loot_table_loot };
    let merged = enemy.merged_loot_table();
    assert_eq!(counts(&merged.stackable_items), vec![(5, 3), (6, 5)]);
    assert_eq!(counts(&merged.currencies), vec![(9, 11)]);
    assert_eq!(item_templates(&merged), vec![(30, 300), (31, 310)]);
}

#[test]
fn merged_loot_table_of_enemy_without_loot_is_empty() {
    let enemy = DungeonEnemyResult {
        enemy_level: 1,
        given_xp: 1000,
        spawn_group_loot: HashMap::new(),
        loot_table_loot: HashMap::new(),
    };
    let merged = enemy.merged_loot_table();
    assert!(merged.stackable_items.is_empty());
    assert!(merged.currencies.is_empty());
    assert!(merged.item.0.is_empty());
}

fn generated() -> DungeonGeneratedData {
    let enemy = |level: i64| DungeonEnemyResult {
        enemy_level: level,
        given_xp: 1,
        spawn_group_loot: HashMap::new(),
        loot_table_loot: HashMap::new(),
    };
    let mut enemy_generated_data = HashMap::new();
    enemy_generated_data.insert(7u128, vec![vec![enemy(1), enemy(2)], vec![enemy(3)]]);
    let mut chest_generated_data = HashMap::new();
    chest_generated_data.insert(8u128, vec![ChestGeneratedData { tier: 1 }]);
    DungeonGeneratedData {
        enemy_generated_data,
        item_generated_data: HashMap::new(),
        chest_generated_data,
        algorithm_version: 1,
        version: 2,
    }
}

#[test]
fn get_enemy_finds_listed_enemies() {
    let data = generated();
    assert_eq!(data.get_enemy(&EnemyIndex::new(7, 0, 1)).map(|e| e.enemy_level), Some(2));
    assert_eq!(data.get_enemy(&EnemyIndex::new(7, 1, 0)).map(|e| e.enemy_level), Some(3));
    assert!(data.get_enemy(&EnemyIndex::new(7, 1, 1)).is_none());
    assert!(data.get_enemy(&EnemyIndex::new(7, 2, 0)).is_none());
    assert!(data.get_enemy(&EnemyIndex::new(8, 0, 0)).is_none());
}

#[test]
fn enemy_index_text_form() {
    let index = EnemyIndex::new(0x67e55044_10b1_426f_9247_bb680e5fe0c8, 3, 12);
    assert_eq!(index.to_string(), "67e55044-10b1-426f-9247-bb680e5fe0c8-3-12");
}

#[test]
fn enemy_index_roundtrip() {
    for index in [
        EnemyIndex::new(0, 0, 0),
        EnemyIndex::new(u128::MAX, usize::MAX, 1),
        EnemyIndex::new(0x3d336fe7_be60_46a1_b88b_540f3ad5efa2, 10, 205),
    ] {
        assert_eq!(EnemyIndex::parse(&index.to_string()), Ok(index));
    }
}

#[test]
fn enemy_index_parse_accepts_other_uuid_forms() {
    assert_eq!(
        EnemyIndex::parse("67e5504410b1426f9247bb680e5fe0c8-1-+2"),
        Ok(EnemyIndex::new(0x67e55044_10b1_426f_9247_bb680e5fe0c8, 1, 2))
    );
}

#[test]
fn enemy_index_parse_errors() {
    let uuid = "67e55044-10b1-426f-9247-bb680e5fe0c8";
    assert_eq!(EnemyIndex::parse("nohyphen"), Err(EnemyIndexParseError::InvalidFormat));
    assert_eq!(EnemyIndex::parse("1"), Err(EnemyIndexParseError::InvalidFormat));
    assert_eq!(
        EnemyIndex::parse(&format!("{}-1-x", uuid)),
        Err(EnemyIndexParseError::InvalidEnemyIndex)
    );
    assert_eq!(
        EnemyIndex::parse(&format!("{}-y-1", uuid)),
        Err(EnemyIndexParseError::InvalidSpawnerIndex)
    );
    assert_eq!(EnemyIndex::parse("zz-1-2"), Err(EnemyIndexParseError::InvalidSpawnerUuid));
    // the last two hyphens split the text, so "a-b" with the uuid hyphens
    assert_eq!(EnemyIndex::parse("-1-2"), Err(EnemyIndexParseError::InvalidSpawnerUuid));
}

fn status(current: &str) -> DungeonStatus {
    let mut enemy_status = HashMap::new();
    enemy_status.insert(
        EnemyIndex::new(1, 0, 0),
        EnemyStatus { spawn_group_id: 5, xp_reward: 10, killed: true, time: 3, loot: LootTableResult::default() },
    );
    DungeonStatus {
        dungeon_settings_ids: vec![77],
        revive_count: 2,
        level: 4,
        seed: 99,
        current_state: B64EncodedData { b64: current.to_string() },
        algorithm_version: 1,
        version: 3,
        enemy_status,
    }
}

#[test]
fn first_entry_starts_a_fresh_run() {
    let state = enter_dungeon(0xabc, None, true, B64EncodedData { b64: "c3RhdGU=".to_string() });
    let s = &state.dungeon_status;
    assert_eq!(s.dungeon_settings_ids, vec![0xabc]);
    assert_eq!(s.revive_count, 0);
    assert_eq!(s.algorithm_version, 1);
    assert_eq!(s.current_state.b64, "c3RhdGU=");
    assert_eq!(s.seed, 54321);
    assert_eq!(s.level, 1);
    assert_eq!(s.version, 1);
    assert!(s.enemy_status.is_empty());
}

#[test]
fn reentry_keeps_all_but_current_state() {
    let saved = DungeonState { dungeon_status: status("old") };
    let state = enter_dungeon(0xabc, Some(saved), false, B64EncodedData { b64: "new".to_string() });
    let s = &state.dungeon_status;
    assert_eq!(s.current_state.b64, "new");
    assert_eq!(s.dungeon_settings_ids, vec![77]);
    assert_eq!((s.revive_count, s.level, s.seed, s.algorithm_version, s.version), (2, 4, 99, 1, 3));
    assert_eq!(s.enemy_status.len(), 1);
    assert!(s.enemy_status[&EnemyIndex::new(1, 0, 0)].killed);
}

#[test]
fn dungeon_listing_follows_rows() {
    let rows = vec![
        QuestDbEntryDungeonStateAndInitialState {
            id: 1,
            dungeon_state: Some(JsonDbWrapper(DungeonState { dungeon_status: status("a") })),
            initial_state: Some(JsonDbWrapper(B64EncodedData { b64: "init-a".to_string() })),
        },
        QuestDbEntryDungeonStateAndInitialState {
            id: 2,
            dungeon_state: Some(JsonDbWrapper(DungeonState { dungeon_status: status("b") })),
            initial_state: Some(JsonDbWrapper(B64EncodedData { b64: "init-b".to_string() })),
        },
    ];
    let response = dungeon_response(rows);
    assert_eq!(response.dungeons.len(), 2);
    assert_eq!(response.dungeons[0].quest_id, 1);
    assert_eq!(response.dungeons[0].initial_state.b64, "init-a");
    assert_eq!(response.dungeons[0].status.current_state.b64, "a");
    assert_eq!(response.dungeons[1].quest_id, 2);
    assert_eq!(response.dungeons[1].initial_state.b64, "init-b");
    assert!(dungeon_response(Vec::new()).dungeons.is_empty());
}
