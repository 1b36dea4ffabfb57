use blades::models::{CharacterDbEntryCharacterAlone, JsonDbWrapper, QuestDbEntry};
use blades::quest_gen::{
    generate_quest_data, DungeonData, DungeonInfo, GameData, GenerateQuestDataError, QuestData,
    SpawnGroup, SpawnInfo,
};
use blades::quest_log::{
    accept_quest_response, get_quests_response, job_pools, new_quest_entry, quest_lists,
};
use blades::user_data::dungeon::DungeonGeneratedData;
use blades::user_data::quest::{ObjectiveStatus, Quest, QuestStatus, QuestType};
use blades::user_data::CompleteCharacter;
use std::collections::{HashMap, HashSet};

const QUEST: u128 = 0x1111;
const DUNGEON: u128 = 0x2222;
const QUEST_WITHOUT_DUNGEON_DATA: u128 = 0x3333;

fn game_data() -> GameData {
    let mut quests = HashMap::new();
    quests.insert(
        QUEST,
        QuestData {
            dungeon_info: Some(DungeonInfo {
                version: 5,
                objectives: HashSet::from([10u128, 11u128]),
                dungeon_uuid: DUNGEON,
            }),
        },
    );
    quests.insert(
        QUEST_WITHOUT_DUNGEON_DATA,
        QuestData {
            dungeon_info: Some(DungeonInfo { version: 1, objectives: HashSet::new(), dungeon_uuid: 0x9999 }),
        },
    );
    let mut enemy_spawn_groups = HashMap::new();
    enemy_spawn_groups.insert(20u128, SpawnGroup { quantity: 3 });
    enemy_spawn_groups.insert(21u128, SpawnGroup { quantity: 0 });
    let mut dungeons = HashMap::new();
    dungeons.insert(
        DUNGEON,
        DungeonData {
            spawn_info: SpawnInfo {
                enemy_spawn_groups,
                chest: HashSet::from([30u128]),
                item: HashSet::from([40u128, 41u128]),
            },
        },
    );
    GameData { quests, dungeons }
}

#[test]
fn generate_quest_data_builds_quest_and_dungeon() {
    let (quest, generated) = generate_quest_data(&game_data(), QUEST).unwrap();
    assert!(!quest.completed);
    assert_eq!(quest.difficulty_level, -1);
    assert_eq!(quest.gld_quest_id, QUEST);
    assert_eq!(quest.seed, 1234);
    assert_eq!(quest.quest_type, QuestType::Normal);
    assert_eq!(quest.version, 5);
    let mut objectives: Vec<u128> = quest.objectives_statuses.keys().copied().collect();
    objectives.sort();
    assert_eq!(objectives, vec![10, 11]);
    for o in quest.objectives_statuses.values() {
        assert_eq!(o.status, QuestStatus::Active);
        assert_eq!(f64::from_bits(o.progress_bits), 0.0);
        assert!(!o.completed);
    }
    let generated = generated.unwrap();
    assert_eq!(generated.algorithm_version, 1);
    assert_eq!(generated.version, 5);
    assert_eq!(generated.enemy_generated_data.len(), 2);
    let group = &generated.enemy_generated_data[&20];
    assert_eq!(group.len(), 1);
    assert_eq!(group[0].len(), 3);
    for e in group[0].iter() {
        assert_eq!((e.enemy_level, e.given_xp), (1, 1000));
        assert!(e.spawn_group_loot.is_empty() && e.loot_table_loot.is_empty());
    }
    assert_eq!(generated.enemy_generated_data[&21][0].len(), 0);
    assert_eq!(generated.chest_generated_data.len(), 1);
    assert_eq!(generated.chest_generated_data[&30].len(), 1);
    assert_eq!(generated.chest_generated_data[&30][0].tier, 1);
    assert_eq!(generated.item_generated_data.len(), 2);
    assert_eq!(generated.item_generated_data[&41].len(), 1);
    assert!(generated.item_generated_data[&41][0].loot_table_loot.is_empty());
}

#[test]
fn generate_quest_data_errors() {
    assert_eq!(
        generate_quest_data(&game_data(), 0x4444).err(),
        Some(GenerateQuestDataError::QuestNotFound(0x4444))
    );
    assert_eq!(
        generate_quest_data(&game_data(), QUEST_WITHOUT_DUNGEON_DATA).err(),
        Some(GenerateQuestDataError::DungeonNotFound(0x9999))
    );
}

fn quest(id: u128) -> Quest {
    let mut objectives_statuses = HashMap::new();
    objectives_statuses.insert(
        1u128,
        ObjectiveStatus { status: QuestStatus::Active, progress_bits: 0.5f64.to_bits(), completed: false },
    );
    Quest {
        version: 1,
        quest_type: QuestType::Normal,
        objectives_statuses,
        difficulty_level: -1,
        seed: 1234,
        gld_quest_id: id,
        completed: false,
    }
}

fn row(id: u128, with_dungeon: bool) -> QuestDbEntry {
    let generated = if with_dungeon {
        Some(DungeonGeneratedData {
            enemy_generated_data: HashMap::new(),
            item_generated_data: HashMap::new(),
            chest_generated_data: HashMap::new(),
            algorithm_version: 1,
            version: id as u64,
        })
    } else {
        None
    };
    QuestDbEntry {
        id,
        character_id: 77,
        info: JsonDbWrapper(quest(id)),
        generated_data: JsonDbWrapper(generated),
        dungeon_state: None,
    }
}

#[test]
fn quest_lists_keep_order_and_skip_missing_dungeons() {
    let (quests, generated) = quest_lists(vec![row(1, true), row(2, false), row(3, true)]);
    let ids: Vec<u128> = quests.iter().map(|q| q.quest_id).collect();
    assert_eq!(ids, vec![1, 2, 3]);
    assert_eq!(quests[1].quest.gld_quest_id, 2);
    let generated_ids: Vec<(u128, u64)> = generated.iter().map(|g| (g.quest_id, g.inner.version)).collect();
    assert_eq!(generated_ids, vec![(1, 1), (3, 3)]);
}

#[test]
fn job_pools_are_fixed() {
    let pools = job_pools();
    assert_eq!(pools.len(), 10);
    assert_eq!(pools[0].id, "4956c6ab-1832-4edd-8bee-561b79f83ee2");
    assert_eq!((pools[0].end_time, pools[0].next_start_time), (1774760400, 1774760400));
    assert_eq!(pools[3].id, "9d94baeb-96d4-49e9-bdf6-9f939be836d3");
    assert_eq!((pools[3].end_time, pools[3].next_start_time), (0, 1774760400));
    assert_eq!(pools[9].id, "8501a030-5009-4c73-a864-69c3d7fe6ae5");
    assert_eq!((pools[9].end_time, pools[9].next_start_time), (1774760400, 1775278800));
}

#[test]
fn get_quests_response_holds_character_and_quests() {
    let mut character = CompleteCharacter::default();
    character.name = "Hero".to_string();
    let row_character = CharacterDbEntryCharacterAlone { id: 77, user_id: 5, character: JsonDbWrapper(character) };
    let response = get_quests_response(77, row_character, vec![row(1, false), row(2, true)]);
    assert_eq!(response.quests.len(), 2);
    assert_eq!(response.dungeon_generated_data_list.len(), 1);
    assert_eq!(response.dungeon_generated_data_list[0].quest_id, 2);
    assert_eq!(response.character.id, 77);
    assert_eq!(response.character.character.name, "Hero");
    assert_eq!(response.job_pools.len(), 10);
    assert!(response.jobs.is_empty());
    assert!(response.game_event_quests.is_empty());
    assert!(response.game_event_quests_in_warning.is_empty());
    assert!(response.game_event_quests_finished.is_empty());
}

#[test]
fn accepting_a_quest_makes_its_row_and_answer() {
    let entry = new_quest_entry(&game_data(), 77, QUEST).unwrap();
    assert_eq!(entry.id, QUEST);
    assert_eq!(entry.character_id, 77);
    assert!(entry.dungeon_state.is_none());
    assert_eq!(entry.info.0.gld_quest_id, QUEST);
    assert_eq!(entry.generated_data.0.as_ref().map(|g| g.version), Some(5));
    let response = accept_quest_response(entry);
    assert_eq!(response.quest.quest_id, QUEST);
    assert_eq!(response.quest.quest.version, 5);
    let generated = response.dungeon_generated_data.unwrap();
    assert_eq!(generated.quest_id, QUEST);
    assert_eq!(generated.inner.chest_generated_data.len(), 1);
    assert_eq!(
        new_quest_entry(&game_data(), 77, 0x4444).err(),
        Some(GenerateQuestDataError::QuestNotFound(0x4444))
    );
}

#[test]
fn accept_response_without_dungeon() {
    let response = accept_quest_response(row(9, false));
    assert_eq!(response.quest.quest_id, 9);
    assert!(response.dungeon_generated_data.is_none());
}
