//! The game's static data as the quest logic reads it, and the generation
//! of a quest and its dungeon content when a character accepts a quest.

use crate::user_data::dungeon::{
    ChestGeneratedData, DungeonEnemyResult, DungeonGeneratedData, DungeonItemResult,
};
use crate::user_data::quest::{ObjectiveStatus, Quest, QuestStatus, QuestType};
use crate::{
    ids_seen, keys_seen, lemma_ids_seen_step, lemma_keys_seen_step, lemma_map_iteration,
    lemma_set_iteration, map_iteration,
};
use std::collections::{HashMap, HashSet};
use vstd::prelude::*;
use vstd::std_specs::iter::IteratorSpec;

verus! {

broadcast use vstd::std_specs::hash::group_hash_axioms;

/// A group of enemies that a dungeon spawns together.
#[derive(Clone, Copy, Debug)]
pub struct SpawnGroup {
    pub quantity: u64,
}

/// What a dungeon spawns: enemy groups by id, and the ids of its chest and
/// item spawns.
#[derive(Debug)]
pub struct SpawnInfo {
    pub enemy_spawn_groups: HashMap<u128, SpawnGroup>,
    pub chest: HashSet<u128>,
    pub item: HashSet<u128>,
}

#[derive(Debug)]
pub struct DungeonData {
    pub spawn_info: SpawnInfo,
}

/// The dungeon of a quest: its version, the ids of its objectives and the
/// id of the dungeon.
#[derive(Debug)]
pub struct DungeonInfo {
    pub version: u64,
    pub objectives: HashSet<u128>,
    pub dungeon_uuid: u128,
}

#[derive(Debug)]
pub struct QuestData {
    pub dungeon_info: Option<DungeonInfo>,
}

/// The game's static data: quests and dungeons by id.
#[derive(Debug)]
pub struct GameData {
    pub quests: HashMap<u128, QuestData>,
    pub dungeons: HashMap<u128, DungeonData>,
}

#[derive(Clone, Copy, Debug, PartialEq, Eq, Structural)]
pub enum GenerateQuestDataError {
    /// The quest does not exist.
    QuestNotFound(u128),
    /// The dungeon of the quest does not exist.
    DungeonNotFound(u128),
}

/// Whether `o` is the state of an objective of a quest just accepted.
pub open spec fn is_new_objective(o: ObjectiveStatus) -> bool {
    o.status == QuestStatus::Active && o.progress_bits == 0 && !o.completed
}

/// Whether `q` is the quest `quest_id` just accepted, of a dungeon of
/// version `version` with the objectives `objectives`.
pub open spec fn is_new_quest(q: Quest, quest_id: u128, version: u64, objectives: Set<u128>) -> bool {
    &&& !q.completed
    &&& q.difficulty_level == -1
    &&& q.gld_quest_id == quest_id
    &&& q.seed == 1234
    &&& q.quest_type == QuestType::Normal
    &&& q.version == version
    &&& q.objectives_statuses@.dom() == objectives
    &&& forall|o: u128| #[trigger]
        q.objectives_statuses@.contains_key(o) ==> is_new_objective(q.objectives_statuses@[o])
}

/// Whether `e` is an enemy not yet met: level 1, worth 1000 experience,
/// without loot.
pub open spec fn is_new_enemy(e: DungeonEnemyResult) -> bool {
    &&& e.enemy_level == 1
    &&& e.given_xp == 1000
    &&& e.spawn_group_loot@ == Map::<u128, crate::user_data::dungeon::LootTableResult>::empty()
    &&& e.loot_table_loot@ == Map::<u128, crate::user_data::dungeon::LootTableResult>::empty()
}

/// Whether `d` is the content generated for the dungeon `spawn`, of version
/// `version`: for each enemy group one spawner with as many new enemies as
/// the group's quantity; for each chest spawn one chest of tier 1; for each
/// item spawn one result without loot.
pub open spec fn is_generated_dungeon(d: DungeonGeneratedData, spawn: SpawnInfo, version: u64) -> bool {
    &&& d.algorithm_version == 1
    &&& d.version == version
    &&& d.enemy_generated_data@.dom() == spawn.enemy_spawn_groups@.dom()
    &&& forall|g: u128| #[trigger]
        d.enemy_generated_data@.contains_key(g) ==> {
            let spawners = d.enemy_generated_data@[g]@;
            &&& spawners.len() == 1
            &&& spawners[0]@.len() == spawn.enemy_spawn_groups@[g].quantity
            &&& forall|i: int|
                0 <= i < spawners[0]@.len() ==> is_new_enemy(#[trigger] spawners[0]@[i])
        }
    &&& d.chest_generated_data@.dom() == spawn.chest@
    &&& forall|c: u128| #[trigger]
        d.chest_generated_data@.contains_key(c) ==> d.chest_generated_data@[c]@ == seq![
            ChestGeneratedData { tier: 1 },
        ]
    &&& d.item_generated_data@.dom() == spawn.item@
    &&& forall|i: u128| #[trigger]
        d.item_generated_data@.contains_key(i) ==> {
            &&& d.item_generated_data@[i]@.len() == 1
            &&& d.item_generated_data@[i]@[0].loot_table_loot@ == Map::<
                u128,
                crate::user_data::dungeon::LootTableResult,
            >::empty()
        }
}

/// An enemy not yet met.
fn new_enemy() -> (e: DungeonEnemyResult)
    ensures
        is_new_enemy(e),
{
    DungeonEnemyResult {
        enemy_level: 1,
        given_xp: 1000,
        spawn_group_loot: HashMap::new(),
        loot_table_loot: HashMap::new(),
    }
}

/// The objective states of a quest just accepted, one per objective id.
fn new_objectives(objectives: &HashSet<u128>) -> (r: HashMap<u128, ObjectiveStatus>)
    ensures
        r@.dom() == objectives@,
        forall|o: u128| #[trigger] r@.contains_key(o) ==> is_new_objective(r@[o]),
{
    let mut r: HashMap<u128, ObjectiveStatus> = HashMap::new();
    let ghost mut done: Set<u128> = Set::empty();
    proof {
        lemma_set_iteration(objectives);
    }
    for id in it: objectives.iter()
        invariant
            ids_seen(it.seq(), it.seq().len() as int) == objectives@,
            done == ids_seen(it.seq(), it.index()),
            r@.dom() == done,
            forall|o: u128| #[trigger] r@.contains_key(o) ==> is_new_objective(r@[o]),
    {
        proof {
            lemma_ids_seen_step(it.seq(), it.index());
        }
        r.insert(*id, ObjectiveStatus { completed: false, progress_bits: 0, status: QuestStatus::Active });
        proof {
            done = done.insert(*id);
        }
    }
    r
}

/// For each enemy group, one spawner with as many new enemies as the
/// group's quantity.
fn new_enemy_data(groups: &HashMap<u128, SpawnGroup>) -> (r: HashMap<
    u128,
    Vec<Vec<DungeonEnemyResult>>,
>)
    ensures
        r@.dom() == groups@.dom(),
        forall|g: u128| #[trigger]
            r@.contains_key(g) ==> {
                let spawners = r@[g]@;
                &&& spawners.len() == 1
                &&& spawners[0]@.len() == groups@[g].quantity
                &&& forall|i: int|
                    0 <= i < spawners[0]@.len() ==> is_new_enemy(#[trigger] spawners[0]@[i])
            },
{
    let mut r: HashMap<u128, Vec<Vec<DungeonEnemyResult>>> = HashMap::new();
    let ghost mut done: Set<u128> = Set::empty();
    let entries = groups.iter();
    proof {
        lemma_map_iteration(groups);
    }
    for entry in it: entries
        invariant
            map_iteration(it.seq(), groups@),
            done == keys_seen(it.seq(), it.index()),
            r@.dom() == done,
            forall|g: u128| #[trigger]
                r@.contains_key(g) ==> {
                    let spawners = r@[g]@;
                    &&& spawners.len() == 1
                    &&& spawners[0]@.len() == groups@[g].quantity
                    &&& forall|i: int|
                        0 <= i < spawners[0]@.len() ==> is_new_enemy(#[trigger] spawners[0]@[i])
                },
    {
        let (id, group) = entry;
        proof {
            lemma_keys_seen_step(it.seq(), groups@, it.index());
            assert(groups@.contains_key(*it.seq()[it.index()].0));
        }
        let mut enemies: Vec<DungeonEnemyResult> = Vec::new();
        let mut n: u64 = 0;
        while n < group.quantity
            invariant
                n <= group.quantity,
                enemies@.len() == n,
                forall|i: int| 0 <= i < enemies@.len() ==> is_new_enemy(#[trigger] enemies@[i]),
            decreases group.quantity - n,
        {
            enemies.push(new_enemy());
            n = n + 1;
        }
        let mut spawners: Vec<Vec<DungeonEnemyResult>> = Vec::new();
        spawners.push(enemies);
        r.insert(*id, spawners);
        proof {
            done = done.insert(*id);
        }
    }
    r
}

/// For each chest spawn id, one chest of tier 1.
fn new_chest_data(chests: &HashSet<u128>) -> (r: HashMap<u128, Vec<ChestGeneratedData>>)
    ensures
        r@.dom() == chests@,
        forall|c: u128| #[trigger]
            r@.contains_key(c) ==> r@[c]@ == seq![ChestGeneratedData { tier: 1 }],
{
    let mut r: HashMap<u128, Vec<ChestGeneratedData>> = HashMap::new();
    let ghost mut done: Set<u128> = Set::empty();
    proof {
        lemma_set_iteration(chests);
    }
    for id in it: chests.iter()
        invariant
            ids_seen(it.seq(), it.seq().len() as int) == chests@,
            done == ids_seen(it.seq(), it.index()),
            r@.dom() == done,
            forall|c: u128| #[trigger]
                r@.contains_key(c) ==> r@[c]@ == seq![ChestGeneratedData { tier: 1 }],
    {
        proof {
            lemma_ids_seen_step(it.seq(), it.index());
        }
        let mut v: Vec<ChestGeneratedData> = Vec::new();
        v.push(ChestGeneratedData { tier: 1 });
        assert(v@ =~= seq![ChestGeneratedData { tier: 1 }]);
        r.insert(*id, v);
        proof {
            done = done.insert(*id);
        }
    }
    r
}

/// For each item spawn id, one result without loot.
fn new_item_data(items: &HashSet<u128>) -> (r: HashMap<u128, Vec<DungeonItemResult>>)
    ensures
        r@.dom() == items@,
        forall|i: u128| #[trigger]
            r@.contains_key(i) ==> {
                &&& r@[i]@.len() == 1
                &&& r@[i]@[0].loot_table_loot@ == Map::<
                    u128,
                    crate::user_data::dungeon::LootTableResult,
                >::empty()
            },
{
    let mut r: HashMap<u128, Vec<DungeonItemResult>> = HashMap::new();
    let ghost mut done: Set<u128> = Set::empty();
    proof {
        lemma_set_iteration(items);
    }
    for id in it: items.iter()
        invariant
            ids_seen(it.seq(), it.seq().len() as int) == items@,
            done == ids_seen(it.seq(), it.index()),
            r@.dom() == done,
            forall|i: u128| #[trigger]
                r@.contains_key(i) ==> {
                    &&& r@[i]@.len() == 1
                    &&& r@[i]@[0].loot_table_loot@ == Map::<
                        u128,
                        crate::user_data::dungeon::LootTableResult,
                    >::empty()
                },
    {
        proof {
            lemma_ids_seen_step(it.seq(), it.index());
        }
        let mut v: Vec<DungeonItemResult> = Vec::new();
        v.push(DungeonItemResult { loot_table_loot: HashMap::new() });
        r.insert(*id, v);
        proof {
            done = done.insert(*id);
        }
    }
    r
}

/// Why `generate_quest_data` fails for `quest_id`, if it does: the game data
/// has no such quest, or no dungeon under the id the quest names.
pub open spec fn quest_data_error(game_data: GameData, quest_id: u128) -> Option<GenerateQuestDataError> {
    if !game_data.quests@.contains_key(quest_id) {
        Some(GenerateQuestDataError::QuestNotFound(quest_id))
    } else {
        let info = game_data.quests@[quest_id].dungeon_info.unwrap();
        if !game_data.dungeons@.contains_key(info.dungeon_uuid) {
            Some(GenerateQuestDataError::DungeonNotFound(info.dungeon_uuid))
        } else {
            None
        }
    }
}

/// Whether `quest` and `generated` are the new quest `quest_id` and the
/// content of its dungeon, as the game data describes them.
pub open spec fn is_quest_data_of(
    game_data: GameData,
    quest_id: u128,
    quest: Quest,
    generated: Option<DungeonGeneratedData>,
) -> bool {
    let info = game_data.quests@[quest_id].dungeon_info.unwrap();
    &&& is_new_quest(quest, quest_id, info.version, info.objectives@)
    &&& generated is Some
    &&& is_generated_dungeon(
        generated.unwrap(),
        game_data.dungeons@[info.dungeon_uuid].spawn_info,
        info.version,
    )
}

/// What accepting a quest makes, for every quest of the game data whose
/// dungeon exists: a quest not completed, of difficulty -1 and seed 1234, at
/// the version of its dungeon, with every objective of the dungeon active,
/// without progress; and dungeon content of that version (algorithm 1)
/// with, for each enemy spawn group of the dungeon and no other, a single
/// spawner holding exactly as many enemies as the group's quantity, each
/// at level 1 giving 1000 experience and no loot; for each chest spawn a
/// single chest of tier 1; for each item spawn a single result without loot.
pub proof fn lemma_accepted_quest_content(
    game_data: GameData,
    quest_id: u128,
    quest: Quest,
    generated: Option<DungeonGeneratedData>,
)
    requires
        quest_data_error(game_data, quest_id) is None,
        is_quest_data_of(game_data, quest_id, quest, generated),
    ensures
        ({
            let info = game_data.quests@[quest_id].dungeon_info.unwrap();
            let spawn = game_data.dungeons@[info.dungeon_uuid].spawn_info;
            let d = generated.unwrap();
            &&& generated is Some
            &&& !quest.completed && quest.difficulty_level == -1 && quest.seed == 1234
            &&& quest.gld_quest_id == quest_id && quest.version == info.version
            &&& quest.quest_type == QuestType::Normal
            &&& forall|o: u128|
                #[trigger] quest.objectives_statuses@.contains_key(o) <==> info.objectives@.contains(o)
            &&& forall|o: u128|
                #[trigger] quest.objectives_statuses@.contains_key(o) ==> {
                    &&& quest.objectives_statuses@[o].status == QuestStatus::Active
                    &&& quest.objectives_statuses@[o].progress_bits == 0
                    &&& !quest.objectives_statuses@[o].completed
                }
            &&& d.version == info.version && d.algorithm_version == 1
            &&& forall|g: u128|
                #[trigger] d.enemy_generated_data@.contains_key(g)
                    <==> spawn.enemy_spawn_groups@.contains_key(g)
            &&& forall|g: u128|
                #[trigger] spawn.enemy_spawn_groups@.contains_key(g) ==> {
                    &&& d.enemy_generated_data@[g]@.len() == 1
                    &&& d.enemy_generated_data@[g]@[0]@.len() == spawn.enemy_spawn_groups@[g].quantity
                    &&& forall|i: int|
                        0 <= i < spawn.enemy_spawn_groups@[g].quantity ==> {
                            let e = #[trigger] d.enemy_generated_data@[g]@[0]@[i];
                            &&& e.enemy_level == 1 && e.given_xp == 1000
                            &&& e.spawn_group_loot@.len() == 0 && e.loot_table_loot@.len() == 0
                        }
                }
            &&& forall|c: u128|
                #[trigger] d.chest_generated_data@.contains_key(c) <==> spawn.chest@.contains(c)
            &&& forall|c: u128|
                #[trigger] spawn.chest@.contains(c) ==> d.chest_generated_data@[c]@.len() == 1
                    && d.chest_generated_data@[c]@[0].tier == 1
            &&& forall|i: u128|
                #[trigger] d.item_generated_data@.contains_key(i) <==> spawn.item@.contains(i)
            &&& forall|i: u128|
                #[trigger] spawn.item@.contains(i) ==> d.item_generated_data@[i]@.len() == 1
                    && d.item_generated_data@[i]@[0].loot_table_loot@.len() == 0
        }),
{
    let info = game_data.quests@[quest_id].dungeon_info.unwrap();
    let spawn = game_data.dungeons@[info.dungeon_uuid].spawn_info;
    let d = generated.unwrap();
    assert forall|g: u128| #[trigger] spawn.enemy_spawn_groups@.contains_key(g) implies {
        &&& d.enemy_generated_data@[g]@.len() == 1
        &&& d.enemy_generated_data@[g]@[0]@.len() == spawn.enemy_spawn_groups@[g].quantity
        &&& forall|i: int|
            0 <= i < spawn.enemy_spawn_groups@[g].quantity ==> {
                let e = #[trigger] d.enemy_generated_data@[g]@[0]@[i];
                &&& e.enemy_level == 1 && e.given_xp == 1000
                &&& e.spawn_group_loot@.len() == 0 && e.loot_table_loot@.len() == 0
            }
    } by {
        assert(d.enemy_generated_data@.dom().contains(g));
        assert forall|i: int| 0 <= i < spawn.enemy_spawn_groups@[g].quantity implies {
            let e = #[trigger] d.enemy_generated_data@[g]@[0]@[i];
            &&& e.enemy_level == 1 && e.given_xp == 1000
            &&& e.spawn_group_loot@.len() == 0 && e.loot_table_loot@.len() == 0
        } by {
            assert(is_new_enemy(d.enemy_generated_data@[g]@[0]@[i]));
        }
    }
    assert forall|c: u128| #[trigger] spawn.chest@.contains(c) implies d.chest_generated_data@[c]@.len()
        == 1 && d.chest_generated_data@[c]@[0].tier == 1 by {
        assert(d.chest_generated_data@.dom().contains(c));
    }
    assert forall|i: u128| #[trigger] spawn.item@.contains(i) implies d.item_generated_data@[i]@.len()
        == 1 && d.item_generated_data@[i]@[0].loot_table_loot@.len() == 0 by {
        assert(d.item_generated_data@.dom().contains(i));
    }
    assert forall|o: u128| #[trigger] quest.objectives_statuses@.contains_key(o) implies {
        &&& quest.objectives_statuses@[o].status == QuestStatus::Active
        &&& quest.objectives_statuses@[o].progress_bits == 0
        &&& !quest.objectives_statuses@[o].completed
    } by {
        assert(is_new_objective(quest.objectives_statuses@[o]));
    }
}

/// The quest `quest_id` as a character accepts it, and the content of its
/// dungeon.
///
/// Fails with `QuestNotFound` when the game data has no such quest, and with
/// `DungeonNotFound` when it has no dungeon under the id that the quest
/// names. Every quest of the game data is expected to name a dungeon.
pub fn generate_quest_data(game_data: &GameData, quest_id: u128) -> (r: Result<
    (Quest, Option<DungeonGeneratedData>),
    GenerateQuestDataError,
>)
    requires
        game_data.quests@.contains_key(quest_id) ==> game_data.quests@[quest_id].dungeon_info is Some,
    ensures
        match quest_data_error(*game_data, quest_id) {
            Some(e) => r == Err::<(Quest, Option<DungeonGeneratedData>), GenerateQuestDataError>(e),
            None => r matches Ok((quest, generated)) && is_quest_data_of(
                *game_data,
                quest_id,
                quest,
                generated,
            ),
        },
{
    let quest_data = match game_data.quests.get(&quest_id) {
        Some(q) => q,
        None => {
            return Err(GenerateQuestDataError::QuestNotFound(quest_id));
        },
    };
    let dungeon_info = match &quest_data.dungeon_info {
        Some(info) => info,
        None => {
            return Err(GenerateQuestDataError::QuestNotFound(quest_id));
        },
    };
    let quest = Quest {
        completed: false,
        difficulty_level: -1,
        gld_quest_id: quest_id,
        seed: 1234,
        quest_type: QuestType::Normal,
        version: dungeon_info.version,
        objectives_statuses: new_objectives(&dungeon_info.objectives),
    };
    let dungeon = match game_data.dungeons.get(&dungeon_info.dungeon_uuid) {
        Some(d) => d,
        None => {
            return Err(GenerateQuestDataError::DungeonNotFound(dungeon_info.dungeon_uuid));
        },
    };
    let generated_dungeon_data = DungeonGeneratedData {
        enemy_generated_data: new_enemy_data(&dungeon.spawn_info.enemy_spawn_groups),
        chest_generated_data: new_chest_data(&dungeon.spawn_info.chest),
        item_generated_data: new_item_data(&dungeon.spawn_info.item),
        algorithm_version: 1,
        version: dungeon_info.version,
    };
    Ok((quest, Some(generated_dungeon_data)))
}

} // verus!
