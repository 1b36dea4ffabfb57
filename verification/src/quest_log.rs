//! The quests of a character as the client is sent them, and the record of
//! a quest the character accepts.

use crate::models::{CharacterDbEntryCharacterAlone, JsonDbWrapper, QuestDbEntry};
use crate::quest_gen::{
    generate_quest_data, is_quest_data_of, quest_data_error, GameData, GenerateQuestDataError,
};
use crate::user_data::dungeon::{DungeonGeneratedData, DungeonGeneratedDataWithId};
use crate::user_data::quest::QuestWithId;
use crate::user_data::CompleteCharacterWithIdWithoutData;
use vstd::prelude::*;

verus! {

broadcast use {vstd::string::group_string_axioms, vstd::std_specs::vec::axiom_spec_into_iter};

/// A pool of jobs: its id (a UUID text), when its current jobs end and when
/// the next start, in seconds since the Unix epoch.
#[derive(Debug)]
pub struct JobPool {
    pub id: String,
    pub end_time: u64,
    pub next_start_time: u64,
}

/// The job pools every character is told of.
pub open spec fn job_pool_table() -> Seq<(Seq<char>, u64, u64)> {
    seq![
        ("4956c6ab-1832-4edd-8bee-561b79f83ee2"@, 1774760400u64, 1774760400u64),
        ("717b3cf5-21d8-4f0c-a7a9-603fe37b8766"@, 1774760400u64, 1774760400u64),
        ("361da91e-6860-4c31-a447-4010cbaad1dd"@, 1774846800u64, 1774846800u64),
        ("9d94baeb-96d4-49e9-bdf6-9f939be836d3"@, 0u64, 1774760400u64),
        ("c5efa81d-18d9-47f3-a0ac-e108c0a50605"@, 0u64, 1774846800u64),
        ("6b2a5baa-f64f-4cfe-8b03-fe7d632ea2f1"@, 0u64, 1774933200u64),
        ("9fcbb01c-13bf-4cd9-916f-25d5faf5314e"@, 0u64, 1775019600u64),
        ("df666a07-3539-426a-916e-ccdba580cb1d"@, 0u64, 1775106000u64),
        ("a4e76931-02bf-4bfb-a472-286e968a03e1"@, 0u64, 1775192400u64),
        ("8501a030-5009-4c73-a864-69c3d7fe6ae5"@, 1774760400u64, 1775278800u64),
    ]
}

/// Whether `pools` are the job pools of `job_pool_table`, in its order.
pub open spec fn are_job_pools(pools: Seq<JobPool>) -> bool {
    &&& pools.len() == job_pool_table().len()
    &&& forall|i: int|
        0 <= i < pools.len() ==> {
            &&& #[trigger] pools[i].id@ == job_pool_table()[i].0
            &&& pools[i].end_time == job_pool_table()[i].1
            &&& pools[i].next_start_time == job_pool_table()[i].2
        }
}

fn push_job_pool(pools: &mut Vec<JobPool>, id: &str, end_time: u64, next_start_time: u64)
    ensures
        final(pools)@.len() == old(pools)@.len() + 1,
        forall|i: int| 0 <= i < old(pools)@.len() ==> #[trigger] final(pools)@[i] == old(pools)@[i],
        final(pools)@[old(pools)@.len() as int].id@ == id@,
        final(pools)@[old(pools)@.len() as int].end_time == end_time,
        final(pools)@[old(pools)@.len() as int].next_start_time == next_start_time,
{
    pools.push(JobPool { id: id.to_string(), end_time, next_start_time });
}

/// The job pools every character is told of: ten pools, in a fixed order.
/// The first three have current jobs that end when their next jobs start,
/// the first two at 1774760400 (seconds since the Unix epoch) and the third
/// a day later. The last seven start one day after another from 1774760400;
/// all but the last of them have no current jobs, and the last one's current
/// jobs end at 1774760400.
pub fn job_pools() -> (r: Vec<JobPool>)
    ensures
        are_job_pools(r@),
        r@.len() == 10,
        r@[0].id@ == "4956c6ab-1832-4edd-8bee-561b79f83ee2"@,
        r@[1].id@ == "717b3cf5-21d8-4f0c-a7a9-603fe37b8766"@,
        r@[2].id@ == "361da91e-6860-4c31-a447-4010cbaad1dd"@,
        r@[3].id@ == "9d94baeb-96d4-49e9-bdf6-9f939be836d3"@,
        r@[4].id@ == "c5efa81d-18d9-47f3-a0ac-e108c0a50605"@,
        r@[5].id@ == "6b2a5baa-f64f-4cfe-8b03-fe7d632ea2f1"@,
        r@[6].id@ == "9fcbb01c-13bf-4cd9-916f-25d5faf5314e"@,
        r@[7].id@ == "df666a07-3539-426a-916e-ccdba580cb1d"@,
        r@[8].id@ == "a4e76931-02bf-4bfb-a472-286e968a03e1"@,
        r@[9].id@ == "8501a030-5009-4c73-a864-69c3d7fe6ae5"@,
        forall|i: int| 0 <= i < 3 ==> #[trigger] r@[i].end_time == r@[i].next_start_time,
        r@[0].next_start_time == 1774760400,
        r@[1].next_start_time == 1774760400,
        r@[2].next_start_time == 1774760400 + 86400,
        forall|i: int|
            3 <= i < 10 ==> #[trigger] r@[i].next_start_time == 1774760400 + 86400 * (i - 3),
        forall|i: int| 3 <= i < 9 ==> #[trigger] r@[i].end_time == 0,
        r@[9].end_time == 1774760400,
{
    let mut r: Vec<JobPool> = Vec::new();
    push_job_pool(&mut r, "4956c6ab-1832-4edd-8bee-561b79f83ee2", 1774760400, 1774760400);
    push_job_pool(&mut r, "717b3cf5-21d8-4f0c-a7a9-603fe37b8766", 1774760400, 1774760400);
    push_job_pool(&mut r, "361da91e-6860-4c31-a447-4010cbaad1dd", 1774846800, 1774846800);
    push_job_pool(&mut r, "9d94baeb-96d4-49e9-bdf6-9f939be836d3", 0, 1774760400);
    push_job_pool(&mut r, "c5efa81d-18d9-47f3-a0ac-e108c0a50605", 0, 1774846800);
    push_job_pool(&mut r, "6b2a5baa-f64f-4cfe-8b03-fe7d632ea2f1", 0, 1774933200);
    push_job_pool(&mut r, "9fcbb01c-13bf-4cd9-916f-25d5faf5314e", 0, 1775019600);
    push_job_pool(&mut r, "df666a07-3539-426a-916e-ccdba580cb1d", 0, 1775106000);
    push_job_pool(&mut r, "a4e76931-02bf-4bfb-a472-286e968a03e1", 0, 1775192400);
    push_job_pool(&mut r, "8501a030-5009-4c73-a864-69c3d7fe6ae5", 1774760400, 1775278800);
    r
}

/// The record of a quest row as the client is sent it.
pub open spec fn quest_with_id(row: QuestDbEntry) -> QuestWithId {
    QuestWithId { quest_id: row.id, quest: row.info.0 }
}

/// The dungeon contents of the quest rows that have one, in the rows'
/// order.
pub open spec fn generated_data_list(rows: Seq<QuestDbEntry>) -> Seq<DungeonGeneratedDataWithId>
    decreases rows.len(),
{
    if rows.len() == 0 {
        Seq::empty()
    } else {
        let last = rows.last();
        let before = generated_data_list(rows.drop_last());
        match last.generated_data.0 {
            Some(inner) => before.push(DungeonGeneratedDataWithId { quest_id: last.id, inner }),
            None => before,
        }
    }
}

/// What the client is answered when it asks for the quests of a character.
/// The jobs and game-event quests are always empty.
#[derive(Debug)]
pub struct GetQuestsResponse {
    pub quests: Vec<QuestWithId>,
    pub dungeon_generated_data_list: Vec<DungeonGeneratedDataWithId>,
    pub jobs: Vec<()>,
    pub character: CompleteCharacterWithIdWithoutData,
    pub job_pools: Vec<JobPool>,
    pub game_event_quests: Vec<()>,
    pub game_event_quests_in_warning: Vec<()>,
    pub game_event_quests_finished: Vec<()>,
}

/// The quests of a character, one per row, and the dungeon contents of
/// those that have one.
pub fn quest_lists(rows: Vec<QuestDbEntry>) -> (r: (Vec<QuestWithId>, Vec<DungeonGeneratedDataWithId>))
    ensures
        r.0@.len() == rows@.len(),
        forall|i: int| 0 <= i < rows@.len() ==> #[trigger] r.0@[i] == quest_with_id(rows@[i]),
        r.1@ == generated_data_list(rows@),
{
    let ghost all = rows@;
    let mut quests: Vec<QuestWithId> = Vec::new();
    let mut generated: Vec<DungeonGeneratedDataWithId> = Vec::new();
    for row in it: rows.into_iter()
        invariant
            it.seq() == all,
            quests@.len() == it.index(),
            forall|i: int| 0 <= i < it.index() ==> #[trigger] quests@[i] == quest_with_id(all[i]),
            generated@ == generated_data_list(all.take(it.index() as int)),
    {
        let ghost k = it.index() as int;
        proof {
            assert(all.take(k + 1).drop_last() =~= all.take(k));
            assert(all.take(k + 1).last() == row);
        }
        let id = row.id;
        quests.push(QuestWithId { quest_id: id, quest: row.info.0 });
        match row.generated_data.0 {
            Some(inner) => {
                generated.push(DungeonGeneratedDataWithId { quest_id: id, inner });
            },
            None => {},
        }
    }
    proof {
        assert(all.take(all.len() as int) =~= all);
    }
    (quests, generated)
}

/// The answer to a request for the quests of the character `character_id`,
/// whose row is `character`, from the character's quest rows.
pub fn get_quests_response(
    character_id: u128,
    character: CharacterDbEntryCharacterAlone,
    rows: Vec<QuestDbEntry>,
) -> (r: GetQuestsResponse)
    ensures
        r.quests@.len() == rows@.len(),
        forall|i: int| 0 <= i < rows@.len() ==> #[trigger] r.quests@[i] == quest_with_id(rows@[i]),
        r.dungeon_generated_data_list@ == generated_data_list(rows@),
        r.character.id == character_id,
        r.character.character == character.character.0,
        are_job_pools(r.job_pools@),
        r.jobs@.len() == 0,
        r.game_event_quests@.len() == 0,
        r.game_event_quests_in_warning@.len() == 0,
        r.game_event_quests_finished@.len() == 0,
{
    let (quests, dungeon_generated_data_list) = quest_lists(rows);
    GetQuestsResponse {
        quests,
        dungeon_generated_data_list,
        jobs: Vec::new(),
        character: CompleteCharacterWithIdWithoutData { id: character_id, character: character.character.0 },
        job_pools: job_pools(),
        game_event_quests: Vec::new(),
        game_event_quests_in_warning: Vec::new(),
        game_event_quests_finished: Vec::new(),
    }
}

/// The row stored when the character `character_id` accepts the quest
/// `quest_id`: the quest and its dungeon content as `generate_quest_data`
/// makes them, and no dungeon state yet.
pub fn new_quest_entry(game_data: &GameData, character_id: u128, quest_id: u128) -> (r: Result<
    QuestDbEntry,
    GenerateQuestDataError,
>)
    requires
        game_data.quests@.contains_key(quest_id) ==> game_data.quests@[quest_id].dungeon_info is Some,
    ensures
        match quest_data_error(*game_data, quest_id) {
            Some(e) => r == Err::<QuestDbEntry, GenerateQuestDataError>(e),
            None => r matches Ok(entry) && {
                &&& entry.id == quest_id
                &&& entry.character_id == character_id
                &&& entry.dungeon_state is None
                &&& is_quest_data_of(*game_data, quest_id, entry.info.0, entry.generated_data.0)
            },
        },
{
    match generate_quest_data(game_data, quest_id) {
        Ok((quest, generated)) => Ok(
            QuestDbEntry {
                id: quest_id,
                character_id,
                info: JsonDbWrapper(quest),
                generated_data: JsonDbWrapper(generated),
                dungeon_state: None,
            },
        ),
        Err(e) => Err(e),
    }
}

/// What the client is answered when it accepted a quest.
#[derive(Debug)]
pub struct AcceptQuestResponse {
    pub quest: QuestWithId,
    pub dungeon_generated_data: Option<DungeonGeneratedDataWithId>,
}

/// The answer for the quest row `entry` that was just stored.
pub fn accept_quest_response(entry: QuestDbEntry) -> (r: AcceptQuestResponse)
    ensures
        r.quest == quest_with_id(entry),
        r.dungeon_generated_data == match entry.generated_data.0 {
            Some(inner) => Some(DungeonGeneratedDataWithId { quest_id: entry.id, inner }),
            None => None,
        },
{
    let id = entry.id;
    AcceptQuestResponse {
        quest: QuestWithId { quest_id: id, quest: entry.info.0 },
        dungeon_generated_data: match entry.generated_data.0 {
            Some(inner) => Some(DungeonGeneratedDataWithId { quest_id: id, inner }),
            None => None,
        },
    }
}

} // verus!
