//! The dungeons of a character, and what entering a quest's dungeon does to
//! its saved state.

use crate::models::QuestDbEntryDungeonStateAndInitialState;
use crate::user_data::dungeon::{DungeonState, DungeonStatus};
use crate::user_data::B64EncodedData;
use std::collections::HashMap;
use vstd::prelude::*;

verus! {

broadcast use vstd::std_specs::vec::axiom_spec_into_iter;

/// One dungeon that a character is in: the quest, the dungeon instance the
/// client sent on first entry, and the dungeon's status.
#[derive(Debug)]
pub struct DungeonResponseEntry {
    pub quest_id: u128,
    pub initial_state: B64EncodedData,
    pub status: DungeonStatus,
}

/// The dungeons a character is in.
#[derive(Debug)]
pub struct DungeonResponse {
    pub dungeons: Vec<DungeonResponseEntry>,
}

/// Whether a quest row holds both a dungeon state and an initial state (the
/// rows the dungeon listing selects).
pub open spec fn is_entered_dungeon_row(row: QuestDbEntryDungeonStateAndInitialState) -> bool {
    row.dungeon_state is Some && row.initial_state is Some
}

/// The listing entry of such a row.
pub open spec fn dungeon_entry_of(row: QuestDbEntryDungeonStateAndInitialState) -> DungeonResponseEntry {
    DungeonResponseEntry {
        quest_id: row.id,
        initial_state: row.initial_state.unwrap().0,
        status: row.dungeon_state.unwrap().0.dungeon_status,
    }
}

/// The listing of the dungeons a character is in, one entry per quest row,
/// in the rows' order.
pub fn dungeon_response(rows: Vec<QuestDbEntryDungeonStateAndInitialState>) -> (r: DungeonResponse)
    requires
        forall|i: int| 0 <= i < rows@.len() ==> #[trigger] is_entered_dungeon_row(rows@[i]),
    ensures
        r.dungeons@.len() == rows@.len(),
        forall|i: int|
            0 <= i < rows@.len() ==> #[trigger] r.dungeons@[i] == dungeon_entry_of(rows@[i]),
{
    let ghost all = rows@;
    let mut dungeons: Vec<DungeonResponseEntry> = Vec::new();
    for row in it: rows.into_iter()
        invariant
            it.seq() == all,
            forall|i: int| 0 <= i < all.len() ==> #[trigger] is_entered_dungeon_row(all[i]),
            dungeons@.len() == it.index(),
            forall|i: int| 0 <= i < it.index() ==> #[trigger] dungeons@[i] == dungeon_entry_of(all[i]),
    {
        assert(is_entered_dungeon_row(all[it.index() as int]));
        let initial_state = row.initial_state.unwrap().0;
        let status = row.dungeon_state.unwrap().0.dungeon_status;
        dungeons.push(DungeonResponseEntry { quest_id: row.id, initial_state, status });
    }
    DungeonResponse { dungeons }
}

/// The level, seed and versions every new dungeon run starts with.
pub open spec fn is_fresh_status(
    status: DungeonStatus,
    dungeon_uuid: u128,
    current_state: B64EncodedData,
) -> bool {
    &&& status.dungeon_settings_ids@ == seq![dungeon_uuid]
    &&& status.revive_count == 0
    &&& status.algorithm_version == 1
    &&& status.current_state == current_state
    &&& status.seed == 54321
    &&& status.level == 1
    &&& status.version == 1
    &&& status.enemy_status@ == Map::<crate::user_data::dungeon::EnemyIndex, crate::user_data::dungeon::EnemyStatus>::empty()
}

/// What entering the dungeon of a quest does to the quest's saved dungeon
/// state. On first entry (the client sends its dungeon instance) there is no
/// saved state yet, and a fresh run of the quest's dungeon `dungeon_uuid`
/// starts from the client's `current_state`. On re-entry the saved state is
/// kept, with the client's `current_state` in place of the old one. The
/// result is both what is saved and what the client is answered.
pub fn enter_dungeon(
    dungeon_uuid: u128,
    saved: Option<DungeonState>,
    first_entry: bool,
    current_state: B64EncodedData,
) -> (r: DungeonState)
    requires
        first_entry ==> saved is None,
        !first_entry ==> saved is Some,
    ensures
        first_entry ==> is_fresh_status(r.dungeon_status, dungeon_uuid, current_state),
        first_entry ==> r.dungeon_status.seed == 54321 && r.dungeon_status.level == 1,
        first_entry ==> r.dungeon_status.version == 1 && r.dungeon_status.algorithm_version == 1,
        first_entry ==> r.dungeon_status.revive_count == 0,
        first_entry ==> r.dungeon_status.dungeon_settings_ids@.len() == 1
            && r.dungeon_status.dungeon_settings_ids@[0] == dungeon_uuid,
        first_entry ==> r.dungeon_status.enemy_status@.dom().is_empty(),
        first_entry ==> r.dungeon_status.current_state == current_state,
        !first_entry ==> ({
            let old_status = saved.unwrap().dungeon_status;
            r.dungeon_status == DungeonStatus { current_state, ..old_status }
        }),
{
    match saved {
        Some(state) => {
            let mut state = state;
            state.dungeon_status.current_state = current_state;
            state
        },
        None => {
            let mut ids: Vec<u128> = Vec::new();
            ids.push(dungeon_uuid);
            DungeonState {
                dungeon_status: DungeonStatus {
                    dungeon_settings_ids: ids,
                    revive_count: 0,
                    algorithm_version: 1,
                    current_state,
                    seed: 54321,
                    level: 1,
                    version: 1,
                    enemy_status: HashMap::new(),
                },
            }
        },
    }
}

/// Re-entering keeps a run as it started: a fresh run of a dungeon that
/// is re-entered with a new current state is the fresh run of that dungeon
/// from the new state.
pub proof fn lemma_reentry_keeps_fresh_run(
    status: DungeonStatus,
    dungeon_uuid: u128,
    first_state: B64EncodedData,
    later_state: B64EncodedData,
)
    requires
        is_fresh_status(status, dungeon_uuid, first_state),
    ensures
        is_fresh_status(
            DungeonStatus { current_state: later_state, ..status },
            dungeon_uuid,
            later_state,
        ),
{
}

} // verus!
