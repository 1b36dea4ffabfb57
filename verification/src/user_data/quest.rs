//! Quests of a character.

use crate::view_map;
use std::collections::HashMap;
use vstd::prelude::*;

verus! {

#[derive(Clone, Copy, Debug, PartialEq, Eq, Structural)]
pub enum QuestType {
    Normal,
}

#[derive(Clone, Copy, Debug, PartialEq, Eq, Structural)]
pub enum QuestStatus {
    Active,
}

/// The state of one objective of a quest. `progress_bits` holds the bits of
/// the `f64` progress.
#[derive(Clone, Copy, Debug)]
pub struct ObjectiveStatus {
    pub status: QuestStatus,
    pub progress_bits: u64,
    pub completed: bool,
}

/// A quest that a character took.
#[derive(Debug)]
pub struct Quest {
    pub version: u64,
    pub quest_type: QuestType,
    pub objectives_statuses: HashMap<u128, ObjectiveStatus>,
    pub difficulty_level: i64,
    pub seed: u64,
    pub gld_quest_id: u128,
    pub completed: bool,
}

/// A quest together with its id.
#[derive(Debug)]
pub struct QuestWithId {
    pub quest_id: u128,
    pub quest: Quest,
}

} // verus!
