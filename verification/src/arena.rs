//! The arena: a character's avatar and the leaderboards.

use crate::models::CharacterDbEntryCharacterAlone;
use crate::user_data::{CompleteCharacter, CompleteCharacterWithIdWithoutData};
use vstd::prelude::*;

verus! {

/// What the client is answered when it set its avatar: the character as it
/// now is.
#[derive(Debug)]
pub struct SetAvatarResponse {
    pub character: CompleteCharacterWithIdWithoutData,
}

/// Sets the avatar icon of the character in `row` to `avatar_icon_id`;
/// nothing else of the row changes.
pub fn set_avatar(row: &mut CharacterDbEntryCharacterAlone, avatar_icon_id: u128)
    ensures
        final(row).id == old(row).id,
        final(row).user_id == old(row).user_id,
        final(row).character.0 == (CompleteCharacter {
            avatar_icon_id: Some(avatar_icon_id),
            ..old(row).character.0
        }),
{
    row.character.0.avatar_icon_id = Some(avatar_icon_id);
}

/// The answer for the character `character_id` after its avatar was set.
pub fn set_avatar_response(character_id: u128, character: CompleteCharacter) -> (r: SetAvatarResponse)
    ensures
        r.character.id == character_id,
        r.character.character == character,
{
    SetAvatarResponse { character: CompleteCharacterWithIdWithoutData { id: character_id, character } }
}

/// A page of a leaderboard.
#[derive(Debug)]
pub struct InnerLeaderboardResult {
    pub total_entries: u64,
    pub current_page: u64,
    pub total_pages: u64,
    pub entries: Vec<()>,
}

#[derive(Debug)]
pub struct LeaderboardResult {
    pub leaderboard: InnerLeaderboardResult,
}

/// The leaderboard every character is shown: empty, no page.
pub fn empty_leaderboard() -> (r: LeaderboardResult)
    ensures
        r.leaderboard.total_entries == 0,
        r.leaderboard.current_page == 0,
        r.leaderboard.total_pages == 0,
        r.leaderboard.entries@.len() == 0,
{
    LeaderboardResult {
        leaderboard: InnerLeaderboardResult {
            total_entries: 0,
            current_page: 0,
            total_pages: 0,
            entries: Vec::new(),
        },
    }
}

} // verus!
