//! The in-memory copy of a character's persisted data, written back to the
//! database some seconds after it changes.

use crate::database::{instant_now, spec_plan_persistance};
use crate::saved_data::PersistedCharacterData;
use std::sync::Arc;
use std::time::Instant;
use vstd::prelude::*;

verus! {

/// How long, in seconds, a change to a character waits before it is
/// written to the database.
#[derive(Debug)]
pub struct CharacterFullDataLocalConfig {
    pub write_delay: u32,
}

/// The cached data of one character: the data once it is loaded, when the
/// entry was made, and the time of the oldest change not yet written.
#[derive(Debug)]
pub struct CharacterFullDataLocalEntry {
    pub value: Option<PersistedCharacterData>,
    pub acquired_at: Instant,
    pub first_non_persisted_write_at: Option<Instant>,
    pub config: Arc<CharacterFullDataLocalConfig>,
}

impl CharacterFullDataLocalEntry {
    /// An entry with no data yet and nothing to write.
    pub fn empty(config: Arc<CharacterFullDataLocalConfig>) -> (r: Self)
        ensures
            r.value is None,
            r.first_non_persisted_write_at is None,
            r.config == config,
    {
        Self { value: None, acquired_at: instant_now(), first_non_persisted_write_at: None, config }
    }

    /// Records a change made at `now`. Gives the delay in seconds after
    /// which the data is to be written when this is the first change since
    /// it was last written, and nothing otherwise.
    pub fn plan_persistance(&mut self, now: Instant) -> (delay: Option<u32>)
        ensures
            (final(self).first_non_persisted_write_at, delay) == spec_plan_persistance(
                old(self).first_non_persisted_write_at,
                now,
                old(self).config.write_delay,
            ),
            final(self).value == old(self).value,
            final(self).acquired_at == old(self).acquired_at,
            final(self).config == old(self).config,
    {
        if self.first_non_persisted_write_at.is_none() {
            self.first_non_persisted_write_at = Some(now);
            Some(self.config.write_delay)
        } else {
            None
        }
    }

    /// Records that the data was written: the next change plans a new
    /// write.
    pub fn mark_persisted(&mut self)
        ensures
            final(self).first_non_persisted_write_at is None,
            final(self).value == old(self).value,
            final(self).acquired_at == old(self).acquired_at,
            final(self).config == old(self).config,
    {
        self.first_non_persisted_write_at = None;
    }
}

/// Why a new character is not stored.
#[derive(Clone, Copy, Debug, PartialEq, Eq, Structural)]
pub enum AddCharacterError {
    /// The user already has a character.
    UserAlreadyHasCharacter,
}

/// Whether a new character may be stored for a user of whom the database
/// already holds `existing_characters` characters: only for a user with
/// none.
pub fn check_new_character_allowed(existing_characters: usize) -> (r: Result<(), AddCharacterError>)
    ensures
        r is Ok <==> existing_characters == 0,
        r is Err ==> r == Err::<(), AddCharacterError>(AddCharacterError::UserAlreadyHasCharacter),
{
    if existing_characters > 0 {
        Err(AddCharacterError::UserAlreadyHasCharacter)
    } else {
        Ok(())
    }
}

} // verus!
