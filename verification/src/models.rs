//! The rows of the server's database tables, and the check that a session
//! may see the character a query found.

use crate::session::Session;
use crate::user_data::backpack::CompleteInventory;
use crate::user_data::dungeon::{DungeonGeneratedData, DungeonState};
use crate::user_data::quest::Quest;
use crate::user_data::{B64EncodedData, CompleteCharacter, CompleteCharacterData, UserAccount};
use vstd::prelude::*;

verus! {

broadcast use vstd::string::group_string_axioms;

/// A value stored in a JSON (or JSONB) column.
#[derive(Debug)]
pub struct JsonDbWrapper<T: std::fmt::Debug>(pub T);

/// The wallet of a character, held as the text of its JSON document.
#[derive(Debug)]
pub struct CompleteWallet {
    pub json: String,
}

impl Default for CompleteWallet {
    /// An empty JSON object.
    fn default() -> (r: Self)
        ensures
            r.json@ == "{}"@,
    {
        CompleteWallet { json: "{}".to_string() }
    }
}

/// A row of the `users` table.
#[derive(Debug)]
pub struct UserDBEntry {
    pub id: u128,
    /// The user id that the client is told; it stays secret.
    pub secret_id: u128,
    pub data: JsonDbWrapper<UserAccount>,
}

/// A row of the `characters` table.
#[derive(Debug)]
pub struct CharacterDbEntry {
    pub id: u128,
    pub user_id: u128,
    pub character: JsonDbWrapper<CompleteCharacter>,
    pub data: JsonDbWrapper<CompleteCharacterData>,
    pub wallet: JsonDbWrapper<CompleteWallet>,
    pub inventory: JsonDbWrapper<CompleteInventory>,
}

#[derive(Debug)]
pub struct CharacterDbEntryCharacterAlone {
    pub id: u128,
    pub user_id: u128,
    pub character: JsonDbWrapper<CompleteCharacter>,
}

#[derive(Debug)]
pub struct CharacterDbEntryCharacterAndData {
    pub id: u128,
    pub user_id: u128,
    pub character: JsonDbWrapper<CompleteCharacter>,
    pub data: JsonDbWrapper<CompleteCharacterData>,
}

#[derive(Debug)]
pub struct CharacterDbEntryWallet {
    pub user_id: u128,
    pub character: JsonDbWrapper<CompleteCharacter>,
    pub wallet: JsonDbWrapper<CompleteWallet>,
}

#[derive(Debug)]
pub struct CharacterDbEntryInventory {
    pub user_id: u128,
    pub inventory: JsonDbWrapper<CompleteInventory>,
}

#[derive(Debug)]
pub struct CharacterDbAlone {
    pub id: u128,
    pub user_id: u128,
}

/// A row of the `quests` table: a quest that a character took.
#[derive(Debug)]
pub struct QuestDbEntry {
    pub id: u128,
    pub character_id: u128,
    pub info: JsonDbWrapper<Quest>,
    pub generated_data: JsonDbWrapper<Option<DungeonGeneratedData>>,
    pub dungeon_state: Option<JsonDbWrapper<DungeonState>>,
}

#[derive(Debug)]
pub struct QuestDbEntryDungeonState {
    pub id: u128,
    pub dungeon_state: Option<JsonDbWrapper<DungeonState>>,
}

#[derive(Debug)]
pub struct QuestDbEntryDungeonStateAndInitialState {
    pub id: u128,
    pub dungeon_state: Option<JsonDbWrapper<DungeonState>>,
    pub initial_state: Option<JsonDbWrapper<B64EncodedData>>,
}

/// A row that belongs to a user.
pub trait CharacterHolder {
    /// The user the row belongs to.
    spec fn owner(&self) -> u128;

    fn get_user_id(&self) -> (r: u128)
        ensures
            r == self.owner(),
    ;
}

impl CharacterHolder for CharacterDbEntryCharacterAlone {
    open spec fn owner(&self) -> u128 {
        self.user_id
    }

    fn get_user_id(&self) -> (r: u128) {
        self.user_id
    }
}

impl CharacterHolder for CharacterDbEntryCharacterAndData {
    open spec fn owner(&self) -> u128 {
        self.user_id
    }

    fn get_user_id(&self) -> (r: u128) {
        self.user_id
    }
}

impl CharacterHolder for CharacterDbEntryWallet {
    open spec fn owner(&self) -> u128 {
        self.user_id
    }

    fn get_user_id(&self) -> (r: u128) {
        self.user_id
    }
}

impl CharacterHolder for CharacterDbEntryInventory {
    open spec fn owner(&self) -> u128 {
        self.user_id
    }

    fn get_user_id(&self) -> (r: u128) {
        self.user_id
    }
}

impl CharacterHolder for CharacterDbAlone {
    open spec fn owner(&self) -> u128 {
        self.user_id
    }

    fn get_user_id(&self) -> (r: u128) {
        self.user_id
    }
}

/// Why a session may not have the character a query found.
#[derive(Clone, Copy, Debug, PartialEq, Eq, Structural)]
pub enum CharacterAccessError {
    /// The query found more than one character (an internal error).
    MoreThanOneCharacter,
    /// The query found no character.
    CharacterNotFound,
    /// The character belongs to another user.
    Unauthorized,
}

impl CharacterAccessError {
    /// The HTTP status, service code and error code the client is sent;
    /// none for `Unauthorized`, which gets the service's usual answer to
    /// an unauthorized request.
    pub fn codes(&self) -> (r: Option<(u16, u64, u64)>)
        ensures
            *self == CharacterAccessError::MoreThanOneCharacter ==> r == Some((500u16, 1u64, 100u64)),
            *self == CharacterAccessError::CharacterNotFound ==> r == Some((404u16, 20000u64, 2u64)),
            *self == CharacterAccessError::Unauthorized ==> r is None,
    {
        match self {
            CharacterAccessError::MoreThanOneCharacter => Some((500, 1, 100)),
            CharacterAccessError::CharacterNotFound => Some((404, 20000, 2)),
            CharacterAccessError::Unauthorized => None,
        }
    }
}

/// The one character that a query found, when it belongs to the user of
/// `session`.
pub fn get_only_single_character_and_check_permission<T: CharacterHolder>(
    v: Vec<T>,
    session: &Session,
) -> (r: Result<T, CharacterAccessError>)
    ensures
        v@.len() > 1 ==> r == Err::<T, CharacterAccessError>(
            CharacterAccessError::MoreThanOneCharacter,
        ),
        v@.len() == 0 ==> r == Err::<T, CharacterAccessError>(
            CharacterAccessError::CharacterNotFound,
        ),
        v@.len() == 1 && v@[0].owner() != session.user_id ==> r == Err::<T, CharacterAccessError>(
            CharacterAccessError::Unauthorized,
        ),
        v@.len() == 1 && v@[0].owner() == session.user_id ==> r == Ok::<T, CharacterAccessError>(
            v@[0],
        ),
{
    if v.len() > 1 {
        return Err(CharacterAccessError::MoreThanOneCharacter);
    }
    let mut v = v;
    let first = match v.pop() {
        Some(first) => first,
        None => {
            return Err(CharacterAccessError::CharacterNotFound);
        },
    };
    if first.get_user_id() != session.user_id {
        return Err(CharacterAccessError::Unauthorized);
    }
    Ok(first)
}

} // verus!
