//! The schema versions of the server's database and the steps that bring an
//! older schema to the current one.
//!
//! The database keeps its schema version as decimal text in the `globals`
//! table. The server reads it, applies the steps one at a time (each in a
//! transaction that also records the new version) and refuses to start on a
//! version that it cannot bring to the current one.

use crate::text::{dec_text, lemma_parse_dec_text, parse_unsigned, spec_parse_unsigned};
use vstd::prelude::*;

verus! {

/// The schema version the server works with.
pub const EXPECTED_FINAL_VERSION: u64 = 3;

/// The version a database starts at when it has no `globals` table yet.
pub const INITIAL_VERSION: u64 = 1;

/// One schema change.
#[derive(Clone, Copy, Debug, PartialEq, Eq, Structural)]
pub enum MigrationStep {
    /// Version 1 to 2: the table of user accounts.
    CreateUsersTable,
    /// Version 2 to 3: the table of characters.
    CreateCharactersTable,
}

/// What the lookup of the stored version found.
#[derive(Debug)]
pub enum VersionLookup {
    /// The `version` row, with its text.
    Found(String),
    /// The `globals` table exists but has no `version` row.
    NoVersionRow,
    /// There is no `globals` table: the database is new.
    NoGlobalsTable,
}

/// Why the database cannot be brought to the current schema.
#[derive(Clone, Copy, Debug, PartialEq, Eq, Structural)]
pub enum MigrationError {
    /// The stored version is not a decimal `u64`.
    UnparsableVersion,
    /// The `globals` table has no `version` row.
    NoVersionRow,
    /// The version reached is not the one the server works with.
    UnexpectedFinalVersion(u64),
}

/// Where migration starts.
#[derive(Clone, Copy, Debug, PartialEq, Eq, Structural)]
pub struct StartingPoint {
    /// The schema version the database is at.
    pub version: u64,
    /// Whether the `globals` table must first be made, holding that version.
    pub create_globals: bool,
}

/// What the server does next, at a given version.
#[derive(Clone, Copy, Debug, PartialEq, Eq, Structural)]
pub enum MigrationDecision {
    /// Apply `step`, then record `new_version`.
    Apply { step: MigrationStep, new_version: u64 },
    /// The schema is current.
    Finished,
    /// No step applies and the schema is not current.
    Refuse,
}

/// The starting point for what the version lookup found.
pub open spec fn spec_starting_point(found: Option<Seq<char>>, has_globals: bool) -> Result<
    StartingPoint,
    MigrationError,
> {
    if !has_globals {
        Ok(StartingPoint { version: INITIAL_VERSION, create_globals: true })
    } else {
        match found {
            None => Err(MigrationError::NoVersionRow),
            Some(text) => match spec_parse_unsigned(text, u64::MAX as int) {
                Some(v) => Ok(StartingPoint { version: v as u64, create_globals: false }),
                None => Err(MigrationError::UnparsableVersion),
            },
        }
    }
}

/// The lookup's parts as `spec_starting_point` takes them.
pub open spec fn lookup_found(lookup: VersionLookup) -> Option<Seq<char>> {
    match lookup {
        VersionLookup::Found(text) => Some(text@),
        _ => None,
    }
}

pub open spec fn lookup_has_globals(lookup: VersionLookup) -> bool {
    !(lookup is NoGlobalsTable)
}

/// Where migration starts, given what the version lookup found: a new
/// database starts at version 1 with its `globals` table still to make;
/// otherwise the stored text must be a decimal `u64`.
pub fn starting_point(lookup: &VersionLookup) -> (r: Result<StartingPoint, MigrationError>)
    ensures
        r == spec_starting_point(lookup_found(*lookup), lookup_has_globals(*lookup)),
{
    match lookup {
        VersionLookup::NoGlobalsTable => Ok(
            StartingPoint { version: INITIAL_VERSION, create_globals: true },
        ),
        VersionLookup::NoVersionRow => Err(MigrationError::NoVersionRow),
        VersionLookup::Found(text) => match parse_unsigned(text.as_str(), u64::MAX) {
            Some(v) => Ok(StartingPoint { version: v, create_globals: false }),
            None => Err(MigrationError::UnparsableVersion),
        },
    }
}

/// The decision at `version`.
pub open spec fn spec_next_migration(version: u64) -> MigrationDecision {
    if version == 1 {
        MigrationDecision::Apply { step: MigrationStep::CreateUsersTable, new_version: 2 }
    } else if version == 2 {
        MigrationDecision::Apply { step: MigrationStep::CreateCharactersTable, new_version: 3 }
    } else if version == EXPECTED_FINAL_VERSION {
        MigrationDecision::Finished
    } else {
        MigrationDecision::Refuse
    }
}

/// What the server does next at schema `version`.
pub fn next_migration(version: u64) -> (r: MigrationDecision)
    ensures
        r == spec_next_migration(version),
{
    if version == 1 {
        MigrationDecision::Apply { step: MigrationStep::CreateUsersTable, new_version: 2 }
    } else if version == 2 {
        MigrationDecision::Apply { step: MigrationStep::CreateCharactersTable, new_version: 3 }
    } else if version == EXPECTED_FINAL_VERSION {
        MigrationDecision::Finished
    } else {
        MigrationDecision::Refuse
    }
}

/// The SQL statement of a step.
pub fn migration_sql(step: MigrationStep) -> (r: &'static str)
    ensures
        step == MigrationStep::CreateUsersTable ==> r@
            == "CREATE TABLE users (id UUID PRIMARY KEY, data JSONB)"@,
        step == MigrationStep::CreateCharactersTable ==> r@
            == "CREATE TABLE characters (id UUID PRIMARY KEY, data JSONB)"@,
{
    match step {
        MigrationStep::CreateUsersTable => "CREATE TABLE users (id UUID PRIMARY KEY, data JSONB)",
        MigrationStep::CreateCharactersTable => {
            "CREATE TABLE characters (id UUID PRIMARY KEY, data JSONB)"
        },
    }
}

/// The steps taken from `version` and the version where they stop, when
/// decisions are followed for at most `fuel` steps; `None` if the server
/// refuses on the way.
pub open spec fn spec_run_migrations(version: u64, fuel: nat) -> Option<(Seq<MigrationStep>, u64)>
    decreases fuel,
{
    match spec_next_migration(version) {
        MigrationDecision::Finished => Some((Seq::empty(), version)),
        MigrationDecision::Refuse => None,
        MigrationDecision::Apply { step, new_version } => if fuel == 0 {
            None
        } else {
            match spec_run_migrations(new_version, (fuel - 1) as nat) {
                Some((steps, last)) => Some((seq![step].add(steps), last)),
                None => None,
            }
        },
    }
}

/// Migration ends at the current schema from every version up to it, after
/// exactly the steps from that version on, and every other version is
/// refused before any step.
pub proof fn lemma_migration_reaches_final_version(version: u64)
    ensures
        1 <= version <= EXPECTED_FINAL_VERSION ==> spec_run_migrations(version, 2) == Some(
            (
                seq![MigrationStep::CreateUsersTable, MigrationStep::CreateCharactersTable].subrange(
                    version - 1,
                    2,
                ),
                EXPECTED_FINAL_VERSION,
            ),
        ),
        !(1 <= version <= EXPECTED_FINAL_VERSION) ==> spec_next_migration(version)
            == MigrationDecision::Refuse,
{
    reveal_with_fuel(spec_run_migrations, 3);
    let all = seq![MigrationStep::CreateUsersTable, MigrationStep::CreateCharactersTable];
    assert(all.subrange(0, 2) =~= all);
    assert(all.subrange(1, 2) =~= seq![MigrationStep::CreateCharactersTable]);
    assert(all.subrange(2, 2) =~= Seq::<MigrationStep>::empty());
    assert(seq![MigrationStep::CreateCharactersTable].add(Seq::<MigrationStep>::empty()) =~= seq![MigrationStep::CreateCharactersTable]);
    assert(seq![MigrationStep::CreateUsersTable].add(seq![MigrationStep::CreateCharactersTable]) =~= all);
}

/// Migration is idempotent: on a database already at the current version
/// (its version row holding that version's decimal text, as a migration
/// writes it), migration starts at that version, makes no `globals` table,
/// takes no step and finishes there.
pub proof fn lemma_migration_idempotent(fuel: nat)
    ensures
        spec_starting_point(Some(dec_text(EXPECTED_FINAL_VERSION as nat)), true) == Ok::<
            StartingPoint,
            MigrationError,
        >((StartingPoint { version: EXPECTED_FINAL_VERSION, create_globals: false })),
        spec_run_migrations(EXPECTED_FINAL_VERSION, fuel) == Some(
            (Seq::<MigrationStep>::empty(), EXPECTED_FINAL_VERSION),
        ),
{
    lemma_parse_dec_text(EXPECTED_FINAL_VERSION as nat, u64::MAX as int);
}

} // verus!
