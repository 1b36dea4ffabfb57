//! Changes of a character's free-form data: which JSON fields a request
//! changes, and when the change is refused.

use vstd::prelude::*;

verus! {

/// A field of a character's data that the client may change.
#[derive(Clone, Copy, Debug, PartialEq, Eq, Structural)]
pub enum DataField {
    NewFlags,
    Dialog,
}

impl DataField {
    /// The key of the field in the stored JSON document.
    pub fn key(&self) -> (r: &'static str)
        ensures
            *self == DataField::NewFlags ==> r@ == "new-flags"@,
            *self == DataField::Dialog ==> r@ == "dialog"@,
    {
        match self {
            DataField::NewFlags => "new-flags",
            DataField::Dialog => "dialog",
        }
    }
}

/// Why a data change is refused.
#[derive(Clone, Copy, Debug, PartialEq, Eq, Structural)]
pub enum DataUpdateError {
    /// No character of the session's user has the id
    /// (HTTP 400, service 1003, error 2).
    CharacterNotUpdated,
}

impl DataUpdateError {
    /// The HTTP status, service code and error code the client is sent.
    pub fn codes(&self) -> (r: (u16, u64, u64))
        ensures
            r == (400u16, 1003u64, 2u64),
    {
        match self {
            DataUpdateError::CharacterNotUpdated => (400, 1003, 2),
        }
    }
}

/// The fields a request changes, in the order they are written: the new
/// flags, then the dialog. None at all means the request is answered
/// without touching the database.
pub fn fields_to_update(has_new_flags: bool, has_dialog: bool) -> (r: Vec<DataField>)
    ensures
        r@ == (if has_new_flags { seq![DataField::NewFlags] } else { Seq::empty() }) + (if has_dialog {
            seq![DataField::Dialog]
        } else {
            Seq::empty()
        }),
{
    let mut r: Vec<DataField> = Vec::new();
    if has_new_flags {
        r.push(DataField::NewFlags);
    }
    if has_dialog {
        r.push(DataField::Dialog);
    }
    assert(r@ =~= (if has_new_flags { seq![DataField::NewFlags] } else { Seq::empty() }) + (
    if has_dialog {
        seq![DataField::Dialog]
    } else {
        Seq::empty()
    }));
    r
}

/// Whether writing a field changed the character: the update must have
/// matched a row (one of the session's user with that id).
pub fn check_updated_rows(rows: usize) -> (r: Result<(), DataUpdateError>)
    ensures
        r is Ok <==> rows > 0,
        r is Err ==> r == Err::<(), DataUpdateError>(DataUpdateError::CharacterNotUpdated),
{
    if rows == 0 {
        Err(DataUpdateError::CharacterNotUpdated)
    } else {
        Ok(())
    }
}

} // verus!
