//! The record store, seen from the caller's side: which statement each
//! operation sends, and what each answer of the store means.
//!
//! The store itself is reached by whoever runs the statements. Nothing here
//! waits for it: each function either builds a statement or reads an answer.

use crate::change::FieldChange;
use crate::character::{decode, Character, CharacterView};
use crate::error::Error;
use crate::row::{rows_view, RowView};
use crate::statement::{Outcome, OutcomeView, Statement, StatementView};
use vstd::prelude::*;

verus! {

/// The characters of a list, as plain values, in the order of the list.
pub open spec fn characters_view(characters: Seq<Character>) -> Seq<CharacterView> {
    characters.map_values(|character: Character| character@)
}

/// What the answer to a fetch by name means: the record, if a row came and
/// reads as a character.
pub open spec fn reading_one(outcome: OutcomeView) -> Result<CharacterView, Error> {
    match outcome {
        OutcomeView::Rows(rows) => if rows.len() == 0 {
            Err(Error::NotFound)
        } else {
            match decode(rows[0]) {
                Some(character) => Ok(character),
                None => Err(Error::CorruptRecord),
            }
        },
        _ => Err(Error::StorageError),
    }
}

/// Every row of the list reads as a character.
pub open spec fn all_readable(rows: Seq<RowView>) -> bool {
    forall|i: int| 0 <= i < rows.len() ==> (#[trigger] decode(rows[i])) is Some
}

/// What the answer to a fetch of all records means: the characters, in the
/// order of the rows, if every row reads as a character.
pub open spec fn reading_all(outcome: OutcomeView) -> Result<Seq<CharacterView>, Error> {
    match outcome {
        OutcomeView::Rows(rows) => if all_readable(rows) {
            Ok(rows.map_values(|row: RowView| decode(row)->0))
        } else {
            Err(Error::CorruptRecord)
        },
        _ => Err(Error::StorageError),
    }
}

/// What the answer to an insert or an update means.
pub open spec fn writing(outcome: OutcomeView) -> Result<(), Error> {
    match outcome {
        OutcomeView::Done(_) => Ok(()),
        OutcomeView::Duplicate => Err(Error::DuplicateKey),
        _ => Err(Error::StorageError),
    }
}

/// What the answer to the existence check before a change means: whether
/// the record is there, or why that is not known.
pub open spec fn existence(lookup: OutcomeView) -> Result<(), Error> {
    match lookup {
        OutcomeView::Rows(rows) => if rows.len() == 0 {
            Err(Error::NotFound)
        } else {
            Ok(())
        },
        _ => Err(Error::StorageUnavailable),
    }
}

impl Character {
    /// The statement that stores this character as a new record.
    pub fn add_to_database(self) -> (statement: Statement)
        ensures
            statement@ == StatementView::Insert(self@),
    {
        Statement::Insert(self)
    }
}

/// The statement that fetches the record of one name.
pub fn fetch_one(name: &str) -> (statement: Statement)
    ensures
        statement@ == StatementView::SelectByName(name@),
{
    Statement::SelectByName(name.to_owned())
}

/// The statement that fetches every record.
pub fn fetch_all() -> (statement: Statement)
    ensures
        statement@ == StatementView::SelectAll,
{
    Statement::SelectAll
}

/// Reads the answer to an insert: done, refused because the name is taken,
/// or failed.
pub fn inserted(outcome: &Outcome) -> (result: Result<(), Error>)
    ensures
        result == writing(outcome@),
{
    match outcome {
        Outcome::Done(_) => Ok(()),
        Outcome::Duplicate => Err(Error::DuplicateKey),
        _ => Err(Error::StorageError),
    }
}

/// Reads the answer to an update: done, refused because the new name is
/// taken, or failed.
pub fn changed(outcome: &Outcome) -> (result: Result<(), Error>)
    ensures
        result == writing(outcome@),
{
    match outcome {
        Outcome::Done(_) => Ok(()),
        Outcome::Duplicate => Err(Error::DuplicateKey),
        _ => Err(Error::StorageError),
    }
}

/// Reads the answer to a fetch by name. No row means that no record has the
/// name; a row that breaks a field's constraint is reported as corrupt; an
/// answer that is no list of rows is a failure of the store.
pub fn read_character(outcome: &Outcome) -> (result: Result<Character, Error>)
    ensures
        match result {
            Ok(character) => reading_one(outcome@) == Ok::<CharacterView, Error>(character@),
            Err(e) => reading_one(outcome@) == Err::<CharacterView, Error>(e),
        },
{
    match outcome {
        Outcome::Rows(rows) => {
            if rows.len() == 0 {
                Err(Error::NotFound)
            } else {
                Character::from_row(&rows[0])
            }
        },
        _ => Err(Error::StorageError),
    }
}

/// Reads the answer to a fetch of all records, in the order in which the
/// store gave them. One corrupt row fails the whole answer.
pub fn read_all(outcome: &Outcome) -> (result: Result<Vec<Character>, Error>)
    ensures
        match result {
            Ok(characters) => reading_all(outcome@) == Ok::<Seq<CharacterView>, Error>(
                characters_view(characters@),
            ),
            Err(e) => reading_all(outcome@) == Err::<Seq<CharacterView>, Error>(e),
        },
{
    match outcome {
        Outcome::Rows(rows) => {
            let ghost views = rows_view(rows@);
            let mut characters: Vec<Character> = Vec::new();
            let mut i: usize = 0;
            while i < rows.len()
                invariant
                    i <= rows.len(),
                    views == rows_view(rows@),
                    outcome@ == OutcomeView::Rows(views),
                    characters.len() == i,
                    forall|j: int| 0 <= j < i ==> decode(views[j]) == Some(#[trigger] characters[j]@),
                decreases rows.len() - i,
            {
                match Character::from_row(&rows[i]) {
                    Ok(character) => {
                        characters.push(character);
                    },
                    Err(e) => {
                        assert(decode(views[i as int]) is None);
                        assert(!all_readable(views));
                        return Err(e);
                    },
                }
                i = i + 1;
            }
            proof {
                assert forall|j: int| 0 <= j < views.len() implies (#[trigger] decode(
                    views[j],
                )) is Some by {
                    assert(decode(views[j]) == Some(characters[j]@));
                }
                assert(characters_view(characters@) =~= views.map_values(
                    |row: RowView| decode(row)->0,
                ));
            }
            Ok(characters)
        },
        _ => Err(Error::StorageError),
    }
}

/// Decides on the update of one field once the store has answered whether
/// the record exists.
///
/// Only a found record is updated. A record that is not there, and a store
/// that did not answer, are told apart: the first is [`Error::NotFound`],
/// the second [`Error::StorageUnavailable`]. In both cases no statement is
/// made, so nothing is sent that could change the store.
pub fn change_character_value(name: &str, change: FieldChange, lookup: &Outcome) -> (result: Result<
    Statement,
    Error,
>)
    ensures
        match result {
            Ok(statement) => existence(lookup@) is Ok && statement@ == (StatementView::Update {
                name: name@,
                change: change@,
            }),
            Err(e) => existence(lookup@) == Err::<(), Error>(e),
        },
{
    match lookup {
        Outcome::Rows(rows) => {
            if rows.len() == 0 {
                Err(Error::NotFound)
            } else {
                Ok(Statement::Update { name: name.to_owned(), change })
            }
        },
        _ => Err(Error::StorageUnavailable),
    }
}

} // verus!
