//! Requests carried out from end to end against the store in memory, and
//! what holds of every such request.
//!
//! Each function runs the steps that a front end runs against any store:
//! decide, send the statement, read the answer. The four operations of the
//! store take typed values; the three requests take raw text and validate it
//! first.

use crate::change::{ChangeView, CharacterChangeBody, FieldChange};
use crate::character::{decode, encode, lemma_decode_encode, Character, CharacterView};
use crate::column::Column;
use crate::error::Error;
use crate::handlers::{
    change_plan, handle_adding_character, handle_changing_character, handle_read_command,
    read_plan, AddView, CharacterAddBody,
};
use crate::row::RowView;
use crate::statement::{lemma_change_touches_one_column, stored_value, Statement, StatementView};
use crate::store::{
    all_readable, change_character_value, changed, characters_view, fetch_one, inserted, read_all,
    read_character, reading_all, reading_one, writing,
};
use crate::table::{after, answer, collides, holds, position, unique_names, Table};
use vstd::prelude::*;

verus! {

/// The store after a request to add a record, and the result of the
/// request.
pub open spec fn adding(rows: Seq<RowView>, body: AddView) -> (Seq<RowView>, Result<(), Error>) {
    match body.admission() {
        Err(e) => (rows, Err(e)),
        Ok(character) => {
            let statement = StatementView::Insert(character);
            (after(rows, statement), writing(answer(rows, statement)))
        },
    }
}

/// The store after a request to change a record, and the result of the
/// request.
pub open spec fn changing(rows: Seq<RowView>, body: ChangeView) -> (
    Seq<RowView>,
    Result<(), Error>,
) {
    let lookup = answer(rows, StatementView::SelectByName(body.name));
    match change_plan(body, lookup) {
        Err(e) => (rows, Err(e)),
        Ok(statement) => (after(rows, statement), writing(answer(rows, statement))),
    }
}

/// The result of fetching the record of one name.
pub open spec fn fetching(rows: Seq<RowView>, name: Seq<char>) -> Result<CharacterView, Error> {
    reading_one(answer(rows, StatementView::SelectByName(name)))
}

/// The result of fetching every record.
pub open spec fn fetching_all(rows: Seq<RowView>) -> Result<Seq<CharacterView>, Error> {
    reading_all(answer(rows, StatementView::SelectAll))
}

/// The result of a read request: the one record in a list of its own, or
/// every record.
pub open spec fn reading(rows: Seq<RowView>, argument: Seq<char>) -> Result<
    Seq<CharacterView>,
    Error,
> {
    match read_plan(argument) {
        Err(e) => Err(e),
        Ok(StatementView::SelectAll) => fetching_all(rows),
        Ok(_) => match fetching(rows, argument) {
            Ok(character) => Ok(seq![character]),
            Err(e) => Err(e),
        },
    }
}

impl Table {
    /// Stores a character as a new record, unless a record has its name.
    pub fn insert(&mut self, character: Character) -> (result: Result<(), Error>)
        ensures
            result == (if holds(old(self)@, character@.name) {
                Err::<(), Error>(Error::DuplicateKey)
            } else {
                Ok::<(), Error>(())
            }),
            final(self)@ == (if holds(old(self)@, character@.name) {
                old(self)@
            } else {
                old(self)@.push(encode(character@))
            }),
    {
        let outcome = self.execute(&character.add_to_database());
        inserted(&outcome)
    }

    /// Fetches the record of one name.
    pub fn fetch_one(&mut self, name: &str) -> (result: Result<Character, Error>)
        ensures
            final(self)@ == old(self)@,
            match result {
                Ok(character) => fetching(old(self)@, name@) == Ok::<CharacterView, Error>(
                    character@,
                ),
                Err(e) => fetching(old(self)@, name@) == Err::<CharacterView, Error>(e),
            },
            !holds(old(self)@, name@) <==> result == Err::<Character, Error>(Error::NotFound),
    {
        let outcome = self.execute(&fetch_one(name));
        read_character(&outcome)
    }

    /// Fetches every record, in the order in which they were stored.
    pub fn fetch_all(&mut self) -> (result: Result<Vec<Character>, Error>)
        ensures
            final(self)@ == old(self)@,
            match result {
                Ok(characters) => fetching_all(old(self)@) == Ok::<Seq<CharacterView>, Error>(
                    characters_view(characters@),
                ),
                Err(e) => fetching_all(old(self)@) == Err::<Seq<CharacterView>, Error>(e),
            },
    {
        let outcome = self.execute(&crate::store::fetch_all());
        read_all(&outcome)
    }

    /// Replaces one field of the record of one name. The record must be
    /// there, and a new name must not be that of another record; where the
    /// update fails the store is left as it was.
    pub fn update_field(&mut self, name: &str, change: FieldChange) -> (result: Result<(), Error>)
        ensures
            result == (if !holds(old(self)@, name@) {
                Err::<(), Error>(Error::NotFound)
            } else if collides(old(self)@, name@, change@) {
                Err::<(), Error>(Error::DuplicateKey)
            } else {
                Ok::<(), Error>(())
            }),
            final(self)@ == (if result is Ok {
                old(self)@.update(
                    position(old(self)@, name@),
                    change@.applied_to(old(self)@[position(old(self)@, name@)]),
                )
            } else {
                old(self)@
            }),
    {
        let lookup = self.execute(&fetch_one(name));
        match change_character_value(name, change, &lookup) {
            Ok(statement) => {
                let outcome = self.execute(&statement);
                changed(&outcome)
            },
            Err(e) => Err(e),
        }
    }
}

/// Adds a record to the store.
pub fn add_character(table: &mut Table, body: &CharacterAddBody) -> (result: Result<(), Error>)
    ensures
        (final(table)@, result) == adding(old(table)@, body@),
{
    match handle_adding_character(body) {
        Ok(statement) => {
            let outcome = table.execute(&statement);
            inserted(&outcome)
        },
        Err(e) => Err(e),
    }
}

/// Reads the record of one name, or every record for the word "all". The
/// store is left as it is.
pub fn read_characters(table: &mut Table, argument: &str) -> (result: Result<Vec<Character>, Error>)
    ensures
        final(table)@ == old(table)@,
        match result {
            Ok(characters) => reading(old(table)@, argument@) == Ok::<Seq<CharacterView>, Error>(
                characters_view(characters@),
            ),
            Err(e) => reading(old(table)@, argument@) == Err::<Seq<CharacterView>, Error>(e),
        },
{
    match handle_read_command(argument) {
        Ok(statement) => {
            let outcome = table.execute(&statement);
            match statement {
                Statement::SelectAll => read_all(&outcome),
                _ => match read_character(&outcome) {
                    Ok(character) => {
                        let mut characters: Vec<Character> = Vec::new();
                        characters.push(character);
                        assert(characters_view(characters@) =~= seq![character@]);
                        Ok(characters)
                    },
                    Err(e) => Err(e),
                },
            }
        },
        Err(e) => Err(e),
    }
}

/// Changes one field of a record of the store.
pub fn change_character(table: &mut Table, body: &CharacterChangeBody) -> (result: Result<(), Error>)
    ensures
        (final(table)@, result) == changing(old(table)@, body@),
{
    let lookup = table.execute(&fetch_one(body.name.as_str()));
    match handle_changing_character(body, &lookup) {
        Ok(statement) => {
            let outcome = table.execute(&statement);
            changed(&outcome)
        },
        Err(e) => Err(e),
    }
}

/// A request that fails leaves the store as it was: nothing is carried out
/// in part.
pub proof fn lemma_failure_changes_nothing(rows: Seq<RowView>, add: AddView, change: ChangeView)
    ensures
        adding(rows, add).1 is Err ==> adding(rows, add).0 == rows,
        changing(rows, change).1 is Err ==> changing(rows, change).0 == rows,
{
}

/// A record that was added is there to be read: fetched by its name it
/// comes back with the values that the request described, and the store
/// holds it once.
pub proof fn lemma_added_record_is_read(rows: Seq<RowView>, body: AddView)
    requires
        unique_names(rows),
        adding(rows, body).1 is Ok,
    ensures
        ({
            let character = body.admission()->Ok_0;
            let stored = adding(rows, body).0;
            &&& body.admission() is Ok
            &&& character.valid()
            &&& stored == rows.push(encode(character))
            &&& unique_names(stored)
            &&& fetching(stored, character.name) == Ok::<CharacterView, Error>(character)
            &&& forall|i: int|
                0 <= i < stored.len() ==> ((#[trigger] stored[i]).name == character.name <==> i
                    == rows.len())
        }),
{
    let character = body.admission()->Ok_0;
    let stored = adding(rows, body).0;
    lemma_day_is_valid(body);
    lemma_decode_encode(character);
    assert(!holds(rows, character.name));
    assert(stored == rows.push(encode(character)));
    assert(stored[rows.len() as int].name == character.name);
    assert(holds(stored, character.name));
    assert(unique_names(stored)) by {
        assert forall|i: int, j: int| 0 <= i < j < stored.len() implies (#[trigger] stored[i]).name
            != (#[trigger] stored[j]).name by {
            if j < rows.len() {
                assert(stored[i] == rows[i] && stored[j] == rows[j]);
            } else {
                assert(stored[i] == rows[i]);
            }
        }
    }
    assert forall|i: int| 0 <= i < stored.len() implies ((#[trigger] stored[i]).name
        == character.name <==> i == rows.len()) by {
        if i < rows.len() {
            assert(stored[i] == rows[i]);
        }
    }
    assert(position(stored, character.name) == rows.len());
}

/// After a record was added, a fetch of all records gives what it gave
/// before and then the new record, with its season, day, bachelor status
/// and gift as they were given: the new record is in the list exactly once.
pub proof fn lemma_added_record_is_listed(rows: Seq<RowView>, body: AddView)
    requires
        unique_names(rows),
        adding(rows, body).1 is Ok,
        fetching_all(rows) is Ok,
    ensures
        ({
            let character = body.admission()->Ok_0;
            let before = fetching_all(rows)->Ok_0;
            let listed = fetching_all(adding(rows, body).0);
            &&& listed == Ok::<Seq<CharacterView>, Error>(before.push(character))
            &&& forall|i: int|
                0 <= i < before.len() ==> (#[trigger] before[i]).name != character.name
        }),
{
    let character = body.admission()->Ok_0;
    let before = fetching_all(rows)->Ok_0;
    let stored = adding(rows, body).0;
    lemma_added_record_is_read(rows, body);
    assert(all_readable(stored)) by {
        assert forall|i: int| 0 <= i < stored.len() implies (#[trigger] decode(stored[i])) is Some by {
            if i < rows.len() {
                assert(stored[i] == rows[i]);
                assert(decode(rows[i]) is Some);
            }
        }
    }
    assert(stored.map_values(|row: RowView| decode(row)->0) =~= before.push(character));
    assert forall|i: int| 0 <= i < before.len() implies (#[trigger] before[i]).name
        != character.name by {
        assert(stored[i] == rows[i]);
        assert(decode(rows[i]) is Some);
    }
}

/// Requests keep the name of a record unique: whatever is asked of a store
/// in which no two records share a name, no two records share a name
/// afterwards.
pub proof fn lemma_requests_keep_names_unique(rows: Seq<RowView>, add: AddView, change: ChangeView)
    requires
        unique_names(rows),
    ensures
        unique_names(adding(rows, add).0),
        unique_names(changing(rows, change).0),
{
    if adding(rows, add).1 is Ok {
        lemma_added_record_is_read(rows, add);
    }
    if changing(rows, change).1 is Ok {
        lemma_change_touches_one_field(rows, change);
    }
}

/// Requests write valid records only: where every stored row keeps to the
/// constraints of its fields, every row does so after a request too,
/// whether the request succeeds or fails.
pub proof fn lemma_requests_keep_rows_valid(rows: Seq<RowView>, add: AddView, change: ChangeView)
    requires
        unique_names(rows),
        all_readable(rows),
    ensures
        all_readable(adding(rows, add).0),
        all_readable(changing(rows, change).0),
{
    let added = adding(rows, add).0;
    if adding(rows, add).1 is Ok {
        lemma_added_record_is_read(rows, add);
        lemma_decode_encode(add.admission()->Ok_0);
        assert forall|i: int| 0 <= i < added.len() implies (#[trigger] decode(added[i])) is Some by {
            if i < rows.len() {
                assert(added[i] == rows[i]);
                assert(decode(rows[i]) is Some);
            }
        }
    }
    let changed = changing(rows, change).0;
    if changing(rows, change).1 is Ok {
        lemma_change_touches_one_field(rows, change);
        let place = position(rows, change.name);
        let new_value = change.resolution()->Ok_0;
        crate::change::lemma_resolution_is_first_slot(change);
        assert(decode(rows[place]) is Some);
        if new_value is BirthdaySeason {
            let season = new_value->BirthdaySeason_0;
            crate::season::lemma_season_of_matches(season.text(), season);
        }
        assert(decode(changed[place]) is Some);
        assert forall|i: int| 0 <= i < changed.len() implies (#[trigger] decode(
            changed[i],
        )) is Some by {
            if i != place {
                assert(changed[i] == rows[i]);
                assert(decode(rows[i]) is Some);
            }
        }
    }
}

/// The day of an admitted character is a day.
proof fn lemma_day_is_valid(body: AddView)
    ensures
        body.admission() matches Ok(character) ==> character.valid(),
{
    crate::validate::lemma_day_of_is_a_day(body.birthday_day);
}

/// A change of a record that the store does not hold fails with
/// [`Error::NotFound`], whatever the slots of the request hold, and leaves
/// the store as it was.
pub proof fn lemma_change_of_missing_record(rows: Seq<RowView>, body: ChangeView)
    requires
        !holds(rows, body.name),
    ensures
        changing(rows, body) == (rows, Err::<(), Error>(Error::NotFound)),
{
}

/// A change request with no populated slot changes nothing. For a record
/// that the store holds it fails with [`Error::NoChangeRequested`].
pub proof fn lemma_change_without_slots(rows: Seq<RowView>, body: ChangeView)
    requires
        body.populated() == 0,
    ensures
        changing(rows, body).0 == rows,
        holds(rows, body.name) ==> changing(rows, body).1 == Err::<(), Error>(
            Error::NoChangeRequested,
        ),
        !holds(rows, body.name) ==> changing(rows, body).1 == Err::<(), Error>(Error::NotFound),
{
}

/// A change that succeeds replaces one field of one record: the field of
/// the first populated slot, in the record of the requested name. The four
/// other fields of that record, and every other record, are as they were.
pub proof fn lemma_change_touches_one_field(rows: Seq<RowView>, body: ChangeView)
    requires
        unique_names(rows),
        changing(rows, body).1 is Ok,
    ensures
        ({
            let stored = changing(rows, body).0;
            let place = position(rows, body.name);
            let change = body.resolution()->Ok_0;
            &&& holds(rows, body.name)
            &&& 0 <= place < rows.len()
            &&& rows[place].name == body.name
            &&& body.resolution() is Ok
            &&& body.first_populated() matches Some(slot) && slot.0 == change.column()
            &&& stored.len() == rows.len()
            &&& unique_names(stored)
            &&& forall|i: int| 0 <= i < rows.len() && i != place ==> stored[i] == rows[i]
            &&& stored[place] == change.applied_to(rows[place])
            &&& forall|column: Column|
                column != change.column() ==> #[trigger] stored_value(stored[place], column)
                    == stored_value(rows[place], column)
        }),
{
    let place = position(rows, body.name);
    let change = body.resolution()->Ok_0;
    let stored = changing(rows, body).0;
    crate::change::lemma_resolution_is_first_slot(body);
    lemma_change_touches_one_column(change, rows[place]);
    assert(stored == rows.update(place, change.applied_to(rows[place])));
    assert forall|i: int, j: int| 0 <= i < j < stored.len() implies (#[trigger] stored[i]).name
        != (#[trigger] stored[j]).name by {
        assert(rows[i].name != rows[j].name);
        if change is Name {
            let new_name = change->Name_0;
            if i == place && new_name != body.name {
                assert(!holds(rows, new_name));
                assert(rows[j].name != new_name);
            }
            if j == place && new_name != body.name {
                assert(!holds(rows, new_name));
                assert(rows[i].name != new_name);
            }
        }
    }
}

} // verus!
