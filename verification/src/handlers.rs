//! The decisions of the four requests: read one record or all, add a
//! record, change one field of a record.
//!
//! Each handler here takes the request as plain values and decides what is
//! to be sent to the store, or why nothing is. The answers of the store are
//! read by the functions of [`crate::store`].

use crate::change::{resolve_change, ChangeView, CharacterChangeBody};
use crate::character::{Character, CharacterView};
use crate::column::Column;
use crate::error::Error;
use crate::season::season_of;
use crate::statement::{Outcome, OutcomeView, Statement, StatementView};
use crate::store::{change_character_value, existence, fetch_all, fetch_one};
use crate::text::same_text;
use crate::validate::{
    bachelor_of, day_of, parse_bachelor, parse_day, parse_gift, parse_name, parse_season,
};
use vstd::prelude::*;

verus! {

/// A request to add a record: the raw text of each of the five fields.
#[derive(Debug, PartialEq, Eq)]
pub struct CharacterAddBody {
    pub name: String,
    pub birthday_season: String,
    pub birthday_day: String,
    pub is_bachelor: String,
    pub best_gift: String,
}

/// A request to add a record, as plain values.
pub struct AddView {
    pub name: Seq<char>,
    pub birthday_season: Seq<char>,
    pub birthday_day: Seq<char>,
    pub is_bachelor: Seq<char>,
    pub best_gift: Seq<char>,
}

impl View for CharacterAddBody {
    type V = AddView;

    open spec fn view(&self) -> AddView {
        AddView {
            name: self.name@,
            birthday_season: self.birthday_season@,
            birthday_day: self.birthday_day@,
            is_bachelor: self.is_bachelor@,
            best_gift: self.best_gift@,
        }
    }
}

impl AddView {
    /// The text given for one field.
    pub open spec fn field(self, column: Column) -> Seq<char> {
        match column {
            Column::Name => self.name,
            Column::BirthdaySeason => self.birthday_season,
            Column::BirthdayDay => self.birthday_day,
            Column::IsBachelor => self.is_bachelor,
            Column::BestGift => self.best_gift,
        }
    }

    /// The character that the five texts describe, or the first field, in
    /// the order name, season, day, bachelor, gift, whose text is outside
    /// the field's domain.
    pub open spec fn admission(self) -> Result<CharacterView, Error> {
        if self.name.len() == 0 {
            Err(Error::InvalidInput(Column::Name))
        } else if season_of(self.birthday_season) is None {
            Err(Error::InvalidInput(Column::BirthdaySeason))
        } else if day_of(self.birthday_day) is None {
            Err(Error::InvalidInput(Column::BirthdayDay))
        } else if bachelor_of(self.is_bachelor) is None {
            Err(Error::InvalidInput(Column::IsBachelor))
        } else if self.best_gift.len() == 0 {
            Err(Error::InvalidInput(Column::BestGift))
        } else {
            Ok(
                CharacterView {
                    name: self.name,
                    birthday_season: season_of(self.birthday_season)->0,
                    birthday_day: day_of(self.birthday_day)->0,
                    is_bachelor: bachelor_of(self.is_bachelor)->0,
                    best_gift: self.best_gift,
                },
            )
        }
    }
}

impl CharacterAddBody {
    /// The text given for one field.
    pub fn field(&self, column: Column) -> (text: &str)
        ensures
            text@ == self@.field(column),
    {
        match column {
            Column::Name => self.name.as_str(),
            Column::BirthdaySeason => self.birthday_season.as_str(),
            Column::BirthdayDay => self.birthday_day.as_str(),
            Column::IsBachelor => self.is_bachelor.as_str(),
            Column::BestGift => self.best_gift.as_str(),
        }
    }

    /// Tells a person why the request failed. Where a text was rejected, the
    /// words name the domain of its field and quote the text.
    pub fn report(&self, error: Error) -> (words: String)
        ensures
            words@ == error.report_text(
                match error {
                    Error::InvalidInput(column) => Some(self@.field(column)),
                    _ => None,
                },
            ),
    {
        match error {
            Error::InvalidInput(column) => error.report(Some(self.field(column))),
            _ => error.report(None),
        }
    }
}

/// The word that asks for every record in the place of a name.
pub open spec fn everything() -> Seq<char> {
    "all"@
}

/// What a read request asks the store: nothing for the empty word, every
/// record for the word "all", the record of that name for any other word.
pub open spec fn read_plan(argument: Seq<char>) -> Result<StatementView, Error> {
    if argument.len() == 0 {
        Err(Error::Usage)
    } else if argument == everything() {
        Ok(StatementView::SelectAll)
    } else {
        Ok(StatementView::SelectByName(argument))
    }
}

/// What a change request asks the store once the existence of the record
/// has been looked up.
///
/// The lookup is judged first: without a found record the request fails
/// whatever its slots hold. Then the slots are resolved to one change.
pub open spec fn change_plan(body: ChangeView, lookup: OutcomeView) -> Result<
    StatementView,
    Error,
> {
    match existence(lookup) {
        Err(e) => Err(e),
        Ok(_) => match body.resolution() {
            Err(e) => Err(e),
            Ok(change) => Ok(StatementView::Update { name: body.name, change }),
        },
    }
}

/// Decides a read request. The empty word is refused before anything is
/// sent; the word "all" asks for every record; any other word is taken as a
/// name.
pub fn handle_read_command(argument: &str) -> (plan: Result<Statement, Error>)
    ensures
        match plan {
            Ok(statement) => read_plan(argument@) == Ok::<StatementView, Error>(statement@),
            Err(e) => read_plan(argument@) == Err::<StatementView, Error>(e),
        },
{
    if argument.is_empty() {
        Err(Error::Usage)
    } else if same_text(argument, "all") {
        Ok(fetch_all())
    } else {
        Ok(fetch_one(argument))
    }
}

/// Decides a request for every record.
pub fn handle_read_all() -> (statement: Statement)
    ensures
        statement@ == StatementView::SelectAll,
{
    fetch_all()
}

/// Decides a request to add a record.
///
/// All five texts are validated, in the order name, season, day, bachelor,
/// gift, before anything is sent: the insert is made only of a character
/// that keeps to every constraint, and the first text that fails is the one
/// reported.
pub fn handle_adding_character(body: &CharacterAddBody) -> (plan: Result<Statement, Error>)
    ensures
        match plan {
            Ok(statement) => body@.admission() matches Ok(character) && character.valid()
                && statement@ == StatementView::Insert(character),
            Err(e) => body@.admission() == Err::<CharacterView, Error>(e),
        },
{
    let name = match parse_name(body.name.as_str()) {
        Ok(name) => name,
        Err(e) => {
            return Err(e);
        },
    };
    let birthday_season = match parse_season(body.birthday_season.as_str()) {
        Ok(season) => season,
        Err(e) => {
            return Err(e);
        },
    };
    let birthday_day = match parse_day(body.birthday_day.as_str()) {
        Ok(day) => day,
        Err(e) => {
            return Err(e);
        },
    };
    let is_bachelor = match parse_bachelor(body.is_bachelor.as_str()) {
        Ok(bachelor) => bachelor,
        Err(e) => {
            return Err(e);
        },
    };
    let best_gift = match parse_gift(body.best_gift.as_str()) {
        Ok(gift) => gift,
        Err(e) => {
            return Err(e);
        },
    };
    match Character::new(name, birthday_season, birthday_day, is_bachelor, best_gift) {
        Ok(character) => Ok(character.add_to_database()),
        Err(e) => Err(e),
    }
}

/// Decides a request to change a record, given the answer of the store to
/// the lookup of the record's name.
///
/// A lookup that failed gives [`Error::StorageUnavailable`] and one that
/// found nothing [`Error::NotFound`], before any slot is looked at. For a
/// found record the first populated slot decides: it gives the update of
/// its one field, or the rejection of its text. Without a populated slot
/// the request fails with [`Error::NoChangeRequested`]. Only `Ok` carries a
/// statement, and that statement is an update of the named record.
pub fn handle_changing_character(body: &CharacterChangeBody, lookup: &Outcome) -> (plan: Result<
    Statement,
    Error,
>)
    ensures
        match plan {
            Ok(statement) => change_plan(body@, lookup@) == Ok::<StatementView, Error>(
                statement@,
            ),
            Err(e) => change_plan(body@, lookup@) == Err::<StatementView, Error>(e),
        },
{
    match lookup {
        Outcome::Rows(rows) => {
            if rows.len() == 0 {
                return Err(Error::NotFound);
            }
        },
        _ => {
            return Err(Error::StorageUnavailable);
        },
    }
    match resolve_change(body) {
        Ok(change) => change_character_value(body.name.as_str(), change, lookup),
        Err(e) => Err(e),
    }
}

/// What a change request can send, whatever store answers the lookup.
///
/// Without a found record the request fails as the lookup did, whatever its
/// slots hold, and with a found record but no populated slot it fails with
/// [`Error::NoChangeRequested`]; a request that fails sends nothing. What a
/// request sends is one update of one field of the named record: the field
/// of its first populated slot, with a valid value.
pub proof fn lemma_change_plan(body: ChangeView, lookup: OutcomeView)
    ensures
        existence(lookup) matches Err(e) ==> change_plan(body, lookup) == Err::<
            StatementView,
            Error,
        >(e),
        existence(lookup) is Ok && body.populated() == 0 ==> change_plan(body, lookup) == Err::<
            StatementView,
            Error,
        >(Error::NoChangeRequested),
        change_plan(body, lookup) matches Ok(statement) ==> (statement matches StatementView::Update {
            name,
            change,
        } && name == body.name && change.valid() && (body.first_populated() matches Some(slot)
            && change.column() == slot.0)),
{
    crate::change::lemma_resolution_is_first_slot(body);
}

} // verus!
