//! Requests to change one field of a record, and the choice of that field.
//!
//! A request carries one optional new value for each field. The slots are
//! looked at in a fixed order: name, season, day, bachelor, gift. The first
//! slot that holds a text decides the request: its text is validated, and
//! either becomes the change or fails the request. Slots after it are not
//! looked at, whatever they hold.

use crate::column::Column;
use crate::error::Error;
use crate::row::RowView;
use crate::season::{season_of, Season};
use crate::validate::{
    bachelor_of, day_of, lemma_day_of_is_a_day, parse_bachelor, parse_day, parse_gift, parse_name,
    parse_season, LAST_DAY,
};
use vstd::prelude::*;

verus! {

/// The new value of one field, typed and validated.
#[derive(Debug, PartialEq, Eq)]
pub enum FieldChange {
    Name(String),
    BirthdaySeason(Season),
    BirthdayDay(u8),
    IsBachelor(bool),
    BestGift(String),
}

/// The new value of one field, as a plain value.
pub enum FieldChangeView {
    Name(Seq<char>),
    BirthdaySeason(Season),
    BirthdayDay(u8),
    IsBachelor(bool),
    BestGift(Seq<char>),
}

impl View for FieldChange {
    type V = FieldChangeView;

    open spec fn view(&self) -> FieldChangeView {
        match self {
            FieldChange::Name(name) => FieldChangeView::Name(name@),
            FieldChange::BirthdaySeason(season) => FieldChangeView::BirthdaySeason(*season),
            FieldChange::BirthdayDay(day) => FieldChangeView::BirthdayDay(*day),
            FieldChange::IsBachelor(bachelor) => FieldChangeView::IsBachelor(*bachelor),
            FieldChange::BestGift(gift) => FieldChangeView::BestGift(gift@),
        }
    }
}

impl FieldChangeView {
    /// The field that the change is for.
    pub open spec fn column(self) -> Column {
        match self {
            FieldChangeView::Name(_) => Column::Name,
            FieldChangeView::BirthdaySeason(_) => Column::BirthdaySeason,
            FieldChangeView::BirthdayDay(_) => Column::BirthdayDay,
            FieldChangeView::IsBachelor(_) => Column::IsBachelor,
            FieldChangeView::BestGift(_) => Column::BestGift,
        }
    }

    /// The new value keeps to the constraint of its field.
    pub open spec fn valid(self) -> bool {
        match self {
            FieldChangeView::Name(name) => name.len() > 0,
            FieldChangeView::BirthdaySeason(_) => true,
            FieldChangeView::BirthdayDay(day) => day <= LAST_DAY,
            FieldChangeView::IsBachelor(_) => true,
            FieldChangeView::BestGift(gift) => gift.len() > 0,
        }
    }

    /// The row after the change: the one column holds the new value, in its
    /// stored form, and the four others are as they were.
    pub open spec fn applied_to(self, row: RowView) -> RowView {
        match self {
            FieldChangeView::Name(name) => RowView { name, ..row },
            FieldChangeView::BirthdaySeason(season) => RowView {
                birthday_season: season.text(),
                ..row
            },
            FieldChangeView::BirthdayDay(day) => RowView { birthday_day: day as int, ..row },
            FieldChangeView::IsBachelor(bachelor) => RowView { is_bachelor: bachelor, ..row },
            FieldChangeView::BestGift(gift) => RowView { best_gift: gift, ..row },
        }
    }
}

impl FieldChange {
    /// The field that the change is for.
    pub fn column(&self) -> (column: Column)
        ensures
            column == self@.column(),
    {
        match self {
            FieldChange::Name(_) => Column::Name,
            FieldChange::BirthdaySeason(_) => Column::BirthdaySeason,
            FieldChange::BirthdayDay(_) => Column::BirthdayDay,
            FieldChange::IsBachelor(_) => Column::IsBachelor,
            FieldChange::BestGift(_) => Column::BestGift,
        }
    }
}

impl Clone for FieldChange {
    fn clone(&self) -> (copy: Self)
        ensures
            copy == *self,
    {
        match self {
            FieldChange::Name(name) => FieldChange::Name(name.clone()),
            FieldChange::BirthdaySeason(season) => FieldChange::BirthdaySeason(*season),
            FieldChange::BirthdayDay(day) => FieldChange::BirthdayDay(*day),
            FieldChange::IsBachelor(bachelor) => FieldChange::IsBachelor(*bachelor),
            FieldChange::BestGift(gift) => FieldChange::BestGift(gift.clone()),
        }
    }
}

/// A request to change a record: the name of the record, and one slot for
/// the new text of each field. A slot that holds nothing asks for nothing.
#[derive(Debug, PartialEq, Eq)]
pub struct CharacterChangeBody {
    pub name: String,
    pub change_name: Option<String>,
    pub change_birthday_season: Option<String>,
    pub change_birthday_day: Option<String>,
    pub change_is_bachelor: Option<String>,
    pub change_best_gift: Option<String>,
}

/// A request to change a record, as plain values.
pub struct ChangeView {
    pub name: Seq<char>,
    pub change_name: Option<Seq<char>>,
    pub change_birthday_season: Option<Seq<char>>,
    pub change_birthday_day: Option<Seq<char>>,
    pub change_is_bachelor: Option<Seq<char>>,
    pub change_best_gift: Option<Seq<char>>,
}

/// What a slot holds, as a plain value.
pub open spec fn slot_view(slot: Option<String>) -> Option<Seq<char>> {
    match slot {
        Some(text) => Some(text@),
        None => None,
    }
}

impl View for CharacterChangeBody {
    type V = ChangeView;

    open spec fn view(&self) -> ChangeView {
        ChangeView {
            name: self.name@,
            change_name: slot_view(self.change_name),
            change_birthday_season: slot_view(self.change_birthday_season),
            change_birthday_day: slot_view(self.change_birthday_day),
            change_is_bachelor: slot_view(self.change_is_bachelor),
            change_best_gift: slot_view(self.change_best_gift),
        }
    }
}

impl ChangeView {
    /// What the slot of one field holds.
    pub open spec fn slot(self, column: Column) -> Option<Seq<char>> {
        match column {
            Column::Name => self.change_name,
            Column::BirthdaySeason => self.change_birthday_season,
            Column::BirthdayDay => self.change_birthday_day,
            Column::IsBachelor => self.change_is_bachelor,
            Column::BestGift => self.change_best_gift,
        }
    }

    /// The first slot that holds a text, in the order name, season, day,
    /// bachelor, gift, with its text; `None` where every slot is empty.
    pub open spec fn first_populated(self) -> Option<(Column, Seq<char>)> {
        if self.change_name is Some {
            Some((Column::Name, self.change_name->0))
        } else if self.change_birthday_season is Some {
            Some((Column::BirthdaySeason, self.change_birthday_season->0))
        } else if self.change_birthday_day is Some {
            Some((Column::BirthdayDay, self.change_birthday_day->0))
        } else if self.change_is_bachelor is Some {
            Some((Column::IsBachelor, self.change_is_bachelor->0))
        } else if self.change_best_gift is Some {
            Some((Column::BestGift, self.change_best_gift->0))
        } else {
            None
        }
    }

    /// How many slots hold a text.
    pub open spec fn populated(self) -> nat {
        let one = |slot: Option<Seq<char>>| if slot is Some { 1nat } else { 0nat };
        one(self.change_name) + one(self.change_birthday_season) + one(self.change_birthday_day)
            + one(self.change_is_bachelor) + one(self.change_best_gift)
    }

    /// The change that the request resolves to, or the reason why it
    /// resolves to none.
    pub open spec fn resolution(self) -> Result<FieldChangeView, Error> {
        match self.first_populated() {
            Some((column, text)) => validated(column, text),
            None => Err(Error::NoChangeRequested),
        }
    }
}

impl CharacterChangeBody {
    /// What the slot of one field holds.
    pub fn slot(&self, column: Column) -> (text: Option<&str>)
        ensures
            match text {
                Some(t) => self@.slot(column) == Some(t@),
                None => self@.slot(column) is None,
            },
    {
        let slot = match column {
            Column::Name => &self.change_name,
            Column::BirthdaySeason => &self.change_birthday_season,
            Column::BirthdayDay => &self.change_birthday_day,
            Column::IsBachelor => &self.change_is_bachelor,
            Column::BestGift => &self.change_best_gift,
        };
        match slot {
            Some(text) => Some(text.as_str()),
            None => None,
        }
    }

    /// Tells a person why the request failed. Where a text was rejected, the
    /// words name the domain of its field and quote the text.
    pub fn report(&self, error: Error) -> (words: String)
        ensures
            words@ == error.report_text(
                match error {
                    Error::InvalidInput(column) => self@.slot(column),
                    _ => None,
                },
            ),
    {
        match error {
            Error::InvalidInput(column) => error.report(self.slot(column)),
            _ => error.report(None),
        }
    }
}

/// The typed value that a text gives for a field, or the rejection of the
/// text by the field's domain.
pub open spec fn validated(column: Column, text: Seq<char>) -> Result<FieldChangeView, Error> {
    let rejected = Err::<FieldChangeView, Error>(Error::InvalidInput(column));
    match column {
        Column::Name => if text.len() > 0 {
            Ok(FieldChangeView::Name(text))
        } else {
            rejected
        },
        Column::BirthdaySeason => match season_of(text) {
            Some(season) => Ok(FieldChangeView::BirthdaySeason(season)),
            None => rejected,
        },
        Column::BirthdayDay => match day_of(text) {
            Some(day) => Ok(FieldChangeView::BirthdayDay(day)),
            None => rejected,
        },
        Column::IsBachelor => match bachelor_of(text) {
            Some(bachelor) => Ok(FieldChangeView::IsBachelor(bachelor)),
            None => rejected,
        },
        Column::BestGift => if text.len() > 0 {
            Ok(FieldChangeView::BestGift(text))
        } else {
            rejected
        },
    }
}

/// Validates the text given for one field.
pub fn validate_field(column: Column, text: &str) -> (change: Result<FieldChange, Error>)
    ensures
        match change {
            Ok(c) => validated(column, text@) == Ok::<FieldChangeView, Error>(c@) && c@.valid()
                && c@.column() == column,
            Err(e) => validated(column, text@) == Err::<FieldChangeView, Error>(e) && e
                == Error::InvalidInput(column),
        },
{
    match column {
        Column::Name => match parse_name(text) {
            Ok(name) => Ok(FieldChange::Name(name)),
            Err(e) => Err(e),
        },
        Column::BirthdaySeason => match parse_season(text) {
            Ok(season) => Ok(FieldChange::BirthdaySeason(season)),
            Err(e) => Err(e),
        },
        Column::BirthdayDay => match parse_day(text) {
            Ok(day) => Ok(FieldChange::BirthdayDay(day)),
            Err(e) => Err(e),
        },
        Column::IsBachelor => match parse_bachelor(text) {
            Ok(bachelor) => Ok(FieldChange::IsBachelor(bachelor)),
            Err(e) => Err(e),
        },
        Column::BestGift => match parse_gift(text) {
            Ok(gift) => Ok(FieldChange::BestGift(gift)),
            Err(e) => Err(e),
        },
    }
}

/// Resolves a request to the one change it asks for.
///
/// The first populated slot decides. A text that its field rejects fails the
/// request at once: the slots after it are not tried in its place. A request
/// with no populated slot asks for no change, which is a failure of its own.
pub fn resolve_change(body: &CharacterChangeBody) -> (change: Result<FieldChange, Error>)
    ensures
        match change {
            Ok(c) => body@.resolution() == Ok::<FieldChangeView, Error>(c@) && c@.valid(),
            Err(e) => body@.resolution() == Err::<FieldChangeView, Error>(e),
        },
{
    if let Some(text) = &body.change_name {
        validate_field(Column::Name, text.as_str())
    } else if let Some(text) = &body.change_birthday_season {
        validate_field(Column::BirthdaySeason, text.as_str())
    } else if let Some(text) = &body.change_birthday_day {
        validate_field(Column::BirthdayDay, text.as_str())
    } else if let Some(text) = &body.change_is_bachelor {
        validate_field(Column::IsBachelor, text.as_str())
    } else if let Some(text) = &body.change_best_gift {
        validate_field(Column::BestGift, text.as_str())
    } else {
        Err(Error::NoChangeRequested)
    }
}

/// Two requests whose first populated slot is the same slot with the same
/// text resolve alike, whatever their later slots hold.
pub proof fn lemma_first_slot_decides(a: ChangeView, b: ChangeView)
    requires
        a.first_populated() == b.first_populated(),
    ensures
        a.resolution() == b.resolution(),
{
}

/// A resolved change is for the first populated slot and for no other, and
/// its value is valid; a rejected request is rejected for that slot.
pub proof fn lemma_resolution_is_first_slot(body: ChangeView)
    ensures
        body.resolution() matches Ok(change) ==> (body.first_populated() matches Some(slot)
            && change.column() == slot.0 && change.valid()),
        body.resolution() matches Err(e) ==> e == Error::NoChangeRequested || (
        body.first_populated() matches Some(slot) && e == Error::InvalidInput(slot.0)),
{
    if body.first_populated() is Some {
        let (column, text) = body.first_populated()->0;
        lemma_day_of_is_a_day(text);
    }
}

/// A request resolves to "no change requested" exactly when none of its
/// slots is populated.
pub proof fn lemma_no_slot_no_change(body: ChangeView)
    ensures
        body.populated() == 0 <==> body.first_populated() is None,
        body.first_populated() is None <==> body.resolution() == Err::<FieldChangeView, Error>(
            Error::NoChangeRequested,
        ),
{
}

} // verus!
