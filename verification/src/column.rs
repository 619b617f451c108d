//! The five fields of a character record, as the columns that store them.

use crate::season::InvalidEnumeration;
use crate::text::{ascii, eq_ignoring_case, same_ignoring_case};
use vstd::prelude::*;

verus! {

/// One field of a character record.
#[derive(Clone, Copy, Debug, PartialEq, Eq, Structural)]
pub enum Column {
    Name,
    BirthdaySeason,
    BirthdayDay,
    IsBachelor,
    BestGift,
}

impl Column {
    /// The name of the column that stores the field.
    pub open spec fn text(self) -> Seq<char> {
        match self {
            Column::Name => "name"@,
            Column::BirthdaySeason => "birthday_season"@,
            Column::BirthdayDay => "birthday_day"@,
            Column::IsBachelor => "is_bachelor"@,
            Column::BestGift => "best_gift"@,
        }
    }

    /// The name of the column that stores the field. It is one of five fixed
    /// words, whatever the caller holds.
    pub fn as_str(&self) -> (word: &'static str)
        ensures
            word@ == self.text(),
    {
        match self {
            Column::Name => "name",
            Column::BirthdaySeason => "birthday_season",
            Column::BirthdayDay => "birthday_day",
            Column::IsBachelor => "is_bachelor",
            Column::BestGift => "best_gift",
        }
    }

    /// Reads a field from the name of its column, written in any mix of
    /// upper and lower case.
    pub fn from_text(text: &str) -> (column: Result<Column, InvalidEnumeration>)
        ensures
            column == match column_of(text@) {
                Some(c) => Ok::<Column, InvalidEnumeration>(c),
                None => Err(InvalidEnumeration),
            },
    {
        if eq_ignoring_case(text, "name") {
            Ok(Column::Name)
        } else if eq_ignoring_case(text, "birthday_season") {
            Ok(Column::BirthdaySeason)
        } else if eq_ignoring_case(text, "birthday_day") {
            Ok(Column::BirthdayDay)
        } else if eq_ignoring_case(text, "is_bachelor") {
            Ok(Column::IsBachelor)
        } else if eq_ignoring_case(text, "best_gift") {
            Ok(Column::BestGift)
        } else {
            Err(InvalidEnumeration)
        }
    }
}

/// The field that a text names, if it names one: the field whose column name
/// is the text up to letter case.
pub open spec fn column_of(text: Seq<char>) -> Option<Column> {
    if same_ignoring_case(text, Column::Name.text()) {
        Some(Column::Name)
    } else if same_ignoring_case(text, Column::BirthdaySeason.text()) {
        Some(Column::BirthdaySeason)
    } else if same_ignoring_case(text, Column::BirthdayDay.text()) {
        Some(Column::BirthdayDay)
    } else if same_ignoring_case(text, Column::IsBachelor.text()) {
        Some(Column::IsBachelor)
    } else if same_ignoring_case(text, Column::BestGift.text()) {
        Some(Column::BestGift)
    } else {
        None
    }
}

/// The column names are ASCII words, and no two of them have the same
/// length.
pub proof fn lemma_column_words()
    ensures
        forall|c: Column| ascii(#[trigger] c.text()),
        Column::Name.text().len() == 4,
        Column::BirthdaySeason.text().len() == 15,
        Column::BirthdayDay.text().len() == 12,
        Column::IsBachelor.text().len() == 11,
        Column::BestGift.text().len() == 9,
{
    reveal_strlit("name");
    reveal_strlit("birthday_season");
    reveal_strlit("birthday_day");
    reveal_strlit("is_bachelor");
    reveal_strlit("best_gift");
    assert forall|c: Column| ascii(#[trigger] c.text()) by {
        match c {
            Column::Name => {},
            Column::BirthdaySeason => {},
            Column::BirthdayDay => {},
            Column::IsBachelor => {},
            Column::BestGift => {},
        }
    }
}

/// A text names a field exactly when it is that field's column name up to
/// letter case: no text names two fields.
pub proof fn lemma_column_of_matches(text: Seq<char>, column: Column)
    ensures
        column_of(text) == Some(column) <==> same_ignoring_case(text, column.text()),
        column_of(column.text()) == Some(column),
{
    lemma_column_words();
}

} // verus!
