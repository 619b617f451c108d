//! A record as the store holds it.

use vstd::prelude::*;

verus! {

/// One stored record, column by column. The season is stored as text and
/// the day in a type wider than a day needs; nothing is promised of what a
/// row holds beyond the types of its columns.
#[derive(Debug, PartialEq, Eq)]
pub struct Row {
    pub name: String,
    pub birthday_season: String,
    pub birthday_day: i32,
    pub is_bachelor: bool,
    pub best_gift: String,
}

/// What a row holds, as plain values.
pub struct RowView {
    pub name: Seq<char>,
    pub birthday_season: Seq<char>,
    pub birthday_day: int,
    pub is_bachelor: bool,
    pub best_gift: Seq<char>,
}

impl View for Row {
    type V = RowView;

    open spec fn view(&self) -> RowView {
        RowView {
            name: self.name@,
            birthday_season: self.birthday_season@,
            birthday_day: self.birthday_day as int,
            is_bachelor: self.is_bachelor,
            best_gift: self.best_gift@,
        }
    }
}

impl Clone for Row {
    fn clone(&self) -> (copy: Self)
        ensures
            copy == *self,
    {
        Row {
            name: self.name.clone(),
            birthday_season: self.birthday_season.clone(),
            birthday_day: self.birthday_day,
            is_bachelor: self.is_bachelor,
            best_gift: self.best_gift.clone(),
        }
    }
}

/// The rows of a list, as plain values, in the order of the list.
pub open spec fn rows_view(rows: Seq<Row>) -> Seq<RowView> {
    rows.map_values(|row: Row| row@)
}

} // verus!
