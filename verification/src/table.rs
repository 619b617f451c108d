//! A record store that lives in memory.
//!
//! The table holds rows as a store would, keeps the name of a record unique,
//! and carries out the statements of [`crate::statement`]. It checks nothing
//! else of what it is given: the constraints of the fields are the business
//! of whoever writes.

use crate::change::{FieldChange, FieldChangeView};
use crate::character::encode;
use crate::row::{rows_view, Row, RowView};
use crate::statement::{Outcome, OutcomeView, Statement, StatementView};
use crate::text::same_text;
use vstd::prelude::*;

verus! {

/// No two rows have the same name.
pub open spec fn unique_names(rows: Seq<RowView>) -> bool {
    forall|i: int, j: int|
        0 <= i < j < rows.len() ==> (#[trigger] rows[i]).name != (#[trigger] rows[j]).name
}

/// Some row has the name.
pub open spec fn holds(rows: Seq<RowView>, name: Seq<char>) -> bool {
    exists|i: int| 0 <= i < rows.len() && (#[trigger] rows[i]).name == name
}

/// The place of a row that has the name, where there is one.
pub open spec fn position(rows: Seq<RowView>, name: Seq<char>) -> int {
    choose|i: int| 0 <= i < rows.len() && (#[trigger] rows[i]).name == name
}

/// The change would give a record the name of another record.
pub open spec fn collides(rows: Seq<RowView>, name: Seq<char>, change: FieldChangeView) -> bool {
    change matches FieldChangeView::Name(new_name) && new_name != name && holds(rows, new_name)
}

/// What a store that holds `rows` answers to a statement.
pub open spec fn answer(rows: Seq<RowView>, statement: StatementView) -> OutcomeView {
    match statement {
        StatementView::SelectAll => OutcomeView::Rows(rows),
        StatementView::SelectByName(name) => if holds(rows, name) {
            OutcomeView::Rows(seq![rows[position(rows, name)]])
        } else {
            OutcomeView::Rows(seq![])
        },
        StatementView::Insert(character) => if holds(rows, character.name) {
            OutcomeView::Duplicate
        } else {
            OutcomeView::Done(1)
        },
        StatementView::Update { name, change } => if !holds(rows, name) {
            OutcomeView::Done(0)
        } else if collides(rows, name, change) {
            OutcomeView::Duplicate
        } else {
            OutcomeView::Done(1)
        },
    }
}

/// What a store that held `rows` holds once it has answered a statement.
pub open spec fn after(rows: Seq<RowView>, statement: StatementView) -> Seq<RowView> {
    match statement {
        StatementView::SelectAll => rows,
        StatementView::SelectByName(_) => rows,
        StatementView::Insert(character) => if holds(rows, character.name) {
            rows
        } else {
            rows.push(encode(character))
        },
        StatementView::Update { name, change } => if !holds(rows, name) || collides(
            rows,
            name,
            change,
        ) {
            rows
        } else {
            rows.update(position(rows, name), change.applied_to(rows[position(rows, name)]))
        },
    }
}

/// The row with one field replaced by its new value in stored form.
fn apply(change: &FieldChange, row: &Row) -> (changed: Row)
    ensures
        changed@ == change@.applied_to(row@),
{
    let mut changed = row.clone();
    match change {
        FieldChange::Name(name) => {
            changed.name = name.clone();
        },
        FieldChange::BirthdaySeason(season) => {
            changed.birthday_season = season.as_str().to_owned();
        },
        FieldChange::BirthdayDay(day) => {
            changed.birthday_day = *day as i32;
        },
        FieldChange::IsBachelor(bachelor) => {
            changed.is_bachelor = *bachelor;
        },
        FieldChange::BestGift(gift) => {
            changed.best_gift = gift.clone();
        },
    }
    changed
}

/// A record store in memory. No two of its rows have the same name.
#[derive(Debug)]
pub struct Table {
    rows: Vec<Row>,
}

impl View for Table {
    type V = Seq<RowView>;

    closed spec fn view(&self) -> Seq<RowView> {
        rows_view(self.rows@)
    }
}

impl Table {
    #[verifier::type_invariant]
    spec fn well_formed(self) -> bool {
        unique_names(rows_view(self.rows@))
    }

    /// A store that holds no record.
    pub fn new() -> (table: Table)
        ensures
            table@ == Seq::<RowView>::empty(),
    {
        let table = Table { rows: Vec::new() };
        assert(table@ =~= Seq::<RowView>::empty());
        table
    }

    /// The number of records in the store.
    pub fn len(&self) -> (count: usize)
        ensures
            count == self@.len(),
            unique_names(self@),
    {
        proof {
            use_type_invariant(self);
        }
        self.rows.len()
    }

    /// The place of the row with the name, if there is one.
    fn find(&self, name: &str) -> (place: Option<usize>)
        ensures
            unique_names(self@),
            match place {
                Some(i) => i < self@.len() && self@[i as int].name == name@ && holds(self@, name@)
                    && position(self@, name@) == i,
                None => !holds(self@, name@),
            },
    {
        proof {
            use_type_invariant(self);
        }
        let mut i: usize = 0;
        while i < self.rows.len()
            invariant
                i <= self.rows.len(),
                unique_names(self@),
                self@ == rows_view(self.rows@),
                forall|j: int| 0 <= j < i ==> (#[trigger] self@[j]).name != name@,
            decreases self.rows.len() - i,
        {
            if same_text(self.rows[i].name.as_str(), name) {
                assert(self@[i as int].name == name@);
                return Some(i);
            }
            i = i + 1;
        }
        None
    }

    /// Carries out a statement and answers it.
    ///
    /// A fetch leaves the store as it is. An insert adds a row at the end,
    /// unless the name is taken. An update replaces one field of the row
    /// with the name, if there is such a row, and unless it would give the
    /// row the name of another. This store never fails.
    pub fn execute(&mut self, statement: &Statement) -> (outcome: Outcome)
        ensures
            outcome@ == answer(old(self)@, statement@),
            final(self)@ == after(old(self)@, statement@),
            unique_names(old(self)@),
            unique_names(final(self)@),
    {
        proof {
            use_type_invariant(&*self);
        }
        match statement {
            Statement::SelectAll => {
                let mut rows: Vec<Row> = Vec::new();
                let mut i: usize = 0;
                while i < self.rows.len()
                    invariant
                        i <= self.rows.len(),
                        rows.len() == i,
                        forall|j: int| 0 <= j < i ==> rows[j] == self.rows[j],
                    decreases self.rows.len() - i,
                {
                    rows.push(self.rows[i].clone());
                    i = i + 1;
                }
                assert(rows_view(rows@) =~= self@);
                Outcome::Rows(rows)
            },
            Statement::SelectByName(name) => {
                let mut rows: Vec<Row> = Vec::new();
                match self.find(name.as_str()) {
                    Some(i) => {
                        rows.push(self.rows[i].clone());
                        assert(rows_view(rows@) =~= seq![self@[i as int]]);
                    },
                    None => {
                        assert(rows_view(rows@) =~= Seq::<RowView>::empty());
                    },
                }
                Outcome::Rows(rows)
            },
            Statement::Insert(character) => {
                let row = character.to_row();
                match self.find(row.name.as_str()) {
                    Some(_) => Outcome::Duplicate,
                    None => {
                        let ghost before = self@;
                        let mut rows: Vec<Row> = Vec::new();
                        std::mem::swap(&mut self.rows, &mut rows);
                        rows.push(row);
                        assert(rows_view(rows@) =~= before.push(row@));
                        self.rows = rows;
                        Outcome::Done(1)
                    },
                }
            },
            Statement::Update { name, change } => {
                match self.find(name.as_str()) {
                    None => Outcome::Done(0),
                    Some(i) => {
                        let taken = match change {
                            FieldChange::Name(new_name) => !same_text(
                                new_name.as_str(),
                                name.as_str(),
                            ) && self.find(new_name.as_str()).is_some(),
                            _ => false,
                        };
                        if taken {
                            Outcome::Duplicate
                        } else {
                            let ghost before = self@;
                            let row = apply(change, &self.rows[i]);
                            let mut rows: Vec<Row> = Vec::new();
                            std::mem::swap(&mut self.rows, &mut rows);
                            rows.set(i, row);
                            assert(rows_view(rows@) =~= before.update(i as int, row@));
                            self.rows = rows;
                            Outcome::Done(1)
                        }
                    },
                }
            },
        }
    }
}

} // verus!
