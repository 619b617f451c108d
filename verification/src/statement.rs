//! The statements that the record store is asked to carry out, and what it
//! answers.
//!
//! A statement is a command text with place-holders and a list of values to
//! bind to them. The text of every statement is fixed but for the name of a
//! column, which comes from [`Column`] and from nowhere else; what a caller
//! supplies travels as a bound value and never becomes part of the text.

use crate::change::{FieldChange, FieldChangeView};
use crate::character::{encode, Character, CharacterView};
use crate::column::Column;
use crate::row::{rows_view, Row, RowView};
use vstd::prelude::*;
use vstd::string::*;

verus! {

/// A value bound to a place-holder of a statement.
#[derive(Debug, PartialEq, Eq)]
pub enum BindValue {
    Text(String),
    Integer(i32),
    Flag(bool),
}

/// A bound value, as a plain value.
pub enum BindView {
    Text(Seq<char>),
    Integer(int),
    Flag(bool),
}

impl View for BindValue {
    type V = BindView;

    open spec fn view(&self) -> BindView {
        match self {
            BindValue::Text(text) => BindView::Text(text@),
            BindValue::Integer(number) => BindView::Integer(*number as int),
            BindValue::Flag(flag) => BindView::Flag(*flag),
        }
    }
}

/// The values of a list, as plain values, in the order of the list.
pub open spec fn binds_view(values: Seq<BindValue>) -> Seq<BindView> {
    values.map_values(|value: BindValue| value@)
}

/// The stored form of the new value of a field.
pub open spec fn bound_value(change: FieldChangeView) -> BindView {
    match change {
        FieldChangeView::Name(name) => BindView::Text(name),
        FieldChangeView::BirthdaySeason(season) => BindView::Text(season.text()),
        FieldChangeView::BirthdayDay(day) => BindView::Integer(day as int),
        FieldChangeView::IsBachelor(bachelor) => BindView::Flag(bachelor),
        FieldChangeView::BestGift(gift) => BindView::Text(gift),
    }
}

/// The text of the statement that replaces one column of one record.
pub open spec fn update_text(column: Column) -> Seq<char> {
    "UPDATE characters SET "@ + column.text() + " = ? WHERE name = ?"@
}

/// The text of the statement that stores a new record.
pub open spec fn insert_text() -> Seq<char> {
    "INSERT INTO characters (name, birthday_season, birthday_day, is_bachelor, best_gift) VALUES (?, ?, ?, ?, ?)"@
}

/// The text of the statement that fetches the record of one name.
pub open spec fn select_one_text() -> Seq<char> {
    "SELECT * FROM characters WHERE name = ?"@
}

/// The text of the statement that fetches every record.
pub open spec fn select_all_text() -> Seq<char> {
    "SELECT * FROM characters"@
}

/// A request to the record store.
#[derive(Debug, PartialEq, Eq)]
pub enum Statement {
    /// Fetch every record.
    SelectAll,
    /// Fetch the record of this name.
    SelectByName(String),
    /// Store this character as a new record.
    Insert(Character),
    /// In the record of this name, replace one field.
    Update { name: String, change: FieldChange },
}

/// A request to the record store, as plain values.
pub enum StatementView {
    SelectAll,
    SelectByName(Seq<char>),
    Insert(CharacterView),
    Update { name: Seq<char>, change: FieldChangeView },
}

impl View for Statement {
    type V = StatementView;

    open spec fn view(&self) -> StatementView {
        match self {
            Statement::SelectAll => StatementView::SelectAll,
            Statement::SelectByName(name) => StatementView::SelectByName(name@),
            Statement::Insert(character) => StatementView::Insert(character@),
            Statement::Update { name, change } => StatementView::Update {
                name: name@,
                change: change@,
            },
        }
    }
}

impl StatementView {
    /// The command text, with a question mark in the place of each value.
    pub open spec fn sql(self) -> Seq<char> {
        match self {
            StatementView::SelectAll => select_all_text(),
            StatementView::SelectByName(_) => select_one_text(),
            StatementView::Insert(_) => insert_text(),
            StatementView::Update { name, change } => update_text(change.column()),
        }
    }

    /// The values to bind to the place-holders, in the order of the
    /// place-holders.
    pub open spec fn parameters(self) -> Seq<BindView> {
        match self {
            StatementView::SelectAll => seq![],
            StatementView::SelectByName(name) => seq![BindView::Text(name)],
            StatementView::Insert(character) => {
                let row = encode(character);
                seq![
                    BindView::Text(row.name),
                    BindView::Text(row.birthday_season),
                    BindView::Integer(row.birthday_day),
                    BindView::Flag(row.is_bachelor),
                    BindView::Text(row.best_gift),
                ]
            },
            StatementView::Update { name, change } => seq![
                bound_value(change),
                BindView::Text(name),
            ],
        }
    }

    /// The statement changes what the store holds, if it is carried out.
    pub open spec fn mutates(self) -> bool {
        self is Insert || self is Update
    }
}

impl Statement {
    /// The command text of the statement.
    pub fn sql(&self) -> (text: String)
        ensures
            text@ == self@.sql(),
    {
        match self {
            Statement::SelectAll => "SELECT * FROM characters".to_owned(),
            Statement::SelectByName(_) => "SELECT * FROM characters WHERE name = ?".to_owned(),
            Statement::Insert(_) => "INSERT INTO characters (name, birthday_season, birthday_day, is_bachelor, best_gift) VALUES (?, ?, ?, ?, ?)".to_owned(),
            Statement::Update { name, change } => {
                let text = "UPDATE characters SET ".to_owned();
                let text = text.concat(change.column().as_str());
                text.concat(" = ? WHERE name = ?")
            },
        }
    }

    /// The values to bind to the place-holders of the command text, in
    /// their order.
    pub fn parameters(&self) -> (values: Vec<BindValue>)
        ensures
            binds_view(values@) == self@.parameters(),
    {
        let mut values: Vec<BindValue> = Vec::new();
        match self {
            Statement::SelectAll => {},
            Statement::SelectByName(name) => {
                values.push(BindValue::Text(name.clone()));
            },
            Statement::Insert(character) => {
                let row = character.to_row();
                values.push(BindValue::Text(row.name));
                values.push(BindValue::Text(row.birthday_season));
                values.push(BindValue::Integer(row.birthday_day));
                values.push(BindValue::Flag(row.is_bachelor));
                values.push(BindValue::Text(row.best_gift));
            },
            Statement::Update { name, change } => {
                let value = match change {
                    FieldChange::Name(new_name) => BindValue::Text(new_name.clone()),
                    FieldChange::BirthdaySeason(season) => BindValue::Text(
                        season.as_str().to_owned(),
                    ),
                    FieldChange::BirthdayDay(day) => BindValue::Integer(*day as i32),
                    FieldChange::IsBachelor(bachelor) => BindValue::Flag(*bachelor),
                    FieldChange::BestGift(gift) => BindValue::Text(gift.clone()),
                };
                values.push(value);
                values.push(BindValue::Text(name.clone()));
            },
        }
        assert(binds_view(values@) =~= self@.parameters());
        values
    }

    /// Whether the statement changes what the store holds.
    pub fn mutates(&self) -> (yes: bool)
        ensures
            yes == self@.mutates(),
    {
        match self {
            Statement::SelectAll => false,
            Statement::SelectByName(_) => false,
            Statement::Insert(_) => true,
            Statement::Update { .. } => true,
        }
    }
}

/// What the store answered to a statement.
#[derive(Debug, PartialEq, Eq)]
pub enum Outcome {
    /// The rows that a fetch found, in the order of the store.
    Rows(Vec<Row>),
    /// The statement was carried out; the number is that of the rows it
    /// changed.
    Done(u64),
    /// The statement would have given two records the same name, and was
    /// not carried out.
    Duplicate,
    /// The store could not be reached, or failed otherwise.
    Failed,
}

/// An answer of the store, as plain values.
pub enum OutcomeView {
    Rows(Seq<RowView>),
    Done(u64),
    Duplicate,
    Failed,
}

impl View for Outcome {
    type V = OutcomeView;

    open spec fn view(&self) -> OutcomeView {
        match self {
            Outcome::Rows(rows) => OutcomeView::Rows(rows_view(rows@)),
            Outcome::Done(count) => OutcomeView::Done(*count),
            Outcome::Duplicate => OutcomeView::Duplicate,
            Outcome::Failed => OutcomeView::Failed,
        }
    }
}

/// The text of a statement does not depend on the values that it carries:
/// two updates of the same column have the same text, whatever the record
/// and the new value, and so have any two inserts and any two fetches by
/// name.
pub proof fn lemma_text_ignores_values(a: StatementView, b: StatementView)
    requires
        match (a, b) {
            (StatementView::SelectAll, StatementView::SelectAll) => true,
            (StatementView::SelectByName(_), StatementView::SelectByName(_)) => true,
            (StatementView::Insert(_), StatementView::Insert(_)) => true,
            (
                StatementView::Update { change: first, .. },
                StatementView::Update { change: second, .. },
            ) => first.column() == second.column(),
            _ => false,
        },
    ensures
        a.sql() == b.sql(),
{
}

/// What a row holds in one column.
pub open spec fn stored_value(row: RowView, column: Column) -> BindView {
    match column {
        Column::Name => BindView::Text(row.name),
        Column::BirthdaySeason => BindView::Text(row.birthday_season),
        Column::BirthdayDay => BindView::Integer(row.birthday_day),
        Column::IsBachelor => BindView::Flag(row.is_bachelor),
        Column::BestGift => BindView::Text(row.best_gift),
    }
}

/// A change writes its value to its own column and leaves the four other
/// columns of the row as they were.
pub proof fn lemma_change_touches_one_column(change: FieldChangeView, row: RowView)
    ensures
        stored_value(change.applied_to(row), change.column()) == bound_value(change),
        forall|column: Column|
            column != change.column() ==> #[trigger] stored_value(
                change.applied_to(row),
                column,
            ) == stored_value(row, column),
{
}

} // verus!
