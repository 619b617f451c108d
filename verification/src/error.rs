//! The ways in which a request can fail.

use crate::column::Column;
use vstd::prelude::*;
use vstd::string::*;

verus! {

/// Why a request was not carried out. Every failure is handed back to the
/// caller as one of these; none ends the process.
#[derive(Clone, Copy, Debug, PartialEq, Eq, Structural)]
pub enum Error {
    /// The text given for the named field is outside the field's domain.
    InvalidInput(Column),
    /// No record has the requested name.
    NotFound,
    /// A record with the same name exists already.
    DuplicateKey,
    /// A change was requested without any new value.
    NoChangeRequested,
    /// The store could not be asked whether the record exists.
    StorageUnavailable,
    /// The store failed to carry out a statement.
    StorageError,
    /// A stored record breaks the constraints of its fields.
    CorruptRecord,
    /// The request lacks an argument.
    Usage,
    /// The request names a field that the records do not have.
    UnknownField,
}

impl Error {
    /// The words in which the failure is told to a person.
    pub open spec fn text(self) -> Seq<char> {
        match self {
            Error::InvalidInput(Column::Name) => "Invalid name. It must not be empty."@,
            Error::InvalidInput(Column::BirthdaySeason) =>
                "Invalid season. Only spring, summer, fall or winter allowed."@,
            Error::InvalidInput(Column::BirthdayDay) =>
                "Invalid day. Only whole numbers from 0 to 28 allowed."@,
            Error::InvalidInput(Column::IsBachelor) =>
                "Invalid bachelor status. Only true or false allowed."@,
            Error::InvalidInput(Column::BestGift) => "Invalid gift. It must not be empty."@,
            Error::NotFound => "Sorry, I can't find this character in the database!"@,
            Error::DuplicateKey => "A character with this name is in the database already."@,
            Error::NoChangeRequested => "Invalid request. No new value was given."@,
            Error::StorageUnavailable =>
                "Database error when trying to retrieve character - ensure this character has been added."@,
            Error::StorageError => "Database error when trying to carry out the request."@,
            Error::CorruptRecord => "A stored character breaks the rules of its fields."@,
            Error::Usage => "Please provide the arguments that the request needs."@,
            Error::UnknownField =>
                "Couldn't recognize the value name. The following value names are available: name, birthday_season, birthday_day, is_bachelor, best_gift"@,
        }
    }

    /// The words in which the failure is told to a person, with the text
    /// that was rejected where the failure is a rejected text and the text
    /// is at hand: the domain of the field, then the offending text between
    /// quotes.
    pub open spec fn report_text(self, offending: Option<Seq<char>>) -> Seq<char> {
        match (self, offending) {
            (Error::InvalidInput(_), Some(text)) => self.text() + " I received '"@ + text + "'."@,
            _ => self.text(),
        }
    }

    /// Tells the failure to a person. A rejected text is quoted after the
    /// words that name the domain of its field.
    pub fn report(&self, offending: Option<&str>) -> (words: String)
        ensures
            words@ == self.report_text(
                match offending {
                    Some(text) => Some(text@),
                    None => None,
                },
            ),
    {
        let words = self.message().to_owned();
        match (self, offending) {
            (Error::InvalidInput(_), Some(text)) => {
                let words = words.concat(" I received '");
                let words = words.concat(text);
                words.concat("'.")
            },
            _ => words,
        }
    }

    /// The words in which the failure is told to a person. For a rejected
    /// text they name the domain of the field.
    pub fn message(&self) -> (words: &'static str)
        ensures
            words@ == self.text(),
    {
        match self {
            Error::InvalidInput(Column::Name) => "Invalid name. It must not be empty.",
            Error::InvalidInput(Column::BirthdaySeason) =>
                "Invalid season. Only spring, summer, fall or winter allowed.",
            Error::InvalidInput(Column::BirthdayDay) =>
                "Invalid day. Only whole numbers from 0 to 28 allowed.",
            Error::InvalidInput(Column::IsBachelor) =>
                "Invalid bachelor status. Only true or false allowed.",
            Error::InvalidInput(Column::BestGift) => "Invalid gift. It must not be empty.",
            Error::NotFound => "Sorry, I can't find this character in the database!",
            Error::DuplicateKey => "A character with this name is in the database already.",
            Error::NoChangeRequested => "Invalid request. No new value was given.",
            Error::StorageUnavailable =>
                "Database error when trying to retrieve character - ensure this character has been added.",
            Error::StorageError => "Database error when trying to carry out the request.",
            Error::CorruptRecord => "A stored character breaks the rules of its fields.",
            Error::Usage => "Please provide the arguments that the request needs.",
            Error::UnknownField =>
                "Couldn't recognize the value name. The following value names are available: name, birthday_season, birthday_day, is_bachelor, best_gift",
        }
    }
}

} // verus!
