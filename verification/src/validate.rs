//! Validation of the raw text of each field.
//!
//! Each function takes the text as it was typed or sent, and gives the typed
//! value of the field or says that the text is outside the field's domain.
//! None of them changes anything.

use crate::column::Column;
use crate::error::Error;
use crate::season::{season_of, Season};
use crate::text::{
    eq_ignoring_case, is_numeral, lemma_decimal_value_grows, lemma_numeral_reads_back, numeral,
    numeral_value, read_numeral, same_ignoring_case, unsigned_part,
};
use vstd::prelude::*;

verus! {

/// The last day of every season. Day 0 is taken as a day too.
pub const LAST_DAY: u8 = 28;

/// The day that a text denotes, if it denotes one: the text is an unsigned
/// decimal numeral and its number is at most [`LAST_DAY`].
pub open spec fn day_of(text: Seq<char>) -> Option<u8> {
    if is_numeral(text) && numeral_value(text) <= LAST_DAY {
        Some(numeral_value(text) as u8)
    } else {
        None
    }
}

/// The truth value that a text denotes, if it denotes one: the text is the
/// word "true" or the word "false" up to letter case.
pub open spec fn bachelor_of(text: Seq<char>) -> Option<bool> {
    if same_ignoring_case(text, "true"@) {
        Some(true)
    } else if same_ignoring_case(text, "false"@) {
        Some(false)
    } else {
        None
    }
}

/// Reads the season of a birthday from the season's name, in any letter case.
pub fn parse_season(text: &str) -> (season: Result<Season, Error>)
    ensures
        season == match season_of(text@) {
            Some(s) => Ok::<Season, Error>(s),
            None => Err(Error::InvalidInput(Column::BirthdaySeason)),
        },
{
    match Season::from_text(text) {
        Ok(s) => Ok(s),
        Err(_) => Err(Error::InvalidInput(Column::BirthdaySeason)),
    }
}

/// Reads the day of a birthday from a decimal numeral. Numbers from 0 to
/// [`LAST_DAY`] are days; a larger number, a negative one and any text that
/// is no number are rejected.
pub fn parse_day(text: &str) -> (day: Result<u8, Error>)
    ensures
        day == match day_of(text@) {
            Some(d) => Ok::<u8, Error>(d),
            None => Err(Error::InvalidInput(Column::BirthdayDay)),
        },
        day matches Ok(d) ==> d <= LAST_DAY,
{
    match read_numeral(text, LAST_DAY) {
        Some(d) => Ok(d),
        None => Err(Error::InvalidInput(Column::BirthdayDay)),
    }
}

/// Reads whether a character can be married from the word "true" or the
/// word "false", in any letter case. No other way of saying yes or no is
/// taken.
pub fn parse_bachelor(text: &str) -> (bachelor: Result<bool, Error>)
    ensures
        bachelor == match bachelor_of(text@) {
            Some(b) => Ok::<bool, Error>(b),
            None => Err(Error::InvalidInput(Column::IsBachelor)),
        },
{
    proof {
        reveal_strlit("true");
        reveal_strlit("false");
    }
    if eq_ignoring_case(text, "true") {
        Ok(true)
    } else if eq_ignoring_case(text, "false") {
        Ok(false)
    } else {
        Err(Error::InvalidInput(Column::IsBachelor))
    }
}

/// Takes a name as it is, unless it is empty.
pub fn parse_name(text: &str) -> (name: Result<String, Error>)
    ensures
        match name {
            Ok(n) => n@ == text@ && text@.len() > 0,
            Err(e) => e == Error::InvalidInput(Column::Name) && text@.len() == 0,
        },
{
    if text.is_empty() {
        Err(Error::InvalidInput(Column::Name))
    } else {
        Ok(text.to_owned())
    }
}

/// Takes the name of a gift as it is, unless it is empty.
pub fn parse_gift(text: &str) -> (gift: Result<String, Error>)
    ensures
        match gift {
            Ok(g) => g@ == text@ && text@.len() > 0,
            Err(e) => e == Error::InvalidInput(Column::BestGift) && text@.len() == 0,
        },
{
    if text.is_empty() {
        Err(Error::InvalidInput(Column::BestGift))
    } else {
        Ok(text.to_owned())
    }
}

/// Every number from 0 to 28, written in the usual way, is read as that day,
/// and no larger number is read as a day.
pub proof fn lemma_day_of_numeral(n: nat)
    ensures
        n <= LAST_DAY ==> day_of(numeral(n)) == Some(n as u8),
        n > LAST_DAY ==> day_of(numeral(n)) is None,
{
    lemma_numeral_reads_back(n);
}

/// The day that a text denotes is the number of its numeral, and is no later
/// than the last day of a season.
pub proof fn lemma_day_of_is_a_day(text: Seq<char>)
    ensures
        day_of(text) matches Some(d) ==> d <= LAST_DAY && d == numeral_value(text),
{
    if is_numeral(text) {
        lemma_decimal_value_grows(unsigned_part(text));
    }
}

/// A text that is no decimal numeral is no day.
pub proof fn lemma_day_of_other_text(text: Seq<char>)
    requires
        !is_numeral(text),
    ensures
        day_of(text) is None,
{
}

} // verus!
