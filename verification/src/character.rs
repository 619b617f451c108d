//! The character record and its mapping to and from a stored row.

use crate::column::Column;
use crate::error::Error;
use crate::row::{Row, RowView};
use crate::season::{lemma_season_of_matches, season_of, Season};
use crate::text::same_ignoring_case;
use crate::validate::LAST_DAY;
use vstd::prelude::*;

verus! {

/// The five fields of a character, as plain values.
pub struct CharacterView {
    pub name: Seq<char>,
    pub birthday_season: Season,
    pub birthday_day: u8,
    pub is_bachelor: bool,
    pub best_gift: Seq<char>,
}

impl CharacterView {
    /// The constraints of the fields: the name and the gift are not empty,
    /// and the day is no later than the last day of a season.
    pub open spec fn valid(self) -> bool {
        &&& self.name.len() > 0
        &&& self.birthday_day <= LAST_DAY
        &&& self.best_gift.len() > 0
    }
}

/// The row that stores a character: the season in its canonical form, the
/// day widened, the other fields as they are.
pub open spec fn encode(character: CharacterView) -> RowView {
    RowView {
        name: character.name,
        birthday_season: character.birthday_season.text(),
        birthday_day: character.birthday_day as int,
        is_bachelor: character.is_bachelor,
        best_gift: character.best_gift,
    }
}

/// The character that a row stores, if the row keeps to the constraints of
/// every field: its season text names a season, its day is a day, its name
/// and gift are not empty.
pub open spec fn decode(row: RowView) -> Option<CharacterView> {
    if row.name.len() > 0 && season_of(row.birthday_season) is Some && 0 <= row.birthday_day
        <= LAST_DAY && row.best_gift.len() > 0 {
        Some(
            CharacterView {
                name: row.name,
                birthday_season: season_of(row.birthday_season)->0,
                birthday_day: row.birthday_day as u8,
                is_bachelor: row.is_bachelor,
                best_gift: row.best_gift,
            },
        )
    } else {
        None
    }
}

/// A character of the valley. Every value of this type keeps to the
/// constraints of its fields.
#[derive(Debug, PartialEq, Eq)]
pub struct Character {
    name: String,
    birthday_season: Season,
    birthday_day: u8,
    is_bachelor: bool,
    best_gift: String,
}

impl View for Character {
    type V = CharacterView;

    closed spec fn view(&self) -> CharacterView {
        CharacterView {
            name: self.name@,
            birthday_season: self.birthday_season,
            birthday_day: self.birthday_day,
            is_bachelor: self.is_bachelor,
            best_gift: self.best_gift@,
        }
    }
}

impl Character {
    #[verifier::type_invariant]
    spec fn well_formed(self) -> bool {
        self@.valid()
    }

    /// Makes a character from typed values. The fields are checked in the
    /// order name, day, gift, and the first that breaks its constraint is
    /// reported.
    pub fn new(
        name: String,
        birthday_season: Season,
        birthday_day: u8,
        is_bachelor: bool,
        best_gift: String,
    ) -> (made: Result<Character, Error>)
        ensures
            match made {
                Ok(c) => c@ == (CharacterView {
                    name: name@,
                    birthday_season,
                    birthday_day,
                    is_bachelor,
                    best_gift: best_gift@,
                }) && c@.valid(),
                Err(e) => e == (if name@.len() == 0 {
                    Error::InvalidInput(Column::Name)
                } else if birthday_day > LAST_DAY {
                    Error::InvalidInput(Column::BirthdayDay)
                } else {
                    Error::InvalidInput(Column::BestGift)
                }) && (name@.len() == 0 || birthday_day > LAST_DAY || best_gift@.len() == 0),
            },
    {
        if name.as_str().is_empty() {
            Err(Error::InvalidInput(Column::Name))
        } else if birthday_day > LAST_DAY {
            Err(Error::InvalidInput(Column::BirthdayDay))
        } else if best_gift.as_str().is_empty() {
            Err(Error::InvalidInput(Column::BestGift))
        } else {
            Ok(Character { name, birthday_season, birthday_day, is_bachelor, best_gift })
        }
    }

    /// The name, by which the record is found.
    pub fn name(&self) -> (name: &str)
        ensures
            name@ == self@.name,
            name@.len() > 0,
    {
        proof {
            use_type_invariant(self);
        }
        self.name.as_str()
    }

    /// The season of the birthday.
    pub fn birthday_season(&self) -> (season: Season)
        ensures
            season == self@.birthday_season,
    {
        self.birthday_season
    }

    /// The day of the birthday within its season.
    pub fn birthday_day(&self) -> (day: u8)
        ensures
            day == self@.birthday_day,
            day <= LAST_DAY,
    {
        proof {
            use_type_invariant(self);
        }
        self.birthday_day
    }

    /// Whether the character can be married.
    pub fn is_bachelor(&self) -> (bachelor: bool)
        ensures
            bachelor == self@.is_bachelor,
    {
        self.is_bachelor
    }

    /// The gift that the character likes best.
    pub fn best_gift(&self) -> (gift: &str)
        ensures
            gift@ == self@.best_gift,
            gift@.len() > 0,
    {
        proof {
            use_type_invariant(self);
        }
        self.best_gift.as_str()
    }

    /// The row that stores this character. Read back, the row gives the same
    /// character.
    pub fn to_row(&self) -> (row: Row)
        ensures
            row@ == encode(self@),
            decode(row@) == Some(self@),
            self@.valid(),
    {
        proof {
            use_type_invariant(self);
            lemma_decode_encode(self@);
        }
        Row {
            name: self.name.clone(),
            birthday_season: self.birthday_season.as_str().to_owned(),
            birthday_day: self.birthday_day as i32,
            is_bachelor: self.is_bachelor,
            best_gift: self.best_gift.clone(),
        }
    }

    /// Reads a character from a stored row. A row that breaks the constraint
    /// of any field is reported as corrupt; no field is given a default.
    pub fn from_row(row: &Row) -> (read: Result<Character, Error>)
        ensures
            match read {
                Ok(c) => decode(row@) == Some(c@) && c@.valid(),
                Err(e) => e == Error::CorruptRecord && decode(row@) is None,
            },
    {
        if row.name.as_str().is_empty() || row.best_gift.as_str().is_empty() {
            return Err(Error::CorruptRecord);
        }
        if row.birthday_day < 0 || row.birthday_day > 28 {
            return Err(Error::CorruptRecord);
        }
        match Season::from_text(row.birthday_season.as_str()) {
            Ok(birthday_season) => Ok(
                Character {
                    name: row.name.clone(),
                    birthday_season,
                    birthday_day: row.birthday_day as u8,
                    is_bachelor: row.is_bachelor,
                    best_gift: row.best_gift.clone(),
                },
            ),
            Err(_) => Err(Error::CorruptRecord),
        }
    }
}

impl Clone for Character {
    fn clone(&self) -> (copy: Self)
        ensures
            copy@ == self@,
    {
        proof {
            use_type_invariant(self);
        }
        Character {
            name: self.name.clone(),
            birthday_season: self.birthday_season,
            birthday_day: self.birthday_day,
            is_bachelor: self.is_bachelor,
            best_gift: self.best_gift.clone(),
        }
    }
}

/// The row written for a valid character reads back as that character.
pub proof fn lemma_decode_encode(character: CharacterView)
    requires
        character.valid(),
    ensures
        decode(encode(character)) == Some(character),
{
    lemma_season_of_matches(character.birthday_season.text(), character.birthday_season);
}

/// Whatever a row reads as is valid, and is written back as a row that
/// differs from the first in nothing but the letter case of its season.
pub proof fn lemma_encode_decode(row: RowView)
    requires
        decode(row) is Some,
    ensures
        decode(row)->0.valid(),
        encode(decode(row)->0) == (RowView {
            birthday_season: decode(row)->0.birthday_season.text(),
            ..row
        }),
        same_ignoring_case(row.birthday_season, decode(row)->0.birthday_season.text()),
{
    lemma_season_of_matches(row.birthday_season, season_of(row.birthday_season)->0);
}

} // verus!
