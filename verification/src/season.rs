//! The four seasons of the year, and their written form.

use crate::text::{ascii, eq_ignoring_case, same_ignoring_case};
use vstd::prelude::*;

verus! {

/// A season of the year.
#[derive(Clone, Copy, Debug, PartialEq, Eq, Structural)]
pub enum Season {
    Spring,
    Summer,
    Fall,
    Winter,
}

/// The failure to read one value of a closed set of words: the text names
/// none of them.
#[derive(Clone, Copy, Debug, PartialEq, Eq, Structural)]
pub struct InvalidEnumeration;

impl Season {
    /// The canonical written form of the season: the form that is stored and
    /// shown.
    pub open spec fn text(self) -> Seq<char> {
        match self {
            Season::Spring => "Spring"@,
            Season::Summer => "Summer"@,
            Season::Fall => "Fall"@,
            Season::Winter => "Winter"@,
        }
    }

    /// The canonical written form of the season.
    pub fn as_str(&self) -> (word: &'static str)
        ensures
            word@ == self.text(),
    {
        match self {
            Season::Spring => "Spring",
            Season::Summer => "Summer",
            Season::Fall => "Fall",
            Season::Winter => "Winter",
        }
    }

    /// Reads a season from its name, written in any mix of upper and lower
    /// case. Nothing but the whole name is accepted: no prefix, no
    /// surrounding blanks.
    pub fn from_text(text: &str) -> (season: Result<Season, InvalidEnumeration>)
        ensures
            season == match season_of(text@) {
                Some(s) => Ok::<Season, InvalidEnumeration>(s),
                None => Err(InvalidEnumeration),
            },
    {
        if eq_ignoring_case(text, "Spring") {
            Ok(Season::Spring)
        } else if eq_ignoring_case(text, "Summer") {
            Ok(Season::Summer)
        } else if eq_ignoring_case(text, "Fall") {
            Ok(Season::Fall)
        } else if eq_ignoring_case(text, "Winter") {
            Ok(Season::Winter)
        } else {
            Err(InvalidEnumeration)
        }
    }
}

/// The season that a text names, if it names one: the season whose canonical
/// form is the text up to letter case.
pub open spec fn season_of(text: Seq<char>) -> Option<Season> {
    if same_ignoring_case(text, Season::Spring.text()) {
        Some(Season::Spring)
    } else if same_ignoring_case(text, Season::Summer.text()) {
        Some(Season::Summer)
    } else if same_ignoring_case(text, Season::Fall.text()) {
        Some(Season::Fall)
    } else if same_ignoring_case(text, Season::Winter.text()) {
        Some(Season::Winter)
    } else {
        None
    }
}

/// The canonical forms are ASCII words, spelled as the variants are.
pub proof fn lemma_season_words()
    ensures
        forall|s: Season| ascii(#[trigger] s.text()),
        Season::Spring.text() == seq!['S', 'p', 'r', 'i', 'n', 'g'],
        Season::Summer.text() == seq!['S', 'u', 'm', 'm', 'e', 'r'],
        Season::Fall.text() == seq!['F', 'a', 'l', 'l'],
        Season::Winter.text() == seq!['W', 'i', 'n', 't', 'e', 'r'],
{
    reveal_strlit("Spring");
    reveal_strlit("Summer");
    reveal_strlit("Fall");
    reveal_strlit("Winter");
    assert("Spring"@ =~= seq!['S', 'p', 'r', 'i', 'n', 'g']);
    assert("Summer"@ =~= seq!['S', 'u', 'm', 'm', 'e', 'r']);
    assert("Fall"@ =~= seq!['F', 'a', 'l', 'l']);
    assert("Winter"@ =~= seq!['W', 'i', 'n', 't', 'e', 'r']);
    assert forall|s: Season| ascii(#[trigger] s.text()) by {
        match s {
            Season::Spring => {},
            Season::Summer => {},
            Season::Fall => {},
            Season::Winter => {},
        }
    }
}

/// A text names a season exactly when it is that season's canonical form up
/// to letter case: no text names two seasons, and a text that is the form
/// of none names none.
pub proof fn lemma_season_of_matches(text: Seq<char>, season: Season)
    ensures
        season_of(text) == Some(season) <==> same_ignoring_case(text, season.text()),
        season_of(text) is None <==> forall|other: Season|
            !same_ignoring_case(text, #[trigger] other.text()),
{
    lemma_season_words();
    let spring = Season::Spring.text();
    let summer = Season::Summer.text();
    let fall = Season::Fall.text();
    let winter = Season::Winter.text();
    if same_ignoring_case(text, spring) {
        assert(spring[1] == 'p' && summer[1] == 'u' && winter[1] == 'i');
        assert(crate::text::lower(text[1]) == crate::text::lower(spring[1]));
    } else if same_ignoring_case(text, summer) {
        assert(summer[1] == 'u' && winter[1] == 'i');
        assert(crate::text::lower(text[1]) == crate::text::lower(summer[1]));
    }
}

/// The canonical form of every season names that season, in any letter case.
pub proof fn lemma_season_text_reads_back(season: Season, text: Seq<char>)
    requires
        same_ignoring_case(text, season.text()),
    ensures
        season_of(text) == Some(season),
        season_of(season.text()) == Some(season),
{
    lemma_season_of_matches(text, season);
    lemma_season_of_matches(season.text(), season);
}

} // verus!
