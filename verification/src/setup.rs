//! What a fresh installation starts from: where the database is, and the
//! characters that it holds from the first day.

use crate::character::{Character, CharacterView};
use crate::season::Season;
use crate::statement::{Statement, StatementView};
use vstd::prelude::*;
use vstd::string::*;

verus! {

/// The address of a database: the address of its server, a slash, and the
/// name of the database.
pub fn full_db_path(url: &str, db_name: &str) -> (path: String)
    ensures
        path@ == url@ + "/"@ + db_name@,
{
    let path = url.to_owned();
    let path = path.concat("/");
    path.concat(db_name)
}

/// The characters of a fresh installation, in the order in which they are
/// stored.
pub open spec fn initial_cast() -> Seq<CharacterView> {
    seq![
        CharacterView {
            name: "Abigail"@,
            birthday_season: Season::Fall,
            birthday_day: 13,
            is_bachelor: true,
            best_gift: "Amethyst"@,
        },
        CharacterView {
            name: "Caroline"@,
            birthday_season: Season::Winter,
            birthday_day: 7,
            is_bachelor: false,
            best_gift: "Fish Taco"@,
        },
        CharacterView {
            name: "Haley"@,
            birthday_season: Season::Spring,
            birthday_day: 14,
            is_bachelor: true,
            best_gift: "Coconut"@,
        },
        CharacterView {
            name: "Lewis"@,
            birthday_season: Season::Spring,
            birthday_day: 7,
            is_bachelor: false,
            best_gift: "Autumn's Beauty"@,
        },
        CharacterView {
            name: "Leah"@,
            birthday_season: Season::Winter,
            birthday_day: 23,
            is_bachelor: true,
            best_gift: "Goat Cheese"@,
        },
    ]
}

/// The statements of a list, as plain values, in the order of the list.
pub open spec fn statements_view(statements: Seq<Statement>) -> Seq<StatementView> {
    statements.map_values(|statement: Statement| statement@)
}

/// Adds to the list the insert of one character, if its fields keep to
/// their constraints.
fn push_insert(
    statements: &mut Vec<Statement>,
    name: &str,
    birthday_season: Season,
    birthday_day: u8,
    is_bachelor: bool,
    best_gift: &str,
)
    ensures
        name@.len() > 0 && birthday_day <= crate::validate::LAST_DAY && best_gift@.len() > 0
            ==> statements_view(final(statements)@) == statements_view(old(statements)@).push(
            StatementView::Insert(
                CharacterView {
                    name: name@,
                    birthday_season,
                    birthday_day,
                    is_bachelor,
                    best_gift: best_gift@,
                },
            ),
        ),
{
    let ghost before = statements_view(statements@);
    match Character::new(
        name.to_owned(),
        birthday_season,
        birthday_day,
        is_bachelor,
        best_gift.to_owned(),
    ) {
        Ok(character) => {
            statements.push(character.add_to_database());
            assert(statements_view(statements@) =~= before.push(
                StatementView::Insert(character@),
            ));
        },
        Err(_) => {},
    }
}

/// The statements that store the characters of a fresh installation, one
/// insert for each, in their order.
pub fn setup_initial_values() -> (statements: Vec<Statement>)
    ensures
        statements_view(statements@) == initial_cast().map_values(
            |character: CharacterView| StatementView::Insert(character),
        ),
        forall|i: int| 0 <= i < initial_cast().len() ==> (#[trigger] initial_cast()[i]).valid(),
{
    proof {
        reveal_strlit("Abigail");
        reveal_strlit("Amethyst");
        reveal_strlit("Caroline");
        reveal_strlit("Fish Taco");
        reveal_strlit("Haley");
        reveal_strlit("Coconut");
        reveal_strlit("Lewis");
        reveal_strlit("Autumn's Beauty");
        reveal_strlit("Leah");
        reveal_strlit("Goat Cheese");
    }
    let mut statements: Vec<Statement> = Vec::new();
    push_insert(&mut statements, "Abigail", Season::Fall, 13, true, "Amethyst");
    push_insert(&mut statements, "Caroline", Season::Winter, 7, false, "Fish Taco");
    push_insert(&mut statements, "Haley", Season::Spring, 14, true, "Coconut");
    push_insert(&mut statements, "Lewis", Season::Spring, 7, false, "Autumn's Beauty");
    push_insert(&mut statements, "Leah", Season::Winter, 23, true, "Goat Cheese");
    assert(statements_view(statements@) =~= initial_cast().map_values(
        |character: CharacterView| StatementView::Insert(character),
    ));
    statements
}

} // verus!
