use character_records::change::{resolve_change, validate_field, CharacterChangeBody, FieldChange};
use character_records::character::Character;
use character_records::column::Column;
use character_records::error::Error;
use character_records::handlers::{
    handle_adding_character, handle_changing_character, handle_read_all, handle_read_command,
    CharacterAddBody,
};
use character_records::row::Row;
use character_records::season::{InvalidEnumeration, Season};
use character_records::service::{add_character, change_character, read_characters};
use character_records::statement::{BindValue, Outcome, Statement};
use character_records::store::{
    change_character_value, changed, fetch_all, fetch_one, inserted, read_all, read_character,
};
use character_records::table::Table;

fn penny_body() -> CharacterAddBody {
    CharacterAddBody {
        name: "Penny".to_string(),
        birthday_season: "Spring".to_string(),
        birthday_day: "2".to_string(),
        is_bachelor: "false".to_string(),
        best_gift: "Pomegranate".to_string(),
    }
}

fn body_of(name: &str, season: &str, day: &str, bachelor: &str, gift: &str) -> CharacterAddBody {
    CharacterAddBody {
        name: name.to_string(),
        birthday_season: season.to_string(),
        birthday_day: day.to_string(),
        is_bachelor: bachelor.to_string(),
        best_gift: gift.to_string(),
    }
}

fn no_change(name: &str) -> CharacterChangeBody {
    CharacterChangeBody {
        name: name.to_string(),
        change_name: None,
        change_birthday_season: None,
        change_birthday_day: None,
        change_is_bachelor: None,
        change_best_gift: None,
    }
}

fn penny_row() -> Row {
    Row {
        name: "Penny".to_string(),
        birthday_season: "Spring".to_string(),
        birthday_day: 2,
        is_bachelor: false,
        best_gift: "Pomegranate".to_string(),
    }
}

fn table_with_penny() -> Table {
    let mut table = Table::new();
    assert_eq!(add_character(&mut table, &penny_body()), Ok(()));
    table
}

fn rows_of(table: &mut Table) -> Vec<Row> {
    match table.execute(&Statement::SelectAll) {
        Outcome::Rows(rows) => rows,
        other => panic!("a fetch answered {:?}", other),
    }
}

#[test]
fn season_has_a_canonical_form() {
    assert_eq!(Season::Spring.as_str(), "Spring");
    assert_eq!(Season::Summer.as_str(), "Summer");
    assert_eq!(Season::Fall.as_str(), "Fall");
    assert_eq!(Season::Winter.as_str(), "Winter");
    for season in [Season::Spring, Season::Summer, Season::Fall, Season::Winter] {
        assert_eq!(Season::from_text(season.as_str()), Ok(season));
        assert_eq!(Season::from_text(&season.as_str().to_uppercase()), Ok(season));
        assert_eq!(Season::from_text(&season.as_str().to_lowercase()), Ok(season));
    }
    assert_eq!(Season::from_text("Sprin"), Err(InvalidEnumeration));
    assert_eq!(Season::from_text(""), Err(InvalidEnumeration));
}

#[test]
fn column_has_a_fixed_name() {
    assert_eq!(Column::Name.as_str(), "name");
    assert_eq!(Column::BirthdaySeason.as_str(), "birthday_season");
    assert_eq!(Column::BirthdayDay.as_str(), "birthday_day");
    assert_eq!(Column::IsBachelor.as_str(), "is_bachelor");
    assert_eq!(Column::BestGift.as_str(), "best_gift");
    assert_eq!(Column::from_text("Birthday_Season"), Ok(Column::BirthdaySeason));
    assert_eq!(Column::from_text("NAME"), Ok(Column::Name));
    assert_eq!(Column::from_text("is_bachelor"), Ok(Column::IsBachelor));
    assert_eq!(Column::from_text("best_GIFT"), Ok(Column::BestGift));
    assert_eq!(Column::from_text("birthday_day"), Ok(Column::BirthdayDay));
    assert_eq!(Column::from_text("birthday"), Err(InvalidEnumeration));
    assert_eq!(Column::from_text("name; DROP TABLE characters"), Err(InvalidEnumeration));
}

#[test]
fn character_is_made_of_valid_fields_only() {
    let penny =
        Character::new("Penny".to_string(), Season::Spring, 2, false, "Pomegranate".to_string())
            .unwrap();
    assert_eq!(penny.name(), "Penny");
    assert_eq!(penny.birthday_season(), Season::Spring);
    assert_eq!(penny.birthday_day(), 2);
    assert!(!penny.is_bachelor());
    assert_eq!(penny.best_gift(), "Pomegranate");
    assert_eq!(penny.clone(), penny);

    assert!(Character::new("P".to_string(), Season::Fall, 0, true, "x".to_string()).is_ok());
    assert!(Character::new("P".to_string(), Season::Fall, 28, true, "x".to_string()).is_ok());
    assert_eq!(
        Character::new("".to_string(), Season::Fall, 29, true, "".to_string()),
        Err(Error::InvalidInput(Column::Name))
    );
    assert_eq!(
        Character::new("P".to_string(), Season::Fall, 29, true, "".to_string()),
        Err(Error::InvalidInput(Column::BirthdayDay))
    );
    assert_eq!(
        Character::new("P".to_string(), Season::Fall, 28, true, "".to_string()),
        Err(Error::InvalidInput(Column::BestGift))
    );
}

#[test]
fn character_is_written_to_a_row_and_read_back() {
    let penny =
        Character::new("Penny".to_string(), Season::Spring, 2, false, "Pomegranate".to_string())
            .unwrap();
    let row = penny.to_row();
    assert_eq!(row, penny_row());
    assert_eq!(Character::from_row(&row), Ok(penny));
    for season in [Season::Spring, Season::Summer, Season::Fall, Season::Winter] {
        for day in 0u8..=28 {
            for bachelor in [false, true] {
                let one =
                    Character::new("N".to_string(), season, day, bachelor, "G".to_string())
                        .unwrap();
                assert_eq!(one.to_row().birthday_season, season.as_str());
                assert_eq!(one.to_row().birthday_day, i32::from(day));
                assert_eq!(Character::from_row(&one.to_row()), Ok(one));
            }
        }
    }
}

#[test]
fn row_is_read_with_its_season_in_any_letter_case() {
    let mut row = penny_row();
    row.birthday_season = "sPRING".to_string();
    let penny = Character::from_row(&row).unwrap();
    assert_eq!(penny.birthday_season(), Season::Spring);
    assert_eq!(penny.to_row(), penny_row());
}

#[test]
fn row_that_breaks_a_constraint_is_corrupt() {
    let mut row = penny_row();
    row.birthday_season = "Monsoon".to_string();
    assert_eq!(Character::from_row(&row), Err(Error::CorruptRecord));
    let mut row = penny_row();
    row.birthday_day = 29;
    assert_eq!(Character::from_row(&row), Err(Error::CorruptRecord));
    row.birthday_day = -1;
    assert_eq!(Character::from_row(&row), Err(Error::CorruptRecord));
    row.birthday_day = 258;
    assert_eq!(Character::from_row(&row), Err(Error::CorruptRecord));
    row.birthday_day = 0;
    assert_eq!(Character::from_row(&row).unwrap().birthday_day(), 0);
    row.birthday_day = 28;
    assert_eq!(Character::from_row(&row).unwrap().birthday_day(), 28);
    let mut row = penny_row();
    row.name = String::new();
    assert_eq!(Character::from_row(&row), Err(Error::CorruptRecord));
    let mut row = penny_row();
    row.best_gift = String::new();
    assert_eq!(Character::from_row(&row), Err(Error::CorruptRecord));
}

#[test]
fn statement_text_is_fixed() {
    assert_eq!(Statement::SelectAll.sql(), "SELECT * FROM characters");
    assert_eq!(fetch_all().sql(), "SELECT * FROM characters");
    assert_eq!(fetch_one("Penny").sql(), "SELECT * FROM characters WHERE name = ?");
    assert_eq!(
        fetch_one("x' OR '1'='1").sql(),
        "SELECT * FROM characters WHERE name = ?"
    );
    let insert = handle_adding_character(&penny_body()).unwrap();
    assert_eq!(
        insert.sql(),
        "INSERT INTO characters (name, birthday_season, birthday_day, is_bachelor, best_gift) VALUES (?, ?, ?, ?, ?)"
    );
    let update = |change: FieldChange| Statement::Update { name: "Penny".to_string(), change };
    assert_eq!(
        update(FieldChange::Name("Pam".to_string())).sql(),
        "UPDATE characters SET name = ? WHERE name = ?"
    );
    assert_eq!(
        update(FieldChange::BirthdaySeason(Season::Fall)).sql(),
        "UPDATE characters SET birthday_season = ? WHERE name = ?"
    );
    assert_eq!(
        update(FieldChange::BirthdayDay(5)).sql(),
        "UPDATE characters SET birthday_day = ? WHERE name = ?"
    );
    assert_eq!(
        update(FieldChange::IsBachelor(true)).sql(),
        "UPDATE characters SET is_bachelor = ? WHERE name = ?"
    );
    assert_eq!(
        update(FieldChange::BestGift("Diamond".to_string())).sql(),
        "UPDATE characters SET best_gift = ? WHERE name = ?"
    );
}

#[test]
fn statement_text_never_holds_a_value() {
    let hostile = "x'; DROP TABLE characters; --";
    let update = Statement::Update {
        name: hostile.to_string(),
        change: FieldChange::BestGift(hostile.to_string()),
    };
    assert_eq!(update.sql(), "UPDATE characters SET best_gift = ? WHERE name = ?");
    assert_eq!(
        update.parameters(),
        vec![BindValue::Text(hostile.to_string()), BindValue::Text(hostile.to_string())]
    );
    let rename = Statement::Update {
        name: "Penny".to_string(),
        change: FieldChange::Name(hostile.to_string()),
    };
    assert_eq!(rename.sql(), "UPDATE characters SET name = ? WHERE name = ?");
}

#[test]
fn statement_values_are_bound_in_order() {
    assert_eq!(Statement::SelectAll.parameters(), Vec::<BindValue>::new());
    assert_eq!(fetch_one("Penny").parameters(), vec![BindValue::Text("Penny".to_string())]);
    let insert = handle_adding_character(&penny_body()).unwrap();
    assert_eq!(
        insert.parameters(),
        vec![
            BindValue::Text("Penny".to_string()),
            BindValue::Text("Spring".to_string()),
            BindValue::Integer(2),
            BindValue::Flag(false),
            BindValue::Text("Pomegranate".to_string()),
        ]
    );
    let update = |change: FieldChange| {
        Statement::Update { name: "Penny".to_string(), change }.parameters()
    };
    assert_eq!(
        update(FieldChange::Name("Pam".to_string())),
        vec![BindValue::Text("Pam".to_string()), BindValue::Text("Penny".to_string())]
    );
    assert_eq!(
        update(FieldChange::BirthdaySeason(Season::Winter)),
        vec![BindValue::Text("Winter".to_string()), BindValue::Text("Penny".to_string())]
    );
    assert_eq!(
        update(FieldChange::BirthdayDay(28)),
        vec![BindValue::Integer(28), BindValue::Text("Penny".to_string())]
    );
    assert_eq!(
        update(FieldChange::IsBachelor(true)),
        vec![BindValue::Flag(true), BindValue::Text("Penny".to_string())]
    );
    assert_eq!(
        update(FieldChange::BestGift("Diamond".to_string())),
        vec![BindValue::Text("Diamond".to_string()), BindValue::Text("Penny".to_string())]
    );
    for statement in [
        Statement::SelectAll,
        fetch_one("Penny"),
        handle_adding_character(&penny_body()).unwrap(),
        Statement::Update { name: "Penny".to_string(), change: FieldChange::BirthdayDay(1) },
    ] {
        let marks = statement.sql().chars().filter(|c| *c == '?').count();
        assert_eq!(marks, statement.parameters().len());
    }
}

#[test]
fn statement_tells_whether_it_writes() {
    assert!(!Statement::SelectAll.mutates());
    assert!(!fetch_one("Penny").mutates());
    assert!(handle_adding_character(&penny_body()).unwrap().mutates());
    assert!(Statement::Update { name: "P".to_string(), change: FieldChange::IsBachelor(true) }
        .mutates());
}

#[test]
fn answers_of_the_store_are_read() {
    assert_eq!(inserted(&Outcome::Done(1)), Ok(()));
    assert_eq!(inserted(&Outcome::Duplicate), Err(Error::DuplicateKey));
    assert_eq!(inserted(&Outcome::Failed), Err(Error::StorageError));
    assert_eq!(inserted(&Outcome::Rows(vec![])), Err(Error::StorageError));
    assert_eq!(changed(&Outcome::Done(0)), Ok(()));
    assert_eq!(changed(&Outcome::Done(1)), Ok(()));
    assert_eq!(changed(&Outcome::Duplicate), Err(Error::DuplicateKey));
    assert_eq!(changed(&Outcome::Failed), Err(Error::StorageError));

    assert_eq!(read_character(&Outcome::Rows(vec![])), Err(Error::NotFound));
    assert_eq!(read_character(&Outcome::Failed), Err(Error::StorageError));
    assert_eq!(read_character(&Outcome::Done(1)), Err(Error::StorageError));
    let penny = read_character(&Outcome::Rows(vec![penny_row()])).unwrap();
    assert_eq!(penny.name(), "Penny");
    let mut broken = penny_row();
    broken.birthday_season = "".to_string();
    assert_eq!(read_character(&Outcome::Rows(vec![broken.clone()])), Err(Error::CorruptRecord));

    assert_eq!(read_all(&Outcome::Rows(vec![])), Ok(vec![]));
    assert_eq!(read_all(&Outcome::Failed), Err(Error::StorageError));
    assert_eq!(read_all(&Outcome::Duplicate), Err(Error::StorageError));
    assert_eq!(read_all(&Outcome::Rows(vec![penny_row(), broken])), Err(Error::CorruptRecord));
    let mut pam = penny_row();
    pam.name = "Pam".to_string();
    pam.birthday_day = 18;
    let both = read_all(&Outcome::Rows(vec![pam, penny_row()])).unwrap();
    assert_eq!(both.len(), 2);
    assert_eq!(both[0].name(), "Pam");
    assert_eq!(both[0].birthday_day(), 18);
    assert_eq!(both[1], penny);
}

#[test]
fn lookup_failure_is_not_a_missing_record() {
    let change = || FieldChange::BirthdayDay(5);
    assert_eq!(
        change_character_value("Penny", change(), &Outcome::Failed),
        Err(Error::StorageUnavailable)
    );
    assert_eq!(
        change_character_value("Penny", change(), &Outcome::Rows(vec![])),
        Err(Error::NotFound)
    );
    assert_eq!(
        change_character_value("Penny", change(), &Outcome::Rows(vec![penny_row()])),
        Ok(Statement::Update { name: "Penny".to_string(), change: change() })
    );
    let mut body = no_change("Penny");
    body.change_birthday_day = Some("5".to_string());
    assert_eq!(handle_changing_character(&body, &Outcome::Failed), Err(Error::StorageUnavailable));
    assert_eq!(handle_changing_character(&body, &Outcome::Done(1)), Err(Error::StorageUnavailable));
    assert_eq!(handle_changing_character(&body, &Outcome::Rows(vec![])), Err(Error::NotFound));
}

#[test]
fn read_request_is_decided_by_its_word() {
    assert_eq!(handle_read_command(""), Err(Error::Usage));
    assert_eq!(handle_read_command("all"), Ok(Statement::SelectAll));
    assert_eq!(handle_read_command("All"), Ok(Statement::SelectByName("All".to_string())));
    assert_eq!(handle_read_command("Penny"), Ok(Statement::SelectByName("Penny".to_string())));
    assert_eq!(handle_read_command("allé"), Ok(Statement::SelectByName("allé".to_string())));
    assert_eq!(handle_read_all(), Statement::SelectAll);
}

#[test]
fn add_request_is_validated_field_by_field() {
    let insert = handle_adding_character(&body_of("Penny", "sPrInG", "02", "FALSE", "Pomegranate"));
    let penny =
        Character::new("Penny".to_string(), Season::Spring, 2, false, "Pomegranate".to_string())
            .unwrap();
    assert_eq!(insert, Ok(Statement::Insert(penny)));
    assert_eq!(
        handle_adding_character(&body_of("", "x", "x", "x", "")),
        Err(Error::InvalidInput(Column::Name))
    );
    assert_eq!(
        handle_adding_character(&body_of("P", "x", "x", "x", "")),
        Err(Error::InvalidInput(Column::BirthdaySeason))
    );
    assert_eq!(
        handle_adding_character(&body_of("P", "fall", "29", "x", "")),
        Err(Error::InvalidInput(Column::BirthdayDay))
    );
    assert_eq!(
        handle_adding_character(&body_of("P", "fall", "28", "yes", "")),
        Err(Error::InvalidInput(Column::IsBachelor))
    );
    assert_eq!(
        handle_adding_character(&body_of("P", "fall", "28", "true", "")),
        Err(Error::InvalidInput(Column::BestGift))
    );
    assert!(handle_adding_character(&body_of("P", "fall", "0", "true", "g")).is_ok());
}

#[test]
fn first_populated_slot_decides_the_change() {
    let mut body = no_change("Penny");
    assert_eq!(resolve_change(&body), Err(Error::NoChangeRequested));
    body.change_best_gift = Some("Diamond".to_string());
    assert_eq!(resolve_change(&body), Ok(FieldChange::BestGift("Diamond".to_string())));
    body.change_is_bachelor = Some("TRUE".to_string());
    assert_eq!(resolve_change(&body), Ok(FieldChange::IsBachelor(true)));
    body.change_birthday_day = Some("5".to_string());
    assert_eq!(resolve_change(&body), Ok(FieldChange::BirthdayDay(5)));
    body.change_birthday_season = Some("winter".to_string());
    assert_eq!(resolve_change(&body), Ok(FieldChange::BirthdaySeason(Season::Winter)));
    body.change_name = Some("Pam".to_string());
    assert_eq!(resolve_change(&body), Ok(FieldChange::Name("Pam".to_string())));
}

#[test]
fn rejected_slot_does_not_fall_through() {
    let mut body = no_change("Penny");
    body.change_birthday_day = Some("29".to_string());
    body.change_is_bachelor = Some("true".to_string());
    body.change_best_gift = Some("Diamond".to_string());
    assert_eq!(resolve_change(&body), Err(Error::InvalidInput(Column::BirthdayDay)));
    body.change_birthday_season = Some("monsoon".to_string());
    assert_eq!(resolve_change(&body), Err(Error::InvalidInput(Column::BirthdaySeason)));
    body.change_name = Some(String::new());
    assert_eq!(resolve_change(&body), Err(Error::InvalidInput(Column::Name)));
    let mut body = no_change("Penny");
    body.change_is_bachelor = Some("maybe".to_string());
    body.change_best_gift = Some("Diamond".to_string());
    assert_eq!(resolve_change(&body), Err(Error::InvalidInput(Column::IsBachelor)));
    let mut body = no_change("Penny");
    body.change_best_gift = Some(String::new());
    assert_eq!(resolve_change(&body), Err(Error::InvalidInput(Column::BestGift)));
}

#[test]
fn field_text_is_validated_by_its_column() {
    assert_eq!(validate_field(Column::Name, "Pam"), Ok(FieldChange::Name("Pam".to_string())));
    assert_eq!(
        validate_field(Column::BirthdaySeason, "SUMMER"),
        Ok(FieldChange::BirthdaySeason(Season::Summer))
    );
    assert_eq!(validate_field(Column::BirthdayDay, "28"), Ok(FieldChange::BirthdayDay(28)));
    assert_eq!(validate_field(Column::IsBachelor, "False"), Ok(FieldChange::IsBachelor(false)));
    assert_eq!(
        validate_field(Column::BestGift, "Fish Taco"),
        Ok(FieldChange::BestGift("Fish Taco".to_string()))
    );
    for column in [
        Column::Name,
        Column::BirthdaySeason,
        Column::BirthdayDay,
        Column::IsBachelor,
        Column::BestGift,
    ] {
        assert_eq!(validate_field(column, ""), Err(Error::InvalidInput(column)));
        if let Ok(change) = validate_field(column, "true") {
            assert_eq!(change.column(), column);
        }
    }
}

#[test]
fn created_character_is_fetched_with_its_five_fields() {
    let mut table = Table::new();
    assert_eq!(add_character(&mut table, &penny_body()), Ok(()));
    let fetched = read_characters(&mut table, "Penny").unwrap();
    assert_eq!(fetched.len(), 1);
    assert_eq!(fetched[0].name(), "Penny");
    assert_eq!(fetched[0].birthday_season(), Season::Spring);
    assert_eq!(fetched[0].birthday_day(), 2);
    assert!(!fetched[0].is_bachelor());
    assert_eq!(fetched[0].best_gift(), "Pomegranate");
}

#[test]
fn created_character_is_fetched_step_by_step() {
    let mut table = Table::new();
    let insert = handle_adding_character(&penny_body()).unwrap();
    assert_eq!(inserted(&table.execute(&insert)), Ok(()));
    let select = handle_read_command("Penny").unwrap();
    let answer = table.execute(&select);
    assert_eq!(answer, Outcome::Rows(vec![penny_row()]));
    let penny = read_character(&answer).unwrap();
    assert_eq!(
        penny,
        Character::new("Penny".to_string(), Season::Spring, 2, false, "Pomegranate".to_string())
            .unwrap()
    );
}

#[test]
fn change_with_two_slots_updates_the_earlier_field_only() {
    let mut table = table_with_penny();
    let mut body = no_change("Penny");
    body.change_birthday_day = Some("5".to_string());
    body.change_best_gift = Some("Diamond".to_string());
    assert_eq!(change_character(&mut table, &body), Ok(()));
    let mut expected = penny_row();
    expected.birthday_day = 5;
    assert_eq!(rows_of(&mut table), vec![expected]);
    let penny = read_characters(&mut table, "Penny").unwrap();
    assert_eq!(penny[0].name(), "Penny");
    assert_eq!(penny[0].birthday_season(), Season::Spring);
    assert_eq!(penny[0].birthday_day(), 5);
    assert!(!penny[0].is_bachelor());
    assert_eq!(penny[0].best_gift(), "Pomegranate");
}

#[test]
fn change_of_each_field_touches_that_field_only() {
    let mut body = no_change("Penny");
    body.change_name = Some("Pam".to_string());
    let mut table = table_with_penny();
    assert_eq!(change_character(&mut table, &body), Ok(()));
    let mut expected = penny_row();
    expected.name = "Pam".to_string();
    assert_eq!(rows_of(&mut table), vec![expected]);
    assert_eq!(read_characters(&mut table, "Penny"), Err(Error::NotFound));

    let mut body = no_change("Penny");
    body.change_birthday_season = Some("wINTER".to_string());
    let mut table = table_with_penny();
    assert_eq!(change_character(&mut table, &body), Ok(()));
    let mut expected = penny_row();
    expected.birthday_season = "Winter".to_string();
    assert_eq!(rows_of(&mut table), vec![expected]);

    let mut body = no_change("Penny");
    body.change_is_bachelor = Some("true".to_string());
    let mut table = table_with_penny();
    assert_eq!(change_character(&mut table, &body), Ok(()));
    let mut expected = penny_row();
    expected.is_bachelor = true;
    assert_eq!(rows_of(&mut table), vec![expected]);

    let mut body = no_change("Penny");
    body.change_best_gift = Some("Diamond".to_string());
    let mut table = table_with_penny();
    assert_eq!(change_character(&mut table, &body), Ok(()));
    let mut expected = penny_row();
    expected.best_gift = "Diamond".to_string();
    assert_eq!(rows_of(&mut table), vec![expected]);
}

#[test]
fn change_of_a_missing_record_is_not_found_and_changes_nothing() {
    let mut table = table_with_penny();
    let before = rows_of(&mut table);
    let mut body = no_change("Pam");
    body.change_birthday_day = Some("5".to_string());
    assert_eq!(change_character(&mut table, &body), Err(Error::NotFound));
    assert_eq!(rows_of(&mut table), before);
    body.change_birthday_day = Some("99".to_string());
    assert_eq!(change_character(&mut table, &body), Err(Error::NotFound));
    assert_eq!(change_character(&mut table, &no_change("Pam")), Err(Error::NotFound));
    assert_eq!(rows_of(&mut table), before);
    let mut empty = Table::new();
    assert_eq!(change_character(&mut empty, &body), Err(Error::NotFound));
    assert_eq!(empty.len(), 0);
}

#[test]
fn change_without_a_slot_is_no_change_and_changes_nothing() {
    let mut table = table_with_penny();
    let before = rows_of(&mut table);
    assert_eq!(change_character(&mut table, &no_change("Penny")), Err(Error::NoChangeRequested));
    assert_eq!(rows_of(&mut table), before);
    let lookup = table.execute(&fetch_one("Penny"));
    assert_eq!(
        handle_changing_character(&no_change("Penny"), &lookup),
        Err(Error::NoChangeRequested)
    );
}

#[test]
fn rejected_change_changes_nothing() {
    let mut table = table_with_penny();
    let before = rows_of(&mut table);
    let mut body = no_change("Penny");
    body.change_birthday_day = Some("29".to_string());
    body.change_best_gift = Some("Diamond".to_string());
    assert_eq!(change_character(&mut table, &body), Err(Error::InvalidInput(Column::BirthdayDay)));
    assert_eq!(rows_of(&mut table), before);
}

#[test]
fn inserted_record_is_listed_exactly_once() {
    let mut table = Table::new();
    assert_eq!(add_character(&mut table, &body_of("Abigail", "fall", "13", "true", "Amethyst")), Ok(()));
    assert_eq!(add_character(&mut table, &body_of("Leah", "winter", "23", "true", "Goat Cheese")), Ok(()));
    let before = read_characters(&mut table, "all").unwrap();
    assert_eq!(add_character(&mut table, &penny_body()), Ok(()));
    let listed = read_characters(&mut table, "all").unwrap();
    assert_eq!(listed.len(), before.len() + 1);
    assert_eq!(&listed[..before.len()], &before[..]);
    let pennies: Vec<&Character> = listed.iter().filter(|c| c.name() == "Penny").collect();
    assert_eq!(pennies.len(), 1);
    assert_eq!(pennies[0].birthday_season(), Season::Spring);
    assert_eq!(pennies[0].birthday_day(), 2);
    assert!(!pennies[0].is_bachelor());
    assert_eq!(pennies[0].best_gift(), "Pomegranate");
    assert_eq!(table.len(), 3);
}

#[test]
fn second_record_of_a_name_is_a_duplicate() {
    let mut table = table_with_penny();
    let before = rows_of(&mut table);
    let other = body_of("Penny", "winter", "9", "true", "Melon");
    assert_eq!(add_character(&mut table, &other), Err(Error::DuplicateKey));
    assert_eq!(rows_of(&mut table), before);
    assert_eq!(add_character(&mut table, &body_of("penny", "winter", "9", "true", "Melon")), Ok(()));
    assert_eq!(table.len(), 2);
}

#[test]
fn rename_onto_another_record_is_a_duplicate() {
    let mut table = table_with_penny();
    assert_eq!(add_character(&mut table, &body_of("Pam", "spring", "18", "false", "Beer")), Ok(()));
    let before = rows_of(&mut table);
    let mut body = no_change("Pam");
    body.change_name = Some("Penny".to_string());
    assert_eq!(change_character(&mut table, &body), Err(Error::DuplicateKey));
    assert_eq!(rows_of(&mut table), before);
    body.change_name = Some("Pam".to_string());
    assert_eq!(change_character(&mut table, &body), Ok(()));
    assert_eq!(rows_of(&mut table), before);
}

#[test]
fn rejected_add_stores_nothing() {
    let mut table = Table::new();
    assert_eq!(
        add_character(&mut table, &body_of("Penny", "Spring", "29", "false", "Pomegranate")),
        Err(Error::InvalidInput(Column::BirthdayDay))
    );
    assert_eq!(table.len(), 0);
    assert_eq!(read_characters(&mut table, "all"), Ok(vec![]));
    assert_eq!(read_characters(&mut table, "Penny"), Err(Error::NotFound));
    assert_eq!(read_characters(&mut table, ""), Err(Error::Usage));
}

#[test]
fn table_answers_statements() {
    let mut table = Table::new();
    assert_eq!(table.execute(&Statement::SelectAll), Outcome::Rows(vec![]));
    assert_eq!(table.execute(&fetch_one("Penny")), Outcome::Rows(vec![]));
    let update =
        Statement::Update { name: "Penny".to_string(), change: FieldChange::BirthdayDay(3) };
    assert_eq!(table.execute(&update), Outcome::Done(0));
    let insert = handle_adding_character(&penny_body()).unwrap();
    assert_eq!(table.execute(&insert), Outcome::Done(1));
    assert_eq!(table.execute(&insert), Outcome::Duplicate);
    assert_eq!(table.execute(&update), Outcome::Done(1));
    let mut expected = penny_row();
    expected.birthday_day = 3;
    assert_eq!(table.execute(&fetch_one("Penny")), Outcome::Rows(vec![expected.clone()]));
    assert_eq!(table.execute(&Statement::SelectAll), Outcome::Rows(vec![expected]));
    assert_eq!(table.len(), 1);
}

#[test]
fn every_error_has_its_words() {
    let errors = [
        Error::InvalidInput(Column::Name),
        Error::InvalidInput(Column::BirthdaySeason),
        Error::InvalidInput(Column::BirthdayDay),
        Error::InvalidInput(Column::IsBachelor),
        Error::InvalidInput(Column::BestGift),
        Error::NotFound,
        Error::DuplicateKey,
        Error::NoChangeRequested,
        Error::StorageUnavailable,
        Error::StorageError,
        Error::CorruptRecord,
        Error::Usage,
        Error::UnknownField,
    ];
    for (i, a) in errors.iter().enumerate() {
        assert!(!a.message().is_empty());
        for b in &errors[..i] {
            assert_ne!(a.message(), b.message());
        }
    }
    assert_eq!(
        Error::InvalidInput(Column::BirthdaySeason).message(),
        "Invalid season. Only spring, summer, fall or winter allowed."
    );
    assert_eq!(
        Error::StorageUnavailable.message(),
        "Database error when trying to retrieve character - ensure this character has been added."
    );
    assert_ne!(Error::StorageUnavailable.message(), Error::NotFound.message());
}

#[test]
fn store_in_memory_offers_the_four_operations() {
    let penny = || {
        Character::new("Penny".to_string(), Season::Spring, 2, false, "Pomegranate".to_string())
            .unwrap()
    };
    let mut table = Table::new();
    assert_eq!(table.fetch_all(), Ok(vec![]));
    assert_eq!(table.fetch_one("Penny"), Err(Error::NotFound));
    assert_eq!(table.update_field("Penny", FieldChange::BirthdayDay(5)), Err(Error::NotFound));
    assert_eq!(table.len(), 0);

    assert_eq!(table.insert(penny()), Ok(()));
    assert_eq!(table.insert(penny()), Err(Error::DuplicateKey));
    assert_eq!(table.len(), 1);
    assert_eq!(table.fetch_one("Penny"), Ok(penny()));
    assert_eq!(table.fetch_one("penny"), Err(Error::NotFound));
    assert_eq!(table.fetch_all(), Ok(vec![penny()]));

    assert_eq!(table.update_field("Penny", FieldChange::BirthdayDay(5)), Ok(()));
    let changed = table.fetch_one("Penny").unwrap();
    assert_eq!(changed.birthday_day(), 5);
    assert_eq!(changed.name(), "Penny");
    assert_eq!(changed.birthday_season(), Season::Spring);
    assert!(!changed.is_bachelor());
    assert_eq!(changed.best_gift(), "Pomegranate");

    let pam =
        Character::new("Pam".to_string(), Season::Spring, 18, false, "Beer".to_string()).unwrap();
    assert_eq!(table.insert(pam), Ok(()));
    assert_eq!(
        table.update_field("Pam", FieldChange::Name("Penny".to_string())),
        Err(Error::DuplicateKey)
    );
    assert_eq!(table.update_field("Pam", FieldChange::Name("Pamela".to_string())), Ok(()));
    let names: Vec<String> =
        table.fetch_all().unwrap().iter().map(|c| c.name().to_string()).collect();
    assert_eq!(names, vec!["Penny", "Pamela"]);
}

#[test]
fn store_in_memory_reports_a_corrupt_row() {
    let mut table = Table::new();
    let penny =
        Character::new("Penny".to_string(), Season::Spring, 2, false, "Pomegranate".to_string())
            .unwrap();
    assert_eq!(table.insert(penny), Ok(()));
    let spoil = Statement::Update { name: "Penny".to_string(), change: FieldChange::BirthdayDay(99) };
    assert_eq!(table.execute(&spoil), Outcome::Done(1));
    assert_eq!(table.fetch_one("Penny"), Err(Error::CorruptRecord));
    assert_eq!(table.fetch_all(), Err(Error::CorruptRecord));
    assert_eq!(read_characters(&mut table, "Penny"), Err(Error::CorruptRecord));
}

#[test]
fn rejected_text_is_reported_with_its_domain() {
    let body = body_of("Penny", "monsoon", "2", "false", "Pomegranate");
    let error = handle_adding_character(&body).unwrap_err();
    assert_eq!(error, Error::InvalidInput(Column::BirthdaySeason));
    assert_eq!(body.field(Column::BirthdaySeason), "monsoon");
    assert_eq!(
        body.report(error),
        "Invalid season. Only spring, summer, fall or winter allowed. I received 'monsoon'."
    );
    assert_eq!(body.report(Error::DuplicateKey), Error::DuplicateKey.message());
    assert_eq!(body.field(Column::Name), "Penny");
    assert_eq!(body.field(Column::BirthdayDay), "2");
    assert_eq!(body.field(Column::IsBachelor), "false");
    assert_eq!(body.field(Column::BestGift), "Pomegranate");

    let mut change = no_change("Penny");
    change.change_birthday_day = Some("31".to_string());
    change.change_best_gift = Some("Diamond".to_string());
    let error = resolve_change(&change).unwrap_err();
    assert_eq!(
        change.report(error),
        "Invalid day. Only whole numbers from 0 to 28 allowed. I received '31'."
    );
    assert_eq!(change.slot(Column::BirthdayDay), Some("31"));
    assert_eq!(change.slot(Column::BestGift), Some("Diamond"));
    assert_eq!(change.slot(Column::Name), None);
    assert_eq!(change.slot(Column::BirthdaySeason), None);
    assert_eq!(change.slot(Column::IsBachelor), None);
    assert_eq!(change.report(Error::NotFound), "Sorry, I can't find this character in the database!");
    assert_eq!(
        change.report(Error::InvalidInput(Column::Name)),
        "Invalid name. It must not be empty."
    );
    assert_eq!(Error::Usage.report(Some("x")), Error::Usage.message());
    assert_eq!(
        Error::InvalidInput(Column::IsBachelor).report(Some("yes")),
        "Invalid bachelor status. Only true or false allowed. I received 'yes'."
    );
    assert_eq!(
        Error::InvalidInput(Column::IsBachelor).report(None),
        "Invalid bachelor status. Only true or false allowed."
    );
}
