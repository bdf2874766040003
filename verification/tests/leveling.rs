use ba_reports::character::Character;
use ba_reports::errors::AppError;
use ba_reports::exp_table::ExpTable;
use ba_reports::leveling::{
    checked_experience_to_reach, experience_needed, experience_to_reach, read_experience,
    read_level,
};

fn table() -> ExpTable {
    ExpTable::new(vec![0, 8, 20, 35, 60, 100, 150, 220, 300, 400, 520, 660])
}

fn character(level: u8, current_exp: &str) -> Character {
    Character {
        name: Some(String::from("Asuna")),
        level,
        skills: [1, 1, 1, 1],
        current_exp: String::from(current_exp),
    }
}

#[test]
fn the_amount_is_the_gathered_experience_negated() {
    let table = table();
    assert_eq!(experience_to_reach(&character(1, "150"), &table, "2"), Ok(-150));
    assert_eq!(experience_to_reach(&character(3, "7"), &table, "12"), Ok(-7));
    assert_eq!(experience_to_reach(&character(11, "659"), &table, "12"), Ok(-659));
    assert_eq!(experience_needed(1, &table, 2, 150), Ok(-150));
    assert_eq!(experience_needed(5, &table, 6, 99), Ok(-99));
}

#[test]
fn no_gathered_experience_gives_zero() {
    let table = table();
    assert_eq!(experience_to_reach(&character(1, "0"), &table, "5"), Ok(0));
    assert_eq!(experience_to_reach(&character(1, "000"), &table, "5"), Ok(0));
    assert_eq!(experience_needed(1, &table, 12, 0), Ok(0));
}

#[test]
fn the_amount_does_not_depend_on_the_table() {
    let low = ExpTable::new(vec![0, 1, 2, 3]);
    let high = ExpTable::new(vec![u32::MAX, u32::MAX, u32::MAX, u32::MAX]);
    let hero = character(2, "1234");
    assert_eq!(experience_to_reach(&hero, &low, "4"), Ok(-1234));
    assert_eq!(experience_to_reach(&hero, &high, "4"), Ok(-1234));
    assert_eq!(experience_to_reach(&hero, &low, "3"), Ok(-1234));
}

#[test]
fn the_largest_experience_does_not_overflow() {
    let high = ExpTable::new(vec![u32::MAX, u32::MAX]);
    assert_eq!(
        experience_to_reach(&character(1, "4294967295"), &high, "2"),
        Ok(-4294967295)
    );
    assert_eq!(experience_needed(1, &high, 2, u32::MAX), Ok(-(u32::MAX as i64)));
}

#[test]
fn the_same_level_is_refused() {
    let table = table();
    assert_eq!(
        experience_to_reach(&character(10, "5"), &table, "10"),
        Err(AppError::SmallerLevel)
    );
    assert_eq!(experience_needed(10, &table, 10, 5), Err(AppError::SmallerLevel));
}

#[test]
fn a_lower_level_is_refused() {
    let table = table();
    assert_eq!(
        experience_to_reach(&character(10, "5"), &table, "9"),
        Err(AppError::SmallerLevel)
    );
    assert_eq!(
        experience_to_reach(&character(10, "5"), &table, "1"),
        Err(AppError::SmallerLevel)
    );
    assert_eq!(experience_needed(10, &table, 9, 5), Err(AppError::SmallerLevel));
    assert_eq!(experience_needed(255, &table, 12, 0), Err(AppError::SmallerLevel));
}

#[test]
fn the_next_level_is_accepted() {
    let table = table();
    assert_eq!(experience_to_reach(&character(10, "5"), &table, "11"), Ok(-5));
}

#[test]
fn a_desired_level_that_is_no_number_is_refused() {
    let table = table();
    let hero = character(1, "10");
    for text in ["abc", "", " ", "2.0", "-3", "two", "3 ", "1e1"] {
        assert_eq!(
            experience_to_reach(&hero, &table, text),
            Err(AppError::InvalidValue),
            "desired level {:?}",
            text
        );
    }
}

#[test]
fn a_desired_level_beyond_eight_bits_is_refused() {
    let table = table();
    let hero = character(1, "10");
    assert_eq!(experience_to_reach(&hero, &table, "256"), Err(AppError::InvalidValue));
    assert_eq!(experience_to_reach(&hero, &table, "100000"), Err(AppError::InvalidValue));
}

#[test]
fn level_zero_is_refused() {
    let table = table();
    assert_eq!(
        experience_to_reach(&character(1, "10"), &table, "0"),
        Err(AppError::InvalidValue)
    );
    assert_eq!(
        experience_to_reach(&character(1, "10"), &table, "+000"),
        Err(AppError::InvalidValue)
    );
    assert_eq!(experience_needed(1, &table, 0, 10), Err(AppError::InvalidValue));
    assert_eq!(experience_needed(0, &table, 0, 10), Err(AppError::InvalidValue));
}

#[test]
fn gathered_experience_that_is_no_number_is_refused() {
    let table = table();
    for text in ["abc", "", "12x", "-1", "1.5", "4294967296"] {
        assert_eq!(
            experience_to_reach(&character(1, text), &table, "2"),
            Err(AppError::InvalidValue),
            "gathered experience {:?}",
            text
        );
    }
}

#[test]
fn invalid_text_is_reported_before_the_level_is_compared() {
    let table = table();
    assert_eq!(
        experience_to_reach(&character(10, "abc"), &table, "9"),
        Err(AppError::InvalidValue)
    );
    assert_eq!(
        experience_to_reach(&character(10, "abc"), &table, "abc"),
        Err(AppError::InvalidValue)
    );
    assert_eq!(
        experience_to_reach(&character(10, "abc"), &table, "200"),
        Err(AppError::InvalidValue)
    );
}

#[test]
fn a_fresh_character_has_typed_no_experience_yet() {
    let table = table();
    assert_eq!(
        experience_to_reach(&Character::default(), &table, "2"),
        Err(AppError::InvalidValue)
    );
}

#[test]
fn the_two_texts_are_read_as_numbers() {
    assert_eq!(read_level("12"), Some(12));
    assert_eq!(read_level("0"), Some(0));
    assert_eq!(read_level("+9"), Some(9));
    assert_eq!(read_level("256"), None);
    assert_eq!(read_level("abc"), None);
    assert_eq!(read_experience("70000"), Some(70000));
    assert_eq!(read_experience("4294967296"), None);
    assert_eq!(read_experience(""), None);
}

#[test]
fn the_table_knows_its_levels() {
    let table = table();
    assert_eq!(table.level_cap(), 12);
    assert!(table.covers(1));
    assert!(table.covers(12));
    assert!(!table.covers(0));
    assert!(!table.covers(13));
    assert!(!table.covers(255));
    assert_eq!(table.required(1), 0);
    assert_eq!(table.required(2), 8);
    assert_eq!(table.required(12), 660);
    let empty = ExpTable::new(vec![]);
    assert_eq!(empty.level_cap(), 0);
    assert!(!empty.covers(1));
}

#[test]
fn a_level_beyond_the_table_is_told_apart() {
    let table = table();
    assert_eq!(checked_experience_to_reach(&character(1, "10"), &table, "13"), None);
    assert_eq!(checked_experience_to_reach(&character(1, "10"), &table, "255"), None);
    assert_eq!(checked_experience_to_reach(&character(200, "10"), &table, "13"), None);
    let empty = ExpTable::new(vec![]);
    assert_eq!(checked_experience_to_reach(&character(1, "10"), &empty, "1"), None);
}

#[test]
fn a_level_within_the_table_gives_the_same_as_the_plain_calculation() {
    let table = table();
    for (level, current_exp, desired) in [
        (1, "150", "2"),
        (10, "5", "10"),
        (10, "5", "9"),
        (1, "abc", "2"),
        (1, "10", "abc"),
        (1, "10", "0"),
        (11, "0", "12"),
        (1, "abc", "200"),
        (1, "10", "256"),
    ] {
        let hero = character(level, current_exp);
        assert_eq!(
            checked_experience_to_reach(&hero, &table, desired),
            Some(experience_to_reach(&hero, &table, desired)),
            "level {} with {:?} asking for {:?}",
            level,
            current_exp,
            desired
        );
    }
}
