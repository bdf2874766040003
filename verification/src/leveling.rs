//! How much experience separates a character from a level.
//!
//! The amount is the table's entry for the level asked for, less the sum of
//! that entry and the experience already gathered within the current level.
//! The entry cancels: the amount is the gathered experience with a minus
//! sign, whatever the table holds, and so never above zero.

use vstd::prelude::*;
use crate::character::Character;
use crate::decimal::{decimal_up_to, parse_u32, parse_u8};
use crate::errors::AppError;
use crate::exp_table::ExpTable;

verus! {

/// The level that `text` writes: a number that fits in eight bits.
pub open spec fn level_of_text(text: Seq<char>) -> Option<u8> {
    match decimal_up_to(text, u8::MAX as nat) {
        Some(level) => Some(level as u8),
        None => None,
    }
}

/// The experience that `text` writes: a number that fits in thirty-two bits.
pub open spec fn experience_of_text(text: Seq<char>) -> Option<u32> {
    match decimal_up_to(text, u32::MAX as nat) {
        Some(experience) => Some(experience as u32),
        None => None,
    }
}

/// The amount that separates a character with `current` experience in its
/// level from the level `desired`, by the entries of `table`.
pub open spec fn amount_needed(table: Seq<u32>, desired: int, current: int) -> int
    recommends
        1 <= desired <= table.len(),
{
    table[desired - 1] - (table[desired - 1] + current)
}

/// What the calculation yields for a character at `level` that has
/// `current` experience in its level and asks for the level `desired`.
///
/// There is no level 0, so asking for it is no valid input; a level that
/// the character has reached already cannot be asked for.
pub open spec fn outcome(level: u8, table: Seq<u32>, desired: u8, current: u32) -> Result<
    int,
    AppError,
> {
    if desired == 0 {
        Err(AppError::InvalidValue)
    } else if level >= desired {
        Err(AppError::SmallerLevel)
    } else {
        Ok(amount_needed(table, desired as int, current as int))
    }
}

/// What the calculation yields when the level asked for and the gathered
/// experience are still text.
pub open spec fn outcome_of_text(
    level: u8,
    table: Seq<u32>,
    desired_level: Seq<char>,
    current_exp: Seq<char>,
) -> Result<int, AppError> {
    match (level_of_text(desired_level), experience_of_text(current_exp)) {
        (Some(desired), Some(current)) => outcome(level, table, desired, current),
        _ => Err(AppError::InvalidValue),
    }
}

/// Whether `table` has the entry that the calculation looks up for these
/// two texts. It looks one up as soon as both are valid, also where the
/// character has reached the level already.
pub open spec fn table_reaches(table: Seq<u32>, desired_level: Seq<char>, current_exp: Seq<char>) -> bool {
    match (level_of_text(desired_level), experience_of_text(current_exp)) {
        (Some(desired), Some(_)) => desired >= 1 ==> desired <= table.len(),
        _ => true,
    }
}

/// Whether `result` is `expected`, amount for amount and failure for
/// failure.
pub open spec fn agrees(result: Result<i64, AppError>, expected: Result<int, AppError>) -> bool {
    match result {
        Ok(amount) => expected == Ok::<int, AppError>(amount as int),
        Err(error) => expected == Err::<int, AppError>(error),
    }
}

/// The amount never depends on the table: it is the gathered experience
/// with a minus sign.
pub proof fn lemma_amount_cancels(table: Seq<u32>, desired: int, current: int)
    ensures
        amount_needed(table, desired, current) == -current,
{
}

/// Reads the level that the user asks for.
pub fn read_level(text: &str) -> (level: Option<u8>)
    ensures
        level == level_of_text(text@),
{
    parse_u8(text)
}

/// Reads the experience that the user states.
pub fn read_experience(text: &str) -> (experience: Option<u32>)
    ensures
        experience == experience_of_text(text@),
{
    parse_u32(text)
}

/// The experience that a character at `level`, with `current` experience
/// gathered in that level, still needs to reach the level `desired`.
///
/// Fails with `InvalidValue` if `desired` is 0, and with `SmallerLevel` if
/// the character is already at the level asked for or beyond it.
pub fn experience_needed(level: u8, exp_table: &ExpTable, desired: u8, current: u32) -> (result:
    Result<i64, AppError>)
    requires
        desired >= 1 ==> exp_table.covers_spec(desired as int),
    ensures
        agrees(result, outcome(level, exp_table@, desired, current)),
        desired == 0 ==> result == Err::<i64, AppError>(AppError::InvalidValue),
        desired >= 1 && level >= desired ==> result == Err::<i64, AppError>(AppError::SmallerLevel),
        1 <= desired && level < desired ==> result == Ok::<i64, AppError>((-current) as i64),
{
    if desired == 0 {
        return Err(AppError::InvalidValue);
    }
    let required: i64 = exp_table.required(desired) as i64;
    let total: i64 = required + current as i64;
    if level < desired {
        Ok(required - total)
    } else {
        Err(AppError::SmallerLevel)
    }
}

/// The experience that `character` still needs to reach the level that
/// `desired_level` asks for.
///
/// Fails with `InvalidValue` if `desired_level` writes no level from 1 to
/// 255 or the character's `current_exp` writes no number, and with
/// `SmallerLevel` if the character is already at that level or beyond it.
pub fn experience_to_reach(character: &Character, exp_table: &ExpTable, desired_level: &str) -> (result:
    Result<i64, AppError>)
    requires
        table_reaches(exp_table@, desired_level@, character.current_exp@),
    ensures
        agrees(
            result,
            outcome_of_text(character.level, exp_table@, desired_level@, character.current_exp@),
        ),
        match (level_of_text(desired_level@), experience_of_text(character.current_exp@)) {
            (Some(desired), Some(current)) => if desired == 0 {
                result == Err::<i64, AppError>(AppError::InvalidValue)
            } else if character.level >= desired {
                result == Err::<i64, AppError>(AppError::SmallerLevel)
            } else {
                result == Ok::<i64, AppError>((-current) as i64)
            },
            _ => result == Err::<i64, AppError>(AppError::InvalidValue),
        },
{
    let desired = match read_level(desired_level) {
        Some(desired) => desired,
        None => { return Err(AppError::InvalidValue); },
    };
    let current = match read_experience(character.current_exp.as_str()) {
        Some(current) => current,
        None => { return Err(AppError::InvalidValue); },
    };
    experience_needed(character.level, exp_table, desired, current)
}

/// `experience_to_reach` for a table that may end before the level asked
/// for: `None` where the table lacks the entry that the calculation looks
/// up, else what `experience_to_reach` yields.
pub fn checked_experience_to_reach(
    character: &Character,
    exp_table: &ExpTable,
    desired_level: &str,
) -> (result: Option<Result<i64, AppError>>)
    ensures
        result is Some <==> table_reaches(exp_table@, desired_level@, character.current_exp@),
        result matches Some(found) ==> agrees(
            found,
            outcome_of_text(character.level, exp_table@, desired_level@, character.current_exp@),
        ),
{
    let desired = match read_level(desired_level) {
        Some(desired) => desired,
        None => { return Some(Err(AppError::InvalidValue)); },
    };
    let current = match read_experience(character.current_exp.as_str()) {
        Some(current) => current,
        None => { return Some(Err(AppError::InvalidValue)); },
    };
    if desired >= 1 && !exp_table.covers(desired) {
        return None;
    }
    Some(experience_needed(character.level, exp_table, desired, current))
}

} // verus!
