//! The failures that the core reports to its caller.

use vstd::prelude::*;

verus! {

/// Why an operation of the core did not yield a value.
///
/// The first two come from the leveling calculation and are meant to be shown
/// to the user; the other three come from storage.
#[derive(Debug, Clone, Copy, PartialEq, Eq, Structural)]
pub enum AppError {
    /// The character has already reached or passed the level asked for.
    SmallerLevel,
    /// A text that should have been a number is not one.
    InvalidValue,
    /// The stored resource does not exist.
    NotFound,
    /// The stored resource exists but does not hold an entity.
    Corrupt,
    /// The entity could not be written to storage.
    IoError,
}

impl AppError {
    /// The sentence shown to the user for this failure.
    pub open spec fn message_spec(self) -> Seq<char> {
        match self {
            AppError::SmallerLevel => "Current level is higher or equal to the desired level."@,
            AppError::InvalidValue => "Please insert a number"@,
            AppError::NotFound => "No saved state was found"@,
            AppError::Corrupt => "The saved state could not be read"@,
            AppError::IoError => "The state could not be saved"@,
        }
    }

    /// The sentence shown to the user for this failure.
    pub fn message(&self) -> (text: String)
        ensures
            text@ == self.message_spec(),
    {
        match self {
            AppError::SmallerLevel => "Current level is higher or equal to the desired level.".to_owned(),
            AppError::InvalidValue => "Please insert a number".to_owned(),
            AppError::NotFound => "No saved state was found".to_owned(),
            AppError::Corrupt => "The saved state could not be read".to_owned(),
            AppError::IoError => "The state could not be saved".to_owned(),
        }
    }
}

} // verus!
