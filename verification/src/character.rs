//! The player character.

use vstd::prelude::*;
use crate::errors::AppError;
use crate::state::{load_spec, State, Stored};

verus! {

/// A player character.
///
/// `name`, `level` and `skills` are kept between sessions. `current_exp` is
/// what the user typed for the experience gathered since the last level-up;
/// it stays text until a calculation reads it.
#[derive(Debug, Clone, PartialEq, Eq)]
pub struct Character {
    /// The display name; `None` while no character is chosen.
    pub name: Option<String>,
    /// The level reached, 1 at least.
    pub level: u8,
    /// The levels of the four skills.
    pub skills: [u8; 4],
    /// The experience gathered within the current level, as typed.
    pub current_exp: String,
}

impl Character {
    /// Whether the character is one that the game can have: its level is 1
    /// at least.
    pub open spec fn wf(&self) -> bool {
        self.level >= 1
    }

    /// Whether this is the character that stands in when none was saved:
    /// nameless, at level 1, each skill at 1, no experience typed.
    pub open spec fn is_default(&self) -> bool {
        &&& self.name is None
        &&& self.level == 1
        &&& self.skills@ == seq![1u8, 1u8, 1u8, 1u8]
        &&& self.current_exp@ == Seq::<char>::empty()
    }

    /// Whether this is the character that a stored record with these
    /// three fields describes: the name as stored, level and skills as
    /// stored or 1 where they were left out, and no experience typed.
    pub open spec fn describes(
        &self,
        name: Option<String>,
        level: Option<u8>,
        skills: Option<[u8; 4]>,
    ) -> bool {
        &&& self.name == name
        &&& self.level == stored_level(level)
        &&& self.skills@ == stored_skills(skills)
        &&& self.current_exp@ == Seq::<char>::empty()
    }
}

/// The level of a stored character: the one that was stored, or 1 where
/// none was.
pub open spec fn stored_level(level: Option<u8>) -> u8 {
    match level {
        Some(level) => level,
        None => 1,
    }
}

/// The skills of a stored character: those that were stored, or each at 1
/// where none were.
pub open spec fn stored_skills(skills: Option<[u8; 4]>) -> Seq<u8> {
    match skills {
        Some(skills) => skills@,
        None => seq![1u8, 1u8, 1u8, 1u8],
    }
}

impl Character {
    /// The character that a stored record describes. A record may leave
    /// out the level and the skills, which then are 1. No experience is
    /// stored: the character starts with none typed. The level is taken as
    /// it was stored; it is `load` that refuses a record with level 0.
    pub fn from_stored(name: Option<String>, level: Option<u8>, skills: Option<[u8; 4]>) -> (character:
        Self)
        ensures
            character.describes(name, level, skills),
            name is None && level is None && skills is None ==> character.is_default(),
    {
        let level = match level {
            Some(level) => level,
            None => 1,
        };
        let skills = match skills {
            Some(skills) => skills,
            None => [1, 1, 1, 1],
        };
        Character { name, level, skills, current_exp: String::new() }
    }

    /// The three fields of the character that are stored: name, level and
    /// skills.
    pub fn into_stored(self) -> (fields: (Option<String>, Option<u8>, Option<[u8; 4]>))
        ensures
            fields.0 == self.name,
            fields.1 == Some(self.level),
            fields.2 == Some(self.skills),
    {
        (self.name, Some(self.level), Some(self.skills))
    }
}

/// A character that is stored and loaded again has the name, the level
/// and the skills that it had, and the load does not fail.
pub proof fn lemma_stored_character_comes_back(character: Character, loaded: Character)
    requires
        character.wf(),
        loaded.describes(character.name, Some(character.level), Some(character.skills)),
    ensures
        loaded.name == character.name,
        loaded.level == character.level,
        loaded.skills@ == character.skills@,
        load_spec(Stored::Record(loaded)) == Ok::<Character, AppError>(loaded),
{
}

impl Default for Character {
    /// The character that stands in when none was saved.
    fn default() -> (character: Self)
        ensures
            character.is_default(),
            character.wf(),
    {
        Character { name: None, level: 1, skills: [1, 1, 1, 1], current_exp: String::new() }
    }
}

impl State for Character {
    /// A character is one if its level is 1 at least.
    open spec fn well_formed(&self) -> bool {
        self.wf()
    }

    /// A character has no derived field: it comes back as it was stored.
    open spec fn restored_spec(self) -> Self {
        self
    }

    fn is_well_formed(&self) -> (ok: bool) {
        self.level >= 1
    }

    fn restored(self) -> (entity: Self) {
        self
    }
}

} // verus!
