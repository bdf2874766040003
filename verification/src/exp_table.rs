//! The experience table of the game.

use vstd::prelude::*;

verus! {

/// The experience that each level asks for.
///
/// Levels count from 1. The entry for level `n` is the experience that a
/// character has gathered in all when it reaches level `n`, counted from
/// level 1. A table is made once and never changed.
#[derive(Debug, Clone, PartialEq, Eq)]
pub struct ExpTable {
    exp_needed: Vec<u32>,
}

impl View for ExpTable {
    type V = Seq<u32>;

    /// The entries in order, the one for level 1 first.
    closed spec fn view(&self) -> Seq<u32> {
        self.exp_needed@
    }
}

impl ExpTable {
    /// Whether the table has an entry for `level`.
    pub open spec fn covers_spec(&self, level: int) -> bool {
        1 <= level <= self@.len()
    }

    /// The entry for `level`.
    pub open spec fn required_spec(&self, level: int) -> u32
        recommends
            self.covers_spec(level),
    {
        self@[level - 1]
    }

    /// A table with the entries of `exp_needed`, the one for level 1 first.
    pub fn new(exp_needed: Vec<u32>) -> (table: Self)
        ensures
            table@ == exp_needed@,
    {
        ExpTable { exp_needed }
    }

    /// The highest level that the table has an entry for; 0 if it is empty.
    pub fn level_cap(&self) -> (cap: usize)
        ensures
            cap == self@.len(),
    {
        self.exp_needed.len()
    }

    /// Whether the table has an entry for `level`.
    pub fn covers(&self, level: u8) -> (covered: bool)
        ensures
            covered == self.covers_spec(level as int),
    {
        level >= 1 && level as usize <= self.exp_needed.len()
    }

    /// The experience that a character has gathered in all when it reaches
    /// `level`.
    pub fn required(&self, level: u8) -> (experience: u32)
        requires
            self.covers_spec(level as int),
        ensures
            experience == self.required_spec(level as int),
    {
        self.exp_needed[level as usize - 1]
    }
}

} // verus!
