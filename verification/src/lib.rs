//! The domain core of a companion calculator for a mobile game: the player
//! character and the experience table, the rule that tells how much
//! experience separates a character from a level, the derived state of the
//! report inventory, and the rules by which both entities come back from
//! storage.
//!
//! Everything here is computed on plain values. Files, their encoding and the
//! window that shows the results belong to the program around this crate.

pub mod character;
pub mod decimal;
pub mod errors;
pub mod exp_table;
pub mod leveling;
pub mod reports;
pub mod state;
