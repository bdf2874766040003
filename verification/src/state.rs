//! How an entity comes back from storage.
//!
//! Reading the stored resource and decoding it is the caller's work. The
//! caller says what it found, as a `Stored`, and the functions here
//! decide what the load yields.

use vstd::prelude::*;
use crate::errors::AppError;

verus! {

/// An entity that is kept in storage between sessions.
pub trait State: Sized {
    /// Whether `self` is an entity as its model asks.
    spec fn well_formed(&self) -> bool;

    /// The entity that a load hands out for the decoded record `self`:
    /// every persisted field as it is, every derived field absent.
    spec fn restored_spec(self) -> Self;

    /// Whether `self` is an entity as its model asks.
    fn is_well_formed(&self) -> (ok: bool)
        ensures
            ok == self.well_formed(),
    ;

    /// The entity that a load hands out for the decoded record `self`.
    fn restored(self) -> (entity: Self)
        ensures
            entity == self.restored_spec(),
    ;
}

/// What the caller found in storage.
#[derive(Debug, Clone, PartialEq)]
pub enum Stored<T> {
    /// The resource does not exist.
    Missing,
    /// The resource exists, but what it holds could not be decoded.
    Malformed,
    /// The resource was decoded; this is what it holds.
    Record(T),
}

/// What a load yields: `NotFound` where nothing was stored, `Corrupt` where
/// what was stored is no entity, else the entity with its derived fields
/// absent.
pub open spec fn load_spec<S: State>(stored: Stored<S>) -> Result<S, AppError> {
    match stored {
        Stored::Missing => Err(AppError::NotFound),
        Stored::Malformed => Err(AppError::Corrupt),
        Stored::Record(record) => if record.well_formed() {
            Ok(record.restored_spec())
        } else {
            Err(AppError::Corrupt)
        },
    }
}

/// The entity that a session starts with: the loaded one, or `fallback`
/// where the load failed.
pub open spec fn load_or_spec<S: State>(stored: Stored<S>, fallback: S) -> S {
    match load_spec(stored) {
        Ok(entity) => entity,
        Err(_) => fallback,
    }
}

/// Decides what a load yields for what was found in storage.
pub fn load<S: State>(stored: Stored<S>) -> (result: Result<S, AppError>)
    ensures
        result == load_spec(stored),
        stored is Missing ==> result == Err::<S, AppError>(AppError::NotFound),
        result is Ok ==> stored is Record,
{
    match stored {
        Stored::Missing => Err(AppError::NotFound),
        Stored::Malformed => Err(AppError::Corrupt),
        Stored::Record(record) => {
            if record.is_well_formed() {
                Ok(record.restored())
            } else {
                Err(AppError::Corrupt)
            }
        },
    }
}

/// The entity that a session starts with: what `load` yields, or
/// `fallback` where it fails. No failure reaches the caller.
pub fn load_or<S: State>(stored: Stored<S>, fallback: S) -> (entity: S)
    ensures
        entity == load_or_spec(stored, fallback),
        stored is Missing ==> entity == fallback,
{
    match load(stored) {
        Ok(entity) => entity,
        Err(_) => fallback,
    }
}

} // verus!
