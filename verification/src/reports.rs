//! The report inventory and what was last converted from it.
//!
//! The inventory counts four tiers of reports: white, blue, orange and
//! purple, in this order. A conversion turns the counts into a number of
//! purple reports and an experience total. The arithmetic of the conversion
//! is the caller's, in the number type `T` that it counts in; this module
//! keeps the two totals together with the counts, and sees to it that they
//! are present together or absent together.

use vstd::prelude::*;
use crate::errors::AppError;
use crate::state::{load_spec, State, Stored};

verus! {

/// What a conversion yields.
#[derive(Debug, Clone, PartialEq)]
pub struct Totals<T> {
    /// The inventory, counted in purple reports.
    pub purple_reports: T,
    /// The experience that the inventory is worth.
    pub exp: T,
}

/// The report inventory, with the totals of the last conversion for as long
/// as they are shown.
#[derive(Debug, Clone, PartialEq)]
pub struct Reports<T> {
    /// The counts of white, blue, orange and purple reports.
    pub quantities: [T; 4],
    /// The totals of the last conversion; `None` before the first one,
    /// after a `clear` and after a load.
    pub totals: Option<Totals<T>>,
}

/// The totals that two stored fields describe: present where both are.
pub open spec fn paired<T>(purple_reports: Option<T>, exp: Option<T>) -> Option<Totals<T>> {
    match (purple_reports, exp) {
        (Some(purple_reports), Some(exp)) => Some(Totals { purple_reports, exp }),
        _ => None,
    }
}

/// The two stored fields that hold these totals: both present, or both
/// absent.
pub open spec fn split<T>(totals: Option<Totals<T>>) -> (Option<T>, Option<T>) {
    match totals {
        Some(totals) => (Some(totals.purple_reports), Some(totals.exp)),
        None => (None, None),
    }
}

impl<T> Reports<T> {
    /// The inventory with the same counts and no totals.
    pub open spec fn cleared(self) -> Self {
        Reports { quantities: self.quantities, totals: None }
    }

    /// The inventory with the same counts and these totals.
    pub open spec fn with_totals(self, purple_reports: T, exp: T) -> Self {
        Reports { quantities: self.quantities, totals: Some(Totals { purple_reports, exp }) }
    }

    /// The inventory that a stored record describes: these counts, and the
    /// totals where both were stored.
    pub open spec fn stored_as(quantities: [T; 4], purple_reports: Option<T>, exp: Option<T>) -> Self {
        Reports { quantities, totals: paired(purple_reports, exp) }
    }

    /// An inventory with these counts and no totals.
    pub fn new(quantities: [T; 4]) -> (reports: Self)
        ensures
            reports.quantities == quantities,
            reports.totals is None,
    {
        Reports { quantities, totals: None }
    }

    /// The inventory that a stored record describes. A record holds the
    /// two totals as fields of their own; one without the other counts for
    /// nothing.
    pub fn from_stored(quantities: [T; 4], purple_reports: Option<T>, exp: Option<T>) -> (reports:
        Self)
        ensures
            reports == Self::stored_as(quantities, purple_reports, exp),
            reports.quantities == quantities,
            reports.totals is Some <==> purple_reports is Some && exp is Some,
    {
        let totals = match (purple_reports, exp) {
            (Some(purple_reports), Some(exp)) => Some(Totals { purple_reports, exp }),
            _ => None,
        };
        Reports { quantities, totals }
    }

    /// The three fields of the inventory that are stored: the counts, and
    /// each total as it stands.
    pub fn into_stored(self) -> (fields: ([T; 4], Option<T>, Option<T>))
        ensures
            fields.0 == self.quantities,
            (fields.1, fields.2) == split(self.totals),
    {
        match self.totals {
            Some(totals) => (self.quantities, Some(totals.purple_reports), Some(totals.exp)),
            None => (self.quantities, None, None),
        }
    }

    /// Whether the totals of a conversion are present.
    pub fn has_totals(&self) -> (present: bool)
        ensures
            present == (self.totals is Some),
    {
        self.totals.is_some()
    }

    /// Keeps the two totals of a conversion; the counts stay as they are.
    pub fn set_totals(&mut self, purple_reports: T, exp: T)
        ensures
            *final(self) == old(self).with_totals(purple_reports, exp),
            final(self).totals is Some,
            final(self).quantities == old(self).quantities,
    {
        self.totals = Some(Totals { purple_reports, exp });
    }

    /// Drops the totals; the counts stay as they are.
    pub fn clear(&mut self)
        ensures
            *final(self) == old(self).cleared(),
            final(self).totals is None,
            final(self).quantities == old(self).quantities,
    {
        self.totals = None;
    }
}

impl<T> State for Reports<T> {
    /// Every inventory is one: the counts are the caller's to judge.
    open spec fn well_formed(&self) -> bool {
        true
    }

    /// The counts as they were stored, and no totals, whatever was stored
    /// with them.
    open spec fn restored_spec(self) -> Self {
        self.cleared()
    }

    fn is_well_formed(&self) -> (ok: bool) {
        true
    }

    fn restored(self) -> (entity: Self)
        ensures
            entity.totals is None,
            entity.quantities == self.quantities,
    {
        Reports { quantities: self.quantities, totals: None }
    }
}

/// After a conversion, a `clear` leaves no totals and the counts that the
/// conversion read.
pub proof fn lemma_clear_after_conversion<T>(reports: Reports<T>, purple_reports: T, exp: T)
    ensures
        reports.with_totals(purple_reports, exp).cleared().totals is None,
        reports.with_totals(purple_reports, exp).cleared() == reports.cleared(),
{
}

/// A second `clear` changes nothing.
pub proof fn lemma_clear_is_idempotent<T>(reports: Reports<T>)
    ensures
        reports.cleared().cleared() == reports.cleared(),
{
}

/// The two stored fields describe the totals that they were taken from.
pub proof fn lemma_stored_totals_come_back<T>(totals: Option<Totals<T>>)
    ensures
        paired(split(totals).0, split(totals).1) == totals,
        split(totals).0 is Some <==> split(totals).1 is Some,
{
}

/// An inventory that is stored and loaded again has the counts that it had
/// and no totals, whether it had totals or not.
pub proof fn lemma_stored_reports_come_back_cleared<T>(reports: Reports<T>)
    ensures
        load_spec(
            Stored::Record(
                Reports::stored_as(
                    reports.quantities,
                    split(reports.totals).0,
                    split(reports.totals).1,
                ),
            ),
        ) == Ok::<Reports<T>, AppError>(reports.cleared()),
{
}

/// What was stored with totals comes back as what was stored without them:
/// a load never hands out totals, and keeps every count.
pub proof fn lemma_load_drops_totals<T>(reports: Reports<T>)
    ensures
        reports.restored_spec().totals is None,
        reports.restored_spec().quantities == reports.quantities,
        reports.restored_spec() == reports.cleared().restored_spec(),
{
}

} // verus!
