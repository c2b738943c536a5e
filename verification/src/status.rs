//! Result of a statement that returns no rows: how many rows it affected and
//! the driver's most-recent-rowid report. The driver gives no per-statement
//! signal of whether an id was generated, so the report is present on every
//! successful execute and is meaningful only when the statement inserted a
//! row with an auto-generated id.

use vstd::prelude::*;

verus! {

/// A result of executing the statement without the resulting query rows.
#[derive(Clone, Copy, Debug)]
pub struct Status {
    pub rows_affected: usize,
    pub last_insert_id: Option<i64>,
}

impl Status {
    /// Builds the status of one completed statement from what the driver
    /// reported: the row count it returned and the row id it recorded.
    pub fn new(rows_affected: usize, last_insert_id: Option<i64>) -> (r: Status)
        ensures
            r.rows_affected == rows_affected,
            r.last_insert_id == last_insert_id,
    {
        Status { rows_affected, last_insert_id }
    }

    /// The number of rows the statement inserted, updated or deleted.
    pub fn rows_affected(&self) -> (r: usize)
        ensures
            r == self.rows_affected,
    {
        self.rows_affected
    }

    /// The driver's most-recent-rowid report when the statement finished:
    /// present on every successful execute, the id of the statement's own row
    /// only when the statement inserted one with an auto-generated id.
    pub fn last_insert_id(&self) -> (r: Option<i64>)
        ensures
            r == self.last_insert_id,
    {
        self.last_insert_id
    }
}

impl Default for Status {
    /// A status that affected no rows and produced no row id.
    fn default() -> (r: Self)
        ensures
            r.rows_affected == 0,
            r.last_insert_id is None,
    {
        Status { rows_affected: 0, last_insert_id: None }
    }
}

} // verus!
