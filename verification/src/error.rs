//! The typed errors of this library. Driver-originated failures carry the
//! driver's own diagnostic text; plumbing failures are mapped to
//! `ActorUnavailable` rather than leaking transport detail.

use vstd::prelude::*;

verus! {

/// Everything a public call of this library can fail with.
#[derive(Clone, Debug, PartialEq)]
pub enum Error {
    /// Opening the database failed; carries the driver's diagnostic text.
    OpenFailed(String),
    /// Preparing a statement failed; carries the driver's diagnostic text.
    PrepareFailed(String),
    /// Running a statement failed; carries the driver's diagnostic text.
    ExecutionFailed(String),
    /// A column value of a fetched row could not be read.
    RowDecodeFailed(String),
    /// A command was sent to an actor whose command loop has already exited.
    ActorUnavailable,
    /// A single-row convenience call matched more than one row.
    MultipleRowsReturned,
}

} // verus!
