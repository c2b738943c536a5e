//! One open, uncommitted unit of work on a connection. While it exists it
//! exclusively owns the connection's command processing: the borrow it holds
//! keeps the parent connection from running anything of its own until the
//! transaction resolves. It resolves by `commit`, by `rollback`, or — when it
//! is dropped unresolved — by the driver rolling it back, so a forgotten
//! transaction behaves exactly like an explicit rollback.

use vstd::prelude::*;

use crate::driver::DriverTxn;
use crate::driver::commit_transaction;
use crate::driver::error_message;
use crate::driver::rollback_transaction;
use crate::driver::txn_execute_statement;
use crate::driver::txn_last_insert_rowid;
use crate::driver::txn_prepare_statement;
use crate::cursor::Prepared;
use crate::cursor::run_single_row;
use crate::cursor::run_to_rows;
use crate::cursor::to_driver_args;
use crate::error::Error;
use crate::rows::Rows;
use crate::status::Status;
use crate::value::Row;
use crate::value::Value;

verus! {

/// An open database transaction, scoped to one connection.
pub struct Transaction<'conn> {
    pub(crate) inner: DriverTxn<'conn>,
}

impl<'conn> Transaction<'conn> {
    /// Consumes the transaction, committing all changes made within it; its
    /// writes become visible to later queries on the connection. On success
    /// or failure the transaction is over and the connection is free again.
    pub fn commit(self) -> (r: Result<(), Error>)
        ensures
            r matches Err(e) ==> e is ExecutionFailed,
    {
        match commit_transaction(self.inner) {
            Ok(u) => Ok(u),
            Err(e) => Err(Error::ExecutionFailed(error_message(&e))),
        }
    }

    /// Consumes the transaction, discarding all changes made within it. On
    /// success or failure the transaction is over and the connection is free
    /// again.
    pub fn rollback(self) -> (r: Result<(), Error>)
        ensures
            r matches Err(e) ==> e is ExecutionFailed,
    {
        match rollback_transaction(self.inner) {
            Ok(u) => Ok(u),
            Err(e) => Err(Error::ExecutionFailed(error_message(&e))),
        }
    }

    /// Executes a statement that does not return rows, inside this
    /// transaction. On success the status carries the driver's row count and
    /// its most-recent-rowid report (present whatever the statement was). A
    /// failure does not roll the transaction back: it stays open and the
    /// caller decides whether to continue, retry or resolve.
    pub fn execute(&mut self, statement: &str, arguments: &Vec<Value>) -> (r: Result<
        Status,
        Error,
    >)
        ensures
            r matches Ok(st) ==> st.last_insert_id is Some,
            r matches Err(e) ==> e is ExecutionFailed,
    {
        match txn_execute_statement(&self.inner, statement, to_driver_args(arguments)) {
            Ok(n) => Ok(Status::new(n, Some(txn_last_insert_rowid(&self.inner)))),
            Err(e) => Err(Error::ExecutionFailed(error_message(&e))),
        }
    }

    /// Compiles one statement bound to this transaction's driver context,
    /// capturing the result's column names; start the returned statement to
    /// step through its rows one at a time. A prepare failure leaves the
    /// transaction open. Limitation of the driver: a schema column name that
    /// is not valid UTF-8 aborts the process.
    pub fn prepare(&self, statement: &str) -> (r: Result<Prepared<'_>, Error>)
        ensures
            r matches Err(e) ==> e is PrepareFailed,
    {
        match txn_prepare_statement(&self.inner, statement) {
            Ok(stmt) => Ok(Prepared::from_stmt(stmt)),
            Err(e) => Err(Error::PrepareFailed(error_message(&e))),
        }
    }

    /// Executes a statement that returns rows, inside this transaction: the
    /// query sees the transaction's own pending writes, and a failure leaves
    /// the transaction open. The whole result is collected before this
    /// returns — the synchronous convenience; for row-at-a-time production
    /// `prepare` the statement and step its cursor instead.
    pub fn query(&mut self, statement: &str, arguments: &Vec<Value>) -> (r: Result<Rows, Error>)
        ensures
            r matches Err(e) ==> e is PrepareFailed || e is ExecutionFailed,
            r matches Ok(rows) ==> rows.well_formed(),
    {
        match self.prepare(statement) {
            Ok(prepared) => run_to_rows(prepared, arguments),
            Err(e) => Err(e),
        }
    }

    /// Executes a statement expected to match at most one row, inside this
    /// transaction: `None` for an empty result, the row for exactly one, and
    /// `MultipleRowsReturned` when more than one item comes back. At most
    /// two rows are fetched.
    pub fn query_row(&mut self, statement: &str, arguments: &Vec<Value>) -> (r: Result<
        Option<Row>,
        Error,
    >)
        ensures
            r matches Err(e) ==> e is PrepareFailed || e is ExecutionFailed || e is RowDecodeFailed
                || e is MultipleRowsReturned,
    {
        match self.prepare(statement) {
            Ok(prepared) => run_single_row(prepared, arguments),
            Err(e) => Err(e),
        }
    }
}

} // verus!
