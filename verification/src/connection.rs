//! One open database connection. It exclusively owns the driver handle:
//! statements, queries and transactions on this connection all run through
//! this one value, and beginning a transaction suspends the connection until
//! the transaction resolves.

use vstd::prelude::*;

use crate::driver::DriverConn;
use crate::driver::begin_deferred;
use crate::driver::error_message;
use crate::driver::execute_statement;
use crate::driver::last_insert_rowid;
use crate::driver::open_connection;
use crate::driver::prepare_statement;
use crate::cursor::Prepared;
use crate::cursor::run_single_row;
use crate::cursor::run_to_rows;
use crate::cursor::to_driver_args;
use crate::error::Error;
use crate::rows::Rows;
use crate::status::Status;
use crate::transaction::Transaction;
use crate::value::Row;
use crate::value::Value;

verus! {

/// An open connection to one database file or in-memory database.
pub struct Connection {
    pub(crate) inner: DriverConn,
}

impl Connection {
    /// Opens a connection to the database at `path`, a filesystem path or an
    /// in-memory designator. An open failure is fatal to this connection
    /// attempt only and carries the driver's diagnostic text.
    pub fn open(path: &str) -> (r: Result<Connection, Error>)
        ensures
            r matches Err(e) ==> e is OpenFailed,
    {
        match open_connection(path) {
            Ok(c) => Ok(Connection { inner: c }),
            Err(e) => Err(Error::OpenFailed(error_message(&e))),
        }
    }

    /// Executes a statement that does not return rows, with positional bind
    /// parameters. On success the status carries the driver's row count and
    /// its most-recent-rowid report (present whatever the statement was); a
    /// failure carries the driver's diagnostic text and leaves the connection
    /// usable for later commands.
    pub fn execute(&mut self, statement: &str, arguments: &Vec<Value>) -> (r: Result<
        Status,
        Error,
    >)
        ensures
            r matches Ok(st) ==> st.last_insert_id is Some,
            r matches Err(e) ==> e is ExecutionFailed,
    {
        match execute_statement(&self.inner, statement, to_driver_args(arguments)) {
            Ok(n) => Ok(Status::new(n, Some(last_insert_rowid(&self.inner)))),
            Err(e) => Err(Error::ExecutionFailed(error_message(&e))),
        }
    }

    /// Compiles one statement against this connection, capturing the
    /// result's column names; start the returned statement to step through
    /// its rows one at a time. A prepare failure is reported to the caller
    /// and leaves the connection usable for later commands. Limitation of
    /// the driver: a schema column name that is not valid UTF-8 aborts the
    /// process.
    pub fn prepare(&self, statement: &str) -> (r: Result<Prepared<'_>, Error>)
        ensures
            r matches Err(e) ==> e is PrepareFailed,
    {
        match prepare_statement(&self.inner, statement) {
            Ok(stmt) => Ok(Prepared::from_stmt(stmt)),
            Err(e) => Err(Error::PrepareFailed(error_message(&e))),
        }
    }

    /// Executes a statement that returns rows, with positional bind
    /// parameters, and collects the whole result before returning — the
    /// synchronous convenience. For row-at-a-time production bounded to one
    /// row in flight, `prepare` the statement and step its cursor instead.
    /// The stream's column names are available even for an empty result.
    pub fn query(&mut self, statement: &str, arguments: &Vec<Value>) -> (r: Result<Rows, Error>)
        ensures
            r matches Err(e) ==> e is PrepareFailed || e is ExecutionFailed,
            r matches Ok(rows) ==> rows.well_formed(),
    {
        match self.prepare(statement) {
            Ok(prepared) => run_to_rows(prepared, arguments),
            Err(e) => Err(e),
        }
    }

    /// Executes a statement expected to match at most one row: `None` for an
    /// empty result, the row for exactly one, and `MultipleRowsReturned` when
    /// more than one item comes back. At most two rows are fetched.
    pub fn query_row(&mut self, statement: &str, arguments: &Vec<Value>) -> (r: Result<
        Option<Row>,
        Error,
    >)
        ensures
            r matches Err(e) ==> e is PrepareFailed || e is ExecutionFailed || e is RowDecodeFailed
                || e is MultipleRowsReturned,
    {
        match self.prepare(statement) {
            Ok(prepared) => run_single_row(prepared, arguments),
            Err(e) => Err(e),
        }
    }

    /// Begins a deferred transaction. Until it is committed, rolled back or
    /// dropped, the transaction exclusively owns this connection's command
    /// processing: no operation can run on the connection itself.
    pub fn transaction(&mut self) -> (r: Result<Transaction<'_>, Error>)
        ensures
            r matches Err(e) ==> e is ExecutionFailed,
    {
        match begin_deferred(&mut self.inner) {
            Ok(t) => Ok(Transaction { inner: t }),
            Err(e) => Err(Error::ExecutionFailed(error_message(&e))),
        }
    }
}

/// The opening step of a connection's worker: it records the path and, when
/// run, synchronously opens the driver handle; if opening fails the caller
/// receives the error and no usable connection exists.
pub struct ConnectionTask {
    pub path: String,
}

impl ConnectionTask {
    /// Records the path the connection will be opened at.
    pub fn new(path: String) -> (r: Self)
        ensures
            r.path == path,
    {
        ConnectionTask { path }
    }

    /// Opens the connection at the recorded path.
    pub fn run(self) -> (r: Result<Connection, Error>)
        ensures
            r matches Err(e) ==> e is OpenFailed,
    {
        Connection::open(self.path.as_str())
    }
}

} // verus!
