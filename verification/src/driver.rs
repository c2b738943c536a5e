//! The trusted boundary to the synchronous database driver. Each struct here
//! holds one of the driver's handles opaquely, and each function wraps
//! exactly one driver call; nothing else in the library touches the driver
//! directly.
//!
//! What a statement does to the database depends on the database itself, so
//! the wrappers promise nothing about the values the driver hands back; the
//! verified code around them states what holds whatever came back.

use vstd::prelude::*;

use crate::value::Value;

verus! {

/// An open driver connection: one database file or in-memory database.
#[verifier::external_body]
pub(crate) struct DriverConn {
    inner: rusqlite::Connection,
}

/// An error the driver reported.
#[verifier::external_body]
pub(crate) struct DriverError {
    inner: rusqlite::Error,
}

/// One value in the driver's own representation.
#[verifier::external_body]
pub(crate) struct DriverValue {
    inner: rusqlite::types::Value,
}

/// A floating-point value held in the driver's representation. This library
/// never reads or computes with it, only carries it through; the public
/// `inner` field lets unverified callers build and inspect one, and is the
/// only way to build one, since no floating-point type may appear here. The
/// field is expected to hold the driver's Real variant; nothing checks that,
/// and whatever it holds is bound unchanged.
#[verifier::external_body]
pub struct RealValue {
    pub inner: rusqlite::types::Value,
}

impl Clone for RealValue {
    /// Relies on the Clone impl of rusqlite::types::Value.
    #[verifier::external_body]
    fn clone(&self) -> (r: Self) {
        RealValue { inner: self.inner.clone() }
    }
}

impl PartialEq for RealValue {
    /// Relies on the PartialEq impl of rusqlite::types::Value.
    #[verifier::external_body]
    fn eq(&self, other: &Self) -> bool {
        self.inner == other.inner
    }
}

/// A statement the driver has prepared against a connection.
#[verifier::external_body]
pub(crate) struct DriverStmt<'conn> {
    inner: rusqlite::Statement<'conn>,
}

/// The driver's cursor over the result rows of one started query.
#[verifier::external_body]
pub(crate) struct DriverRows<'stmt> {
    inner: rusqlite::Rows<'stmt>,
}

/// A borrow of the driver's current result row.
#[verifier::external_body]
pub(crate) struct DriverRowRef<'a> {
    inner: &'a rusqlite::Row<'a>,
}

/// An open, uncommitted driver transaction. Dropping it unresolved makes the
/// driver roll it back.
#[verifier::external_body]
pub(crate) struct DriverTxn<'conn> {
    inner: rusqlite::Transaction<'conn>,
}

/// Relies on rusqlite::Connection::open: opens a database at the given
/// filesystem path or in-memory designator, or returns the driver's error.
#[verifier::external_body]
pub(crate) fn open_connection(path: &str) -> (r: Result<DriverConn, DriverError>) {
    match rusqlite::Connection::open(path) {
        Ok(c) => Ok(DriverConn { inner: c }),
        Err(e) => Err(DriverError { inner: e }),
    }
}

/// Relies on rusqlite::Connection::execute: prepares and runs one statement
/// with the given positional parameters, returning the number of rows it
/// inserted, updated or deleted, or the driver's error.
#[verifier::external_body]
pub(crate) fn execute_statement(conn: &DriverConn, sql: &str, args: Vec<DriverValue>) -> (r:
    Result<usize, DriverError>) {
    conn.inner
        .execute(sql, rusqlite::params_from_iter(args.into_iter().map(|v| v.inner)))
        .map_err(|e| DriverError { inner: e })
}

/// Relies on rusqlite::Connection::last_insert_rowid: the row id of the most
/// recent successful insert on this connection.
#[verifier::external_body]
pub(crate) fn last_insert_rowid(conn: &DriverConn) -> (r: i64) {
    conn.inner.last_insert_rowid()
}

/// Relies on rusqlite::Connection::prepare: compiles one statement against
/// this connection, or returns the driver's error.
#[verifier::external_body]
pub(crate) fn prepare_statement<'c>(conn: &'c DriverConn, sql: &str) -> (r: Result<
    DriverStmt<'c>,
    DriverError,
>) {
    match conn.inner.prepare(sql) {
        Ok(s) => Ok(DriverStmt { inner: s }),
        Err(e) => Err(DriverError { inner: e }),
    }
}

/// Relies on rusqlite::Statement::column_names: one name per result column of
/// the prepared statement, in the query's column order; converts each
/// borrowed name to an owned string.
///
/// Caution: the driver call aborts the process on a column name that is not
/// valid UTF-8. SQLite does not validate the text in a schema, so a database
/// file written by other software can hold such a name; the driver offers no
/// fallible route to the names, so this boundary cannot turn that abort into
/// an error.
#[verifier::external_body]
pub(crate) fn statement_columns(stmt: &DriverStmt<'_>) -> (r: Vec<String>) {
    stmt.inner.column_names().into_iter().map(|v| v.to_owned()).collect()
}

/// Relies on rusqlite::Statement::query: binds the positional parameters and
/// starts the statement, returning the driver's row cursor or its error.
#[verifier::external_body]
pub(crate) fn start_query<'s>(stmt: &'s mut DriverStmt<'_>, args: Vec<DriverValue>) -> (r: Result<
    DriverRows<'s>,
    DriverError,
>) {
    match stmt.inner.query(rusqlite::params_from_iter(args.into_iter().map(|v| v.inner))) {
        Ok(rows) => Ok(DriverRows { inner: rows }),
        Err(e) => Err(DriverError { inner: e }),
    }
}

/// Relies on rusqlite::Rows::next: advances the cursor by one row and returns
/// it, returns None once every row has been delivered, or returns the
/// driver's error.
#[verifier::external_body]
pub(crate) fn step_rows<'a>(rows: &'a mut DriverRows<'_>) -> (r: Result<
    Option<DriverRowRef<'a>>,
    DriverError,
>) {
    match rows.inner.next() {
        Ok(Some(row)) => Ok(Some(DriverRowRef { inner: row })),
        Ok(None) => Ok(None),
        Err(e) => Err(DriverError { inner: e }),
    }
}

/// Relies on rusqlite::Row::get: the value of the column at the given index,
/// or the driver's error when the index is out of range or the value cannot
/// be read.
#[verifier::external_body]
pub(crate) fn row_column(row: &DriverRowRef<'_>, idx: usize) -> (r: Result<
    DriverValue,
    DriverError,
>) {
    match row.inner.get::<usize, rusqlite::types::Value>(idx) {
        Ok(v) => Ok(DriverValue { inner: v }),
        Err(e) => Err(DriverError { inner: e }),
    }
}

/// Relies on rusqlite::Connection::transaction_with_behavior: begins a
/// deferred transaction. Until the transaction is resolved, the mutable
/// borrow keeps the connection from serving anything else.
#[verifier::external_body]
pub(crate) fn begin_deferred<'c>(conn: &'c mut DriverConn) -> (r: Result<
    DriverTxn<'c>,
    DriverError,
>) {
    match conn.inner.transaction_with_behavior(rusqlite::TransactionBehavior::Deferred) {
        Ok(t) => Ok(DriverTxn { inner: t }),
        Err(e) => Err(DriverError { inner: e }),
    }
}

/// Relies on rusqlite::Transaction::commit: consumes the transaction,
/// committing its writes, or returns the driver's error.
#[verifier::external_body]
pub(crate) fn commit_transaction(tx: DriverTxn<'_>) -> (r: Result<(), DriverError>) {
    tx.inner.commit().map_err(|e| DriverError { inner: e })
}

/// Relies on rusqlite::Transaction::rollback: consumes the transaction,
/// discarding its writes, or returns the driver's error.
#[verifier::external_body]
pub(crate) fn rollback_transaction(tx: DriverTxn<'_>) -> (r: Result<(), DriverError>) {
    tx.inner.rollback().map_err(|e| DriverError { inner: e })
}

/// Relies on rusqlite::Connection::execute, reached through the Deref impl of
/// rusqlite::Transaction: the statement runs inside the open transaction.
#[verifier::external_body]
pub(crate) fn txn_execute_statement(tx: &DriverTxn<'_>, sql: &str, args: Vec<DriverValue>) -> (r:
    Result<usize, DriverError>) {
    tx.inner
        .execute(sql, rusqlite::params_from_iter(args.into_iter().map(|v| v.inner)))
        .map_err(|e| DriverError { inner: e })
}

/// Relies on rusqlite::Connection::prepare, reached through the Deref impl of
/// rusqlite::Transaction: the statement is bound to the open transaction's
/// driver context.
#[verifier::external_body]
pub(crate) fn txn_prepare_statement<'a>(tx: &'a DriverTxn<'_>, sql: &str) -> (r: Result<
    DriverStmt<'a>,
    DriverError,
>) {
    match tx.inner.prepare(sql) {
        Ok(s) => Ok(DriverStmt { inner: s }),
        Err(e) => Err(DriverError { inner: e }),
    }
}

/// Relies on rusqlite::Connection::last_insert_rowid, reached through the
/// Deref impl of rusqlite::Transaction.
#[verifier::external_body]
pub(crate) fn txn_last_insert_rowid(tx: &DriverTxn<'_>) -> (r: i64) {
    tx.inner.last_insert_rowid()
}

/// Relies on the Display impl of rusqlite::Error: the driver's own
/// diagnostic text for the failure.
#[verifier::external_body]
pub(crate) fn error_message(err: &DriverError) -> (r: String) {
    format!("{}", err.inner)
}

/// Converts a bind value of this library into the driver's value, variant by
/// variant; a Real carries the driver's floating-point value unchanged.
#[verifier::external_body]
pub(crate) fn value_to_driver(v: &Value) -> (r: DriverValue) {
    DriverValue {
        inner: match v {
            Value::Null => rusqlite::types::Value::Null,
            Value::Integer(i) => rusqlite::types::Value::Integer(*i),
            Value::Real(d) => d.inner.clone(),
            Value::Text(s) => rusqlite::types::Value::Text(s.clone()),
            Value::Blob(b) => rusqlite::types::Value::Blob(b.clone()),
        },
    }
}

/// Converts a driver value into this library's value, variant by variant; a
/// driver Real is carried through opaquely.
#[verifier::external_body]
pub(crate) fn value_from_driver(v: DriverValue) -> (r: Value) {
    match v.inner {
        rusqlite::types::Value::Null => Value::Null,
        rusqlite::types::Value::Integer(i) => Value::Integer(i),
        rusqlite::types::Value::Real(d) => Value::Real(
            RealValue { inner: rusqlite::types::Value::Real(d) },
        ),
        rusqlite::types::Value::Text(s) => Value::Text(s),
        rusqlite::types::Value::Blob(b) => Value::Blob(b),
    }
}

} // verus!
