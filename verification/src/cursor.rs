//! One query, run row by row: a prepared statement with its column names
//! captured once, and a cursor that steps the driver exactly once per
//! delivered row. Production is paced by the caller — between two deliveries
//! nothing is buffered — so a loop that sends each row over a bounded channel
//! keeps at most one row in flight and stops stepping the driver the moment
//! its consumer is gone.

use vstd::prelude::*;

use crate::driver::DriverRows;
use crate::driver::DriverRowRef;
use crate::driver::DriverStmt;
use crate::driver::DriverValue;
use crate::driver::error_message;
use crate::driver::row_column;
use crate::driver::start_query;
use crate::driver::statement_columns;
use crate::driver::step_rows;
use crate::driver::value_from_driver;
use crate::driver::value_to_driver;
use crate::error::Error;
use crate::rows::Rows;
use crate::rows::single_row;
use crate::value::Row;
use crate::value::Value;

verus! {

/// Whether a delivered item is a row (as opposed to end-of-stream or the
/// stream's final error).
pub open spec fn is_row_item(r: Option<Result<Row, Error>>) -> bool {
    match r {
        Some(item) => item is Ok,
        None => false,
    }
}

/// A statement the driver has compiled, with the result's column names
/// captured once — available before the first row, even for an empty result.
pub struct Prepared<'conn> {
    stmt: DriverStmt<'conn>,
    columns: Vec<String>,
}

impl<'conn> Prepared<'conn> {
    /// The column names of the statement's result, in the query's column
    /// order, fixed when the statement was prepared.
    pub closed spec fn column_names(&self) -> Seq<String> {
        self.columns@
    }

    /// Captures the column names of a driver-prepared statement.
    pub(crate) fn from_stmt(stmt: DriverStmt<'conn>) -> (r: Prepared<'conn>) {
        let columns = statement_columns(&stmt);
        Prepared { stmt, columns }
    }

    /// One name per result column, in the query's column order.
    pub fn columns(&self) -> (r: &Vec<String>)
        ensures
            r@ == self.column_names(),
    {
        &self.columns
    }

    /// Binds the positional parameters and starts the statement. The cursor
    /// delivers one row per step, each as wide as the column list; until it
    /// is dropped it exclusively borrows this statement.
    pub fn start(&mut self, arguments: &Vec<Value>) -> (r: Result<Cursor<'_>, Error>)
        ensures
            final(self).column_names() == old(self).column_names(),
            r matches Err(e) ==> e is ExecutionFailed,
            r matches Ok(c) ==> c.width() == old(self).column_names().len() && !c.ended(),
    {
        let ncols = self.columns.len();
        let dargs = to_driver_args(arguments);
        match start_query(&mut self.stmt, dargs) {
            Ok(rows) => Ok(Cursor { rows, ncols, done: false }),
            Err(e) => Err(Error::ExecutionFailed(error_message(&e))),
        }
    }

    /// Consumes the prepared statement, yielding its captured column names.
    pub(crate) fn into_columns(self) -> (r: Vec<String>)
        ensures
            r@ == self.column_names(),
    {
        self.columns
    }
}

/// The driver's cursor over one started query. Each `next_row` advances the
/// driver by exactly one row; nothing is fetched ahead.
pub struct Cursor<'stmt> {
    rows: DriverRows<'stmt>,
    ncols: usize,
    done: bool,
}

impl<'stmt> Cursor<'stmt> {
    /// How many values each delivered row holds: one per result column.
    pub closed spec fn width(&self) -> int {
        self.ncols as int
    }

    /// Whether the stream has ended: every later delivery returns `None`.
    pub closed spec fn ended(&self) -> bool {
        self.done
    }

    /// Delivers the next item: the next row of the result, the error that
    /// ends the stream, or `None` at end-of-stream. The end is sticky — it
    /// begins with the first `None` or error, and from then on every call
    /// returns `None`.
    pub fn next_row(&mut self) -> (r: Option<Result<Row, Error>>)
        ensures
            final(self).width() == old(self).width(),
            old(self).ended() ==> r is None,
            final(self).ended() == (old(self).ended() || !is_row_item(r)),
            r matches Some(Ok(row)) ==> row.values@.len() == old(self).width(),
            r matches Some(Err(e)) ==> e is ExecutionFailed || e is RowDecodeFailed,
    {
        if self.done {
            return None;
        }
        match step_rows(&mut self.rows) {
            Ok(stepped) => match stepped {
                Some(rowref) => match read_row(&rowref, self.ncols) {
                    Ok(values) => Some(Ok(Row { values })),
                    Err(e) => {
                        self.done = true;
                        Some(Err(e))
                    },
                },
                None => {
                    self.done = true;
                    None
                },
            },
            Err(e) => {
                self.done = true;
                Some(Err(Error::ExecutionFailed(error_message(&e))))
            },
        }
    }
}

/// Reads one fetched driver row as this library's values, one per column, in
/// column order.
fn read_row(row: &DriverRowRef<'_>, ncols: usize) -> (r: Result<Vec<Value>, Error>)
    ensures
        r matches Ok(values) ==> values@.len() == ncols,
        r matches Err(e) ==> e is RowDecodeFailed,
{
    let mut values: Vec<Value> = Vec::new();
    let mut i: usize = 0;
    while i < ncols
        invariant
            i <= ncols,
            values@.len() == i,
        decreases ncols - i,
    {
        match row_column(row, i) {
            Ok(dv) => {
                values.push(value_from_driver(dv));
            },
            Err(e) => {
                return Err(Error::RowDecodeFailed(error_message(&e)));
            },
        }
        i = i + 1;
    }
    Ok(values)
}

/// Converts bind values into the driver's representation, one per argument,
/// in order.
pub(crate) fn to_driver_args(arguments: &Vec<Value>) -> (r: Vec<DriverValue>)
    ensures
        r@.len() == arguments@.len(),
{
    let mut out: Vec<DriverValue> = Vec::new();
    let mut i: usize = 0;
    while i < arguments.len()
        invariant
            i <= arguments@.len(),
            out@.len() == i,
        decreases arguments@.len() - i,
    {
        out.push(value_to_driver(&arguments[i]));
        i = i + 1;
    }
    out
}

/// Runs a prepared statement to exhaustion and collects the whole result as
/// a stream of already-fetched items — the synchronous convenience behind
/// `query`. A caller that wants one row at a time steps a `Cursor` instead.
pub(crate) fn run_to_rows(prepared: Prepared<'_>, arguments: &Vec<Value>) -> (r: Result<
    Rows,
    Error,
>)
    ensures
        r matches Err(e) ==> e is ExecutionFailed,
        r matches Ok(rows) ==> rows.well_formed() && rows.column_names()
            == prepared.column_names(),
{
    let mut prepared = prepared;
    let ghost cols: Seq<String> = prepared.column_names();
    let mut items: Vec<Result<Row, Error>> = Vec::new();
    {
        let mut cursor = match prepared.start(arguments) {
            Ok(c) => c,
            Err(e) => {
                return Err(e);
            },
        };
        loop
            invariant_except_break
                cursor.width() == cols.len(),
                forall|i: int|
                    0 <= i < items@.len() ==> ((#[trigger] items@[i]) matches Ok(row)
                        && row.values@.len() == cols.len()),
            ensures
                forall|i: int|
                    0 <= i < items@.len() ==> match #[trigger] items@[i] {
                        Ok(row) => row.values@.len() == cols.len(),
                        Err(e) => (e is ExecutionFailed || e is RowDecodeFailed) && i
                            == items@.len() - 1,
                    },
            decreases usize::MAX - items@.len(),
        {
            // A result longer than the address space cannot arise; the bound
            // only serves to keep the collection finite.
            if items.len() == usize::MAX {
                break;
            }
            match cursor.next_row() {
                None => {
                    break;
                },
                Some(item) => match item {
                    Ok(row) => {
                        items.push(Ok(row));
                    },
                    Err(e) => {
                        items.push(Err(e));
                        break;
                    },
                },
            }
        }
    }
    let columns = prepared.into_columns();
    let rows = Rows::from_parts(columns, items);
    proof {
        assert(rows.well_formed());
    }
    Ok(rows)
}

/// Runs a prepared statement expected to match at most one row, stepping the
/// driver at most twice: the multiplicity decision is `single_row`'s, made
/// over what those steps delivered.
pub(crate) fn run_single_row(prepared: Prepared<'_>, arguments: &Vec<Value>) -> (r: Result<
    Option<Row>,
    Error,
>)
    ensures
        r matches Err(e) ==> e is ExecutionFailed || e is RowDecodeFailed
            || e is MultipleRowsReturned,
{
    let mut prepared = prepared;
    let mut items: Vec<Result<Row, Error>> = Vec::new();
    {
        let mut cursor = match prepared.start(arguments) {
            Ok(c) => c,
            Err(e) => {
                return Err(e);
            },
        };
        match cursor.next_row() {
            None => {},
            Some(first) => {
                items.push(first);
                match cursor.next_row() {
                    None => {},
                    Some(second) => {
                        items.push(second);
                    },
                }
            },
        }
    }
    let columns = prepared.into_columns();
    single_row(Rows::from_parts(columns, items))
}

} // verus!
