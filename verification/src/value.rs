//! The tagged values exchanged with the database and the rows built from
//! them. A value is immutable once constructed; a row is the ordered sequence
//! of values of one result row, one per column.

use vstd::prelude::*;

use crate::driver::RealValue;

verus! {

/// A tagged database value: a bind parameter supplied by a caller, or a
/// column value produced by the driver.
///
/// A `Real` carries the driver's own floating-point value through this
/// library opaquely: nothing here reads or computes with it, so it is kept
/// exactly as the driver (or the caller) made it.
#[derive(Clone, PartialEq)]
pub enum Value {
    /// The SQL NULL value.
    Null,
    /// A 64-bit signed integer.
    Integer(i64),
    /// A floating-point value, held in the driver's representation.
    Real(RealValue),
    /// A UTF-8 string.
    Text(String),
    /// A byte sequence.
    Blob(Vec<u8>),
}

impl From<i64> for Value {
    /// An integer becomes an `Integer` bind value.
    fn from(v: i64) -> (r: Self) {
        Value::Integer(v)
    }
}

impl vstd::std_specs::convert::FromSpecImpl<i64> for Value {
    open spec fn obeys_from_spec() -> bool {
        true
    }

    open spec fn from_spec(v: i64) -> Value {
        Value::Integer(v)
    }
}

impl From<String> for Value {
    /// A string becomes a `Text` bind value.
    fn from(v: String) -> (r: Self) {
        Value::Text(v)
    }
}

impl vstd::std_specs::convert::FromSpecImpl<String> for Value {
    open spec fn obeys_from_spec() -> bool {
        true
    }

    open spec fn from_spec(v: String) -> Value {
        Value::Text(v)
    }
}

impl From<Vec<u8>> for Value {
    /// A byte sequence becomes a `Blob` bind value.
    fn from(v: Vec<u8>) -> (r: Self) {
        Value::Blob(v)
    }
}

impl vstd::std_specs::convert::FromSpecImpl<Vec<u8>> for Value {
    open spec fn obeys_from_spec() -> bool {
        true
    }

    open spec fn from_spec(v: Vec<u8>) -> Value {
        Value::Blob(v)
    }
}

/// One result row: the values of one row of a query's result, in the
/// positional order of the query's column list.
#[derive(Clone, PartialEq)]
pub struct Row {
    pub values: Vec<Value>,
}

impl Row {
    /// The row's values, one per column, in column order.
    pub fn values(&self) -> (r: &Vec<Value>)
        ensures
            r == self.values,
    {
        &self.values
    }

    /// Consumes the row, returning its values.
    pub fn into_values(self) -> (r: Vec<Value>)
        ensures
            r == self.values,
    {
        self.values
    }
}

} // verus!
