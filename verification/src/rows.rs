//! The result stream of one query: the column names, captured once before the
//! first row, and a cursor that delivers each fetched row exactly once, in
//! the driver's result order, with a sticky end-of-stream.
//!
//! A mid-stream driver failure is delivered as the final item of the stream,
//! never swallowed: the stream does not silently truncate a result.
//!
//! A `Rows` value holds items that have already been fetched and delivers
//! them one at a time; fetching itself — eagerly for the `query` convenience,
//! or one driver step per row through a cursor — is the cursor module's.

use vstd::prelude::*;

use crate::error::Error;
use crate::value::Row;

verus! {

/// The rows of one executed query, delivered one at a time and in order.
///
/// `pending` holds the not-yet-delivered items in reverse delivery order, so
/// that delivering the next item is a pop from the end.
pub struct Rows {
    columns: Vec<String>,
    pending: Vec<Result<Row, Error>>,
}

impl Rows {
    /// The items not yet delivered, in delivery order: each is a fetched row,
    /// except that a mid-stream driver failure stands as the final item.
    pub closed spec fn remaining(&self) -> Seq<Result<Row, Error>> {
        Seq::new(self.pending@.len(), |i: int| self.pending@[self.pending@.len() - 1 - i])
    }

    /// The column names of the result, fixed for the stream's lifetime.
    pub closed spec fn column_names(&self) -> Seq<String> {
        self.columns@
    }

    /// Builds a stream that will deliver exactly the given items, in order,
    /// under the given column names.
    pub(crate) fn from_parts(columns: Vec<String>, items: Vec<Result<Row, Error>>) -> (r: Rows)
        ensures
            r.column_names() == columns@,
            r.remaining() == items@,
    {
        let ghost orig = items@;
        let mut src = items;
        let mut pending: Vec<Result<Row, Error>> = Vec::new();
        while src.len() > 0
            invariant
                src@ + pending@.reverse() == orig,
            decreases src@.len(),
        {
            let it = src.pop().unwrap();
            pending.push(it);
            proof {
                assert(src@ + pending@.reverse() =~= orig);
            }
        }
        let r = Rows { columns, pending };
        proof {
            assert(r.remaining() =~= orig);
        }
        r
    }

    /// One name per result column, in the query's column order; available
    /// before the first row, even for an empty result.
    pub fn columns(&self) -> (r: &Vec<String>)
        ensures
            r@ == self.column_names(),
    {
        &self.columns
    }

    /// Holds of every stream a query of this library produced: each item is
    /// a row with exactly one value per result column, except that the last
    /// item may instead be the error that ended the fetch.
    pub open spec fn well_formed(&self) -> bool {
        forall|i: int|
            0 <= i < self.remaining().len() ==> match #[trigger] self.remaining()[i] {
                Ok(row) => row.values@.len() == self.column_names().len(),
                Err(e) => (e is ExecutionFailed || e is RowDecodeFailed) && i == self.remaining().len()
                    - 1,
            }
    }

    /// Delivers the next item of the result: the next row (or the final
    /// error) while any remain, and `None` once the stream has ended. The
    /// end is sticky: every later call keeps returning `None`, and the
    /// column names never change.
    pub fn next(&mut self) -> (r: Option<Result<Row, Error>>)
        ensures
            final(self).column_names() == old(self).column_names(),
            r == stream_output(old(self).remaining(), 0),
            final(self).remaining() == stream_rest(old(self).remaining()),
            old(self).remaining().len() == 0 ==> r is None && final(self).remaining()
                == old(self).remaining(),
            old(self).remaining().len() > 0 ==> r == Some(old(self).remaining()[0])
                && final(self).remaining() == old(self).remaining().skip(1),
            old(self).well_formed() ==> final(self).well_formed(),
    {
        let r = self.pending.pop();
        proof {
            if old(self).remaining().len() > 0 {
                assert(self.remaining() =~= old(self).remaining().skip(1));
            } else {
                assert(self.remaining() =~= old(self).remaining());
            }
            if old(self).well_formed() {
                assert forall|i: int| 0 <= i < self.remaining().len() implies match #[trigger] self.remaining()[i] {
                    Ok(row) => row.values@.len() == self.column_names().len(),
                    Err(e) => (e is ExecutionFailed || e is RowDecodeFailed) && i
                        == self.remaining().len() - 1,
                } by {
                    if old(self).remaining().len() > 0 {
                        assert(self.remaining()[i] == old(self).remaining()[i + 1]);
                    }
                }
            }
        }
        r
    }
}

/// What is left of a stream with items `s` after one delivery.
pub open spec fn stream_rest<T>(s: Seq<T>) -> Seq<T> {
    if s.len() > 0 {
        s.skip(1)
    } else {
        s
    }
}

/// What is left of a stream with items `s` after `k` deliveries.
pub open spec fn stream_after<T>(s: Seq<T>, k: nat) -> Seq<T>
    decreases k,
{
    if k == 0 {
        s
    } else {
        stream_rest(stream_after(s, (k - 1) as nat))
    }
}

/// What the `k`-th delivery (counting from zero) of a stream with items `s`
/// returns.
pub open spec fn stream_output<T>(s: Seq<T>, k: nat) -> Option<T> {
    let left = stream_after(s, k);
    if left.len() > 0 {
        Some(left[0])
    } else {
        None
    }
}

/// Law: a stream of `s` delivers exactly `s`, in order, then end-of-stream
/// forever. After `k` deliveries exactly the `k`-th suffix of `s` is left,
/// the `k`-th delivery returns the `k`-th item while one remains, and every
/// delivery from the end of `s` on returns `None`.
pub proof fn lemma_stream_in_order<T>(s: Seq<T>, k: nat)
    ensures
        stream_after(s, k) == if k <= s.len() {
            s.skip(k as int)
        } else {
            Seq::<T>::empty()
        },
        stream_output(s, k) == if k < s.len() {
            Some(s[k as int])
        } else {
            None::<T>
        },
    decreases k,
{
    if k == 0 {
        assert(s.skip(0) =~= s);
    } else {
        lemma_stream_in_order(s, (k - 1) as nat);
        if k <= s.len() {
            assert(s.skip(k - 1).skip(1) =~= s.skip(k as int));
        } else if (k - 1) as nat <= s.len() {
            assert(s.skip(s.len() as int) =~= Seq::<T>::empty());
        }
    }
}

/// Collapses a result stream to at most one row: `None` when the stream is
/// empty, the row when exactly one item remains and it is a row, the
/// stream's own error when its first item is one, and `MultipleRowsReturned`
/// when anything follows a first row.
pub fn single_row(rows: Rows) -> (r: Result<Option<Row>, Error>)
    ensures
        rows.remaining().len() == 0 ==> r == Ok::<Option<Row>, Error>(None),
        rows.remaining().len() > 0 ==> (rows.remaining()[0] matches Err(e) ==> r == Err::<
            Option<Row>,
            Error,
        >(e)),
        rows.remaining().len() == 1 ==> (rows.remaining()[0] matches Ok(row) ==> r == Ok::<
            Option<Row>,
            Error,
        >(Some(row))),
        rows.remaining().len() > 1 && rows.remaining()[0] is Ok ==> r == Err::<
            Option<Row>,
            Error,
        >(Error::MultipleRowsReturned),
{
    let mut s = rows;
    match s.next() {
        None => Ok(None),
        Some(Err(e)) => Err(e),
        Some(Ok(row)) => {
            match s.next() {
                None => Ok(Some(row)),
                Some(_) => Err(Error::MultipleRowsReturned),
            }
        },
    }
}

} // verus!
