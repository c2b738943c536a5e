//! A verified SQLite access layer: a synchronous core that owns the driver
//! calls, typed values and rows, a streaming cursor with sticky end-of-stream,
//! transactions with explicit resolution, and the actor-protocol decision
//! logic that an asynchronous bridge runs against it.
//!
//! Queries run two ways. A prepared statement's cursor steps the driver
//! exactly once per delivered row, so a loop that forwards each row over a
//! bounded channel keeps at most one row in flight and stops producing the
//! moment its consumer is gone. The `query` methods are the synchronous
//! convenience over the same cursor: they collect the whole result and hand
//! it out as an already-fetched stream.

mod connection;
mod cursor;
mod driver;
mod error;
mod protocol;
mod rows;
mod status;
mod transaction;
mod value;

pub use connection::Connection;
pub use connection::ConnectionTask;
pub use cursor::Cursor;
pub use cursor::Prepared;
pub use cursor::is_row_item;
pub use driver::RealValue;
pub use error::Error;
pub use protocol::ConnDecision;
pub use protocol::ConnOp;
pub use protocol::ConnState;
pub use protocol::TxnOp;
pub use protocol::TxnState;
pub use protocol::conn_step;
pub use protocol::conn_step_spec;
pub use protocol::conn_txn_resolved;
pub use protocol::drop_resolution;
pub use protocol::lemma_delegated_serves_nothing;
pub use protocol::lemma_drop_is_rollback;
pub use protocol::lemma_failed_statement_keeps_active;
pub use protocol::lemma_resolution_is_terminal;
pub use protocol::lemma_stopped_rejects;
pub use protocol::txn_resolves;
pub use protocol::txn_resolves_spec;
pub use protocol::txn_step;
pub use protocol::txn_step_spec;
pub use rows::Rows;
pub use rows::lemma_stream_in_order;
pub use rows::single_row;
pub use rows::stream_after;
pub use rows::stream_output;
pub use rows::stream_rest;
pub use status::Status;
pub use transaction::Transaction;
pub use value::Row;
pub use value::Value;
