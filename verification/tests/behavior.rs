use tokio_sqlite::{
    conn_step, conn_txn_resolved, drop_resolution, txn_resolves, txn_step, ConnDecision, ConnOp,
    ConnState, Connection, Error, RealValue, Status, TxnOp, TxnState, Value,
};

fn open_memory() -> Connection {
    Connection::open(":memory:").unwrap()
}

// Round trip: each value variant written as a bind parameter reads back equal
// from a matching column.
#[test]
fn round_trip_values() {
    let mut conn = open_memory();
    conn.execute("CREATE TABLE rt (v)", &Vec::new()).unwrap();
    let real = Value::Real(RealValue {
        inner: rusqlite::types::Value::Real(2.5),
    });
    let cases = vec![
        Value::Null,
        Value::Integer(-42),
        real,
        Value::Text("some text".to_owned()),
        Value::Blob(vec![0, 1, 2, 255]),
    ];
    for case in cases {
        conn.execute("DELETE FROM rt", &Vec::new()).unwrap();
        conn.execute("INSERT INTO rt (v) VALUES ($1)", &vec![case.clone()])
            .unwrap();
        let row = conn
            .query_row("SELECT v FROM rt", &Vec::new())
            .unwrap()
            .unwrap();
        assert!(row.values() == &vec![case]);
    }
}

// For N inserted rows, an ordered query yields exactly N rows in order, then
// end-of-stream, and end-of-stream stays sticky over further calls.
#[test]
fn ordered_rows_then_sticky_end() {
    let mut conn = open_memory();
    conn.execute(
        "CREATE TABLE t (a INTEGER PRIMARY KEY, b TEXT NOT NULL)",
        &Vec::new(),
    )
    .unwrap();
    for name in ["one", "two", "three"] {
        conn.execute(
            "INSERT INTO t (b) VALUES ($1)",
            &vec![Value::Text(name.to_owned())],
        )
        .unwrap();
    }
    let mut rows = conn
        .query("SELECT a, b FROM t ORDER BY a", &Vec::new())
        .unwrap();
    let expected = vec![
        vec![Value::Integer(1), Value::Text("one".to_owned())],
        vec![Value::Integer(2), Value::Text("two".to_owned())],
        vec![Value::Integer(3), Value::Text("three".to_owned())],
    ];
    for want in &expected {
        let row = rows.next().unwrap().unwrap();
        assert!(row.values() == want);
    }
    assert!(rows.next().is_none());
    assert!(rows.next().is_none());
    assert!(rows.next().is_none());
    // The column names stay available after the end of the stream.
    assert!(rows.columns() == &vec!["a".to_owned(), "b".to_owned()]);
}

// commit() makes writes visible to later queries on the connection;
// rollback() makes them invisible.
#[test]
fn commit_visible_rollback_invisible() {
    let mut conn = open_memory();
    conn.execute("CREATE TABLE t (b TEXT)", &Vec::new()).unwrap();
    let mut tx = conn.transaction().unwrap();
    tx.execute(
        "INSERT INTO t (b) VALUES ($1)",
        &vec![Value::Text("kept".to_owned())],
    )
    .unwrap();
    tx.commit().unwrap();
    let row = conn
        .query_row("SELECT COUNT(*) FROM t", &Vec::new())
        .unwrap()
        .unwrap();
    assert!(row.values() == &vec![Value::Integer(1)]);

    let mut tx = conn.transaction().unwrap();
    tx.execute(
        "INSERT INTO t (b) VALUES ($1)",
        &vec![Value::Text("discarded".to_owned())],
    )
    .unwrap();
    tx.rollback().unwrap();
    let row = conn
        .query_row("SELECT COUNT(*) FROM t", &Vec::new())
        .unwrap()
        .unwrap();
    assert!(row.values() == &vec![Value::Integer(1)]);
}

// Dropping a transaction unresolved behaves exactly like an explicit
// rollback, observed through a follow-up query.
#[test]
fn drop_behaves_like_rollback() {
    let mut conn = open_memory();
    conn.execute("CREATE TABLE t (b TEXT)", &Vec::new()).unwrap();

    let mut tx = conn.transaction().unwrap();
    tx.execute(
        "INSERT INTO t (b) VALUES ($1)",
        &vec![Value::Text("a".to_owned())],
    )
    .unwrap();
    tx.rollback().unwrap();
    let after_rollback = conn
        .query_row("SELECT COUNT(*) FROM t", &Vec::new())
        .unwrap()
        .unwrap();

    let mut tx = conn.transaction().unwrap();
    tx.execute(
        "INSERT INTO t (b) VALUES ($1)",
        &vec![Value::Text("b".to_owned())],
    )
    .unwrap();
    drop(tx);
    let after_drop = conn
        .query_row("SELECT COUNT(*) FROM t", &Vec::new())
        .unwrap()
        .unwrap();

    assert!(after_rollback == after_drop);
    assert!(after_drop.values() == &vec![Value::Integer(0)]);
}

// While a transaction is open, its pending writes are visible to queries
// through the transaction and stay intact until it resolves; the parent
// connection cannot run anything of its own in that window (the protocol
// defers its commands), so nothing interleaves.
#[test]
fn open_transaction_owns_the_connection() {
    let mut conn = open_memory();
    conn.execute("CREATE TABLE t (b TEXT)", &Vec::new()).unwrap();
    let mut tx = conn.transaction().unwrap();
    tx.execute(
        "INSERT INTO t (b) VALUES ($1)",
        &vec![Value::Text("pending".to_owned())],
    )
    .unwrap();
    let inside = tx
        .query_row("SELECT COUNT(*) FROM t", &Vec::new())
        .unwrap()
        .unwrap();
    assert!(inside.values() == &vec![Value::Integer(1)]);
    // Every command the parent would serve in this window is deferred.
    for op in [ConnOp::Execute, ConnOp::Query, ConnOp::Transaction, ConnOp::Shutdown] {
        let (decision, next) = conn_step(ConnState::Delegated, op);
        assert!(decision == ConnDecision::Defer);
        assert!(next == ConnState::Delegated);
    }
    assert!(conn_txn_resolved(ConnState::Delegated) == ConnState::Ready);
    tx.commit().unwrap();
    let after = conn
        .query_row("SELECT COUNT(*) FROM t", &Vec::new())
        .unwrap()
        .unwrap();
    assert!(after.values() == &vec![Value::Integer(1)]);
}

// query_row: zero matches give None, one match gives the row, several
// matches give MultipleRowsReturned.
#[test]
fn query_row_multiplicities() {
    let mut conn = open_memory();
    conn.execute(
        "CREATE TABLE t (a INTEGER PRIMARY KEY, b TEXT NOT NULL)",
        &Vec::new(),
    )
    .unwrap();
    conn.execute(
        "INSERT INTO t (b) VALUES ($1), ($2)",
        &vec![
            Value::Text("x".to_owned()),
            Value::Text("y".to_owned()),
        ],
    )
    .unwrap();
    let none = conn
        .query_row("SELECT * FROM t WHERE a = 17", &Vec::new())
        .unwrap();
    assert!(none.is_none());
    let one = conn
        .query_row("SELECT b FROM t WHERE a = 2", &Vec::new())
        .unwrap()
        .unwrap();
    assert!(one.values() == &vec![Value::Text("y".to_owned())]);
    let many = conn.query_row("SELECT * FROM t", &Vec::new());
    assert!(many == Err(Error::MultipleRowsReturned));
}

// The scenario: integer-primary-key table, two inserted texts, an ordered
// select yields (1, 'x') and (2, 'y') and then end-of-stream, under the
// column names a and b.
#[test]
fn two_inserts_scenario() {
    let mut conn = open_memory();
    conn.execute(
        "CREATE TABLE t(a INTEGER PRIMARY KEY, b TEXT NOT NULL)",
        &Vec::new(),
    )
    .unwrap();
    let st = conn
        .execute(
            "INSERT INTO t (b) VALUES ($1)",
            &vec![Value::Text("x".to_owned())],
        )
        .unwrap();
    assert!(st.rows_affected() == 1);
    assert!(st.last_insert_id() == Some(1));
    let st = conn
        .execute(
            "INSERT INTO t (b) VALUES ($1)",
            &vec![Value::Text("y".to_owned())],
        )
        .unwrap();
    assert!(st.rows_affected() == 1);
    assert!(st.last_insert_id() == Some(2));
    let mut rows = conn
        .query("SELECT a,b FROM t ORDER BY a", &Vec::new())
        .unwrap();
    assert!(rows.columns() == &vec!["a".to_owned(), "b".to_owned()]);
    assert!(
        rows.next().unwrap().unwrap().values()
            == &vec![Value::Integer(1), Value::Text("x".to_owned())]
    );
    assert!(
        rows.next().unwrap().unwrap().values()
            == &vec![Value::Integer(2), Value::Text("y".to_owned())]
    );
    assert!(rows.next().is_none());
}

// Each reachable error kind, from an input that causes it.
#[test]
fn error_kinds() {
    // A directory that does not exist cannot hold a database file.
    let opened = Connection::open("/nonexistent-dir/no-such-place/db.sqlite3");
    assert!(matches!(opened, Err(Error::OpenFailed(_))));

    let mut conn = open_memory();
    // A statement that does not parse fails to prepare.
    let bad_query = conn.query("SELECT FROM WHERE", &Vec::new());
    assert!(matches!(bad_query, Err(Error::PrepareFailed(_))));
    // A statement that breaks a constraint fails to execute.
    conn.execute("CREATE TABLE t (b TEXT NOT NULL)", &Vec::new())
        .unwrap();
    let bad_insert = conn.execute("INSERT INTO t (b) VALUES (NULL)", &Vec::new());
    assert!(matches!(bad_insert, Err(Error::ExecutionFailed(_))));
    // A query started with the wrong number of bind parameters fails when
    // the driver binds them.
    let bad_bind = conn.query(
        "SELECT * FROM t WHERE b = $1 OR b = $2",
        &vec![Value::Text("only one".to_owned())],
    );
    assert!(matches!(bad_bind, Err(Error::ExecutionFailed(_))));
    // The connection stays usable after every failure above.
    conn.execute(
        "INSERT INTO t (b) VALUES ($1)",
        &vec![Value::Text("still works".to_owned())],
    )
    .unwrap();
}

// A failed statement inside a transaction leaves the transaction active: its
// earlier writes survive and a commit still lands them.
#[test]
fn failed_statement_leaves_transaction_active() {
    let mut conn = open_memory();
    conn.execute("CREATE TABLE t (b TEXT NOT NULL)", &Vec::new())
        .unwrap();
    let mut tx = conn.transaction().unwrap();
    tx.execute(
        "INSERT INTO t (b) VALUES ($1)",
        &vec![Value::Text("kept".to_owned())],
    )
    .unwrap();
    let failed = tx.execute("INSERT INTO t (b) VALUES (NULL)", &Vec::new());
    assert!(matches!(failed, Err(Error::ExecutionFailed(_))));
    tx.commit().unwrap();
    let row = conn
        .query_row("SELECT COUNT(*) FROM t", &Vec::new())
        .unwrap()
        .unwrap();
    assert!(row.values() == &vec![Value::Integer(1)]);
}

// The transaction protocol: which commands resolve the loop, which states
// follow, and what an unresolved drop issues.
#[test]
fn transaction_protocol_decisions() {
    assert!(!txn_resolves(TxnOp::Execute));
    assert!(!txn_resolves(TxnOp::Query));
    assert!(txn_resolves(TxnOp::Commit));
    assert!(txn_resolves(TxnOp::Rollback));
    assert!(txn_step(TxnOp::Execute, false) == TxnState::Active);
    assert!(txn_step(TxnOp::Query, false) == TxnState::Active);
    assert!(txn_step(TxnOp::Commit, true) == TxnState::Committed);
    assert!(txn_step(TxnOp::Commit, false) == TxnState::RolledBack);
    assert!(txn_step(TxnOp::Rollback, true) == TxnState::RolledBack);
    assert!(drop_resolution(true).is_none());
    assert!(drop_resolution(false) == Some(TxnOp::Rollback));
}

// The connection protocol: a ready worker serves, a stopped one rejects.
#[test]
fn connection_protocol_decisions() {
    let (d, s) = conn_step(ConnState::Ready, ConnOp::Execute);
    assert!(d == ConnDecision::Serve && s == ConnState::Ready);
    let (d, s) = conn_step(ConnState::Ready, ConnOp::Transaction);
    assert!(d == ConnDecision::Serve && s == ConnState::Delegated);
    let (d, s) = conn_step(ConnState::Ready, ConnOp::Shutdown);
    assert!(d == ConnDecision::Serve && s == ConnState::Stopped);
    for op in [ConnOp::Execute, ConnOp::Query, ConnOp::Transaction, ConnOp::Shutdown] {
        let (d, s) = conn_step(ConnState::Stopped, op);
        assert!(d == ConnDecision::Reject && s == ConnState::Stopped);
    }
}

// The status of an executed statement carries the driver's counts exactly.
#[test]
fn status_reports_driver_counts() {
    let mut conn = open_memory();
    conn.execute("CREATE TABLE t (a INTEGER PRIMARY KEY, b TEXT)", &Vec::new())
        .unwrap();
    conn.execute(
        "INSERT INTO t (b) VALUES ($1), ($2), ($3)",
        &vec![
            Value::Text("p".to_owned()),
            Value::Text("q".to_owned()),
            Value::Text("r".to_owned()),
        ],
    )
    .unwrap();
    let st = conn
        .execute("UPDATE t SET b = $1", &vec![Value::Text("same".to_owned())])
        .unwrap();
    assert!(st.rows_affected() == 3);
    let st = Status::default();
    assert!(st.rows_affected() == 0);
    assert!(st.last_insert_id().is_none());
    let st = Status::new(7, Some(9));
    assert!(st.rows_affected() == 7);
    assert!(st.last_insert_id() == Some(9));
}

// A connection task records its path and opens a working connection.
#[test]
fn connection_task_opens() {
    let task = tokio_sqlite::ConnectionTask::new(":memory:".to_owned());
    assert!(task.path == ":memory:");
    let mut conn = task.run().unwrap();
    conn.execute("CREATE TABLE t (a INTEGER)", &Vec::new()).unwrap();
    let failing = tokio_sqlite::ConnectionTask::new("/nonexistent-dir/x/y.db".to_owned());
    assert!(matches!(failing.run(), Err(Error::OpenFailed(_))));
}

// A row hands its values out both borrowed and owned.
#[test]
fn row_accessors() {
    let mut conn = open_memory();
    conn.execute("CREATE TABLE t (a INTEGER)", &Vec::new()).unwrap();
    conn.execute("INSERT INTO t (a) VALUES (5)", &Vec::new())
        .unwrap();
    let row = conn
        .query_row("SELECT a FROM t", &Vec::new())
        .unwrap()
        .unwrap();
    assert!(row.values() == &vec![Value::Integer(5)]);
    assert!(row.into_values() == vec![Value::Integer(5)]);
}

// A prepared statement's cursor reports its columns before the first row,
// steps one row at a time in order, and keeps returning end-of-stream.
#[test]
fn cursor_steps_rows_one_at_a_time() {
    let mut conn = open_memory();
    conn.execute(
        "CREATE TABLE t (a INTEGER PRIMARY KEY, b TEXT NOT NULL)",
        &Vec::new(),
    )
    .unwrap();
    conn.execute(
        "INSERT INTO t (b) VALUES ($1), ($2)",
        &vec![
            Value::Text("x".to_owned()),
            Value::Text("y".to_owned()),
        ],
    )
    .unwrap();
    let mut prepared = conn.prepare("SELECT a, b FROM t ORDER BY a").unwrap();
    assert!(prepared.columns() == &vec!["a".to_owned(), "b".to_owned()]);
    let mut cursor = prepared.start(&Vec::new()).unwrap();
    assert!(
        cursor.next_row().unwrap().unwrap().values()
            == &vec![Value::Integer(1), Value::Text("x".to_owned())]
    );
    assert!(
        cursor.next_row().unwrap().unwrap().values()
            == &vec![Value::Integer(2), Value::Text("y".to_owned())]
    );
    assert!(cursor.next_row().is_none());
    assert!(cursor.next_row().is_none());
}

// A statement that does not parse fails at prepare; one started with the
// wrong number of bind parameters fails at start, as an execution failure.
#[test]
fn cursor_error_kinds() {
    let mut conn = open_memory();
    conn.execute("CREATE TABLE t (a INTEGER)", &Vec::new()).unwrap();
    assert!(matches!(
        conn.prepare("SELECT FROM WHERE"),
        Err(Error::PrepareFailed(_))
    ));
    let mut prepared = conn.prepare("SELECT * FROM t WHERE a = $1 OR a = $2").unwrap();
    let started = prepared.start(&vec![Value::Integer(1)]);
    assert!(matches!(started, Err(Error::ExecutionFailed(_))));
}

// A cursor opened inside a transaction sees the transaction's own pending
// writes.
#[test]
fn transaction_cursor_sees_pending_writes() {
    let mut conn = open_memory();
    conn.execute("CREATE TABLE t (b TEXT)", &Vec::new()).unwrap();
    let mut tx = conn.transaction().unwrap();
    tx.execute(
        "INSERT INTO t (b) VALUES ($1)",
        &vec![Value::Text("w".to_owned())],
    )
    .unwrap();
    let mut prepared = tx.prepare("SELECT b FROM t").unwrap();
    let mut cursor = prepared.start(&Vec::new()).unwrap();
    assert!(cursor.next_row().unwrap().unwrap().values() == &vec![Value::Text("w".to_owned())]);
    assert!(cursor.next_row().is_none());
    drop(cursor);
    drop(prepared);
    tx.rollback().unwrap();
}
