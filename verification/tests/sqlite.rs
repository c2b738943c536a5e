use tokio_sqlite::{Connection, Value};

#[test]
fn test_sqlite() {
    let mut conn = Connection::open(":memory:").unwrap();
    conn.execute(
        r#"CREATE TABLE test_tbl (a INTEGER PRIMARY KEY, b TEXT NOT NULL)"#,
        &Vec::new(),
    )
    .unwrap();
    conn.execute(
        r#"INSERT INTO test_tbl (b) VALUES ($1), ($2)"#,
        &vec!["test1".to_owned().into(), "test2".to_owned().into()],
    )
    .unwrap();
    let mut rows = conn
        .query("SELECT a, b FROM test_tbl ORDER BY a", &Vec::new())
        .unwrap();
    assert!(rows.columns() == &vec!["a".to_owned(), "b".to_owned()]);
    assert!(
        rows.next().unwrap().unwrap().values()
            == &vec![Value::Integer(1), Value::Text("test1".to_owned())]
    );
    assert!(
        rows.next().unwrap().unwrap().values()
            == &vec![Value::Integer(2), Value::Text("test2".to_owned())]
    );
    assert!(rows.next().is_none());
    drop(rows);
    // Check commit.
    let mut tx = conn.transaction().unwrap();
    tx.execute(r#"INSERT INTO test_tbl (b) VALUES ("test3")"#, &Vec::new())
        .unwrap();
    tx.commit().unwrap();
    let mut rows = conn
        .query("SELECT COUNT(*) FROM test_tbl", &Vec::new())
        .unwrap();
    assert!(rows.next().unwrap().unwrap().values() == &vec![Value::Integer(3)]);
    drop(rows);
    // Check rollback.
    let mut tx = conn.transaction().unwrap();
    tx.execute(r#"INSERT INTO test_tbl (b) VALUES ("test3")"#, &Vec::new())
        .unwrap();
    tx.rollback().unwrap();
    let mut rows = conn
        .query("SELECT COUNT(*) FROM test_tbl", &Vec::new())
        .unwrap();
    assert!(rows.next().unwrap().unwrap().values() == &vec![Value::Integer(3)]);
    drop(rows);
    // Check drop.
    let mut tx = conn.transaction().unwrap();
    tx.execute(r#"INSERT INTO test_tbl (b) VALUES ("test3")"#, &Vec::new())
        .unwrap();
    drop(tx);
    let mut rows = conn
        .query("SELECT COUNT(*) FROM test_tbl", &Vec::new())
        .unwrap();
    assert!(rows.next().unwrap().unwrap().values() == &vec![Value::Integer(3)]);
    drop(rows);
    // Check uncommited.
    let mut tx = conn.transaction().unwrap();
    tx.execute(
        r#"INSERT INTO test_tbl (b) VALUES ($1)"#,
        &vec!["test3".to_owned().into()],
    )
    .unwrap();
    let mut rows = tx
        .query("SELECT COUNT(*) FROM test_tbl", &Vec::new())
        .unwrap();
    assert!(rows.next().unwrap().unwrap().values() == &vec![Value::Integer(4)]);
    drop(rows);
    drop(tx);
    // Check empty result.
    let mut rows = conn
        .query("SELECT * FROM test_tbl WHERE a = -1", &Vec::new())
        .unwrap();
    assert!(rows.next().is_none());
    drop(rows);
    // Check query_row.
    let row = conn
        .query_row("SELECT * FROM test_tbl WHERE a = 1", &Vec::new())
        .unwrap();
    assert!(row.is_some());
}
