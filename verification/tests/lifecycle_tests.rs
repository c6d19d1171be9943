//! Tests of the registries' lifecycles: alias load and overwrite,
//! close semantics, transaction isolation and single-use handles, and
//! the alias grammar.

use sqlite_gateway::commands;
use sqlite_gateway::registry::ConnectionManager;
use sqlite_gateway::transactions::TransactionManager;
use sqlite_gateway::value::DynamicValue;
use sqlite_gateway::Error;

#[test]
fn load_then_lookup_and_overwrite() {
    let mut cm = ConnectionManager::new();
    let alias = "sqlite:app.sqlite".to_string();
    let dir_a = tempfile::tempdir().unwrap();
    let dir_b = tempfile::tempdir().unwrap();
    let base_a = dir_a.path().to_str().unwrap();
    let base_b = dir_b.path().to_str().unwrap();

    commands::load(&mut cm, base_a, alias.clone()).expect("first load failed");
    let loc_a = cm.resolve(alias.as_str()).expect("alias should resolve");
    assert_eq!(loc_a, format!("{}/app.sqlite", base_a));

    // Loading the same alias again overwrites the location without
    // erroring.
    commands::load(&mut cm, base_b, alias.clone()).expect("second load failed");
    let loc_b = cm.resolve(alias.as_str()).expect("alias should still resolve");
    assert_eq!(loc_b, format!("{}/app.sqlite", base_b));
}

#[test]
fn close_on_unloaded_alias_fails() {
    let mut cm = ConnectionManager::new();
    let r = commands::close(&mut cm, Some("sqlite:ghost.db".to_string()));
    match r {
        Err(Error::DatabaseNotLoaded(a)) => assert_eq!(a, "sqlite:ghost.db"),
        other => panic!("Expected DatabaseNotLoaded, got {:?}", other),
    }
}

#[test]
fn close_all_on_empty_registry_succeeds() {
    let mut cm = ConnectionManager::new();
    assert!(cm.is_empty());
    let r = commands::close(&mut cm, None);
    assert!(matches!(r, Ok(true)));
    assert!(cm.is_empty());
}

#[test]
fn invalid_alias_grammar() {
    let mut cm = ConnectionManager::new();
    match commands::load(&mut cm, "/tmp", "no-separator".to_string()) {
        Err(Error::InvalidDatabaseUrl(s)) => assert_eq!(s, "no-separator"),
        other => panic!("Expected InvalidDatabaseUrl, got {:?}", other),
    }
    match commands::load(&mut cm, "/tmp", "mysql:somewhere".to_string()) {
        Err(Error::UnsupportedDatabaseType(s)) => assert_eq!(s, "mysql"),
        other => panic!("Expected UnsupportedDatabaseType, got {:?}", other),
    }
    assert!(cm.is_empty());
}

#[test]
fn get_conn_url_resolves_locations() {
    let dir = tempfile::tempdir().unwrap();
    let base = dir.path().to_str().unwrap();

    let mem = commands::get_conn_url(base, "sqlite::memory:").expect("memory url failed");
    assert_eq!(mem, ":memory:");

    let file = commands::get_conn_url(base, "sqlite:box.sqlite").expect("file url failed");
    assert_eq!(file, format!("{}/box.sqlite", base));

    // A base directory already ending in a separator gains no second
    // one.
    let slashed = format!("{}/", base);
    let joined = commands::get_conn_url(slashed.as_str(), "sqlite:box.sqlite")
        .expect("slashed base url failed");
    assert_eq!(joined, format!("{}/box.sqlite", base));

    // An absolute path part stands alone, whatever the base.
    let abs_alias = format!("sqlite:{}/abs.sqlite", base);
    let abs = commands::get_conn_url("/nowhere", abs_alias.as_str()).expect("absolute url failed");
    assert_eq!(abs, format!("{}/abs.sqlite", base));

    match commands::get_conn_url(base, "sqlite") {
        Err(Error::InvalidDatabaseUrl(s)) => assert_eq!(s, "sqlite"),
        other => panic!("Expected InvalidDatabaseUrl, got {:?}", other),
    }
}

#[test]
fn probe_failure_reports_connection_failed() {
    let mut cm = ConnectionManager::new();
    let dir = tempfile::tempdir().unwrap();
    let base = dir.path().to_str().unwrap();
    // The parent directory of the resolved path does not exist, so the
    // probe connection cannot be opened and nothing is registered.
    let alias = "sqlite:missing_dir/x.sqlite".to_string();
    match commands::load(&mut cm, base, alias.clone()) {
        Err(Error::ConnectionFailed(loc, _)) => {
            assert_eq!(loc, format!("{}/missing_dir/x.sqlite", base))
        }
        other => panic!("Expected ConnectionFailed, got {:?}", other),
    }
    assert!(!cm.contains(alias.as_str()));
}

#[test]
fn transaction_id_parse_errors() {
    let mut tm = TransactionManager::new();
    match commands::commit_transaction(&mut tm, "not-a-uuid".to_string()) {
        Err(Error::InvalidUuid(s)) => assert_eq!(s, "not-a-uuid"),
        other => panic!("Expected InvalidUuid, got {:?}", other),
    }
    match commands::rollback_transaction(&mut tm, "".to_string()) {
        Err(Error::InvalidUuid(s)) => assert_eq!(s, ""),
        other => panic!("Expected InvalidUuid, got {:?}", other),
    }
    // A well-formed identifier that was never issued.
    let ghost_id = "123e4567-e89b-42d3-a456-426614174000".to_string();
    match commands::commit_transaction(&mut tm, ghost_id.clone()) {
        Err(Error::TransactionNotFound(s)) => assert_eq!(s, ghost_id),
        other => panic!("Expected TransactionNotFound, got {:?}", other),
    }
}

#[test]
fn finish_is_single_use() {
    let mut cm = ConnectionManager::new();
    let mut tm = TransactionManager::new();
    let alias = "sqlite::memory:".to_string();
    commands::load(&mut cm, "/tmp", alias.clone()).expect("load failed");

    let tx1 = commands::begin_transaction(&cm, &mut tm, alias.clone()).expect("begin failed");
    commands::commit_transaction(&mut tm, tx1.clone()).expect("commit failed");
    match commands::commit_transaction(&mut tm, tx1.clone()) {
        Err(Error::TransactionNotFound(s)) => assert_eq!(s, tx1),
        other => panic!("Expected TransactionNotFound, got {:?}", other),
    }
    match commands::rollback_transaction(&mut tm, tx1.clone()) {
        Err(Error::TransactionNotFound(s)) => assert_eq!(s, tx1),
        other => panic!("Expected TransactionNotFound, got {:?}", other),
    }

    let tx2 = commands::begin_transaction(&cm, &mut tm, alias.clone()).expect("begin failed");
    commands::rollback_transaction(&mut tm, tx2.clone()).expect("rollback failed");
    match commands::rollback_transaction(&mut tm, tx2.clone()) {
        Err(Error::TransactionNotFound(s)) => assert_eq!(s, tx2),
        other => panic!("Expected TransactionNotFound, got {:?}", other),
    }
}

#[test]
fn closing_alias_leaves_transaction_running() {
    let mut cm = ConnectionManager::new();
    let mut tm = TransactionManager::new();
    let dir = tempfile::tempdir().unwrap();
    let base = dir.path().to_str().unwrap();
    let alias = "sqlite:survivor.sqlite".to_string();
    commands::load(&mut cm, base, alias.clone()).expect("load failed");

    let tx = commands::begin_transaction(&cm, &mut tm, alias.clone()).expect("begin failed");
    commands::execute(
        &cm,
        &tm,
        alias.clone(),
        "CREATE TABLE s (v TEXT)".to_string(),
        vec![],
        Some(tx.clone()),
    )
    .expect("create failed");

    // Closing the alias does not touch the in-flight transaction.
    commands::close(&mut cm, Some(alias.clone())).expect("close failed");
    commands::execute(
        &cm,
        &tm,
        alias.clone(),
        "INSERT INTO s (v) VALUES (?)".to_string(),
        vec![DynamicValue::Text("alive".to_string())],
        Some(tx.clone()),
    )
    .expect("insert after close failed");
    commands::commit_transaction(&mut tm, tx).expect("commit failed");
}

#[test]
fn transaction_isolation_scenario() {
    // begin, create, insert, read inside and outside, commit, read
    // again: uncommitted work is invisible outside the transaction and
    // becomes visible after commit.
    let mut cm = ConnectionManager::new();
    let mut tm = TransactionManager::new();
    let dir = tempfile::tempdir().unwrap();
    let base = dir.path().to_str().unwrap();
    let alias = format!("sqlite:{}", dir.path().join("iso.sqlite").display());
    commands::load(&mut cm, base, alias.clone()).expect("load failed");

    let tx = commands::begin_transaction(&cm, &mut tm, alias.clone()).expect("begin failed");
    commands::execute(
        &cm,
        &tm,
        alias.clone(),
        "CREATE TABLE t(id INTEGER PRIMARY KEY, v TEXT)".to_string(),
        vec![],
        Some(tx.clone()),
    )
    .expect("create failed");
    let (affected, _) = commands::execute(
        &cm,
        &tm,
        alias.clone(),
        "INSERT INTO t(v) VALUES (?)".to_string(),
        vec![DynamicValue::Text("x".to_string())],
        Some(tx.clone()),
    )
    .expect("insert failed");
    assert_eq!(affected, 1);

    let inside = commands::select(
        &cm,
        &tm,
        alias.clone(),
        "SELECT v FROM t WHERE id=1".to_string(),
        vec![],
        Some(tx.clone()),
    )
    .expect("select inside failed");
    assert_eq!(
        inside,
        vec![vec![("v".to_string(), DynamicValue::Text("x".to_string()))]]
    );

    // Outside the transaction the table itself is uncommitted, so the
    // read reports the engine's own error rather than rows.
    let outside = commands::select(
        &cm,
        &tm,
        alias.clone(),
        "SELECT v FROM t WHERE id=1".to_string(),
        vec![],
        None,
    );
    assert!(
        matches!(outside, Err(Error::Rusqlite(_))),
        "uncommitted table should be invisible outside the transaction"
    );

    commands::commit_transaction(&mut tm, tx).expect("commit failed");

    let after = commands::select(
        &cm,
        &tm,
        alias.clone(),
        "SELECT v FROM t WHERE id=1".to_string(),
        vec![],
        None,
    )
    .expect("select after commit failed");
    assert_eq!(
        after,
        vec![vec![("v".to_string(), DynamicValue::Text("x".to_string()))]]
    );
}

#[test]
fn uncommitted_rows_invisible_until_commit() {
    // The same visibility scenario against a committed schema, so the
    // outside read succeeds with no rows before the commit and with
    // the row after it.
    let mut cm = ConnectionManager::new();
    let mut tm = TransactionManager::new();
    let dir = tempfile::tempdir().unwrap();
    let base = dir.path().to_str().unwrap();
    let alias = "sqlite:vis.sqlite".to_string();
    commands::load(&mut cm, base, alias.clone()).expect("load failed");

    let setup = commands::begin_transaction(&cm, &mut tm, alias.clone()).expect("begin failed");
    commands::execute(
        &cm,
        &tm,
        alias.clone(),
        "CREATE TABLE t(id INTEGER PRIMARY KEY, v TEXT)".to_string(),
        vec![],
        Some(setup.clone()),
    )
    .expect("create failed");
    commands::commit_transaction(&mut tm, setup).expect("setup commit failed");

    let tx = commands::begin_transaction(&cm, &mut tm, alias.clone()).expect("begin failed");
    commands::execute(
        &cm,
        &tm,
        alias.clone(),
        "INSERT INTO t(v) VALUES (?)".to_string(),
        vec![DynamicValue::Text("x".to_string())],
        Some(tx.clone()),
    )
    .expect("insert failed");

    let before = commands::select(
        &cm,
        &tm,
        alias.clone(),
        "SELECT v FROM t WHERE id=1".to_string(),
        vec![],
        None,
    )
    .expect("select before commit failed");
    assert!(before.is_empty(), "uncommitted row must be invisible outside");

    commands::commit_transaction(&mut tm, tx).expect("commit failed");

    let after = commands::select(
        &cm,
        &tm,
        alias.clone(),
        "SELECT v FROM t WHERE id=1".to_string(),
        vec![],
        None,
    )
    .expect("select after commit failed");
    assert_eq!(
        after,
        vec![vec![("v".to_string(), DynamicValue::Text("x".to_string()))]]
    );
}

#[test]
fn constraint_error_leaves_transaction_open() {
    // A duplicate primary key inside a transaction fails with an
    // engine constraint error while the transaction stays usable, and
    // rollback then removes every effect.
    let mut cm = ConnectionManager::new();
    let mut tm = TransactionManager::new();
    let dir = tempfile::tempdir().unwrap();
    let base = dir.path().to_str().unwrap();
    let alias = "sqlite:dup.sqlite".to_string();
    commands::load(&mut cm, base, alias.clone()).expect("load failed");

    let setup = commands::begin_transaction(&cm, &mut tm, alias.clone()).expect("begin failed");
    commands::execute(
        &cm,
        &tm,
        alias.clone(),
        "CREATE TABLE d(id INTEGER PRIMARY KEY, v TEXT)".to_string(),
        vec![],
        Some(setup.clone()),
    )
    .expect("create failed");
    commands::commit_transaction(&mut tm, setup).expect("setup commit failed");

    let tx = commands::begin_transaction(&cm, &mut tm, alias.clone()).expect("begin failed");
    commands::execute(
        &cm,
        &tm,
        alias.clone(),
        "INSERT INTO d(id, v) VALUES (?, ?)".to_string(),
        vec![DynamicValue::Int(7), DynamicValue::Text("first".to_string())],
        Some(tx.clone()),
    )
    .expect("first insert failed");

    let dup = commands::execute(
        &cm,
        &tm,
        alias.clone(),
        "INSERT INTO d(id, v) VALUES (?, ?)".to_string(),
        vec![DynamicValue::Int(7), DynamicValue::Text("second".to_string())],
        Some(tx.clone()),
    );
    match dup {
        Err(Error::Rusqlite(rusqlite::Error::SqliteFailure(f, _))) => {
            assert_eq!(f.code, rusqlite::ErrorCode::ConstraintViolation)
        }
        other => panic!("Expected a constraint violation, got {:?}", other),
    }

    // The transaction is still open: the prior row is still visible
    // inside it.
    let inside = commands::select(
        &cm,
        &tm,
        alias.clone(),
        "SELECT v FROM d WHERE id=?".to_string(),
        vec![DynamicValue::Int(7)],
        Some(tx.clone()),
    )
    .expect("select inside failed");
    assert_eq!(
        inside,
        vec![vec![("v".to_string(), DynamicValue::Text("first".to_string()))]]
    );

    commands::rollback_transaction(&mut tm, tx).expect("rollback failed");

    let after = commands::select(
        &cm,
        &tm,
        alias.clone(),
        "SELECT v FROM d WHERE id=?".to_string(),
        vec![DynamicValue::Int(7)],
        None,
    )
    .expect("select after rollback failed");
    assert!(after.is_empty(), "rollback must remove all effects");
}

#[test]
fn serialized_increments_accumulate() {
    // Two writers incrementing a shared counter through the same
    // transaction handle: the final value is the sum of increments.
    let mut cm = ConnectionManager::new();
    let mut tm = TransactionManager::new();
    let alias = "sqlite::memory:".to_string();
    commands::load(&mut cm, "/tmp", alias.clone()).expect("load failed");

    let tx = commands::begin_transaction(&cm, &mut tm, alias.clone()).expect("begin failed");
    commands::execute(
        &cm,
        &tm,
        alias.clone(),
        "CREATE TABLE c(n INTEGER)".to_string(),
        vec![],
        Some(tx.clone()),
    )
    .expect("create failed");
    commands::execute(
        &cm,
        &tm,
        alias.clone(),
        "INSERT INTO c(n) VALUES (0)".to_string(),
        vec![],
        Some(tx.clone()),
    )
    .expect("seed failed");

    for _ in 0..2 {
        for _ in 0..50 {
            commands::execute(
                &cm,
                &tm,
                alias.clone(),
                "UPDATE c SET n = n + 1".to_string(),
                vec![],
                Some(tx.clone()),
            )
            .expect("increment failed");
        }
    }

    let rows = commands::select(
        &cm,
        &tm,
        alias.clone(),
        "SELECT n FROM c".to_string(),
        vec![],
        Some(tx.clone()),
    )
    .expect("select failed");
    assert_eq!(rows, vec![vec![("n".to_string(), DynamicValue::Int(100))]]);
    commands::commit_transaction(&mut tm, tx).expect("commit failed");
}
