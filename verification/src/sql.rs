//! Trusted boundary to the embedded database engine and its helper
//! crates. Everything here is either a type declaration that lets
//! verified code carry an engine value through, or a small wrapper
//! whose contract Verus believes and whose body makes one outside
//! call.

use base64::Engine;
use rusqlite::Error as RusqliteError;
use rusqlite_migration::Error as MigrationError;
use vstd::prelude::*;

use crate::value::EngineValue;

verus! {

#[verifier::external_type_specification]
#[verifier::external_body]
pub struct ExConnection(rusqlite::Connection);

#[verifier::external_type_specification]
#[verifier::external_body]
pub struct ExStatement<'conn>(rusqlite::Statement<'conn>);

#[verifier::external_type_specification]
#[verifier::external_body]
pub struct ExRows<'stmt>(rusqlite::Rows<'stmt>);

#[verifier::external_type_specification]
#[verifier::external_body]
pub struct ExRow<'stmt>(rusqlite::Row<'stmt>);

#[verifier::external_type_specification]
#[verifier::external_body]
pub struct ExSqlValue(rusqlite::types::Value);

#[verifier::external_type_specification]
#[verifier::external_body]
pub struct ExRusqliteError(RusqliteError);

#[verifier::external_type_specification]
#[verifier::external_body]
pub struct ExM<'u>(rusqlite_migration::M<'u>);

#[verifier::external_type_specification]
#[verifier::external_body]
pub struct ExMigrations<'m>(rusqlite_migration::Migrations<'m>);

#[verifier::external_type_specification]
#[verifier::external_body]
pub struct ExMigrationError(MigrationError);

#[verifier::external_type_specification]
#[verifier::external_body]
#[verifier::reject_recursive_types(T)]
pub struct ExMutex<T: ?Sized>(std::sync::Mutex<T>);

#[verifier::external_type_specification]
#[verifier::external_body]
#[verifier::reject_recursive_types(T)]
pub struct ExMutexGuard<'a, T: ?Sized + 'a>(std::sync::MutexGuard<'a, T>);

/// Relies on base64's standard-alphabet `Engine::encode`: the text
/// depends on the input bytes alone, and an empty input encodes to the
/// empty string.
#[verifier::external_body]
pub(crate) fn base64_encode(b: &Vec<u8>) -> (r: String)
    ensures
        r@ == crate::value::base64_of(b@),
        b@.len() == 0 ==> r@.len() == 0,
{
    base64::engine::general_purpose::STANDARD.encode(b)
}

/// What a transaction identifier reads as in its canonical hyphenated
/// text form; the trusted formatter's contract ties it to the outside
/// formatter.
pub uninterp spec fn tx_id_str(id: u128) -> Seq<char>;

/// Which transaction identifier a string parses as, or `None`; the
/// trusted parser's contract ties it to the outside parser.
pub uninterp spec fn tx_id_of_str(s: Seq<char>) -> Option<u128>;

/// Relies on uuid's `Uuid::new_v4`: a freshly drawn random
/// identifier. Nothing is promised of the value.
#[verifier::external_body]
pub(crate) fn new_tx_id() -> (r: u128) {
    uuid::Uuid::new_v4().as_u128()
}

/// Relies on uuid's `Display` for `Uuid` and on `Uuid::from_u128` /
/// `Uuid::as_u128` being inverses: the canonical hyphenated text of an
/// identifier parses back to the same identifier.
#[verifier::external_body]
pub(crate) fn format_tx_id(id: u128) -> (r: String)
    ensures
        r@ == tx_id_str(id),
        tx_id_of_str(r@) == Some(id),
{
    uuid::Uuid::from_u128(id).to_string()
}

/// Relies on uuid's `Uuid::parse_str`: the result depends on the
/// string alone.
#[verifier::external_body]
pub(crate) fn parse_tx_id(s: &str) -> (r: Option<u128>)
    ensures
        r == tx_id_of_str(s@),
{
    match uuid::Uuid::parse_str(s) {
        Ok(u) => Some(u.as_u128()),
        Err(_) => None,
    }
}

/// Relies on rusqlite's `Connection::open`: opens (creating if
/// absent) the database at the path, `":memory:"` meaning fresh
/// private in-memory storage. The error is surfaced as its display
/// text.
#[verifier::external_body]
pub(crate) fn open_connection(path: &str) -> (r: Result<rusqlite::Connection, String>) {
    rusqlite::Connection::open(path).map_err(|e| e.to_string())
}

/// Relies on rusqlite's `Connection::close`: releases the handle,
/// reporting a failure as its display text.
#[verifier::external_body]
pub(crate) fn close_connection(conn: rusqlite::Connection) -> (r: Result<(), String>) {
    conn.close().map_err(|(_, e)| e.to_string())
}

/// Relies on rusqlite's `Connection::busy_timeout`: sets a bounded
/// busy handler so lock contention degrades to an error, not a hang.
/// The engine takes the timeout as a signed 32-bit millisecond count
/// and aborts on anything larger, so larger values are excluded.
#[verifier::external_body]
pub(crate) fn busy_timeout_ms(conn: &rusqlite::Connection, ms: u64) -> (r: Result<(), RusqliteError>)
    requires
        ms <= 0x7fff_ffff,
{
    conn.busy_timeout(std::time::Duration::from_millis(ms))
}

/// Relies on rusqlite's `Connection::execute_batch`: runs the given
/// SQL, used for the transaction control statements.
#[verifier::external_body]
pub(crate) fn execute_batch(conn: &rusqlite::Connection, sql: &str) -> (r: Result<(), RusqliteError>) {
    conn.execute_batch(sql)
}

/// Converts one native value of the codec into the engine's own value
/// type; real bit patterns become the `f64` they denote. Only the two
/// binding wrappers below call it.
#[verifier::external_body]
fn to_sql_value(v: &EngineValue) -> (r: rusqlite::types::Value) {
    match v {
        EngineValue::Null => rusqlite::types::Value::Null,
        EngineValue::Integer(i) => rusqlite::types::Value::Integer(*i),
        EngineValue::Real(bits) => rusqlite::types::Value::Real(bytemuck::cast(*bits)),
        EngineValue::Text(s) => rusqlite::types::Value::Text(s.clone()),
        EngineValue::Blob(b) => rusqlite::types::Value::Blob(b.clone()),
    }
}

/// Relies on rusqlite's `Connection::execute` with `params_from_iter`:
/// runs one statement, binding exactly the given parameters in order
/// (each converted one-for-one by `to_sql_value`), and reports the
/// number of rows changed.
#[verifier::external_body]
pub(crate) fn conn_execute(
    conn: &rusqlite::Connection,
    sql: &str,
    params: &Vec<EngineValue>,
) -> (r: Result<usize, RusqliteError>) {
    conn.execute(sql, rusqlite::params_from_iter(params.iter().map(to_sql_value)))
}

/// Relies on rusqlite's `Connection::last_insert_rowid`: the row id of
/// the most recent successful insert on this connection.
#[verifier::external_body]
pub(crate) fn last_insert_rowid(conn: &rusqlite::Connection) -> (r: i64) {
    conn.last_insert_rowid()
}

/// Relies on rusqlite's `Connection::prepare`: compiles one query.
#[verifier::external_body]
pub(crate) fn prepare<'conn>(conn: &'conn rusqlite::Connection, sql: &str) -> (r: Result<
    rusqlite::Statement<'conn>,
    RusqliteError,
>) {
    conn.prepare(sql)
}

/// Relies on rusqlite's `Statement::column_names`: the result column
/// names, in query-result order. The engine aborts on a column name
/// that is not valid UTF-8; no statement this gateway accepts can
/// produce one, but a foreign database file with a crafted schema
/// could, and rusqlite offers no fallible way to read the names.
#[verifier::external_body]
pub(crate) fn column_names(stmt: &rusqlite::Statement) -> (r: Vec<String>) {
    stmt.column_names().into_iter().map(String::from).collect()
}

/// Relies on rusqlite's `Statement::query` with `params_from_iter`:
/// binds exactly the given parameters in order (each converted
/// one-for-one by `to_sql_value`) and hands back the row cursor.
#[verifier::external_body]
pub(crate) fn stmt_query<'a>(
    stmt: &'a mut rusqlite::Statement<'_>,
    params: &Vec<EngineValue>,
) -> (r: Result<rusqlite::Rows<'a>, RusqliteError>) {
    stmt.query(rusqlite::params_from_iter(params.iter().map(to_sql_value)))
}

/// Relies on rusqlite's `Rows::next`: advances the cursor, handing
/// back the next row until the result is exhausted.
#[verifier::external_body]
pub(crate) fn rows_next<'a, 'stmt>(rows: &'a mut rusqlite::Rows<'stmt>) -> (r: Result<
    Option<&'a rusqlite::Row<'stmt>>,
    RusqliteError,
>) {
    rows.next()
}

/// Relies on rusqlite's `Row::get_ref`: reads one column of the
/// current row, converted into the codec's native representation
/// (reals as their bit patterns, text decoded lossily, blobs copied).
#[verifier::external_body]
pub(crate) fn row_get(row: &rusqlite::Row, idx: usize) -> (r: Result<EngineValue, RusqliteError>) {
    Ok(
        match row.get_ref(idx)? {
            rusqlite::types::ValueRef::Null => EngineValue::Null,
            rusqlite::types::ValueRef::Integer(i) => EngineValue::Integer(i),
            rusqlite::types::ValueRef::Real(f) => EngineValue::Real(f.to_bits()),
            rusqlite::types::ValueRef::Text(t) => EngineValue::Text(
                String::from_utf8_lossy(t).into_owned(),
            ),
            rusqlite::types::ValueRef::Blob(b) => EngineValue::Blob(b.to_vec()),
        },
    )
}

/// Wraps a transaction's dedicated connection in its own exclusion
/// lock, separate from the registry lock, so statements against one
/// transaction serialize without blocking other transactions. Relies
/// on std's `Mutex::new` and `Arc::new`.
#[verifier::external_body]
pub(crate) fn share_conn(conn: rusqlite::Connection) -> (r: std::sync::Arc<
    std::sync::Mutex<rusqlite::Connection>,
>) {
    std::sync::Arc::new(std::sync::Mutex::new(conn))
}

/// Relies on std's `Arc::clone`: another owner of the very same
/// shared connection.
#[verifier::external_body]
pub(crate) fn clone_shared(c: &std::sync::Arc<std::sync::Mutex<rusqlite::Connection>>) -> (r:
    std::sync::Arc<std::sync::Mutex<rusqlite::Connection>>)
    ensures
        r == *c,
{
    c.clone()
}

/// Relies on std's `Mutex::lock`: exclusive access to the shared
/// connection for the duration of one statement. A poisoned lock is
/// entered anyway: the transaction's outcome is governed by the
/// engine, not by a panicking borrower, so no input can make this
/// abort.
#[verifier::external_body]
pub(crate) fn lock_conn<'a>(m: &'a std::sync::Mutex<rusqlite::Connection>) -> (g: std::sync::MutexGuard<
    'a,
    rusqlite::Connection,
>) {
    match m.lock() {
        Ok(g) => g,
        Err(poisoned) => poisoned.into_inner(),
    }
}

/// Relies on std's `MutexGuard` deref: the locked connection itself.
#[verifier::external_body]
pub(crate) fn guard_conn<'a, 'm>(g: &'a std::sync::MutexGuard<'m, rusqlite::Connection>) -> (r:
    &'a rusqlite::Connection) {
    &**g
}

/// Relies on rusqlite_migration's `M::up`: one forward migration
/// step.
#[verifier::external_body]
pub(crate) fn migration_up(sql: &'static str) -> (r: rusqlite_migration::M<'static>) {
    rusqlite_migration::M::up(sql)
}

/// Relies on rusqlite_migration's `M::down`: attaches the backward
/// SQL to a step.
#[verifier::external_body]
pub(crate) fn migration_down(m: rusqlite_migration::M<'static>, sql: &'static str) -> (r:
    rusqlite_migration::M<'static>) {
    m.down(sql)
}

/// Relies on rusqlite_migration's `Migrations::new`: packages the
/// ordered steps for the runner.
#[verifier::external_body]
pub(crate) fn migrations_new(ms: Vec<rusqlite_migration::M<'static>>) -> (r:
    rusqlite_migration::Migrations<'static>) {
    rusqlite_migration::Migrations::new(ms)
}

/// Relies on rusqlite_migration's `Migrations::to_version`: drives the
/// connection's schema to exactly the target version.
#[verifier::external_body]
pub(crate) fn migrations_to_version(
    migrations: &rusqlite_migration::Migrations<'_>,
    conn: &mut rusqlite::Connection,
    version: usize,
) -> (r: Result<(), MigrationError>) {
    migrations.to_version(conn, version)
}

} // verus!
