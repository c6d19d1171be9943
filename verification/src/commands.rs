//! The operation surface: the execution engine that composes the two
//! registries and the value codec, routing each statement to either an
//! ephemeral connection or a transaction-pinned one.

use vstd::prelude::*;

use crate::error::Error;
use crate::registry::ConnectionManager;
use crate::sql::{tx_id_of_str, tx_id_str};
use crate::strings::{has_separator, spec_location, spec_path_part, spec_scheme};
use crate::transactions::TransactionManager;
use crate::value::{is_result_value, params_ok, DynamicValue};
use crate::LastInsertId;
use crate::MigrationList;

verus! {

/// Whether an alias string is well-formed: it has a scheme separator
/// and names the one supported engine.
pub open spec fn alias_ok(db: Seq<char>) -> bool {
    has_separator(db) && spec_scheme(db) == "sqlite"@
}

/// The location a well-formed alias resolves to against a base
/// directory.
pub open spec fn alias_location(db: Seq<char>, base: Seq<char>) -> Seq<char> {
    spec_location(spec_path_part(db), base)
}

/// Parses an alias and resolves its location; pure, no probing. The
/// host uses this same resolution when it prepares directories on
/// disk, so the two can never disagree.
pub fn resolve_alias(base_dir: &str, db: &str) -> (r: Result<String, Error>)
    ensures
        r matches Ok(p) ==> alias_ok(db@) && p@ == alias_location(db@, base_dir@),
        alias_ok(db@) ==> r is Ok,
        !has_separator(db@) ==> (r matches Err(Error::InvalidDatabaseUrl(s)) && s@ == db@),
        (has_separator(db@) && spec_scheme(db@) != "sqlite"@) ==> (r matches Err(
            Error::UnsupportedDatabaseType(s),
        ) && s@ == spec_scheme(db@)),
{
    let i = match crate::strings::find_separator(db) {
        Some(i) => i,
        None => {
            return Err(Error::InvalidDatabaseUrl(db.to_owned()));
        },
    };
    let n = db.unicode_len();
    let scheme = db.substring_char(0, i);
    let part = db.substring_char(i + 1, n);
    if !crate::strings::str_eq(scheme, "sqlite") {
        return Err(Error::UnsupportedDatabaseType(scheme.to_owned()));
    }
    Ok(crate::strings::resolve_path(part, base_dir))
}

/// Probes a location by opening and immediately closing a real
/// connection: this validates permissions and path correctness before
/// anything is registered.
fn probe_location(path: &String) -> (r: Result<(), Error>)
    ensures
        r matches Err(e) ==> (e matches Error::ConnectionFailed(loc, _) && loc@ == path@),
{
    match crate::sql::open_connection(path.as_str()) {
        Ok(conn) => match crate::sql::close_connection(conn) {
            Ok(_) => Ok(()),
            Err(d) => Err(Error::ConnectionFailed(path.clone(), d)),
        },
        Err(d) => Err(Error::ConnectionFailed(path.clone(), d)),
    }
}

/// Resolves an alias to its location and probes it, without touching
/// the registry.
pub fn get_conn_url(base_dir: &str, db: &str) -> (r: Result<String, Error>)
    ensures
        r matches Ok(p) ==> alias_ok(db@) && p@ == alias_location(db@, base_dir@),
        !has_separator(db@) ==> (r matches Err(Error::InvalidDatabaseUrl(s)) && s@ == db@),
        (has_separator(db@) && spec_scheme(db@) != "sqlite"@) ==> (r matches Err(
            Error::UnsupportedDatabaseType(s),
        ) && s@ == spec_scheme(db@)),
        alias_ok(db@) ==> (r is Ok || (r matches Err(Error::ConnectionFailed(loc, _)) && loc@
            == alias_location(db@, base_dir@))),
        r matches Err(e) ==> (e matches Error::InvalidDatabaseUrl(_) || e matches
            Error::UnsupportedDatabaseType(_) || e matches Error::ConnectionFailed(_, _)),
{
    let path = match resolve_alias(base_dir, db) {
        Ok(p) => p,
        Err(e) => {
            return Err(e);
        },
    };
    match probe_location(&path) {
        Ok(_) => Ok(path),
        Err(e) => Err(e),
    }
}

/// Registers an alias after validating and probing its location; an
/// alias already loaded is silently overwritten. The alias string is
/// returned unchanged on success.
pub fn load(connections: &mut ConnectionManager, base_dir: &str, db: String) -> (r: Result<
    String,
    Error,
>)
    requires
        old(connections).wf(),
    ensures
        final(connections).wf(),
        r matches Ok(a) ==> ({
            &&& alias_ok(db@)
            &&& a@ == db@
            &&& final(connections)@ == old(connections)@.insert(
                db@,
                alias_location(db@, base_dir@),
            )
        }),
        r is Err ==> final(connections)@ == old(connections)@,
        !has_separator(db@) ==> (r matches Err(Error::InvalidDatabaseUrl(s)) && s@ == db@),
        (has_separator(db@) && spec_scheme(db@) != "sqlite"@) ==> (r matches Err(
            Error::UnsupportedDatabaseType(s),
        ) && s@ == spec_scheme(db@)),
        alias_ok(db@) ==> (r is Ok || (r matches Err(Error::ConnectionFailed(loc, _)) && loc@
            == alias_location(db@, base_dir@))),
        r matches Err(e) ==> (e matches Error::InvalidDatabaseUrl(_) || e matches
            Error::UnsupportedDatabaseType(_) || e matches Error::ConnectionFailed(_, _)),
{
    let path = match resolve_alias(base_dir, db.as_str()) {
        Ok(p) => p,
        Err(e) => {
            return Err(e);
        },
    };
    match probe_location(&path) {
        Ok(_) => {},
        Err(e) => {
            return Err(e);
        },
    }
    connections.insert(db.clone(), path);
    Ok(db)
}

/// Closes one alias, or every alias when none is named. Closing never
/// touches in-flight transactions: they hold independent connections.
pub fn close(connections: &mut ConnectionManager, db: Option<String>) -> (r: Result<bool, Error>)
    requires
        old(connections).wf(),
    ensures
        final(connections).wf(),
        db matches Some(a) ==> (old(connections)@.contains_key(a@) ==> ((r matches Ok(b) && b)
            && final(connections)@ == old(connections)@.remove(a@))),
        db matches Some(a) ==> (!old(connections)@.contains_key(a@) ==> ((r matches Err(
            Error::DatabaseNotLoaded(s),
        ) && s@ == a@) && final(connections)@ == old(connections)@)),
        db is None ==> ((r matches Ok(b) && b) && final(connections)@ == Map::<
            Seq<char>,
            Seq<char>,
        >::empty()),
        r matches Err(e) ==> e matches Error::DatabaseNotLoaded(_),
{
    match db {
        Some(alias) => {
            if connections.remove(alias.as_str()) {
                Ok(true)
            } else {
                proof {
                    assert(old(connections)@.remove(alias@) =~= old(connections)@);
                }
                Err(Error::DatabaseNotLoaded(alias))
            }
        },
        None => {
            connections.clear();
            Ok(true)
        },
    }
}

/// Opens a dedicated connection to the alias's location, arms a
/// bounded busy timeout, begins a write-intent transaction that still
/// admits concurrent readers, and registers it under a fresh opaque
/// identifier.
pub fn begin_transaction(
    connections: &ConnectionManager,
    transactions: &mut TransactionManager,
    db_alias: String,
) -> (r: Result<String, Error>)
    requires
        connections.wf(),
        old(transactions).wf(),
    ensures
        final(transactions).wf(),
        !connections@.contains_key(db_alias@) ==> (r matches Err(Error::DatabaseNotLoaded(s))
            && s@ == db_alias@),
        r matches Ok(s) ==> ({
            &&& connections@.contains_key(db_alias@)
            &&& (tx_id_of_str(s@) matches Some(id) && s@ == tx_id_str(id) && !old(
                transactions,
            )@.contains_key(id) && final(transactions)@ == old(transactions)@.insert(
                id,
                final(transactions)@[id],
            ))
        }),
        r is Err ==> final(transactions)@ == old(transactions)@,
        r matches Err(e) ==> (e matches Error::DatabaseNotLoaded(_) || e matches
            Error::ConnectionFailed(_, _) || e matches Error::Rusqlite(_)),
        connections@.contains_key(db_alias@) ==> (r is Ok || (r matches Err(
            Error::ConnectionFailed(loc, _),
        ) && loc@ == connections@[db_alias@]) || r matches Err(Error::Rusqlite(_))),
{
    let path = match connections.resolve(db_alias.as_str()) {
        Some(p) => p,
        None => {
            return Err(Error::DatabaseNotLoaded(db_alias));
        },
    };
    let conn = match crate::sql::open_connection(path.as_str()) {
        Ok(c) => c,
        Err(d) => {
            return Err(Error::ConnectionFailed(path, d));
        },
    };
    match crate::sql::busy_timeout_ms(&conn, 5000) {
        Ok(_) => {},
        Err(e) => {
            return Err(Error::Rusqlite(e));
        },
    }
    match crate::sql::execute_batch(&conn, "BEGIN IMMEDIATE") {
        Ok(_) => {},
        Err(e) => {
            return Err(Error::Rusqlite(e));
        },
    }
    // The identifier space is never assumed closed: a drawn identifier
    // is checked against the live entries and redrawn on a collision.
    // Colliding 64 times in a row is beyond physical possibility, so
    // exhausting the draws is reported as a failure rather than
    // looping without bound.
    let mut id: u128 = crate::sql::new_tx_id();
    let mut attempts: u64 = 0;
    while transactions.contains(id) && attempts < 64
        invariant
            old(transactions).wf(),
            *transactions == *old(transactions),
            attempts <= 64,
        decreases 64 - attempts,
    {
        id = crate::sql::new_tx_id();
        attempts += 1;
    }
    if transactions.contains(id) {
        return Err(
            Error::ConnectionFailed(
                path,
                String::from_str("could not mint an unused transaction identifier"),
            ),
        );
    }
    let s = crate::sql::format_tx_id(id);
    let shared = crate::sql::share_conn(conn);
    transactions.insert(id, shared);
    Ok(s)
}

/// Finishes a transaction by committing it. The entry is removed
/// before the commit is attempted, so a failed commit cannot be
/// retried through the same identifier.
pub fn commit_transaction(transactions: &mut TransactionManager, tx_id: String) -> (r: Result<
    (),
    Error,
>)
    requires
        old(transactions).wf(),
    ensures
        final(transactions).wf(),
        tx_id_of_str(tx_id@) is None ==> ((r matches Err(Error::InvalidUuid(s)) && s@ == tx_id@)
            && final(transactions)@ == old(transactions)@),
        tx_id_of_str(tx_id@) matches Some(id) ==> (!old(transactions)@.contains_key(id) ==> ((
        r matches Err(Error::TransactionNotFound(s)) && s@ == tx_id@) && final(transactions)@
            == old(transactions)@)),
        tx_id_of_str(tx_id@) matches Some(id) ==> (old(transactions)@.contains_key(id) ==> (
        final(transactions)@ == old(transactions)@.remove(id) && (r is Ok || r matches Err(Error::Rusqlite(_))))),
        r matches Err(e) ==> (e matches Error::InvalidUuid(_) || e matches
            Error::TransactionNotFound(_) || e matches Error::Rusqlite(_)),
{
    let id = match crate::sql::parse_tx_id(tx_id.as_str()) {
        Some(id) => id,
        None => {
            return Err(Error::InvalidUuid(tx_id));
        },
    };
    match transactions.remove(id) {
        Some(shared) => {
            let guard = crate::sql::lock_conn(&shared);
            match crate::sql::execute_batch(crate::sql::guard_conn(&guard), "COMMIT") {
                Ok(_) => Ok(()),
                Err(e) => Err(Error::Rusqlite(e)),
            }
        },
        None => {
            proof {
                assert(old(transactions)@.remove(id) =~= old(transactions)@);
            }
            Err(Error::TransactionNotFound(tx_id))
        },
    }
}

/// Finishes a transaction by rolling it back. The entry is removed
/// unconditionally; a rollback failure inside the engine is swallowed,
/// because rollback is itself the recovery action and the entry's
/// removal already reflects the intended outcome.
pub fn rollback_transaction(transactions: &mut TransactionManager, tx_id: String) -> (r: Result<
    (),
    Error,
>)
    requires
        old(transactions).wf(),
    ensures
        final(transactions).wf(),
        tx_id_of_str(tx_id@) is None ==> ((r matches Err(Error::InvalidUuid(s)) && s@ == tx_id@)
            && final(transactions)@ == old(transactions)@),
        tx_id_of_str(tx_id@) matches Some(id) ==> (!old(transactions)@.contains_key(id) ==> ((
        r matches Err(Error::TransactionNotFound(s)) && s@ == tx_id@) && final(transactions)@
            == old(transactions)@)),
        tx_id_of_str(tx_id@) matches Some(id) ==> (old(transactions)@.contains_key(id) ==> (
        final(transactions)@ == old(transactions)@.remove(id) && r is Ok)),
        r matches Err(e) ==> (e matches Error::InvalidUuid(_) || e matches
            Error::TransactionNotFound(_)),
{
    let id = match crate::sql::parse_tx_id(tx_id.as_str()) {
        Some(id) => id,
        None => {
            return Err(Error::InvalidUuid(tx_id));
        },
    };
    match transactions.remove(id) {
        Some(shared) => {
            let guard = crate::sql::lock_conn(&shared);
            let _ = crate::sql::execute_batch(crate::sql::guard_conn(&guard), "ROLLBACK");
            Ok(())
        },
        None => {
            proof {
                assert(old(transactions)@.remove(id) =~= old(transactions)@);
            }
            Err(Error::TransactionNotFound(tx_id))
        },
    }
}

/// Runs one statement against a transaction-pinned or ephemeral
/// connection and reports rows affected and the last insert id.
///
/// With a transaction id, the statement runs on that transaction's
/// connection, which stays open whatever the outcome. Without one,
/// a dedicated connection is opened, used once and closed; a close
/// failure is surfaced even though the statement itself succeeded.
pub fn execute(
    connections: &ConnectionManager,
    transactions: &TransactionManager,
    db_alias: String,
    query: String,
    values: Vec<DynamicValue>,
    tx_id: Option<String>,
) -> (r: Result<(u64, LastInsertId), Error>)
    requires
        connections.wf(),
        transactions.wf(),
    ensures
        !params_ok(values@) ==> (r matches Err(Error::ValueConversionError(_))),
        (r matches Err(Error::ValueConversionError(_))) ==> !params_ok(values@),
        params_ok(values@) ==> (tx_id matches Some(s) ==> (tx_id_of_str(s@) is None ==> (
        r matches Err(Error::InvalidUuid(t)) && t@ == s@))),
        params_ok(values@) ==> (tx_id matches Some(s) ==> (tx_id_of_str(s@) matches Some(id)
            ==> (!transactions@.contains_key(id) ==> (r matches Err(Error::TransactionNotFound(t))
            && t@ == s@)))),
        (params_ok(values@) && tx_id is None && !connections@.contains_key(db_alias@)) ==> (
        r matches Err(Error::DatabaseNotLoaded(s)) && s@ == db_alias@),
        r is Ok ==> params_ok(values@),
        r is Ok ==> (tx_id matches Some(s) ==> (tx_id_of_str(s@) matches Some(id)
            && transactions@.contains_key(id))),
        (r is Ok && tx_id is None) ==> connections@.contains_key(db_alias@),
        r matches Err(e) ==> (e matches Error::ValueConversionError(_) || e matches
            Error::InvalidUuid(_) || e matches Error::TransactionNotFound(_) || e matches
            Error::DatabaseNotLoaded(_) || e matches Error::ConnectionFailed(_, _) || e matches
            Error::Rusqlite(_)),
        params_ok(values@) ==> (tx_id matches Some(s) ==> (tx_id_of_str(s@) matches Some(id)
            ==> (transactions@.contains_key(id) ==> (r is Ok || r matches Err(
            Error::Rusqlite(_),
        ))))),
        (params_ok(values@) && tx_id is None && connections@.contains_key(db_alias@)) ==> (
        r is Ok || r matches Err(Error::Rusqlite(_)) || (r matches Err(
            Error::ConnectionFailed(loc, _),
        ) && loc@ == connections@[db_alias@])),
{
    let params = match crate::value::values_to_params(values) {
        Ok(p) => p,
        Err(e) => {
            return Err(e);
        },
    };
    match tx_id {
        Some(s) => {
            let id = match crate::sql::parse_tx_id(s.as_str()) {
                Some(id) => id,
                None => {
                    return Err(Error::InvalidUuid(s));
                },
            };
            match transactions.shared_conn(id) {
                Some(shared) => {
                    let guard = crate::sql::lock_conn(&shared);
                    let conn = crate::sql::guard_conn(&guard);
                    let changes = match crate::sql::conn_execute(
                        conn,
                        query.as_str(),
                        &params,
                    ) {
                        Ok(n) => n,
                        Err(e) => {
                            return Err(Error::Rusqlite(e));
                        },
                    };
                    let last = crate::sql::last_insert_rowid(conn);
                    Ok((changes as u64, LastInsertId::Sqlite(last)))
                },
                None => Err(Error::TransactionNotFound(s)),
            }
        },
        None => {
            let path = match connections.resolve(db_alias.as_str()) {
                Some(p) => p,
                None => {
                    return Err(Error::DatabaseNotLoaded(db_alias));
                },
            };
            let conn = match crate::sql::open_connection(path.as_str()) {
                Ok(c) => c,
                Err(d) => {
                    return Err(Error::ConnectionFailed(path, d));
                },
            };
            let changes = match crate::sql::conn_execute(&conn, query.as_str(), &params) {
                Ok(n) => n,
                Err(e) => {
                    return Err(Error::Rusqlite(e));
                },
            };
            let last = crate::sql::last_insert_rowid(&conn);
            match crate::sql::close_connection(conn) {
                Ok(_) => {},
                Err(d) => {
                    return Err(Error::ConnectionFailed(path, d));
                },
            }
            Ok((changes as u64, LastInsertId::Sqlite(last)))
        },
    }
}

/// Structural consistency of a materialized result: every row has the
/// same column names in the same order, and every value has a result
/// shape.
pub open spec fn rows_consistent(rows: Seq<Vec<(String, DynamicValue)>>) -> bool {
    &&& forall|i: int, j: int|
        0 <= i < rows.len() && 0 <= j < rows[i]@.len() ==> is_result_value(
            (#[trigger] rows[i]@[j]).1,
        )
    &&& forall|i1: int, i2: int|
        0 <= i1 < rows.len() && 0 <= i2 < rows.len() ==> (#[trigger] rows[i1]@.len())
            == (#[trigger] rows[i2]@.len())
    &&& forall|i1: int, i2: int, j: int|
        0 <= i1 < rows.len() && 0 <= i2 < rows.len() && 0 <= j < rows[i1]@.len() ==> (
        #[trigger] rows[i1]@[j]).0@ == (#[trigger] rows[i2]@[j]).0@
}

/// Materializes a query's rows on one connection: each row is the
/// ordered pairing of result column names with decoded values.
fn run_select(
    conn: &rusqlite::Connection,
    query: &str,
    params: &Vec<crate::value::EngineValue>,
) -> (r: Result<Vec<Vec<(String, DynamicValue)>>, Error>)
    ensures
        r matches Ok(rows) ==> rows_consistent(rows@),
        r matches Err(e) ==> (e matches Error::Rusqlite(_) || e matches
            Error::ValueConversionError(_)),
{
    let mut stmt = match crate::sql::prepare(conn, query) {
        Ok(s) => s,
        Err(e) => {
            return Err(Error::Rusqlite(e));
        },
    };
    let names = crate::sql::column_names(&stmt);
    let ncols = names.len();
    let mut rows = match crate::sql::stmt_query(&mut stmt, params) {
        Ok(r) => r,
        Err(e) => {
            return Err(Error::Rusqlite(e));
        },
    };
    let mut out: Vec<Vec<(String, DynamicValue)>> = Vec::new();
    // The fuel only bounds the loop for the termination check; a
    // result with that many rows is beyond physical possibility.
    let mut fuel: u64 = u64::MAX;
    while fuel > 0
        invariant
            ncols == names@.len(),
            forall|i: int| 0 <= i < out@.len() ==> (#[trigger] out@[i])@.len() == ncols,
            forall|i: int, j: int|
                0 <= i < out@.len() && 0 <= j < ncols ==> (#[trigger] out@[i]@[j]).0@
                    == names@[j]@,
            forall|i: int, j: int|
                0 <= i < out@.len() && 0 <= j < ncols ==> is_result_value(
                    (#[trigger] out@[i]@[j]).1,
                ),
        decreases fuel,
    {
        let more = match crate::sql::rows_next(&mut rows) {
            Ok(Some(row)) => {
                let mut out_row: Vec<(String, DynamicValue)> = Vec::new();
                let mut j: usize = 0;
                while j < ncols
                    invariant
                        ncols == names@.len(),
                        0 <= j <= ncols,
                        out_row@.len() == j,
                        forall|jj: int|
                            0 <= jj < j ==> (#[trigger] out_row@[jj]).0@ == names@[jj]@,
                        forall|jj: int|
                            0 <= jj < j ==> is_result_value((#[trigger] out_row@[jj]).1),
                    decreases ncols - j,
                {
                    let ev = match crate::sql::row_get(row, j) {
                        Ok(v) => v,
                        Err(e) => {
                            return Err(Error::Rusqlite(e));
                        },
                    };
                    let dv = match crate::value::column_to_dynamic(ev) {
                        Ok(d) => d,
                        Err(e) => {
                            return Err(e);
                        },
                    };
                    out_row.push((names[j].clone(), dv));
                    j += 1;
                }
                out.push(out_row);
                true
            },
            Ok(None) => false,
            Err(e) => {
                return Err(Error::Rusqlite(e));
            },
        };
        if !more {
            break ;
        }
        fuel -= 1;
    }
    Ok(out)
}

/// Runs a query and materializes its full result eagerly: an ordered
/// sequence of rows, each an ordered pairing of column name and
/// converted value. Routing mirrors `execute`.
pub fn select(
    connections: &ConnectionManager,
    transactions: &TransactionManager,
    db_alias: String,
    query: String,
    values: Vec<DynamicValue>,
    tx_id: Option<String>,
) -> (r: Result<Vec<Vec<(String, DynamicValue)>>, Error>)
    requires
        connections.wf(),
        transactions.wf(),
    ensures
        !params_ok(values@) ==> (r matches Err(Error::ValueConversionError(_))),
        params_ok(values@) ==> (tx_id matches Some(s) ==> (tx_id_of_str(s@) is None ==> (
        r matches Err(Error::InvalidUuid(t)) && t@ == s@))),
        params_ok(values@) ==> (tx_id matches Some(s) ==> (tx_id_of_str(s@) matches Some(id)
            ==> (!transactions@.contains_key(id) ==> (r matches Err(Error::TransactionNotFound(t))
            && t@ == s@)))),
        (params_ok(values@) && tx_id is None && !connections@.contains_key(db_alias@)) ==> (
        r matches Err(Error::DatabaseNotLoaded(s)) && s@ == db_alias@),
        r is Ok ==> params_ok(values@),
        r is Ok ==> (tx_id matches Some(s) ==> (tx_id_of_str(s@) matches Some(id)
            && transactions@.contains_key(id))),
        (r is Ok && tx_id is None) ==> connections@.contains_key(db_alias@),
        r matches Ok(rows) ==> rows_consistent(rows@),
        r matches Err(e) ==> (e matches Error::ValueConversionError(_) || e matches
            Error::InvalidUuid(_) || e matches Error::TransactionNotFound(_) || e matches
            Error::DatabaseNotLoaded(_) || e matches Error::ConnectionFailed(_, _) || e matches
            Error::Rusqlite(_)),
        params_ok(values@) ==> (tx_id matches Some(s) ==> (tx_id_of_str(s@) matches Some(id)
            ==> (transactions@.contains_key(id) ==> (r is Ok || r matches Err(Error::Rusqlite(_))
            || r matches Err(Error::ValueConversionError(_)))))),
        (params_ok(values@) && tx_id is None && connections@.contains_key(db_alias@)) ==> (
        r is Ok || r matches Err(Error::Rusqlite(_)) || r matches Err(
            Error::ValueConversionError(_),
        ) || (r matches Err(Error::ConnectionFailed(loc, _)) && loc@
            == connections@[db_alias@])),
{
    let params = match crate::value::values_to_params(values) {
        Ok(p) => p,
        Err(e) => {
            return Err(e);
        },
    };
    match tx_id {
        Some(s) => {
            let id = match crate::sql::parse_tx_id(s.as_str()) {
                Some(id) => id,
                None => {
                    return Err(Error::InvalidUuid(s));
                },
            };
            match transactions.shared_conn(id) {
                Some(shared) => {
                    let guard = crate::sql::lock_conn(&shared);
                    run_select(crate::sql::guard_conn(&guard), query.as_str(), &params)
                },
                None => Err(Error::TransactionNotFound(s)),
            }
        },
        None => {
            let path = match connections.resolve(db_alias.as_str()) {
                Some(p) => p,
                None => {
                    return Err(Error::DatabaseNotLoaded(db_alias));
                },
            };
            let conn = match crate::sql::open_connection(path.as_str()) {
                Ok(c) => c,
                Err(d) => {
                    return Err(Error::ConnectionFailed(path, d));
                },
            };
            let result = match run_select(&conn, query.as_str(), &params) {
                Ok(rows) => rows,
                Err(e) => {
                    return Err(e);
                },
            };
            match crate::sql::close_connection(conn) {
                Ok(_) => {},
                Err(d) => {
                    return Err(Error::ConnectionFailed(path, d));
                },
            }
            Ok(result)
        },
    }
}

/// Resolves the registered migration list and drives the alias's
/// database to exactly the target version, surfacing a failure to
/// reach it as an error.
pub fn migrate(
    connections: &ConnectionManager,
    migrations: MigrationList,
    version: usize,
    db: String,
) -> (r: Result<(), Error>)
    requires
        connections.wf(),
    ensures
        !connections@.contains_key(db@) ==> (r matches Err(Error::DatabaseNotLoaded(s)) && s@
            == db@),
        r is Ok ==> connections@.contains_key(db@),
        r matches Err(e) ==> (e matches Error::DatabaseNotLoaded(_) || e matches
            Error::ConnectionFailed(_, _) || e matches Error::Migration(_)),
        connections@.contains_key(db@) ==> (r is Ok || r matches Err(Error::Migration(_)) || (
        r matches Err(Error::ConnectionFailed(loc, _)) && loc@ == connections@[db@])),
{
    let path = match connections.resolve(db.as_str()) {
        Some(p) => p,
        None => {
            return Err(Error::DatabaseNotLoaded(db));
        },
    };
    let mut conn = match crate::sql::open_connection(path.as_str()) {
        Ok(c) => c,
        Err(d) => {
            return Err(Error::ConnectionFailed(path, d));
        },
    };
    let resolved = migrations.resolve();
    let runner = crate::sql::migrations_new(resolved);
    match crate::sql::migrations_to_version(&runner, &mut conn, version) {
        Ok(_) => {},
        Err(e) => {
            return Err(Error::Migration(e));
        },
    }
    match crate::sql::close_connection(conn) {
        Ok(_) => Ok(()),
        Err(d) => Err(Error::ConnectionFailed(path, d)),
    }
}

/// Loading registers the resolved location under the alias: a lookup
/// right after a successful load finds exactly that location, and a
/// second load of the same alias overwrites the location without
/// erroring, as `load`'s contract permits no error for a well-formed,
/// reachable alias that is already present.
pub proof fn lemma_load_then_lookup(
    m: Map<Seq<char>, Seq<char>>,
    alias: Seq<char>,
    loc1: Seq<char>,
    loc2: Seq<char>,
)
    ensures
        m.insert(alias, loc1).contains_key(alias),
        m.insert(alias, loc1)[alias] == loc1,
        m.insert(alias, loc1).insert(alias, loc2).contains_key(alias),
        m.insert(alias, loc1).insert(alias, loc2)[alias] == loc2,
{
}

/// A transaction identifier is single-use: a commit or rollback
/// removes it from the registry, so a second finish with the same
/// identifier finds no live entry and, by the contracts of
/// `commit_transaction` and `rollback_transaction`, must report
/// `TransactionNotFound`.
pub proof fn lemma_transaction_single_use(
    live: Map<u128, std::sync::Arc<std::sync::Mutex<rusqlite::Connection>>>,
    id: u128,
)
    ensures
        !live.remove(id).contains_key(id),
{
}

} // verus!
