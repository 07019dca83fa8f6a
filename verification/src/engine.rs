//! Executes one query against an embedded database file through rusqlite,
//! materializing the column names and every row as text.
use vstd::prelude::*;

use crate::digits::{dec_rep, int_rep, i64_to_dec, u64_to_dec};
use crate::table::QueryResult;

verus! {

#[verifier::external_type_specification]
#[verifier::external_body]
pub struct ExConnection(rusqlite::Connection);

#[verifier::external_type_specification]
#[verifier::external_body]
pub struct ExStatement<'a>(rusqlite::Statement<'a>);

#[verifier::external_type_specification]
#[verifier::external_body]
pub struct ExRows<'a>(rusqlite::Rows<'a>);

#[verifier::external_type_specification]
#[verifier::external_body]
pub struct ExRow<'a>(rusqlite::Row<'a>);

#[verifier::external_type_specification]
#[verifier::external_body]
pub struct ExError(rusqlite::Error);

#[verifier::external_type_specification]
#[verifier::external_body]
pub struct ExValue(rusqlite::types::Value);

/// An open connection together with a witness that its schema text has
/// passed `screen_schema_text` under a transaction that is still pinning
/// that schema. Only `open_session` builds one, so the witness cannot be
/// had without the screen.
pub struct Session {
    conn: rusqlite::Connection,
    screen_ok: Ghost<bool>,
}

impl Session {
    /// Whether the schema screen vouches for this connection.
    pub closed spec fn is_screened(&self) -> bool {
        self.screen_ok@
    }
}

/// A prepared statement together with a witness that it was prepared on a
/// screened session, so its column names are safe to read.
pub struct Prepared<'c> {
    stmt: rusqlite::Statement<'c>,
    named_ok: Ghost<bool>,
}

impl<'c> Prepared<'c> {
    /// Whether the schema screen vouches for this statement's column names.
    pub closed spec fn names_screened(&self) -> bool {
        self.named_ok@
    }
}

/// Relies on rusqlite::Connection::open_with_flags, called without the
/// create flag: opens the database file at `path` for reading and writing,
/// or returns a driver error when it cannot be opened. A missing file is
/// a cannot-open error, never silently created.
#[verifier::external_body]
fn open_connection(path: &str) -> (r: Result<rusqlite::Connection, rusqlite::Error>) {
    rusqlite::Connection::open_with_flags(
        path,
        rusqlite::OpenFlags::SQLITE_OPEN_READ_WRITE | rusqlite::OpenFlags::SQLITE_OPEN_URI
            | rusqlite::OpenFlags::SQLITE_OPEN_NO_MUTEX,
    )
}

/// Relies on rusqlite::Connection::prepare: parses `sql` as one statement,
/// or returns a driver error when it is invalid.
#[verifier::external_body]
fn prepare_statement<'c>(conn: &'c rusqlite::Connection, sql: &str) -> (r: Result<
    rusqlite::Statement<'c>,
    rusqlite::Error,
>) {
    conn.prepare(sql)
}

/// Relies on rusqlite::Statement::column_count: the number of columns in
/// the statement's result set.
#[verifier::external_body]
fn statement_column_count(p: &Prepared<'_>) -> (n: usize) {
    p.stmt.column_count()
}

/// Relies on rusqlite::Statement::column_name: the name of the column at
/// `idx`, or InvalidColumnIndex when `idx` is out of range. It panics on
/// a name that is not UTF-8; a result column is named either by the query
/// text, which is UTF-8 because it was handed over as a `&str`, or by the
/// database's schema text. The `requires` demands the screen's witness, so
/// no statement over unscreened schema text can reach this call.
#[verifier::external_body]
fn statement_column_name(p: &Prepared<'_>, idx: usize) -> (r: Result<String, rusqlite::Error>)
    requires
        p.names_screened(),
{
    p.stmt.column_name(idx).map(|s| s.to_owned())
}

/// Relies on rusqlite::Statement::query with no bound parameters: begins
/// execution, handing back the row cursor.
#[verifier::external_body]
fn start_query<'s, 'c>(p: &'s mut Prepared<'c>) -> (r: Result<rusqlite::Rows<'s>, rusqlite::Error>) {
    p.stmt.query([])
}

/// Relies on rusqlite::Rows::next: the next row, None once all rows have
/// been retrieved, or a driver error.
#[verifier::external_body]
fn rows_next<'s, 'c>(rows: &'s mut rusqlite::Rows<'c>) -> (r: Result<
    Option<&'s rusqlite::Row<'c>>,
    rusqlite::Error,
>) {
    rows.next()
}

/// Relies on rusqlite::Row::get at type Value: the cell at column `idx` as
/// an owned value of whatever type the database holds there, or a driver
/// error when `idx` is out of range or the cell's text is not UTF-8.
#[verifier::external_body]
fn row_value(row: &rusqlite::Row<'_>, idx: usize) -> (r: Result<
    rusqlite::types::Value,
    rusqlite::Error,
>) {
    row.get(idx)
}

/// One database cell, as plain values the library can reason about. A real
/// (floating-point) cell keeps no payload: the library renders only
/// integer and text cells, and rejects the other kinds.
pub enum CellValue {
    Null,
    Int(i64),
    Real,
    Text(String),
    Blob(Vec<u8>),
}

/// Tells rusqlite's Value variants apart, one arm each, carrying the
/// integer, text and blob payloads over.
#[verifier::external_body]
fn value_to_cell(v: rusqlite::types::Value) -> (c: CellValue) {
    match v {
        rusqlite::types::Value::Null => CellValue::Null,
        rusqlite::types::Value::Integer(i) => CellValue::Int(i),
        rusqlite::types::Value::Real(_) => CellValue::Real,
        rusqlite::types::Value::Text(s) => CellValue::Text(s),
        rusqlite::types::Value::Blob(b) => CellValue::Blob(b),
    }
}

/// Relies on the Display impl of rusqlite::Error: its human-readable
/// message.
#[verifier::external_body]
fn error_message(e: &rusqlite::Error) -> (s: String) {
    format!("{}", e)
}

/// The text a cell renders to: integers in decimal, text as itself; null,
/// real and blob cells cannot be rendered.
pub open spec fn cell_rep(c: CellValue) -> Option<Seq<char>> {
    match c {
        CellValue::Int(i) => Some(int_rep(i as int)),
        CellValue::Text(s) => Some(s@),
        _ => None,
    }
}

/// The message reported for a cell that cannot be rendered as text.
pub open spec fn conv_err_text(col: int) -> Seq<char> {
    "cannot convert value to text at column index "@ + dec_rep(col as nat)
}

/// Renders one cell as text, or reports the column it failed at.
pub fn cell_to_string(c: CellValue, col: usize) -> (r: Result<String, String>)
    ensures
        cell_rep(c) matches Some(t) ==> (r matches Ok(s) && s@ == t),
        cell_rep(c) is None ==> (r matches Err(m) && m@ == conv_err_text(col as int)),
{
    match c {
        CellValue::Int(i) => Ok(i64_to_dec(i)),
        CellValue::Text(s) => Ok(s),
        _ => {
            let mut m = String::from_str("cannot convert value to text at column index ");
            m.append(u64_to_dec(col as u64).as_str());
            Err(m)
        },
    }
}

/// Reads the `n` cells of one result row and renders each as text.
fn materialize_row(row: &rusqlite::Row<'_>, n: usize) -> (r: Result<Vec<String>, String>)
    ensures
        r matches Ok(v) ==> v@.len() == n,
{
    let mut out: Vec<String> = Vec::new();
    for i in 0..n
        invariant
            out@.len() == i,
    {
        let v = match row_value(row, i) {
            Ok(v) => v,
            Err(e) => return Err(error_message(&e)),
        };
        match cell_to_string(value_to_cell(v), i) {
            Ok(s) => out.push(s),
            Err(m) => return Err(m),
        }
    }
    Ok(out)
}

/// Prepares `sql` and steps it once, for statements run for their effect
/// alone, never their rows.
fn execute_simple(conn: &rusqlite::Connection, sql: &str) -> (r: Result<(), String>) {
    let stmt = match prepare_statement(conn, sql) {
        Ok(s) => s,
        Err(e) => return Err(error_message(&e)),
    };
    let mut p = Prepared { stmt, named_ok: Ghost(false) };
    let mut rows = match start_query(&mut p) {
        Ok(r) => r,
        Err(e) => return Err(error_message(&e)),
    };
    match rows_next(&mut rows) {
        Ok(_) => Ok(()),
        Err(e) => Err(error_message(&e)),
    }
}

/// Checks that every schema cell of the open database is a text or null
/// cell whose content reads back, which the driver allows only for valid
/// UTF-8 text; a blob or numeric schema cell, whose bytes SQLite's text
/// coercion would pass through unchecked, is rejected outright. A result
/// column is named either by the query text, which is UTF-8 by
/// construction, or by this schema text, so a database that passes this
/// screen cannot put a non-UTF-8 name in front of the name accessor, whose
/// panic the driver offers no fallible way around. The screen also turns
/// away some unusual files the original would have queried (non-UTF-8 or
/// non-text bytes anywhere in schema text, even in tables the query never
/// touches); the error stays in the printed, non-fatal class.
fn screen_schema_text(conn: &rusqlite::Connection) -> (r: Result<(), String>) {
    let stmt = match prepare_statement(conn, "SELECT name, tbl_name, sql FROM sqlite_schema") {
        Ok(s) => s,
        Err(e) => return Err(error_message(&e)),
    };
    let mut p = Prepared { stmt, named_ok: Ghost(false) };
    let mut rows = match start_query(&mut p) {
        Ok(r) => r,
        Err(e) => return Err(error_message(&e)),
    };
    let mut seen: usize = 0;
    loop
        invariant
            seen <= usize::MAX,
        decreases usize::MAX - seen,
    {
        let next = match rows_next(&mut rows) {
            Ok(x) => x,
            Err(e) => return Err(error_message(&e)),
        };
        match next {
            None => {
                break ;
            },
            Some(row) => {
                if seen == usize::MAX {
                    return Err(String::from_str("schema too large to screen"));
                }
                for i in 0..3usize {
                    let v = match row_value(row, i) {
                        Ok(v) => v,
                        Err(e) => return Err(error_message(&e)),
                    };
                    match value_to_cell(v) {
                        CellValue::Text(_) => (),
                        CellValue::Null => (),
                        _ => return Err(String::from_str("database schema holds non-text content")),
                    }
                }
                seen = seen + 1;
            },
        }
    }
    Ok(())
}

/// Opens the database file at `path` and screens it: a transaction is
/// begun first, so the schema the screen reads is pinned and stays the
/// schema every later statement of the session is prepared and run
/// against (SQLite refuses to attach another database inside a
/// transaction, so no unscreened schema can arrive later). The caller
/// commits through `commit_session` when its work is done.
fn open_session(path: &str) -> (r: Result<Session, String>)
    ensures
        r matches Ok(s) ==> s.is_screened(),
{
    let conn = match open_connection(path) {
        Ok(c) => c,
        Err(e) => return Err(error_message(&e)),
    };
    match execute_simple(&conn, "BEGIN") {
        Ok(()) => (),
        Err(m) => return Err(m),
    }
    match screen_schema_text(&conn) {
        Ok(()) => (),
        Err(m) => return Err(m),
    }
    Ok(Session { conn, screen_ok: Ghost(true) })
}

/// Prepares `sql` as one statement on a screened session, handing the
/// screen's witness on to the statement.
fn session_prepare<'c>(sess: &'c Session, sql: &str) -> (r: Result<Prepared<'c>, String>)
    requires
        sess.is_screened(),
    ensures
        r matches Ok(p) ==> p.names_screened(),
{
    match prepare_statement(&sess.conn, sql) {
        Ok(stmt) => Ok(Prepared { stmt, named_ok: Ghost(true) }),
        Err(e) => Err(error_message(&e)),
    }
}

/// Commits the session's transaction, making any effect of the query
/// durable.
fn commit_session(sess: &Session) -> (r: Result<(), String>) {
    execute_simple(&sess.conn, "COMMIT")
}

/// Executes one self-contained query against the database file at `path`:
/// opens the file, screens the schema text under one pinned transaction,
/// prepares `query` as a single statement, records the column names in
/// declared order, executes with no bound parameters, renders every row to
/// text, and commits. On any failure the driver's message (or the library's
/// own screening or cell-conversion message) is returned instead, never a
/// partial result, and the transaction rolls back with the connection.
pub fn run_sqlite_query(path: &str, query: &str) -> (r: Result<QueryResult, String>)
    ensures
        r matches Ok(qr) ==> qr.wf(),
{
    let sess = match open_session(path) {
        Ok(s) => s,
        Err(m) => return Err(m),
    };
    let mut prepared = match session_prepare(&sess, query) {
        Ok(p) => p,
        Err(m) => return Err(m),
    };
    let n = statement_column_count(&prepared);
    let mut fields: Vec<String> = Vec::new();
    for i in 0..n
        invariant
            fields@.len() == i,
            prepared.names_screened(),
    {
        match statement_column_name(&prepared, i) {
            Ok(name) => fields.push(name),
            Err(e) => return Err(error_message(&e)),
        }
    }
    let mut rows = match start_query(&mut prepared) {
        Ok(r) => r,
        Err(e) => return Err(error_message(&e)),
    };
    let mut results: Vec<Vec<String>> = Vec::new();
    loop
        invariant
            fields@.len() == n,
            results@.len() <= usize::MAX,
            forall|j: int| 0 <= j < results@.len() ==> (#[trigger] results@[j])@.len() == n,
        decreases usize::MAX - results@.len(),
    {
        let next = match rows_next(&mut rows) {
            Ok(x) => x,
            Err(e) => return Err(error_message(&e)),
        };
        match next {
            None => {
                break ;
            },
            Some(row) => {
                // A Vec cannot hold more elements than usize::MAX, so a
                // result set past that limit cannot be materialized.
                if results.len() == usize::MAX {
                    return Err(String::from_str("result set too large to materialize"));
                }
                match materialize_row(row, n) {
                    Ok(vals) => results.push(vals),
                    Err(m) => return Err(m),
                }
            },
        }
    }
    match commit_session(&sess) {
        Ok(()) => (),
        Err(m) => return Err(m),
    }
    Ok(QueryResult { fields, rows: results })
}

} // verus!
