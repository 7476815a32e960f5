//! The narrow edge between the ledger and SQLite: connections, statements
//! with positional parameters, and result rows as plain values.

use vstd::prelude::*;

verus! {

#[verifier::external_type_specification]
#[verifier::external_body]
pub struct ExConnection(rusqlite::Connection);

#[verifier::external_type_specification]
#[verifier::external_body]
pub struct ExError(rusqlite::Error);

#[verifier::external_type_specification]
#[verifier::external_body]
pub struct ExValue(rusqlite::types::Value);

/// A value bound to a positional parameter of a statement.
#[derive(Clone, Debug, PartialEq, Eq)]
pub enum Param {
    Integer(i64),
    Text(String),
}

/// One column of a result row, by its SQLite storage class.
/// A floating-point value, which no column of the ledger holds, is only
/// recorded as such.
#[derive(Clone, Debug, PartialEq, Eq)]
pub enum Cell {
    Null,
    Integer(i64),
    Real,
    Text(String),
    Blob(Vec<u8>),
}

/// Relies on rusqlite's `From<i64>` and `From<String>` for `Value`: each
/// parameter becomes the SQLite value of the same storage class.
#[verifier::external_body]
fn param_value(p: &Param) -> rusqlite::types::Value {
    match p {
        Param::Integer(i) => rusqlite::types::Value::from(*i),
        Param::Text(s) => rusqlite::types::Value::from(s.clone()),
    }
}

/// Relies on the variants of rusqlite's `Value`: each becomes the cell of the
/// same storage class.
#[verifier::external_body]
fn cell_of(v: rusqlite::types::Value) -> Cell {
    match v {
        rusqlite::types::Value::Null => Cell::Null,
        rusqlite::types::Value::Integer(i) => Cell::Integer(i),
        rusqlite::types::Value::Real(_) => Cell::Real,
        rusqlite::types::Value::Text(s) => Cell::Text(s),
        rusqlite::types::Value::Blob(b) => Cell::Blob(b),
    }
}

/// Relies on rusqlite::Connection::open: opens the database file at `path`,
/// creating it when absent (`":memory:"` opens a private in-memory store).
#[verifier::external_body]
pub fn open_connection(path: &str) -> (r: Result<rusqlite::Connection, rusqlite::Error>) {
    rusqlite::Connection::open(path)
}

/// Relies on rusqlite::Connection::execute: runs one statement with the given
/// positional parameters and returns the number of rows it changed.
#[verifier::external_body]
pub fn execute(conn: &rusqlite::Connection, sql: &str, params: &Vec<Param>) -> (r: Result<
    usize,
    rusqlite::Error,
>) {
    conn.execute(sql, rusqlite::params_from_iter(params.iter().map(param_value)))
}

/// Relies on rusqlite::Statement::query_map, after Connection::prepare: runs
/// one statement and reads columns `0..width` of every row it yields, so that
/// each row returned holds exactly `width` cells (a missing column is an error).
#[verifier::external_body]
pub fn query(conn: &rusqlite::Connection, sql: &str, params: &Vec<Param>, width: usize) -> (r:
    Result<Vec<Vec<Cell>>, rusqlite::Error>)
    ensures
        r is Ok ==> forall|i: int| 0 <= i < r->Ok_0.len() ==> #[trigger] r->Ok_0[i].len() == width,
{
    let args = rusqlite::params_from_iter(params.iter().map(param_value));
    let mut stmt = conn.prepare(sql)?;
    let rows = stmt.query_map(args, |row| (0..width).map(|i| row.get(i).map(cell_of)).collect())?;
    rows.collect()
}

/// Relies on rusqlite::Error::sqlite_extended_error_code: the extended result
/// code that SQLite gave, when the error came from SQLite itself.
#[verifier::external_body]
pub fn extended_code(e: &rusqlite::Error) -> Option<i32> {
    e.sqlite_extended_error_code()
}

} // verus!
