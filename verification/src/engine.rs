//! The boundary to the storage engine.
//!
//! Everything here is a thin call into `rusqlite` or `std::sync`. What the
//! engine answers depends on the stored data, so most of these calls
//! promise nothing about their result; the adapter is verified for every
//! answer.

use crate::value::{engine_model, SqlModel};
use vstd::prelude::*;

verus! {

/// `rusqlite::Connection`, carried through without looking inside.
#[verifier::external_type_specification]
#[verifier::external_body]
pub struct ExConnection(rusqlite::Connection);

/// `rusqlite::Error`, carried through without looking inside.
#[verifier::external_type_specification]
#[verifier::external_body]
pub struct ExEngineError(rusqlite::Error);

/// `rusqlite::Transaction`, carried through without looking inside.
#[verifier::external_type_specification]
#[verifier::external_body]
pub struct ExTransaction<'c>(rusqlite::Transaction<'c>);

/// `rusqlite::Statement`, carried through without looking inside.
#[verifier::external_type_specification]
#[verifier::external_body]
pub struct ExPrepared<'c>(rusqlite::Statement<'c>);

/// `rusqlite::Rows`, carried through without looking inside.
#[verifier::external_type_specification]
#[verifier::external_body]
pub struct ExRows<'s>(rusqlite::Rows<'s>);

/// `rusqlite::Row`, carried through without looking inside.
#[verifier::external_type_specification]
#[verifier::external_body]
pub struct ExRow<'s>(rusqlite::Row<'s>);

/// `std::sync::Mutex`, carried through without looking inside.
#[verifier::external_type_specification]
#[verifier::external_body]
#[verifier::reject_recursive_types(T)]
pub struct ExMutex<T: ?Sized>(std::sync::Mutex<T>);

/// `std::sync::MutexGuard`, carried through without looking inside.
#[verifier::external_type_specification]
#[verifier::external_body]
#[verifier::reject_recursive_types(T)]
pub struct ExMutexGuard<'a, T: ?Sized + 'a>(std::sync::MutexGuard<'a, T>);

/// The cells of the row that a query currently stands on, one per column;
/// `None` for a cell that cannot be handed out as a value.
pub uninterp spec fn row_cells(row: &rusqlite::Row<'_>) -> Seq<Option<SqlModel>>;

/// The storage class and content of a cell that was read, if it could be.
pub open spec fn read_model(cell: Option<rusqlite::types::Value>) -> Option<SqlModel> {
    match cell {
        Some(raw) => Some(engine_model(raw)),
        None => None,
    }
}

/// Trusted: `Connection::open`, which opens the file for reading and
/// writing and creates it where it is missing.
#[verifier::external_body]
pub(crate) fn open_read_write(path: &str) -> (opened: Result<
    rusqlite::Connection,
    rusqlite::Error,
>) {
    rusqlite::Connection::open(path)
}

/// Trusted: `Connection::open_with_flags` with the read-only flag alone.
#[verifier::external_body]
pub(crate) fn open_read_only(path: &str) -> (opened: Result<
    rusqlite::Connection,
    rusqlite::Error,
>) {
    rusqlite::Connection::open_with_flags(path, rusqlite::OpenFlags::SQLITE_OPEN_READ_ONLY)
}

/// Trusted: `Mutex::new`.
#[verifier::external_body]
pub(crate) fn new_lock(conn: rusqlite::Connection) -> (lock: std::sync::Mutex<
    rusqlite::Connection,
>) {
    std::sync::Mutex::new(conn)
}

/// Trusted: `Mutex::lock`; `None` where the lock is poisoned.
#[verifier::external_body]
pub(crate) fn lock<'a>(lock: &'a std::sync::Mutex<rusqlite::Connection>) -> (guard: Option<
    std::sync::MutexGuard<'a, rusqlite::Connection>,
>) {
    lock.lock().ok()
}

/// Trusted: the connection behind a held lock.
#[verifier::external_body]
pub(crate) fn locked<'a, 'b>(
    guard: &'a std::sync::MutexGuard<'b, rusqlite::Connection>,
) -> (conn: &'a rusqlite::Connection) {
    std::ops::Deref::deref(guard)
}

/// Trusted: `Connection::execute` with positional parameters; the number
/// of rows that the statement changed.
#[verifier::external_body]
pub(crate) fn execute(
    conn: &rusqlite::Connection,
    sql: &str,
    params: &Vec<rusqlite::types::Value>,
) -> (changed: Result<usize, rusqlite::Error>) {
    conn.execute(sql, rusqlite::params_from_iter(params.iter()))
}

/// Trusted: `Connection::last_insert_rowid`.
#[verifier::external_body]
pub(crate) fn last_insert_rowid(conn: &rusqlite::Connection) -> (id: i64) {
    conn.last_insert_rowid()
}

/// Trusted: `Connection::prepare`.
#[verifier::external_body]
pub(crate) fn prepare<'c>(conn: &'c rusqlite::Connection, sql: &str) -> (prepared: Result<
    rusqlite::Statement<'c>,
    rusqlite::Error,
>) {
    conn.prepare(sql)
}

/// Trusted: `Statement::query` with positional parameters.
#[verifier::external_body]
pub(crate) fn query<'s, 'c>(
    prepared: &'s mut rusqlite::Statement<'c>,
    params: &Vec<rusqlite::types::Value>,
) -> (rows: Result<rusqlite::Rows<'s>, rusqlite::Error>) {
    prepared.query(rusqlite::params_from_iter(params.iter()))
}

/// Trusted: `Rows::next`; `Ok(None)` after the last row.
#[verifier::external_body]
pub(crate) fn next_row<'r, 's>(rows: &'r mut rusqlite::Rows<'s>) -> (row: Result<
    Option<&'r rusqlite::Row<'s>>,
    rusqlite::Error,
>) {
    rows.next()
}

/// Trusted: `Statement::column_count` of the row's statement; a row has
/// one cell for each column.
#[verifier::external_body]
pub(crate) fn column_count(row: &rusqlite::Row<'_>) -> (count: usize)
    ensures
        count == row_cells(row).len(),
{
    row.as_ref().column_count()
}

/// Trusted: `Row::get` into a `rusqlite::types::Value`; `None` where the
/// cell cannot be handed out (text that is not UTF-8).
#[verifier::external_body]
pub(crate) fn read_cell(row: &rusqlite::Row<'_>, index: usize) -> (cell: Option<
    rusqlite::types::Value,
>)
    requires
        index < row_cells(row).len(),
    ensures
        read_model(cell) == row_cells(row)[index as int],
{
    row.get::<usize, rusqlite::types::Value>(index).ok()
}

/// Trusted: `Connection::unchecked_transaction`.
#[verifier::external_body]
pub(crate) fn begin<'c>(conn: &'c rusqlite::Connection) -> (tx: Result<
    rusqlite::Transaction<'c>,
    rusqlite::Error,
>) {
    conn.unchecked_transaction()
}

/// Trusted: the connection that a transaction runs on.
#[verifier::external_body]
pub(crate) fn within<'a, 'c>(tx: &'a rusqlite::Transaction<'c>) -> (conn: &'a rusqlite::Connection) {
    std::ops::Deref::deref(tx)
}

/// Trusted: `Transaction::commit`.
#[verifier::external_body]
pub(crate) fn commit(tx: rusqlite::Transaction<'_>) -> (done: Result<(), rusqlite::Error>) {
    tx.commit()
}

/// Trusted: `Transaction::rollback`.
#[verifier::external_body]
pub(crate) fn rollback(tx: rusqlite::Transaction<'_>) -> (done: Result<(), rusqlite::Error>) {
    tx.rollback()
}

/// Trusted: the engine's own words for an error, by its `Display`.
#[verifier::external_body]
pub(crate) fn error_text(error: &rusqlite::Error) -> (text: String) {
    error.to_string()
}

} // verus!
