//! The comment store: two relations beside the user's tables, one comment
//! per table and one per column, created when they are first needed.

use crate::catalog::{
    first_of, quoted_context, read_counted, row_views, text_params_1, text_params_2,
    text_params_3,
};
use crate::engine::{begin, commit, within};
use crate::error::{engine_refused, AdapterError, ErrorModel};
use crate::rows::{fetch_cells, refused, run, run_plain};
use crate::schema::{cell_views, text_view, ColumnInfo};
use crate::statement::SqlStatement;
use crate::text::{decimal, unsigned_to_text};
use crate::value::{sql_views, SqlModel, SqlValue};
use vstd::prelude::*;
use vstd::string::StringExecFns;

verus! {

/// Reads the answer of a comment query: no row is no comment.
pub fn read_comment(cell: Option<Option<SqlValue>>) -> (comment: Result<
    Option<String>,
    AdapterError,
>)
    ensures
        match cell {
            None => comment == Ok::<Option<String>, AdapterError>(None),
            Some(Some(SqlValue::Text(text))) => comment matches Ok(Some(found)) && found@
                == text@,
            _ => comment == Err::<Option<String>, AdapterError>(AdapterError::MalformedRow),
        },
{
    match cell {
        None => Ok(None),
        Some(Some(SqlValue::Text(text))) => Ok(Some(text)),
        _ => Err(AdapterError::MalformedRow),
    }
}

/// Whether the comment relations have to be created: either is missing.
pub fn needs_comment_tables(table_comments: i64, column_comments: i64) -> (needed: bool)
    ensures
        needed == (table_comments == 0 || column_comments == 0),
{
    table_comments == 0 || column_comments == 0
}

/// The statement that creates the relation of table comments.
pub open spec fn table_comment_ddl() -> Seq<char> {
    "CREATE TABLE IF NOT EXISTS [_table_comment] (
  [id] INTEGER PRIMARY KEY AUTOINCREMENT,
  [table_name] TEXT NOT NULL,
  [table_desc] TEXT NOT NULL,
  [ctime] INTEGER DEFAULT (strftime('%s', 'now')),
  [utime] INTEGER DEFAULT (strftime('%s', 'now')),
  UNIQUE ([table_name])
)"@
}

/// The statement that creates the relation of column comments.
pub open spec fn column_comment_ddl() -> Seq<char> {
    "CREATE TABLE IF NOT EXISTS [_table_column_comment] (
  [id] INTEGER PRIMARY KEY AUTOINCREMENT,
  [table_name] TEXT NOT NULL,
  [column_name] TEXT NOT NULL,
  [column_desc] TEXT
)"@
}

/// The statement that keeps one comment per column of a table.
pub open spec fn column_comment_index_ddl() -> Seq<char> {
    "CREATE UNIQUE INDEX IF NOT EXISTS [idx_table_column_unique] ON [_table_column_comment] ([table_name], [column_name])"@
}

/// The statements that create the comment relations and the index that
/// keeps one comment per column, in the order in which they run.
pub fn comment_table_statements() -> (statements: Vec<&'static str>)
    ensures
        statements@.len() == 3,
        statements@[0]@ == table_comment_ddl(),
        statements@[1]@ == column_comment_ddl(),
        statements@[2]@ == column_comment_index_ddl(),
{
    let mut statements: Vec<&'static str> = Vec::new();
    statements.push(
        "CREATE TABLE IF NOT EXISTS [_table_comment] (
  [id] INTEGER PRIMARY KEY AUTOINCREMENT,
  [table_name] TEXT NOT NULL,
  [table_desc] TEXT NOT NULL,
  [ctime] INTEGER DEFAULT (strftime('%s', 'now')),
  [utime] INTEGER DEFAULT (strftime('%s', 'now')),
  UNIQUE ([table_name])
)",
    );
    statements.push(
        "CREATE TABLE IF NOT EXISTS [_table_column_comment] (
  [id] INTEGER PRIMARY KEY AUTOINCREMENT,
  [table_name] TEXT NOT NULL,
  [column_name] TEXT NOT NULL,
  [column_desc] TEXT
)",
    );
    statements.push(
        "CREATE UNIQUE INDEX IF NOT EXISTS [idx_table_column_unique] ON [_table_column_comment] ([table_name], [column_name])",
    );
    statements
}

/// What was being done when one of the creating statements ran.
pub open spec fn creating_context(index: nat) -> Seq<char> {
    "Failed to execute DDL statement "@ + decimal(index)
}

/// The steps of making sure that the comment relations exist, as an engine
/// failure at that step names them.
pub open spec fn is_setup_context(context: Seq<char>) -> bool {
    ||| context == "Failed to check if _table_comment exists"@
    ||| context == "Failed to check if _table_column_comment exists"@
    ||| context == "Failed to begin transaction for creating auxiliary tables"@
    ||| exists|index: nat| index < 3 && context == #[trigger] creating_context(index)
    ||| context == "Failed to commit transaction for creating auxiliary tables"@
    ||| context == "Failed to verify _table_comment was created"@
    ||| context == "Failed to verify _table_column_comment was created"@
    ||| context == "Failed to create index on _table_column_comment"@
}

/// The engine refused one of the steps of making sure that the comment
/// relations exist.
pub open spec fn setup_refused(e: ErrorModel) -> bool {
    e matches ErrorModel::Engine { context, .. } && is_setup_context(context)
}

/// What was being done when the default comment of a table was stored.
pub open spec fn default_table_comment_context(table: Seq<char>) -> Seq<char> {
    "Failed to initialize default table comment for '"@ + table + "'"@
}

/// What was being done when the default comment of a column was stored.
pub open spec fn default_column_comment_context(table: Seq<char>, column: Seq<char>) -> Seq<
    char,
> {
    "Failed to initialize default column comment for '"@ + table + "."@ + column + "'"@
}

/// What was being done when the comment of a table was looked up.
pub open spec fn table_comment_context(table: Seq<char>) -> Seq<char> {
    "Failed to query table comment for '"@ + table + "'"@
}

/// What was being done when the comment of a column was looked up.
pub open spec fn column_comment_context(table: Seq<char>, column: Seq<char>) -> Seq<char> {
    "Failed to query column comment for '"@ + table + "."@ + column + "'"@
}

/// The comment that an answer holds in the first cell of its first row:
/// `Some(None)` where the answer holds no row, `None` where its first cell
/// is no text.
pub open spec fn comment_in(rows: Seq<Seq<Option<SqlModel>>>) -> Option<Option<Seq<char>>> {
    if rows.len() == 0 {
        Some(None)
    } else if rows[0].len() > 0 {
        match rows[0][0] {
            Some(SqlModel::Text(text)) => Some(Some(text)),
            _ => None,
        }
    } else {
        None
    }
}

/// Reads the comment from the answer of a comment query: no row is no
/// comment. Fails where the answer holds something else than a text.
pub fn read_stored_comment(rows: Vec<Vec<Option<SqlValue>>>) -> (comment: Result<
    Option<String>,
    AdapterError,
>)
    ensures
        match comment_in(row_views(rows@)) {
            Some(stored) => comment matches Ok(found) && text_view(found) == stored,
            None => comment == Err::<Option<String>, AdapterError>(AdapterError::MalformedRow),
        },
{
    proof {
        if rows@.len() > 0 {
            assert(row_views(rows@)[0] == cell_views(rows@[0]@));
            if rows@[0]@.len() > 0 {
                assert(cell_views(rows@[0]@)[0] == crate::value::cell_view(rows@[0]@[0]));
            }
        }
    }
    read_comment(first_of(rows)?)
}

/// The statement that counts the relations of table comments.
pub fn table_comment_count_statement() -> (statement: SqlStatement)
    ensures
        statement.sql@
            == "SELECT COUNT(*) FROM sqlite_master WHERE type='table' AND name='_table_comment'"@,
        sql_views(statement.params@) == Seq::<SqlModel>::empty(),
{
    SqlStatement {
        sql: String::from_str(
            "SELECT COUNT(*) FROM sqlite_master WHERE type='table' AND name='_table_comment'",
        ),
        params: Vec::new(),
    }
}

/// The statement that counts the relations of column comments.
pub fn column_comment_count_statement() -> (statement: SqlStatement)
    ensures
        statement.sql@
            == "SELECT COUNT(*) FROM sqlite_master WHERE type='table' AND name='_table_column_comment'"@,
        sql_views(statement.params@) == Seq::<SqlModel>::empty(),
{
    SqlStatement {
        sql: String::from_str(
            "SELECT COUNT(*) FROM sqlite_master WHERE type='table' AND name='_table_column_comment'",
        ),
        params: Vec::new(),
    }
}

/// The statement that makes sure of the index on relations that exist
/// already: one comment per column of a table.
pub fn comment_index_statement() -> (statement: SqlStatement)
    ensures
        statement.sql@
            == "CREATE UNIQUE INDEX IF NOT EXISTS [idx_table_column_unique] ON [_table_column_comment] ([table_name] ASC, [column_name] ASC)"@,
        sql_views(statement.params@) == Seq::<SqlModel>::empty(),
{
    SqlStatement {
        sql: String::from_str(
            "CREATE UNIQUE INDEX IF NOT EXISTS [idx_table_column_unique] ON [_table_column_comment] ([table_name] ASC, [column_name] ASC)",
        ),
        params: Vec::new(),
    }
}

/// The statement that stores the name of a table as its comment unless a
/// comment is stored for it already: a stored comment is never replaced.
pub fn default_table_comment_statement(table: &str) -> (statement: SqlStatement)
    ensures
        statement.sql@
            == "INSERT OR IGNORE INTO _table_comment (table_name, table_desc) VALUES (?, ?)"@,
        sql_views(statement.params@) == seq![SqlModel::Text(table@), SqlModel::Text(table@)],
{
    SqlStatement {
        sql: String::from_str(
            "INSERT OR IGNORE INTO _table_comment (table_name, table_desc) VALUES (?, ?)",
        ),
        params: text_params_2(table, table),
    }
}

/// The statement that stores the name of a column as its comment unless a
/// comment is stored for it already: a stored comment is never replaced.
pub fn default_column_comment_statement(table: &str, column: &str) -> (statement: SqlStatement)
    ensures
        statement.sql@
            == "INSERT OR IGNORE INTO _table_column_comment (table_name, column_name, column_desc) VALUES (?, ?, ?)"@,
        sql_views(statement.params@) == seq![
            SqlModel::Text(table@),
            SqlModel::Text(column@),
            SqlModel::Text(column@),
        ],
{
    SqlStatement {
        sql: String::from_str(
            "INSERT OR IGNORE INTO _table_column_comment (table_name, column_name, column_desc) VALUES (?, ?, ?)",
        ),
        params: text_params_3(table, column, column),
    }
}

/// The statement that looks up the comment stored for a table.
pub fn table_comment_query(table: &str) -> (statement: SqlStatement)
    ensures
        statement.sql@ == "SELECT table_desc FROM _table_comment WHERE table_name = ?"@,
        sql_views(statement.params@) == seq![SqlModel::Text(table@)],
{
    SqlStatement {
        sql: String::from_str("SELECT table_desc FROM _table_comment WHERE table_name = ?"),
        params: text_params_1(table),
    }
}

/// The statement that looks up the comment stored for a column.
pub fn column_comment_query(table: &str, column: &str) -> (statement: SqlStatement)
    ensures
        statement.sql@
            == "SELECT column_desc FROM _table_column_comment WHERE table_name = ? AND column_name = ?"@,
        sql_views(statement.params@) == seq![SqlModel::Text(table@), SqlModel::Text(column@)],
{
    SqlStatement {
        sql: String::from_str(
            "SELECT column_desc FROM _table_column_comment WHERE table_name = ? AND column_name = ?",
        ),
        params: text_params_2(table, column),
    }
}

/// The statement that stores `desc` as the comment of a table, in place of
/// the one stored for it, if any.
pub fn table_comment_statement(table: &str, desc: &str) -> (statement: SqlStatement)
    ensures
        statement.sql@
            == "INSERT OR REPLACE INTO _table_comment (table_name, table_desc) VALUES (?, ?)"@,
        sql_views(statement.params@) == seq![SqlModel::Text(table@), SqlModel::Text(desc@)],
{
    SqlStatement {
        sql: String::from_str(
            "INSERT OR REPLACE INTO _table_comment (table_name, table_desc) VALUES (?, ?)",
        ),
        params: text_params_2(table, desc),
    }
}

/// The statement that stores `desc` as the comment of a column, in place
/// of the one stored for it, if any.
pub fn column_comment_statement(table: &str, column: &str, desc: &str) -> (statement:
    SqlStatement)
    ensures
        statement.sql@
            == "INSERT OR REPLACE INTO _table_column_comment (table_name, column_name, column_desc) VALUES (?, ?, ?)"@,
        sql_views(statement.params@) == seq![
            SqlModel::Text(table@),
            SqlModel::Text(column@),
            SqlModel::Text(desc@),
        ],
{
    SqlStatement {
        sql: String::from_str(
            "INSERT OR REPLACE INTO _table_column_comment (table_name, column_name, column_desc) VALUES (?, ?, ?)",
        ),
        params: text_params_3(table, column, desc),
    }
}

/// What was being done when the comment of a table was stored.
pub open spec fn set_table_comment_context(table: Seq<char>) -> Seq<char> {
    "Failed to set table comment for '"@ + table + "'"@
}

/// What was being done when the comment of a column was stored.
pub open spec fn set_column_comment_context(table: Seq<char>, column: Seq<char>) -> Seq<char> {
    "Failed to set column comment for '"@ + table + "."@ + column + "'"@
}

/// Builds the words for a failure to store the comment of a table.
pub fn set_table_comment_words(table: &str) -> (context: String)
    ensures
        context@ == set_table_comment_context(table@),
{
    quoted_context("Failed to set table comment for '", table, "'")
}

/// Builds the words for a failure to store the comment of a column.
pub fn set_column_comment_words(table: &str, column: &str) -> (context: String)
    ensures
        context@ == set_column_comment_context(table@, column@),
{
    let mut context = quoted_context("Failed to set column comment for '", table, ".");
    context.append(column);
    context.append("'");
    context
}

/// The engine refused one of the steps of reading the schema of a table:
/// asking for its columns, making sure of the comment relations, storing
/// a default comment, or looking a comment up.
pub open spec fn schema_refused(e: ErrorModel, table: Seq<char>) -> bool {
    ||| engine_refused(e, ""@)
    ||| setup_refused(e)
    ||| engine_refused(e, default_table_comment_context(table))
    ||| engine_refused(e, table_comment_context(table))
    ||| exists|column: Seq<char>|
        engine_refused(e, #[trigger] default_column_comment_context(table, column))
    ||| exists|column: Seq<char>|
        engine_refused(e, #[trigger] column_comment_context(table, column))
}

fn statement_context(index: usize) -> (context: String)
    ensures
        context@ == creating_context(index as nat),
{
    let mut context = String::from_str("Failed to execute DDL statement ");
    let digits = unsigned_to_text(index as u64);
    context.append(digits.as_str());
    context
}

/// Makes sure that the two comment relations and their index exist.
/// Returns whether the relations had to be created. An engine failure
/// names the step at which it came.
pub(crate) fn ensure_auxiliary_tables_exist(conn: &rusqlite::Connection) -> (created: Result<
    bool,
    AdapterError,
>)
    ensures
        created matches Err(e) ==> setup_refused(e@) || e is TooManyRows || e is MalformedRow,
{
    let table_comments = read_counted(
        fetch_cells(
            conn,
            &table_comment_count_statement(),
            "Failed to check if _table_comment exists",
        )?,
    )?;
    let column_comments = read_counted(
        fetch_cells(
            conn,
            &column_comment_count_statement(),
            "Failed to check if _table_column_comment exists",
        )?,
    )?;
    if needs_comment_tables(table_comments, column_comments) {
        let tx = match begin(conn) {
            Ok(tx) => tx,
            Err(e) => {
                return Err(
                    refused("Failed to begin transaction for creating auxiliary tables", &e),
                );
            },
        };
        let statements = comment_table_statements();
        let mut i: usize = 0;
        while i < statements.len()
            invariant
                i <= statements.len(),
                statements@.len() == 3,
            decreases statements.len() - i,
        {
            let context = statement_context(i);
            assert(is_setup_context(creating_context(i as nat)));
            run_plain(within(&tx), statements[i], context.as_str())?;
            i = i + 1;
        }
        match commit(tx) {
            Ok(_) => {},
            Err(e) => {
                return Err(
                    refused("Failed to commit transaction for creating auxiliary tables", &e),
                );
            },
        }
        read_counted(
            fetch_cells(
                conn,
                &table_comment_count_statement(),
                "Failed to verify _table_comment was created",
            )?,
        )?;
        read_counted(
            fetch_cells(
                conn,
                &column_comment_count_statement(),
                "Failed to verify _table_column_comment was created",
            )?,
        )?;
        return Ok(true);
    }
    run(conn, &comment_index_statement(), "Failed to create index on _table_column_comment")?;
    Ok(false)
}

/// Stores the name of a table as its comment, unless one is stored
/// already. An engine failure says that this was being done, and for
/// which table.
pub(crate) fn initialize_default_table_comment(conn: &rusqlite::Connection, table: &str) -> (done: Result<
    (),
    AdapterError,
>)
    ensures
        done matches Err(e) ==> engine_refused(e@, default_table_comment_context(table@)),
{
    let context = quoted_context("Failed to initialize default table comment for '", table, "'");
    run(conn, &default_table_comment_statement(table), context.as_str())?;
    Ok(())
}

/// Stores the name of each column as its comment, unless one is stored
/// already. With no column there is nothing to store. An engine failure
/// says that this was being done, and for which column.
pub(crate) fn initialize_default_column_comments(
    conn: &rusqlite::Connection,
    table: &str,
    columns: &Vec<ColumnInfo>,
) -> (done: Result<(), AdapterError>)
    ensures
        columns@.len() == 0 ==> done is Ok,
        done matches Err(e) ==> exists|i: int|
            0 <= i < columns@.len() && engine_refused(
                e@,
                default_column_comment_context(table@, (#[trigger] columns@[i])@.name),
            ),
{
    let mut i: usize = 0;
    while i < columns.len()
        invariant
            i <= columns.len(),
        decreases columns.len() - i,
    {
        let name = columns[i].name.as_str();
        let mut context = quoted_context(
            "Failed to initialize default column comment for '",
            table,
            ".",
        );
        context.append(name);
        context.append("'");
        run(conn, &default_column_comment_statement(table, name), context.as_str())?;
        i = i + 1;
    }
    Ok(())
}

/// Looks up the comment stored for a table, if any. An engine failure
/// says that this was being looked up, and for which table.
pub(crate) fn get_table_comment(conn: &rusqlite::Connection, table: &str) -> (comment: Result<
    Option<String>,
    AdapterError,
>)
    ensures
        comment matches Err(e) ==> engine_refused(e@, table_comment_context(table@)) || e
            is TooManyRows || e is MalformedRow,
{
    let context = quoted_context("Failed to query table comment for '", table, "'");
    let rows = fetch_cells(conn, &table_comment_query(table), context.as_str())?;
    read_stored_comment(rows)
}

/// Looks up the comment stored for a column, if any. An engine failure
/// says that this was being looked up, and for which column.
pub(crate) fn get_column_comment(conn: &rusqlite::Connection, table: &str, column: &str) -> (comment: Result<
    Option<String>,
    AdapterError,
>)
    ensures
        comment matches Err(e) ==> engine_refused(e@, column_comment_context(table@, column@))
            || e is TooManyRows || e is MalformedRow,
{
    let mut context = quoted_context("Failed to query column comment for '", table, ".");
    context.append(column);
    context.append("'");
    let rows = fetch_cells(conn, &column_comment_query(table, column), context.as_str())?;
    read_stored_comment(rows)
}

} // verus!
