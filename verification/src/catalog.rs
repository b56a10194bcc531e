//! What the engine knows of the tables, read from its answers: their
//! columns, their identity column, their names, and whether a table or a
//! column exists.

use crate::error::{AdapterError, ErrorModel};
use crate::schema::{
    cell_views, column_of, column_views, identity_column, required_text, resolve_primary_key,
    ColumnInfo, ColumnModel,
};
use crate::statement::SqlStatement;
use crate::text::string_views;
use crate::value::{sql_views, SqlModel, SqlValue};
use vstd::prelude::*;
use vstd::string::StringExecFns;

verus! {

/// The rows of an answer, each as the views of its cells.
pub open spec fn row_views(rows: Seq<Vec<Option<SqlValue>>>) -> Seq<Seq<Option<SqlModel>>> {
    rows.map_values(|r: Vec<Option<SqlValue>>| cell_views(r@))
}

/// Every row of an answer to `PRAGMA table_info` describes a column.
pub open spec fn all_columns(rows: Seq<Seq<Option<SqlModel>>>) -> bool {
    forall|i: int| 0 <= i < rows.len() ==> column_of(#[trigger] rows[i]) is Some
}

/// The columns that the rows of an answer to `PRAGMA table_info` describe,
/// in the order of the rows.
pub open spec fn columns_in(rows: Seq<Seq<Option<SqlModel>>>) -> Seq<ColumnModel> {
    rows.map_values(|r: Seq<Option<SqlModel>>| column_of(r)->Some_0)
}

/// Reads the columns from the rows of an answer to `PRAGMA table_info`.
/// Fails where a row does not describe a column.
pub fn read_columns(rows: &Vec<Vec<Option<SqlValue>>>) -> (columns: Result<
    Vec<ColumnInfo>,
    AdapterError,
>)
    ensures
        all_columns(row_views(rows@)) ==> (columns matches Ok(read) && column_views(read@)
            == columns_in(row_views(rows@))),
        !all_columns(row_views(rows@)) ==> columns == Err::<Vec<ColumnInfo>, AdapterError>(
            AdapterError::MalformedRow,
        ),
{
    let ghost views = row_views(rows@);
    let mut columns: Vec<ColumnInfo> = Vec::new();
    let mut i: usize = 0;
    while i < rows.len()
        invariant
            i <= rows.len(),
            views == row_views(rows@),
            columns@.len() == i,
            forall|k: int|
                0 <= k < i ==> column_of(views[k]) == Some((#[trigger] columns@[k])@),
        decreases rows.len() - i,
    {
        assert(views[i as int] == cell_views(rows@[i as int]@));
        match ColumnInfo::from_cells(&rows[i]) {
            Ok(column) => {
                columns.push(column);
            },
            Err(e) => {
                assert(column_of(views[i as int]) is None);
                return Err(e);
            },
        }
        i = i + 1;
    }
    assert forall|k: int| 0 <= k < views.len() implies column_of(#[trigger] views[k]) is Some by {
        assert(column_of(views[k]) == Some(columns@[k]@));
    }
    assert(column_views(columns@) =~= columns_in(views));
    Ok(columns)
}

/// The first cell of the first row of an answer: `None` where the answer
/// holds no row. Fails where the first row holds no cell.
pub fn first_of(rows: Vec<Vec<Option<SqlValue>>>) -> (cell: Result<
    Option<Option<SqlValue>>,
    AdapterError,
>)
    ensures
        rows@.len() == 0 ==> cell == Ok::<Option<Option<SqlValue>>, AdapterError>(None),
        rows@.len() > 0 && rows@[0]@.len() == 0 ==> cell == Err::<
            Option<Option<SqlValue>>,
            AdapterError,
        >(AdapterError::MalformedRow),
        rows@.len() > 0 && rows@[0]@.len() > 0 ==> cell == Ok::<
            Option<Option<SqlValue>>,
            AdapterError,
        >(Some(rows@[0]@[0])),
{
    let mut rows = rows;
    if rows.len() == 0 {
        return Ok(None);
    }
    let mut first = rows.swap_remove(0);
    if first.len() == 0 {
        return Err(AdapterError::MalformedRow);
    }
    Ok(Some(first.swap_remove(0)))
}

/// Reads the answer of a counting query.
pub fn read_count(cell: Option<Option<SqlValue>>) -> (count: Result<i64, AdapterError>)
    ensures
        match cell {
            Some(Some(SqlValue::Integer(n))) => count == Ok::<i64, AdapterError>(n),
            _ => count == Err::<i64, AdapterError>(AdapterError::MalformedRow),
        },
{
    match cell {
        Some(Some(SqlValue::Integer(n))) => Ok(n),
        _ => Err(AdapterError::MalformedRow),
    }
}

pub(crate) fn text_params_1(a: &str) -> (params: Vec<SqlValue>)
    ensures
        sql_views(params@) == seq![SqlModel::Text(a@)],
{
    let mut params: Vec<SqlValue> = Vec::new();
    params.push(SqlValue::Text(String::from_str(a)));
    params
}

pub(crate) fn text_params_2(a: &str, b: &str) -> (params: Vec<SqlValue>)
    ensures
        sql_views(params@) == seq![SqlModel::Text(a@), SqlModel::Text(b@)],
{
    let mut params: Vec<SqlValue> = Vec::new();
    params.push(SqlValue::Text(String::from_str(a)));
    params.push(SqlValue::Text(String::from_str(b)));
    params
}

pub(crate) fn text_params_3(a: &str, b: &str, c: &str) -> (params: Vec<SqlValue>)
    ensures
        sql_views(params@) == seq![
            SqlModel::Text(a@),
            SqlModel::Text(b@),
            SqlModel::Text(c@),
        ],
{
    let mut params: Vec<SqlValue> = Vec::new();
    params.push(SqlValue::Text(String::from_str(a)));
    params.push(SqlValue::Text(String::from_str(b)));
    params.push(SqlValue::Text(String::from_str(c)));
    params
}

pub(crate) fn quoted_context(before: &str, name: &str, after: &str) -> (context: String)
    ensures
        context@ == before@ + name@ + after@,
{
    let mut context = String::from_str(before);
    context.append(name);
    context.append(after);
    context
}

/// What was being done when the engine was asked whether a table exists.
pub open spec fn table_check_context(table: Seq<char>) -> Seq<char> {
    "Failed to check if table '"@ + table + "' exists"@
}

/// What was being done when the engine was asked whether a column exists.
pub open spec fn column_check_context(table: Seq<char>, column: Seq<char>) -> Seq<char> {
    "Failed to check if column '"@ + table + "'.'"@ + column + "' exists"@
}

/// Whether a count says that there is at least one.
pub fn is_present(count: i64) -> (present: bool)
    ensures
        present == (count > 0),
{
    count > 0
}

/// The identity column that the rows of an answer to `PRAGMA table_info`
/// give a table: `None` where a row does not describe a column, else what
/// the columns resolve to.
pub open spec fn identity_in(rows: Seq<Seq<Option<SqlModel>>>) -> Option<Option<Seq<char>>> {
    if all_columns(rows) {
        Some(identity_column(columns_in(rows)))
    } else {
        None
    }
}

/// Resolves the identity column of a table from the rows of an answer to
/// `PRAGMA table_info`. Fails where a row does not describe a column, and
/// where the columns declare a composite primary key: there is no falling
/// back to the row identity then.
pub fn read_identity(rows: &Vec<Vec<Option<SqlValue>>>) -> (key: Result<String, AdapterError>)
    ensures
        match identity_in(row_views(rows@)) {
            Some(Some(name)) => key matches Ok(found) && found@ == name,
            Some(None) => key == Err::<String, AdapterError>(AdapterError::CompositePrimaryKey),
            None => key == Err::<String, AdapterError>(AdapterError::MalformedRow),
        },
{
    let columns = read_columns(rows)?;
    resolve_primary_key(&columns)
}

/// The count that an answer holds in the first cell of its first row.
pub open spec fn count_in(rows: Seq<Seq<Option<SqlModel>>>) -> Option<i64> {
    if rows.len() > 0 && rows[0].len() > 0 {
        match rows[0][0] {
            Some(SqlModel::Integer(n)) => Some(n),
            _ => None,
        }
    } else {
        None
    }
}

/// Reads the answer of a presence query: whether it counts at least one.
/// Fails where the answer holds no count.
pub fn read_presence(rows: Vec<Vec<Option<SqlValue>>>) -> (present: Result<bool, AdapterError>)
    ensures
        match count_in(row_views(rows@)) {
            Some(n) => present == Ok::<bool, AdapterError>(n > 0),
            None => present == Err::<bool, AdapterError>(AdapterError::MalformedRow),
        },
{
    proof {
        if rows@.len() > 0 {
            assert(row_views(rows@)[0] == cell_views(rows@[0]@));
            if rows@[0]@.len() > 0 {
                assert(cell_views(rows@[0]@)[0] == crate::value::cell_view(rows@[0]@[0]));
            }
        }
    }
    let count = read_count(first_of(rows)?)?;
    Ok(is_present(count))
}

/// Reads the count of a counting query. Fails where the answer holds no
/// count.
pub fn read_counted(rows: Vec<Vec<Option<SqlValue>>>) -> (count: Result<i64, AdapterError>)
    ensures
        match count_in(row_views(rows@)) {
            Some(n) => count == Ok::<i64, AdapterError>(n),
            None => count == Err::<i64, AdapterError>(AdapterError::MalformedRow),
        },
{
    proof {
        if rows@.len() > 0 {
            assert(row_views(rows@)[0] == cell_views(rows@[0]@));
            if rows@[0]@.len() > 0 {
                assert(cell_views(rows@[0]@)[0] == crate::value::cell_view(rows@[0]@[0]));
            }
        }
    }
    read_count(first_of(rows)?)
}

/// A comment may be set on a table that exists, and on no other.
pub fn require_table(present: bool, table: &str) -> (allowed: Result<(), AdapterError>)
    ensures
        present ==> allowed is Ok,
        !present ==> (allowed matches Err(e) && e@ == (ErrorModel::TableNotFound {
            table: table@,
        })),
{
    if present {
        Ok(())
    } else {
        Err(AdapterError::TableNotFound { table: String::from_str(table) })
    }
}

/// A comment may be set on a column that exists, and on no other.
pub fn require_column(present: bool, table: &str, column: &str) -> (allowed: Result<
    (),
    AdapterError,
>)
    ensures
        present ==> allowed is Ok,
        !present ==> (allowed matches Err(e) && e@ == (ErrorModel::ColumnNotFound {
            table: table@,
            column: column@,
        })),
{
    if present {
        Ok(())
    } else {
        Err(
            AdapterError::ColumnNotFound {
                table: String::from_str(table),
                column: String::from_str(column),
            },
        )
    }
}

/// The statement that lists the user tables: every table but the engine's
/// own, whose names begin with `sqlite_`, in the order of their names.
pub fn list_tables_statement() -> (statement: SqlStatement)
    ensures
        statement.sql@
            == "SELECT name FROM sqlite_master WHERE type='table' AND name NOT LIKE 'sqlite_%' ORDER BY name"@,
        sql_views(statement.params@) == Seq::<SqlModel>::empty(),
{
    SqlStatement {
        sql: String::from_str(
            "SELECT name FROM sqlite_master WHERE type='table' AND name NOT LIKE 'sqlite_%' ORDER BY name",
        ),
        params: Vec::new(),
    }
}

/// The statement that counts the tables named `table`.
pub fn table_exists_statement(table: &str) -> (statement: SqlStatement)
    ensures
        statement.sql@ == "SELECT COUNT(*) FROM sqlite_master WHERE type='table' AND name=?"@,
        sql_views(statement.params@) == seq![SqlModel::Text(table@)],
{
    SqlStatement {
        sql: String::from_str("SELECT COUNT(*) FROM sqlite_master WHERE type='table' AND name=?"),
        params: text_params_1(table),
    }
}

/// The statement that counts the columns of `table` named `column`.
pub fn column_exists_statement(table: &str, column: &str) -> (statement: SqlStatement)
    ensures
        statement.sql@ == "SELECT COUNT(*) FROM pragma_table_info(?) WHERE name=?"@,
        sql_views(statement.params@) == seq![SqlModel::Text(table@), SqlModel::Text(column@)],
{
    SqlStatement {
        sql: String::from_str("SELECT COUNT(*) FROM pragma_table_info(?) WHERE name=?"),
        params: text_params_2(table, column),
    }
}

/// Builds the words for a failed check of whether a table exists.
pub fn table_check_words(table: &str) -> (context: String)
    ensures
        context@ == table_check_context(table@),
{
    quoted_context("Failed to check if table '", table, "' exists")
}

/// Builds the words for a failed check of whether a column exists.
pub fn column_check_words(table: &str, column: &str) -> (context: String)
    ensures
        context@ == column_check_context(table@, column@),
{
    let mut context = quoted_context("Failed to check if column '", table, "'.'");
    context.append(column);
    context.append("' exists");
    context
}

/// The name that a row holds in its first cell, where that cell is text.
pub open spec fn name_of(cells: Seq<Option<SqlModel>>) -> Option<Seq<char>> {
    if cells.len() > 0 {
        required_text(cells[0])
    } else {
        None
    }
}

/// Reads the name in the first cell of a row.
pub fn read_name(cells: &Vec<Option<SqlValue>>) -> (name: Result<String, AdapterError>)
    ensures
        match name_of(cell_views(cells@)) {
            Some(text) => name matches Ok(found) && found@ == text,
            None => name == Err::<String, AdapterError>(AdapterError::MalformedRow),
        },
{
    if cells.len() == 0 {
        return Err(AdapterError::MalformedRow);
    }
    match &cells[0] {
        Some(SqlValue::Text(text)) => Ok(text.clone()),
        _ => Err(AdapterError::MalformedRow),
    }
}

/// Every row of an answer holds a name in its first cell.
pub open spec fn all_names(rows: Seq<Seq<Option<SqlModel>>>) -> bool {
    forall|i: int| 0 <= i < rows.len() ==> name_of(#[trigger] rows[i]) is Some
}

/// The names that the rows of an answer hold, in the order of the rows.
pub open spec fn names_in(rows: Seq<Seq<Option<SqlModel>>>) -> Seq<Seq<char>> {
    rows.map_values(|r: Seq<Option<SqlModel>>| name_of(r)->Some_0)
}

/// Reads one name from each row of an answer, in the order of the rows.
/// Fails where a row holds no name.
pub fn read_names(rows: &Vec<Vec<Option<SqlValue>>>) -> (names: Result<Vec<String>, AdapterError>)
    ensures
        all_names(row_views(rows@)) ==> (names matches Ok(read) && string_views(read@)
            == names_in(row_views(rows@))),
        !all_names(row_views(rows@)) ==> names == Err::<Vec<String>, AdapterError>(
            AdapterError::MalformedRow,
        ),
{
    let ghost views = row_views(rows@);
    let mut names: Vec<String> = Vec::new();
    let mut i: usize = 0;
    while i < rows.len()
        invariant
            i <= rows.len(),
            views == row_views(rows@),
            names@.len() == i,
            forall|k: int| 0 <= k < i ==> name_of(views[k]) == Some((#[trigger] names@[k])@),
        decreases rows.len() - i,
    {
        assert(views[i as int] == cell_views(rows@[i as int]@));
        match read_name(&rows[i]) {
            Ok(name) => {
                names.push(name);
            },
            Err(e) => {
                assert(name_of(views[i as int]) is None);
                return Err(e);
            },
        }
        i = i + 1;
    }
    assert forall|k: int| 0 <= k < views.len() implies name_of(#[trigger] views[k]) is Some by {
        assert(name_of(views[k]) == Some(names@[k]@));
    }
    assert(string_views(names@) =~= names_in(views));
    Ok(names)
}

/// A row of `PRAGMA table_xinfo` describes a hidden column of a virtual
/// table, which `SELECT *` leaves out: its cell 6 holds 1.
pub open spec fn is_hidden(cells: Seq<Option<SqlModel>>) -> bool {
    cells.len() > 6 && cells[6] == Some(SqlModel::Integer(1))
}

/// The name that a row of `PRAGMA table_xinfo` gives its column in cell 1,
/// or `unknown` where that cell is not readable text.
pub open spec fn shown_name(cells: Seq<Option<SqlModel>>) -> Seq<char> {
    if cells.len() > 1 && required_text(cells[1]) is Some {
        required_text(cells[1])->Some_0
    } else {
        "unknown"@
    }
}

/// The names of the columns that `SELECT *` yields, in order: one for each
/// row of `PRAGMA table_xinfo` that is not hidden.
pub open spec fn selected_names(rows: Seq<Seq<Option<SqlModel>>>) -> Seq<Seq<char>>
    decreases rows.len(),
{
    if rows.len() == 0 {
        Seq::empty()
    } else if is_hidden(rows.last()) {
        selected_names(rows.drop_last())
    } else {
        selected_names(rows.drop_last()).push(shown_name(rows.last()))
    }
}

fn row_is_hidden(cells: &Vec<Option<SqlValue>>) -> (hidden: bool)
    ensures
        hidden == is_hidden(cell_views(cells@)),
{
    if cells.len() > 6 {
        assert(cell_views(cells@)[6] == crate::value::cell_view(cells@[6]));
        match &cells[6] {
            Some(SqlValue::Integer(flag)) => *flag == 1,
            _ => false,
        }
    } else {
        false
    }
}

fn row_name(cells: &Vec<Option<SqlValue>>) -> (name: String)
    ensures
        name@ == shown_name(cell_views(cells@)),
{
    if cells.len() > 1 {
        assert(cell_views(cells@)[1] == crate::value::cell_view(cells@[1]));
        match &cells[1] {
            Some(SqlValue::Text(text)) => text.clone(),
            _ => String::from_str("unknown"),
        }
    } else {
        String::from_str("unknown")
    }
}

/// Reads the names of the columns that `SELECT *` yields from the rows of
/// an answer to `PRAGMA table_xinfo`.
pub fn read_selected_names(rows: &Vec<Vec<Option<SqlValue>>>) -> (names: Vec<String>)
    ensures
        string_views(names@) == selected_names(row_views(rows@)),
{
    let ghost views = row_views(rows@);
    let mut names: Vec<String> = Vec::new();
    let mut i: usize = 0;
    assert(views.subrange(0, 0) =~= Seq::empty());
    while i < rows.len()
        invariant
            i <= rows.len(),
            views == row_views(rows@),
            string_views(names@) == selected_names(views.subrange(0, i as int)),
        decreases rows.len() - i,
    {
        proof {
            assert(views.subrange(0, i + 1).drop_last() =~= views.subrange(0, i as int));
            assert(views.subrange(0, i + 1).last() == cell_views(rows@[i as int]@));
        }
        let ghost before = string_views(names@);
        if !row_is_hidden(&rows[i]) {
            names.push(row_name(&rows[i]));
            assert(string_views(names@) =~= before.push(shown_name(cell_views(rows@[i as int]@))));
        }
        i = i + 1;
    }
    assert(views.subrange(0, rows.len() as int) =~= views);
    names
}

} // verus!
