//! Running statements and reading what they answer: parameters are bound
//! as engine values, rows are read cell by cell.

use crate::engine::{
    column_count, error_text, execute, next_row, prepare, query, read_cell, row_cells,
};
use crate::error::{engine_refused, AdapterError};
use crate::json::{build_value, json_built, JsonNode, JsonShape};
use crate::schema::cell_views;
use crate::statement::SqlStatement;
use crate::text::string_views;
use crate::value::{
    cell_view, decode_cell, engine_model, from_engine, sqlite_value_to_json, to_engine, SqlModel,
    SqlValue,
};
use vstd::prelude::*;
use vstd::string::StringExecFns;

verus! {

/// An engine error, with the words of what was being done.
pub fn engine_failure(context: &str, detail: String) -> (failure: AdapterError)
    ensures
        failure@ == (crate::error::ErrorModel::Engine { context: context@, detail: detail@ }),
{
    AdapterError::Engine { context: String::from_str(context), detail }
}

pub(crate) fn refused(context: &str, error: &rusqlite::Error) -> (failure: AdapterError)
    ensures
        engine_refused(failure@, context@),
{
    engine_failure(context, error_text(error))
}

pub(crate) fn bind(params: &Vec<SqlValue>) -> (bound: Vec<rusqlite::types::Value>)
    ensures
        bound@.len() == params@.len(),
        forall|k: int| 0 <= k < params@.len() ==> engine_model(#[trigger] bound@[k]) == params@[k]@,
{
    let mut bound: Vec<rusqlite::types::Value> = Vec::new();
    let mut i: usize = 0;
    while i < params.len()
        invariant
            i <= params.len(),
            bound@.len() == i,
            forall|k: int| 0 <= k < i ==> engine_model(#[trigger] bound@[k]) == params@[k]@,
        decreases params.len() - i,
    {
        bound.push(to_engine(&params[i]));
        i = i + 1;
    }
    bound
}

/// Runs a statement that changes rows and hands out how many it changed.
/// Where the engine refuses it, the failure carries `context`.
pub(crate) fn run(conn: &rusqlite::Connection, statement: &SqlStatement, context: &str) -> (changed: Result<
    usize,
    AdapterError,
>)
    ensures
        changed matches Err(e) ==> engine_refused(e@, context@),
{
    let bound = bind(&statement.params);
    match execute(conn, statement.sql.as_str(), &bound) {
        Ok(changed) => Ok(changed),
        Err(e) => Err(refused(context, &e)),
    }
}

/// Runs a statement without parameters and hands out how many rows it
/// changed. Where the engine refuses it, the failure carries `context`.
pub(crate) fn run_plain(conn: &rusqlite::Connection, sql: &str, context: &str) -> (changed: Result<
    usize,
    AdapterError,
>)
    ensures
        changed matches Err(e) ==> engine_refused(e@, context@),
{
    let bound: Vec<rusqlite::types::Value> = Vec::new();
    match execute(conn, sql, &bound) {
        Ok(changed) => Ok(changed),
        Err(e) => Err(refused(context, &e)),
    }
}

/// The cells of a row, in column order.
pub(crate) fn collect_cells(row: &rusqlite::Row<'_>) -> (cells: Vec<Option<SqlValue>>)
    ensures
        cell_views(cells@) == row_cells(row),
{
    let count = column_count(row);
    let mut cells: Vec<Option<SqlValue>> = Vec::new();
    let mut i: usize = 0;
    while i < count
        invariant
            i <= count,
            count == row_cells(row).len(),
            cells@.len() == i,
            forall|k: int| 0 <= k < i ==> cell_view(#[trigger] cells@[k]) == row_cells(row)[k],
        decreases count - i,
    {
        let cell = match read_cell(row, i) {
            Some(raw) => Some(from_engine(raw)),
            None => None,
        };
        cells.push(cell);
        i = i + 1;
    }
    cells
}

/// The members of the JSON object that a row is handed out as: one per
/// column, under the column's name, holding the decoded cell.
pub open spec fn row_members(names: Seq<Seq<char>>, cells: Seq<Option<SqlModel>>) -> Seq<
    (Seq<char>, serde_json::Value),
> {
    Seq::new(names.len(), |i: int| (names[i], decode_cell(cells[i])))
}

/// A value is a row as it is handed out: the JSON object built from one
/// member per column, each holding the decoded cell of that column.
pub open spec fn is_decoded_row(value: serde_json::Value) -> bool {
    exists|names: Seq<Seq<char>>, cells: Seq<Option<SqlModel>>|
        names.len() == cells.len() && value == json_built(
            JsonShape::Object(#[trigger] row_members(names, cells)),
        )
}

/// The name under which the column at `index` is handed out: the name
/// read for that column, or `unknown` where none was read for it.
pub open spec fn name_at(names: Seq<Seq<char>>, index: int) -> Seq<char> {
    if 0 <= index < names.len() {
        names[index]
    } else {
        "unknown"@
    }
}

/// The names under which the columns of a row `width` cells wide are
/// handed out.
pub open spec fn names_for(names: Seq<Seq<char>>, width: nat) -> Seq<Seq<char>> {
    Seq::new(width, |i: int| name_at(names, i))
}

/// Turns the row that a query stands on into a JSON object, with `names`
/// as the names of its columns, in order.
pub fn sqlite_row_to_json(row: &rusqlite::Row<'_>, names: &Vec<String>) -> (object:
    serde_json::Value)
    ensures
        object == json_built(
            JsonShape::Object(
                row_members(
                    names_for(string_views(names@), row_cells(row).len()),
                    row_cells(row),
                ),
            ),
        ),
{
    let count = column_count(row);
    let mut members: Vec<(String, serde_json::Value)> = Vec::new();
    let mut i: usize = 0;
    while i < count
        invariant
            i <= count,
            count == row_cells(row).len(),
            members@.len() == i,
            forall|k: int|
                0 <= k < i ==> (#[trigger] members@[k]).0@ == name_at(string_views(names@), k)
                    && members@[k].1 == decode_cell(row_cells(row)[k]),
        decreases count - i,
    {
        let name = if i < names.len() {
            names[i].clone()
        } else {
            String::from_str("unknown")
        };
        let cell = match read_cell(row, i) {
            Some(raw) => Some(from_engine(raw)),
            None => None,
        };
        let value = sqlite_value_to_json(cell);
        members.push((name, value));
        i = i + 1;
    }
    proof {
        assert(crate::json::member_views(members@) =~= row_members(
            names_for(string_views(names@), row_cells(row).len()),
            row_cells(row),
        ));
    }
    build_value(JsonNode::Object(members))
}

/// Runs a query and hands out every row as its cells.
pub(crate) fn fetch_cells(conn: &rusqlite::Connection, statement: &SqlStatement, context: &str) -> (rows:
    Result<Vec<Vec<Option<SqlValue>>>, AdapterError>)
    ensures
        rows matches Err(e) ==> engine_refused(e@, context@) || e is TooManyRows,
{
    let bound = bind(&statement.params);
    let mut prepared = match prepare(conn, statement.sql.as_str()) {
        Ok(p) => p,
        Err(e) => {
            return Err(refused(context, &e));
        },
    };
    let mut rows = match query(&mut prepared, &bound) {
        Ok(r) => r,
        Err(e) => {
            return Err(refused(context, &e));
        },
    };
    let mut fetched: Vec<Vec<Option<SqlValue>>> = Vec::new();
    loop
        decreases usize::MAX - fetched.len(),
    {
        if fetched.len() == usize::MAX {
            return Err(AdapterError::TooManyRows);
        }
        match next_row(&mut rows) {
            Ok(Some(row)) => {
                fetched.push(collect_cells(row));
            },
            Ok(None) => {
                return Ok(fetched);
            },
            Err(e) => {
                return Err(refused(context, &e));
            },
        }
    }
}

/// Runs a query and hands out every row as a JSON object, with `names` as
/// the names of the columns.
pub(crate) fn fetch_objects(
    conn: &rusqlite::Connection,
    statement: &SqlStatement,
    names: &Vec<String>,
) -> (rows: Result<Vec<serde_json::Value>, AdapterError>)
    ensures
        rows matches Ok(fetched) ==> forall|k: int|
            0 <= k < fetched@.len() ==> is_decoded_row(#[trigger] fetched@[k]),
        rows matches Err(e) ==> engine_refused(e@, ""@) || e is TooManyRows,
{
    let bound = bind(&statement.params);
    let mut prepared = match prepare(conn, statement.sql.as_str()) {
        Ok(p) => p,
        Err(e) => {
            return Err(refused("", &e));
        },
    };
    let mut rows = match query(&mut prepared, &bound) {
        Ok(r) => r,
        Err(e) => {
            return Err(refused("", &e));
        },
    };
    let mut fetched: Vec<serde_json::Value> = Vec::new();
    loop
        invariant
            forall|k: int| 0 <= k < fetched@.len() ==> is_decoded_row(#[trigger] fetched@[k]),
        decreases usize::MAX - fetched.len(),
    {
        if fetched.len() == usize::MAX {
            return Err(AdapterError::TooManyRows);
        }
        match next_row(&mut rows) {
            Ok(Some(row)) => {
                let object = sqlite_row_to_json(row, names);
                proof {
                    let members = row_members(
                        names_for(string_views(names@), row_cells(row).len()),
                        row_cells(row),
                    );
                    assert(object == json_built(JsonShape::Object(members)));
                }
                fetched.push(object);
            },
            Ok(None) => {
                return Ok(fetched);
            },
            Err(e) => {
                return Err(refused("", &e));
            },
        }
    }
}

} // verus!
