//! The statements that the adapter hands to the engine: their text, with
//! positional placeholders, and the parameters that fill them.

use crate::error::AdapterError;
use crate::filter::{build_where_clause, where_params, where_text, FilterModel, QueryFilter};
use crate::json::{json_shape, member_views, read_node, JsonNode, JsonShape};
use crate::text::{
    decimal, join, join_repeated, joined, repeated, string_views, unsigned_to_text,
};
use crate::value::{encode_json, json_value_to_sqlite, sql_views, SqlModel, SqlValue};
use vstd::prelude::*;
use vstd::string::StringExecFns;

verus! {

/// One statement, ready for the engine.
#[derive(Debug, PartialEq)]
pub struct SqlStatement {
    /// The text, with one `?` for each parameter.
    pub sql: String,
    /// The parameters, in the order of their placeholders.
    pub params: Vec<SqlValue>,
}

/// The keys of an object's members, in order.
pub open spec fn member_keys(members: Seq<(Seq<char>, serde_json::Value)>) -> Seq<Seq<char>> {
    members.map_values(|m: (Seq<char>, serde_json::Value)| m.0)
}

/// The engine values of an object's members, in order.
pub open spec fn member_params(members: Seq<(Seq<char>, serde_json::Value)>) -> Seq<SqlModel> {
    members.map_values(|m: (Seq<char>, serde_json::Value)| encode_json(m.1))
}

/// One assignment with a placeholder for each column.
pub open spec fn assignments(columns: Seq<Seq<char>>) -> Seq<Seq<char>> {
    columns.map_values(|c: Seq<char>| c + " = ?"@)
}

/// The integers of a list as engine values.
pub open spec fn integer_params(ids: Seq<i64>) -> Seq<SqlModel> {
    ids.map_values(|i: i64| SqlModel::Integer(i))
}

/// `INSERT INTO t (a, b) VALUES (?, ?)`.
pub open spec fn insert_text(table: Seq<char>, columns: Seq<Seq<char>>) -> Seq<char> {
    "INSERT INTO "@ + table + " ("@ + joined(columns, ", "@) + ") VALUES ("@ + joined(
        repeated("?"@, columns.len()),
        ", "@,
    ) + ")"@
}

/// `UPDATE t SET a = ?, b = ? WHERE k = ?`.
pub open spec fn update_text(table: Seq<char>, columns: Seq<Seq<char>>, key: Seq<char>) -> Seq<
    char,
> {
    "UPDATE "@ + table + " SET "@ + joined(assignments(columns), ", "@) + " WHERE "@ + key
        + " = ?"@
}

/// `DELETE FROM t WHERE k = ?`.
pub open spec fn delete_text(table: Seq<char>, key: Seq<char>) -> Seq<char> {
    "DELETE FROM "@ + table + " WHERE "@ + key + " = ?"@
}

/// `DELETE FROM t WHERE k IN (?, ?, ?)`, one placeholder per identifier.
pub open spec fn delete_many_text(table: Seq<char>, key: Seq<char>, count: nat) -> Seq<char> {
    "DELETE FROM "@ + table + " WHERE "@ + key + " IN ("@ + joined(repeated("?"@, count), ", "@)
        + ")"@
}

/// The text that follows a select for an optional part: nothing where the
/// part is absent.
pub open spec fn optional_part(keyword: Seq<char>, part: Option<Seq<char>>) -> Seq<char> {
    match part {
        Some(text) => keyword + text,
        None => Seq::empty(),
    }
}

/// The decimal numeral of an optional count.
pub open spec fn optional_decimal(count: Option<usize>) -> Option<Seq<char>> {
    match count {
        Some(n) => Some(decimal(n as nat)),
        None => None,
    }
}

/// The limit of a select. The engine takes an offset only after a limit,
/// so an offset that comes alone is led by `LIMIT -1`, which limits
/// nothing.
pub open spec fn limit_part(limit: Option<usize>, offset: Option<usize>) -> Seq<char> {
    match limit {
        Some(n) => " LIMIT "@ + decimal(n as nat),
        None => if offset is Some {
            " LIMIT -1"@
        } else {
            Seq::empty()
        },
    }
}

/// `SELECT * FROM t`, then the predicate, the limit and the offset, each
/// where it is given.
pub open spec fn select_text(
    table: Seq<char>,
    predicate: Option<Seq<char>>,
    limit: Option<usize>,
    offset: Option<usize>,
) -> Seq<char> {
    "SELECT * FROM "@ + table + optional_part(" WHERE "@, predicate) + limit_part(limit, offset)
        + optional_part(" OFFSET "@, optional_decimal(offset))
}

/// `PRAGMA table_info(t)`.
pub open spec fn table_info_text(table: Seq<char>) -> Seq<char> {
    "PRAGMA table_info("@ + table + ")"@
}

/// `PRAGMA table_xinfo(t)`.
pub open spec fn table_xinfo_text(table: Seq<char>) -> Seq<char> {
    "PRAGMA table_xinfo("@ + table + ")"@
}

/// The predicate of an optional filter.
pub open spec fn optional_where_text(filter: Option<Seq<(Seq<char>, FilterModel)>>) -> Option<
    Seq<char>,
> {
    match filter {
        Some(f) => Some(where_text(f)),
        None => None,
    }
}

/// The parameters of an optional filter.
pub open spec fn optional_where_params(filter: Option<Seq<(Seq<char>, FilterModel)>>) -> Seq<
    SqlModel,
> {
    match filter {
        Some(f) => where_params(f),
        None => Seq::empty(),
    }
}

/// The view of an optional filter.
pub open spec fn filter_view(filter: Option<&QueryFilter>) -> Option<Seq<(Seq<char>, FilterModel)>> {
    match filter {
        Some(f) => Some(f@),
        None => None,
    }
}

fn split_members(members: &Vec<(String, serde_json::Value)>) -> (split: (
    Vec<String>,
    Vec<SqlValue>,
))
    ensures
        string_views(split.0@) == member_keys(member_views(members@)),
        sql_views(split.1@) == member_params(member_views(members@)),
{
    let mut keys: Vec<String> = Vec::new();
    let mut params: Vec<SqlValue> = Vec::new();
    let mut i: usize = 0;
    while i < members.len()
        invariant
            i <= members.len(),
            keys.len() == i,
            params.len() == i,
            forall|k: int| 0 <= k < i ==> (#[trigger] keys@[k])@ == members@[k].0@,
            forall|k: int| 0 <= k < i ==> (#[trigger] params@[k])@ == encode_json(members@[k].1),
        decreases members.len() - i,
    {
        keys.push(members[i].0.clone());
        params.push(json_value_to_sqlite(&members[i].1));
        i = i + 1;
    }
    (keys, params)
}

fn assignment_list(columns: &Vec<String>) -> (list: Vec<String>)
    ensures
        string_views(list@) == assignments(string_views(columns@)),
{
    let mut list: Vec<String> = Vec::new();
    let mut i: usize = 0;
    while i < columns.len()
        invariant
            i <= columns.len(),
            list.len() == i,
            forall|k: int| 0 <= k < i ==> (#[trigger] list@[k])@ == columns@[k]@ + " = ?"@,
        decreases columns.len() - i,
    {
        let mut text = columns[i].clone();
        text.append(" = ?");
        list.push(text);
        i = i + 1;
    }
    list
}

/// The statement that inserts one row holding the members of `data`, a
/// column for each key in the object's own order. Fails where `data` is
/// not a JSON object.
pub fn insert_statement(table: &str, data: &serde_json::Value) -> (built: Result<
    SqlStatement,
    AdapterError,
>)
    ensures
        match json_shape(*data) {
            JsonShape::Object(members) => built matches Ok(statement) && statement.sql@
                == insert_text(table@, member_keys(members)) && sql_views(statement.params@)
                == member_params(members),
            _ => built == Err::<SqlStatement, AdapterError>(AdapterError::NotAnObject),
        },
{
    match read_node(data) {
        JsonNode::Object(members) => {
            let (columns, params) = split_members(&members);
            let mut sql = String::from_str("INSERT INTO ");
            sql.append(table);
            sql.append(" (");
            let names = join(&columns, ", ");
            sql.append(names.as_str());
            sql.append(") VALUES (");
            let marks = join_repeated("?", columns.len(), ", ");
            sql.append(marks.as_str());
            sql.append(")");
            Ok(SqlStatement { sql, params })
        },
        _ => Err(AdapterError::NotAnObject),
    }
}

/// The statement that sets the members of `data` on the row whose identity
/// column `key_column` holds `key`. Fails where `data` is not a JSON
/// object.
pub fn update_statement(table: &str, key_column: &str, key: i64, data: &serde_json::Value) -> (built:
    Result<SqlStatement, AdapterError>)
    ensures
        match json_shape(*data) {
            JsonShape::Object(members) => built matches Ok(statement) && statement.sql@
                == update_text(table@, member_keys(members), key_column@) && sql_views(
                statement.params@,
            ) == member_params(members).push(SqlModel::Integer(key)),
            _ => built == Err::<SqlStatement, AdapterError>(AdapterError::NotAnObject),
        },
{
    match read_node(data) {
        JsonNode::Object(members) => {
            let (columns, mut params) = split_members(&members);
            let sets = assignment_list(&columns);
            let mut sql = String::from_str("UPDATE ");
            sql.append(table);
            sql.append(" SET ");
            let list = join(&sets, ", ");
            sql.append(list.as_str());
            sql.append(" WHERE ");
            sql.append(key_column);
            sql.append(" = ?");
            params.push(SqlValue::Integer(key));
            Ok(SqlStatement { sql, params })
        },
        _ => Err(AdapterError::NotAnObject),
    }
}

/// The statement that deletes the row whose identity column `key_column`
/// holds `key`.
pub fn delete_statement(table: &str, key_column: &str, key: i64) -> (statement: SqlStatement)
    ensures
        statement.sql@ == delete_text(table@, key_column@),
        sql_views(statement.params@) == seq![SqlModel::Integer(key)],
{
    let mut sql = String::from_str("DELETE FROM ");
    sql.append(table);
    sql.append(" WHERE ");
    sql.append(key_column);
    sql.append(" = ?");
    let mut params: Vec<SqlValue> = Vec::new();
    params.push(SqlValue::Integer(key));
    SqlStatement { sql, params }
}

/// The one statement that deletes every row whose identity column
/// `key_column` holds one of `ids`.
pub fn batch_delete_statement(table: &str, key_column: &str, ids: &Vec<i64>) -> (statement:
    SqlStatement)
    ensures
        statement.sql@ == delete_many_text(table@, key_column@, ids@.len()),
        sql_views(statement.params@) == integer_params(ids@),
{
    let mut sql = String::from_str("DELETE FROM ");
    sql.append(table);
    sql.append(" WHERE ");
    sql.append(key_column);
    sql.append(" IN (");
    let marks = join_repeated("?", ids.len(), ", ");
    sql.append(marks.as_str());
    sql.append(")");
    let mut params: Vec<SqlValue> = Vec::new();
    let mut i: usize = 0;
    while i < ids.len()
        invariant
            i <= ids.len(),
            params.len() == i,
            forall|k: int| 0 <= k < i ==> (#[trigger] params@[k])@ == SqlModel::Integer(ids@[k]),
        decreases ids.len() - i,
    {
        params.push(SqlValue::Integer(ids[i]));
        i = i + 1;
    }
    SqlStatement { sql, params }
}

/// The statement that selects the rows of `table` that meet `filter`, at
/// most `limit` of them after skipping `offset`, each part where given.
pub fn select_statement(
    table: &str,
    filter: Option<&QueryFilter>,
    limit: Option<usize>,
    offset: Option<usize>,
) -> (statement: SqlStatement)
    ensures
        statement.sql@ == select_text(
            table@,
            optional_where_text(filter_view(filter)),
            limit,
            offset,
        ),
        sql_views(statement.params@) == optional_where_params(filter_view(filter)),
{
    let mut sql = String::from_str("SELECT * FROM ");
    sql.append(table);
    let mut params: Vec<SqlValue> = Vec::new();
    match filter {
        Some(f) => {
            let (predicate, filter_params) = build_where_clause(f);
            sql.append(" WHERE ");
            sql.append(predicate.as_str());
            params = filter_params;
        },
        None => {},
    }
    match limit {
        Some(n) => {
            sql.append(" LIMIT ");
            let digits = unsigned_to_text(n as u64);
            sql.append(digits.as_str());
        },
        None => {
            if offset.is_some() {
                sql.append(" LIMIT -1");
            }
        },
    }
    match offset {
        Some(n) => {
            sql.append(" OFFSET ");
            let digits = unsigned_to_text(n as u64);
            sql.append(digits.as_str());
        },
        None => {},
    }
    SqlStatement { sql, params }
}

/// The statement that asks the engine for the columns of `table`.
pub fn table_info_statement(table: &str) -> (statement: SqlStatement)
    ensures
        statement.sql@ == table_info_text(table@),
        sql_views(statement.params@) == Seq::<SqlModel>::empty(),
{
    let mut sql = String::from_str("PRAGMA table_info(");
    sql.append(table);
    sql.append(")");
    SqlStatement { sql, params: Vec::new() }
}

/// The statement that asks the engine for every column of `table`, the
/// hidden ones marked as such.
pub fn table_xinfo_statement(table: &str) -> (statement: SqlStatement)
    ensures
        statement.sql@ == table_xinfo_text(table@),
        sql_views(statement.params@) == Seq::<SqlModel>::empty(),
{
    let mut sql = String::from_str("PRAGMA table_xinfo(");
    sql.append(table);
    sql.append(")");
    SqlStatement { sql, params: Vec::new() }
}

/// The statement that switches the enforcement of foreign keys on.
pub fn foreign_keys_statement() -> (statement: SqlStatement)
    ensures
        statement.sql@ == "PRAGMA foreign_keys = ON"@,
        sql_views(statement.params@) == Seq::<SqlModel>::empty(),
{
    SqlStatement { sql: String::from_str("PRAGMA foreign_keys = ON"), params: Vec::new() }
}

} // verus!
