//! Reading the schema of one table.

use crate::error::AdapterError;
use crate::schema::{assembled, identity_column, ColumnModel, TableSchema};
use crate::sqlite::SqliteDatabase;
use vstd::prelude::*;

verus! {

#[derive(Clone, Debug, PartialEq)]
pub struct GetTableSchemaInput {
    pub table: String,
}

/// Reads the schema of the table that `input` names. Like the adapter's
/// own call, this stores default comments where none are stored yet.
pub fn execute(db: &SqliteDatabase, input: &GetTableSchemaInput) -> (output: Result<
    TableSchema,
    AdapterError,
>)
    ensures
        output matches Ok(found) ==> exists|
            columns: Seq<ColumnModel>,
            key: Seq<char>,
            table_comment: Option<Seq<char>>,
            comments: Seq<Option<Seq<char>>>,
        |
            comments.len() == columns.len() && identity_column(columns) == Some(key) && found@
                == #[trigger] assembled(input.table@, columns, key, table_comment, comments),
        output matches Ok(found) ==> {
            &&& found@.name == input.table@
            &&& found@.desc is Some
            &&& forall|i: int|
                0 <= i < found@.columns.len() ==> (#[trigger] found@.columns[i]).desc is Some
            &&& found@.primary_key is Some
            &&& found@.primary_key == identity_column(found@.columns)
        },
        output matches Err(e) ==> e is LockFailed || e is Engine || e is TooManyRows || e
            is MalformedRow || e is CompositePrimaryKey,
{
    db.get_schema(input.table.as_str())
}

} // verus!
