//! Updating one row.

use crate::error::{AdapterError, Mutation};
use crate::json::json_shape;
use crate::sqlite::SqliteDatabase;
use vstd::prelude::*;

verus! {

#[derive(Debug, PartialEq)]
pub struct UpdateRecordInput {
    pub table: String,
    pub id: i64,
    pub data: serde_json::Value,
}

#[derive(Clone, Debug, PartialEq)]
pub struct UpdateRecordOutput {
    pub affected_rows: u64,
}

/// Updates the row that `input` addresses.
pub fn execute(db: &SqliteDatabase, input: UpdateRecordInput) -> (output: Result<
    UpdateRecordOutput,
    AdapterError,
>)
    ensures
        db.read_only() ==> output == Err::<UpdateRecordOutput, AdapterError>(
            AdapterError::ReadOnly(Mutation::Update),
        ),
        !db.read_only() && !(json_shape(input.data) is Object) ==> output == Err::<
            UpdateRecordOutput,
            AdapterError,
        >(AdapterError::NotAnObject),
        !db.read_only() && json_shape(input.data) is Object ==> (output matches Err(e) ==> e
            is LockFailed || e is Engine || e is TooManyRows || e is MalformedRow || e
            is CompositePrimaryKey),
{
    let UpdateRecordInput { table, id, data } = input;
    match db.update(table.as_str(), id, data) {
        Ok(affected) => Ok(UpdateRecordOutput { affected_rows: affected as u64 }),
        Err(e) => Err(e),
    }
}

} // verus!
