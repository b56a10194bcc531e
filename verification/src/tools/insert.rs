//! Inserting one row.

use crate::error::{engine_refused, AdapterError, Mutation};
use crate::json::json_shape;
use crate::sqlite::SqliteDatabase;
use vstd::prelude::*;

verus! {

#[derive(Debug, PartialEq)]
pub struct InsertRecordInput {
    pub table: String,
    pub data: serde_json::Value,
}

#[derive(Clone, Debug, PartialEq)]
pub struct InsertRecordOutput {
    /// The row identity that the engine gave the new row.
    pub id: i64,
    pub affected_rows: u64,
}

/// Inserts the row that `input` holds.
pub fn execute(db: &SqliteDatabase, input: InsertRecordInput) -> (output: Result<
    InsertRecordOutput,
    AdapterError,
>)
    ensures
        db.read_only() ==> output == Err::<InsertRecordOutput, AdapterError>(
            AdapterError::ReadOnly(Mutation::Insert),
        ),
        !db.read_only() && !(json_shape(input.data) is Object) ==> output == Err::<
            InsertRecordOutput,
            AdapterError,
        >(AdapterError::NotAnObject),
        output matches Ok(done) ==> done.affected_rows == 1,
        !db.read_only() && json_shape(input.data) is Object ==> (output matches Err(e) ==> e
            is LockFailed || engine_refused(e@, ""@)),
{
    let InsertRecordInput { table, data } = input;
    match db.insert(table.as_str(), data) {
        Ok(id) => Ok(InsertRecordOutput { id, affected_rows: 1 }),
        Err(e) => Err(e),
    }
}

} // verus!
