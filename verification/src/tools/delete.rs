//! Deleting one row.

use crate::error::{AdapterError, Mutation};
use crate::sqlite::SqliteDatabase;
use vstd::prelude::*;

verus! {

#[derive(Clone, Debug, PartialEq)]
pub struct DeleteRecordInput {
    pub table: String,
    pub id: i64,
}

#[derive(Clone, Debug, PartialEq)]
pub struct DeleteRecordOutput {
    pub affected_rows: u64,
}

/// Deletes the row that `input` addresses.
pub fn execute(db: &SqliteDatabase, input: &DeleteRecordInput) -> (output: Result<
    DeleteRecordOutput,
    AdapterError,
>)
    ensures
        db.read_only() ==> output == Err::<DeleteRecordOutput, AdapterError>(
            AdapterError::ReadOnly(Mutation::Delete),
        ),
        !db.read_only() ==> (output matches Err(e) ==> e is LockFailed || e is Engine || e
            is TooManyRows || e is MalformedRow || e is CompositePrimaryKey),
{
    match db.delete(input.table.as_str(), input.id) {
        Ok(affected) => Ok(DeleteRecordOutput { affected_rows: affected as u64 }),
        Err(e) => Err(e),
    }
}

} // verus!
