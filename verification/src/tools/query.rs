//! Querying the rows of one table.

use crate::error::{engine_refused, AdapterError};
use crate::filter::QueryFilter;
use crate::rows::is_decoded_row;
use crate::sqlite::SqliteDatabase;
use vstd::prelude::*;

verus! {

#[derive(Debug, PartialEq)]
pub struct QueryRecordsInput {
    pub table: String,
    pub filters: Option<QueryFilter>,
    pub limit: Option<usize>,
    pub offset: Option<usize>,
}

#[derive(Debug, PartialEq)]
pub struct QueryRecordsOutput {
    pub records: Vec<serde_json::Value>,
    /// The number of records handed out.
    pub total: usize,
}

/// Selects the rows that `input` asks for.
pub fn execute(db: &SqliteDatabase, input: QueryRecordsInput) -> (output: Result<
    QueryRecordsOutput,
    AdapterError,
>)
    ensures
        output matches Ok(found) ==> found.total == found.records@.len() && forall|k: int|
            0 <= k < found.records@.len() ==> is_decoded_row(#[trigger] found.records@[k]),
        output matches Err(e) ==> e is LockFailed || engine_refused(e@, ""@) || e
            is TooManyRows,
{
    let QueryRecordsInput { table, filters, limit, offset } = input;
    let records = db.select(table.as_str(), filters, limit, offset)?;
    let total = records.len();
    Ok(QueryRecordsOutput { records, total })
}

} // verus!
