//! Listing the tables of the database.

use crate::error::{engine_refused, AdapterError};
use crate::sqlite::SqliteDatabase;
use vstd::prelude::*;

verus! {

#[derive(Clone, Debug, PartialEq)]
pub struct ListTablesOutput {
    pub tables: Vec<String>,
}

/// Lists the user tables.
pub fn execute(db: &SqliteDatabase) -> (output: Result<ListTablesOutput, AdapterError>)
    ensures
        output matches Err(e) ==> e is LockFailed || engine_refused(e@, ""@) || e
            is TooManyRows || e is MalformedRow,
{
    let tables = db.list_tables()?;
    Ok(ListTablesOutput { tables })
}

} // verus!
