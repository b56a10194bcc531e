//! Setting the comment of a column.

use crate::error::{AdapterError, ErrorModel, Mutation};
use crate::sqlite::SqliteDatabase;
use vstd::prelude::*;

verus! {

#[derive(Clone, Debug, PartialEq)]
pub struct SetColumnCommentInput {
    pub table: String,
    pub column: String,
    pub desc: String,
}

#[derive(Clone, Debug, PartialEq)]
pub struct SetColumnCommentOutput {
    pub table: String,
    pub column: String,
    pub desc: String,
}

/// Stores the comment that `input` holds and hands the input back.
pub fn execute(db: &SqliteDatabase, input: SetColumnCommentInput) -> (output: Result<
    SetColumnCommentOutput,
    AdapterError,
>)
    ensures
        db.read_only() ==> output == Err::<SetColumnCommentOutput, AdapterError>(
            AdapterError::ReadOnly(Mutation::SetColumnComment),
        ),
        output matches Ok(done) ==> done.table == input.table && done.column == input.column
            && done.desc == input.desc,
        !db.read_only() ==> (output matches Err(e) ==> e is LockFailed || e is Engine || e
            is TooManyRows || e is MalformedRow || e@ == (ErrorModel::TableNotFound {
            table: input.table@,
        }) || e@ == (ErrorModel::ColumnNotFound { table: input.table@, column: input.column@ })),
{
    match db.set_column_comment(
        input.table.as_str(),
        input.column.as_str(),
        input.desc.as_str(),
    ) {
        Ok(_) => Ok(
            SetColumnCommentOutput { table: input.table, column: input.column, desc: input.desc },
        ),
        Err(e) => Err(e),
    }
}

} // verus!
