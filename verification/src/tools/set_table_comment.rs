//! Setting the comment of a table.

use crate::error::{AdapterError, ErrorModel, Mutation};
use crate::sqlite::SqliteDatabase;
use vstd::prelude::*;

verus! {

#[derive(Clone, Debug, PartialEq)]
pub struct SetTableCommentInput {
    pub table: String,
    pub desc: String,
}

#[derive(Clone, Debug, PartialEq)]
pub struct SetTableCommentOutput {
    pub table: String,
    pub desc: String,
}

/// Stores the comment that `input` holds and hands the input back.
pub fn execute(db: &SqliteDatabase, input: SetTableCommentInput) -> (output: Result<
    SetTableCommentOutput,
    AdapterError,
>)
    ensures
        db.read_only() ==> output == Err::<SetTableCommentOutput, AdapterError>(
            AdapterError::ReadOnly(Mutation::SetTableComment),
        ),
        output matches Ok(done) ==> done.table == input.table && done.desc == input.desc,
        !db.read_only() ==> (output matches Err(e) ==> e is LockFailed || e is Engine || e
            is TooManyRows || e is MalformedRow || e@ == (ErrorModel::TableNotFound {
            table: input.table@,
        })),
{
    match db.set_table_comment(input.table.as_str(), input.desc.as_str()) {
        Ok(_) => Ok(SetTableCommentOutput { table: input.table, desc: input.desc }),
        Err(e) => Err(e),
    }
}

} // verus!
