//! The failures that the adapter reports to its caller.

use vstd::prelude::*;
use vstd::string::StringExecFns;

verus! {

/// A call that changes stored data.
#[derive(Clone, Copy, Debug, PartialEq, Eq, Structural)]
pub enum Mutation {
    Insert,
    Update,
    Delete,
    SetTableComment,
    SetColumnComment,
}

/// Why a call on the adapter failed.
#[derive(Debug, PartialEq)]
pub enum AdapterError {
    /// A mutation was asked of an adapter opened read-only.
    ReadOnly(Mutation),
    /// The payload of an insert or update is not a JSON object.
    NotAnObject,
    /// A filter is not a JSON object.
    FilterNotAnObject,
    /// The table declares more than one primary-key column.
    CompositePrimaryKey,
    /// A comment was set on a table that does not exist.
    TableNotFound { table: String },
    /// A comment was set on a column that does not exist.
    ColumnNotFound { table: String, column: String },
    /// A batch holds more items than one call may carry.
    BatchTooLarge { updates: bool },
    /// The lock on the connection could not be taken.
    LockFailed,
    /// A row of engine metadata did not have the expected form.
    MalformedRow,
    /// A result holds more rows than a list can.
    TooManyRows,
    /// The engine rejected a statement; `context` says what was being done.
    Engine { context: String, detail: String },
}

/// The mathematical counterpart of [`AdapterError`].
pub enum ErrorModel {
    ReadOnly(Mutation),
    NotAnObject,
    FilterNotAnObject,
    CompositePrimaryKey,
    TableNotFound { table: Seq<char> },
    ColumnNotFound { table: Seq<char>, column: Seq<char> },
    BatchTooLarge { updates: bool },
    LockFailed,
    MalformedRow,
    TooManyRows,
    Engine { context: Seq<char>, detail: Seq<char> },
}

impl View for AdapterError {
    type V = ErrorModel;

    open spec fn view(&self) -> ErrorModel {
        match self {
            AdapterError::ReadOnly(m) => ErrorModel::ReadOnly(*m),
            AdapterError::NotAnObject => ErrorModel::NotAnObject,
            AdapterError::FilterNotAnObject => ErrorModel::FilterNotAnObject,
            AdapterError::CompositePrimaryKey => ErrorModel::CompositePrimaryKey,
            AdapterError::TableNotFound { table } => ErrorModel::TableNotFound { table: table@ },
            AdapterError::ColumnNotFound { table, column } => ErrorModel::ColumnNotFound {
                table: table@,
                column: column@,
            },
            AdapterError::BatchTooLarge { updates } => ErrorModel::BatchTooLarge {
                updates: *updates,
            },
            AdapterError::LockFailed => ErrorModel::LockFailed,
            AdapterError::MalformedRow => ErrorModel::MalformedRow,
            AdapterError::TooManyRows => ErrorModel::TooManyRows,
            AdapterError::Engine { context, detail } => ErrorModel::Engine {
                context: context@,
                detail: detail@,
            },
        }
    }
}

/// The engine refused a statement while `context` was being done.
pub open spec fn engine_refused(e: ErrorModel, context: Seq<char>) -> bool {
    e matches ErrorModel::Engine { context: during, .. } && during == context
}

/// The words for a mutation in a read-only refusal.
pub open spec fn mutation_words(m: Mutation) -> Seq<char> {
    match m {
        Mutation::Insert => "insert"@,
        Mutation::Update => "update"@,
        Mutation::Delete => "delete"@,
        Mutation::SetTableComment => "set table comment"@,
        Mutation::SetColumnComment => "set column comment"@,
    }
}

/// The message of an error, as a caller reads it.
pub open spec fn message_text(e: ErrorModel) -> Seq<char> {
    match e {
        ErrorModel::ReadOnly(m) => "Cannot "@ + mutation_words(m) + " in read-only mode"@,
        ErrorModel::NotAnObject => "Data must be a JSON object"@,
        ErrorModel::FilterNotAnObject => "Filters must be a JSON object"@,
        ErrorModel::CompositePrimaryKey => "Composite primary keys not supported"@,
        ErrorModel::TableNotFound { table } => "Table '"@ + table + "' does not exist"@,
        ErrorModel::ColumnNotFound { table, column } => "Column '"@ + table + "'.'"@ + column
            + "' does not exist"@,
        ErrorModel::BatchTooLarge { updates } => if updates {
            "Maximum of 100 updates allowed per batch"@
        } else {
            "Maximum of 100 items allowed per batch"@
        },
        ErrorModel::LockFailed => "Failed to lock connection"@,
        ErrorModel::MalformedRow => "Unexpected row in engine metadata"@,
        ErrorModel::TooManyRows => "Result holds too many rows"@,
        ErrorModel::Engine { context, detail } => if context.len() == 0 {
            detail
        } else {
            context + ": "@ + detail
        },
    }
}

impl Mutation {
    /// The words for this mutation in a read-only refusal.
    pub fn words(self) -> (text: &'static str)
        ensures
            text@ == mutation_words(self),
    {
        match self {
            Mutation::Insert => "insert",
            Mutation::Update => "update",
            Mutation::Delete => "delete",
            Mutation::SetTableComment => "set table comment",
            Mutation::SetColumnComment => "set column comment",
        }
    }
}

impl AdapterError {
    /// The message of this error.
    pub fn message(&self) -> (text: String)
        ensures
            text@ == message_text(self@),
    {
        match self {
            AdapterError::ReadOnly(m) => {
                let mut text = String::from_str("Cannot ");
                text.append(m.words());
                text.append(" in read-only mode");
                text
            },
            AdapterError::NotAnObject => String::from_str("Data must be a JSON object"),
            AdapterError::FilterNotAnObject => String::from_str("Filters must be a JSON object"),
            AdapterError::CompositePrimaryKey => String::from_str(
                "Composite primary keys not supported",
            ),
            AdapterError::TableNotFound { table } => {
                let mut text = String::from_str("Table '");
                text.append(table.as_str());
                text.append("' does not exist");
                text
            },
            AdapterError::ColumnNotFound { table, column } => {
                let mut text = String::from_str("Column '");
                text.append(table.as_str());
                text.append("'.'");
                text.append(column.as_str());
                text.append("' does not exist");
                text
            },
            AdapterError::BatchTooLarge { updates } => {
                if *updates {
                    String::from_str("Maximum of 100 updates allowed per batch")
                } else {
                    String::from_str("Maximum of 100 items allowed per batch")
                }
            },
            AdapterError::LockFailed => String::from_str("Failed to lock connection"),
            AdapterError::MalformedRow => String::from_str("Unexpected row in engine metadata"),
            AdapterError::TooManyRows => String::from_str("Result holds too many rows"),
            AdapterError::Engine { context, detail } => {
                if context.as_str().unicode_len() == 0 {
                    detail.clone()
                } else {
                    let mut text = context.clone();
                    text.append(": ");
                    text.append(detail.as_str());
                    text
                }
            },
        }
    }
}

} // verus!
