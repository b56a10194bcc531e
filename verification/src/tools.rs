//! The operations offered to a tool-calling client: for each, the input it
//! takes, the output it gives, and the call on the adapter between them.

pub mod batch;
pub mod delete;
pub mod get_schema;
pub mod insert;
pub mod list_tables;
pub mod query;
pub mod set_column_comment;
pub mod set_table_comment;
pub mod update;
