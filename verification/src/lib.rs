//! A database adapter that exposes one SQLite file through table
//! introspection, a JSON filter language, and single and batched mutations.
//!
//! - [`value`] maps JSON values to SQLite's storage classes and back.
//! - [`filter`] reads the filter language and compiles it to a predicate.
//! - [`schema`] describes tables and resolves the column that addresses a
//!   row; [`comments`] keeps a comment for every table and column.
//! - [`statement`] builds the statements, [`rows`] runs them, and [`batch`]
//!   accounts for batches that run chunk by chunk.
//! - [`sqlite`] is the adapter itself; [`tools`] are its operations as a
//!   tool-calling client sees them.
//! - [`json`] and [`engine`] are the boundaries to `serde_json` and to
//!   `rusqlite`. What a call into either crate is taken to do is stated
//!   where the call stands, under the word "Trusted"; everything built on
//!   those statements is proved.

pub mod batch;
pub mod catalog;
pub mod comments;
pub mod engine;
pub mod error;
pub mod filter;
pub mod json;
pub mod rows;
pub mod schema;
pub mod sqlite;
pub mod statement;
pub mod text;
pub mod tools;
pub mod value;
