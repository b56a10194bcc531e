//! The adapter over one SQLite file.
//!
//! One connection, behind one lock, for the adapter's whole life. Every
//! call takes the lock for as long as it talks to the engine; a batch takes
//! it once per chunk, so other calls may run between two chunks.

use crate::batch::{
    all_settled, chunk_end, cut_into, each_ran_inserts, each_ran_updates, initial, items_in,
    lemma_objects_are_items, lemma_tally_counts_every_item, nothing_to_do, objects_between,
    ran_inserts, ran_updates, settled, tally, update_data, BatchResult, ChunkModel,
    ChunkOutcome,
};
use crate::catalog::{
    all_names, column_check_context, column_check_words, column_exists_statement,
    list_tables_statement, names_in, read_columns, read_identity, read_names, read_presence,
    read_selected_names, require_column, require_table, row_views, table_check_context,
    table_check_words, table_exists_statement,
};
use crate::comments::{
    column_comment_statement, ensure_auxiliary_tables_exist, get_column_comment,
    get_table_comment, initialize_default_column_comments, initialize_default_table_comment,
    set_column_comment_context, set_column_comment_words, set_table_comment_context,
    set_table_comment_words, schema_refused, setup_refused, table_comment_statement,
};
use crate::engine::{
    begin, commit, error_text, execute, last_insert_rowid, lock, locked, new_lock,
    open_read_only, open_read_write, rollback, within,
};
use crate::error::{engine_refused, AdapterError, ErrorModel, Mutation};
use crate::filter::QueryFilter;
use crate::json::{json_shape, read_node, JsonNode};
use crate::rows::{bind, fetch_cells, fetch_objects, is_decoded_row, refused, run};
use crate::schema::{
    assembled, column_views, identity_column, lemma_described_columns_keep_identity,
    resolve_primary_key, text_views, ColumnModel, TableSchema,
};
use crate::statement::{
    batch_delete_statement, delete_statement, foreign_keys_statement, insert_statement,
    select_statement, table_info_statement, table_xinfo_statement, update_statement,
};
use crate::text::string_views;
use crate::value::SqlModel;
use vstd::prelude::*;

verus! {

/// The adapter: a locked connection and the mode it was opened in.
pub struct SqliteDatabase {
    conn: std::sync::Mutex<rusqlite::Connection>,
    readonly: bool,
}

fn finish_chunk(tx: rusqlite::Transaction<'_>, outcome: ChunkOutcome) -> (finished: Result<
    ChunkOutcome,
    AdapterError,
>)
    ensures
        finished matches Ok(same) ==> same == outcome,
        finished matches Err(e) ==> engine_refused(e@, ""@),
{
    let done = if outcome.is_clean() {
        commit(tx)
    } else {
        rollback(tx)
    };
    match done {
        Ok(_) => Ok(outcome),
        Err(e) => Err(refused("", &e)),
    }
}

/// Runs the inserts of `items[start..end]` under one transaction. Every
/// item that is a JSON object gives one statement, and its answer is noted:
/// a row identity or a message. An item that is not a JSON object gives no
/// statement.
fn insert_chunk(
    conn: &rusqlite::Connection,
    table: &str,
    items: &Vec<serde_json::Value>,
    start: usize,
    end: usize,
) -> (chunk: Result<ChunkOutcome, AdapterError>)
    requires
        start <= end <= items@.len(),
    ensures
        chunk matches Ok(outcome) ==> outcome@.size == end - start && settled(outcome@)
            && ran_inserts(outcome@, items@, start as int),
        chunk matches Err(e) ==> engine_refused(e@, ""@),
{
    let tx = match begin(conn) {
        Ok(tx) => tx,
        Err(e) => {
            return Err(refused("", &e));
        },
    };
    let mut outcome = ChunkOutcome::new(end - start);
    let mut i: usize = start;
    while i < end
        invariant
            start <= i <= end <= items@.len(),
            outcome@.size == end - start,
            outcome@.errors.len() + outcome@.inserted_ids.len() == objects_between(
                items@,
                start as int,
                i as int,
            ),
        decreases end - i,
    {
        match insert_statement(table, &items[i]) {
            Ok(statement) => {
                let bound = bind(&statement.params);
                let answer = match execute(within(&tx), statement.sql.as_str(), &bound) {
                    Ok(_) => Ok(last_insert_rowid(within(&tx))),
                    Err(e) => Err(error_text(&e)),
                };
                outcome.record_insert(answer);
            },
            Err(_) => {},
        }
        i = i + 1;
    }
    proof {
        lemma_objects_are_items(items@, start as int, end as int);
    }
    finish_chunk(tx, outcome)
}

/// Runs the updates of `updates[start..end]` under one transaction. Every
/// item whose data is a JSON object gives one statement, and a refusal of
/// it is noted as a message. An item whose data is not a JSON object gives
/// no statement.
fn update_chunk(
    conn: &rusqlite::Connection,
    table: &str,
    key_column: &str,
    updates: &Vec<(i64, serde_json::Value)>,
    start: usize,
    end: usize,
) -> (chunk: Result<ChunkOutcome, AdapterError>)
    requires
        start <= end <= updates@.len(),
    ensures
        chunk matches Ok(outcome) ==> outcome@.size == end - start && settled(outcome@)
            && ran_updates(outcome@, update_data(updates@), start as int),
        chunk matches Err(e) ==> engine_refused(e@, ""@),
{
    let tx = match begin(conn) {
        Ok(tx) => tx,
        Err(e) => {
            return Err(refused("", &e));
        },
    };
    let ghost data = update_data(updates@);
    let mut outcome = ChunkOutcome::new(end - start);
    let mut i: usize = start;
    while i < end
        invariant
            start <= i <= end <= updates@.len(),
            data == update_data(updates@),
            outcome@.size == end - start,
            outcome@.inserted_ids.len() == 0,
            outcome@.errors.len() <= objects_between(data, start as int, i as int),
        decreases end - i,
    {
        let key = updates[i].0;
        assert(data[i as int] == updates@[i as int].1);
        match update_statement(table, key_column, key, &updates[i].1) {
            Ok(statement) => {
                let bound = bind(&statement.params);
                let answer = match execute(within(&tx), statement.sql.as_str(), &bound) {
                    Ok(changed) => Ok(changed),
                    Err(e) => Err(error_text(&e)),
                };
                outcome.record_update(key, answer);
            },
            Err(_) => {},
        }
        i = i + 1;
    }
    proof {
        lemma_objects_are_items(data, start as int, end as int);
    }
    finish_chunk(tx, outcome)
}

impl SqliteDatabase {
    /// Whether this adapter was opened read-only. The mode is fixed when
    /// the adapter is made.
    pub closed spec fn read_only(&self) -> bool {
        self.readonly
    }

    /// Opens the database file at `path`, read-only or for reading and
    /// writing, and switches foreign keys on.
    pub fn new(path: &str, readonly: bool) -> (opened: Result<SqliteDatabase, AdapterError>)
        ensures
            opened matches Ok(db) ==> db.read_only() == readonly,
            opened matches Err(e) ==> engine_refused(e@, ""@),
    {
        let opened = if readonly {
            open_read_only(path)
        } else {
            open_read_write(path)
        };
        let conn = match opened {
            Ok(conn) => conn,
            Err(e) => {
                return Err(refused("", &e));
            },
        };
        run(&conn, &foreign_keys_statement(), "")?;
        Ok(SqliteDatabase { conn: new_lock(conn), readonly })
    }

    /// Whether this adapter refuses every mutation.
    pub fn is_readonly(&self) -> (readonly: bool)
        ensures
            readonly == self.read_only(),
    {
        self.readonly
    }

    /// The user tables of the database, in alphabetical order.
    pub fn list_tables(&self) -> (tables: Result<Vec<String>, AdapterError>)
        ensures
            tables matches Ok(names) ==> exists|rows: Seq<Seq<Option<SqlModel>>>|
                all_names(rows) && string_views(names@) == #[trigger] names_in(rows),
            tables matches Err(e) ==> e is LockFailed || engine_refused(e@, ""@) || e
                is TooManyRows || e is MalformedRow,
    {
        let guard = match lock(&self.conn) {
            Some(guard) => guard,
            None => {
                return Err(AdapterError::LockFailed);
            },
        };
        let rows = fetch_cells(locked(&guard), &list_tables_statement(), "")?;
        let names = read_names(&rows)?;
        assert(all_names(row_views(rows@)));
        Ok(names)
    }

    /// The schema of `table`: its columns in the engine's order, its
    /// identity column, and the comments on the table and on every column.
    ///
    /// This call writes: it creates the comment relations where they are
    /// missing, and stores the name of the table and of each column as its
    /// comment where none is stored yet.
    pub fn get_schema(&self, table: &str) -> (schema: Result<TableSchema, AdapterError>)
        ensures
            schema matches Ok(found) ==> exists|
                columns: Seq<ColumnModel>,
                key: Seq<char>,
                table_comment: Option<Seq<char>>,
                comments: Seq<Option<Seq<char>>>,
            |
                comments.len() == columns.len() && identity_column(columns) == Some(key) && found@
                    == #[trigger] assembled(table@, columns, key, table_comment, comments),
            schema matches Ok(found) ==> {
                &&& found@.name == table@
                &&& found@.desc is Some
                &&& forall|i: int|
                    0 <= i < found@.columns.len() ==> (#[trigger] found@.columns[i]).desc is Some
                &&& found@.primary_key is Some
                &&& found@.primary_key == identity_column(found@.columns)
            },
            schema matches Err(e) ==> e is LockFailed || e is TooManyRows || e is MalformedRow
                || e is CompositePrimaryKey || schema_refused(e@, table@),
    {
        let guard = match lock(&self.conn) {
            Some(guard) => guard,
            None => {
                return Err(AdapterError::LockFailed);
            },
        };
        let conn = locked(&guard);
        ensure_auxiliary_tables_exist(conn)?;
        let described = fetch_cells(conn, &table_info_statement(table), "")?;
        let columns = read_columns(&described)?;
        let primary_key = resolve_primary_key(&columns)?;
        initialize_default_table_comment(conn, table)?;
        initialize_default_column_comments(conn, table, &columns)?;
        let table_comment = get_table_comment(conn, table)?;
        let mut column_comments: Vec<Option<String>> = Vec::new();
        let mut i: usize = 0;
        while i < columns.len()
            invariant
                i <= columns.len(),
                column_comments@.len() == i,
            decreases columns.len() - i,
        {
            column_comments.push(get_column_comment(conn, table, columns[i].name.as_str())?);
            i = i + 1;
        }
        proof {
            lemma_described_columns_keep_identity(
                column_views(columns@),
                text_views(column_comments@),
            );
        }
        Ok(TableSchema::assemble(table, &columns, primary_key, table_comment, &column_comments))
    }

    /// The rows of `table` that meet `filters`, each as a JSON object, in
    /// the order in which the engine yields them. The names of the columns
    /// are asked of the engine first, as cells like any others, so that a
    /// name that is no text costs a name and not the call.
    pub fn select(
        &self,
        table: &str,
        filters: Option<QueryFilter>,
        limit: Option<usize>,
        offset: Option<usize>,
    ) -> (rows: Result<Vec<serde_json::Value>, AdapterError>)
        ensures
            rows matches Ok(found) ==> forall|k: int|
                0 <= k < found@.len() ==> is_decoded_row(#[trigger] found@[k]),
            rows matches Err(e) ==> e is LockFailed || engine_refused(e@, ""@) || e
                is TooManyRows,
    {
        let guard = match lock(&self.conn) {
            Some(guard) => guard,
            None => {
                return Err(AdapterError::LockFailed);
            },
        };
        let conn = locked(&guard);
        let described = fetch_cells(conn, &table_xinfo_statement(table), "")?;
        let names = read_selected_names(&described);
        let statement = match &filters {
            Some(filter) => select_statement(table, Some(filter), limit, offset),
            None => select_statement(table, None, limit, offset),
        };
        fetch_objects(conn, &statement, &names)
    }

    /// Inserts one row holding the members of `data` and returns the row
    /// identity that the engine gave it.
    pub fn insert(&self, table: &str, data: serde_json::Value) -> (id: Result<i64, AdapterError>)
        ensures
            self.read_only() ==> id == Err::<i64, AdapterError>(
                AdapterError::ReadOnly(Mutation::Insert),
            ),
            !self.read_only() && !(json_shape(data) is Object) ==> id == Err::<i64, AdapterError>(
                AdapterError::NotAnObject,
            ),
            !self.read_only() && json_shape(data) is Object ==> (id matches Err(e) ==> e
                is LockFailed || engine_refused(e@, ""@)),
    {
        if self.readonly {
            return Err(AdapterError::ReadOnly(Mutation::Insert));
        }
        let statement = insert_statement(table, &data)?;
        let guard = match lock(&self.conn) {
            Some(guard) => guard,
            None => {
                return Err(AdapterError::LockFailed);
            },
        };
        let conn = locked(&guard);
        run(conn, &statement, "")?;
        Ok(last_insert_rowid(conn))
    }

    /// Sets the members of `data` on the row of `table` whose identity
    /// column holds `pk_value`. Returns the number of rows changed, 0 where
    /// no row has that identity.
    pub fn update(&self, table: &str, pk_value: i64, data: serde_json::Value) -> (changed: Result<
        usize,
        AdapterError,
    >)
        ensures
            self.read_only() ==> changed == Err::<usize, AdapterError>(
                AdapterError::ReadOnly(Mutation::Update),
            ),
            !self.read_only() && !(json_shape(data) is Object) ==> changed == Err::<
                usize,
                AdapterError,
            >(AdapterError::NotAnObject),
            !self.read_only() && json_shape(data) is Object ==> (changed matches Err(e) ==> e
                is LockFailed || engine_refused(e@, ""@) || e is TooManyRows || e
                is MalformedRow || e is CompositePrimaryKey),
    {
        if self.readonly {
            return Err(AdapterError::ReadOnly(Mutation::Update));
        }
        match read_node(&data) {
            JsonNode::Object(_) => {},
            _ => {
                return Err(AdapterError::NotAnObject);
            },
        }
        let guard = match lock(&self.conn) {
            Some(guard) => guard,
            None => {
                return Err(AdapterError::LockFailed);
            },
        };
        let conn = locked(&guard);
        let described = fetch_cells(conn, &table_info_statement(table), "")?;
        let key_column = read_identity(&described)?;
        let statement = update_statement(table, key_column.as_str(), pk_value, &data)?;
        run(conn, &statement, "")
    }

    /// Deletes the row of `table` whose identity column holds `pk_value`.
    /// Returns the number of rows deleted.
    pub fn delete(&self, table: &str, pk_value: i64) -> (changed: Result<usize, AdapterError>)
        ensures
            self.read_only() ==> changed == Err::<usize, AdapterError>(
                AdapterError::ReadOnly(Mutation::Delete),
            ),
            !self.read_only() ==> (changed matches Err(e) ==> e is LockFailed || engine_refused(
                e@,
                ""@,
            ) || e is TooManyRows || e is MalformedRow || e is CompositePrimaryKey),
    {
        if self.readonly {
            return Err(AdapterError::ReadOnly(Mutation::Delete));
        }
        let guard = match lock(&self.conn) {
            Some(guard) => guard,
            None => {
                return Err(AdapterError::LockFailed);
            },
        };
        let conn = locked(&guard);
        let described = fetch_cells(conn, &table_info_statement(table), "")?;
        let key_column = read_identity(&described)?;
        let statement = delete_statement(table, key_column.as_str(), pk_value);
        run(conn, &statement, "")
    }

    /// Inserts `items` in chunks of `batch_size`, each chunk under one
    /// transaction and one hold of the lock. A chunk in which the engine
    /// rejects any item is rolled back as a whole.
    pub fn batch_insert(&self, table: &str, items: Vec<serde_json::Value>, batch_size: usize) -> (done:
        Result<BatchResult, AdapterError>)
        requires
            !self.read_only() && items@.len() > 0 ==> batch_size > 0,
        ensures
            self.read_only() ==> done == Err::<BatchResult, AdapterError>(
                AdapterError::ReadOnly(Mutation::Insert),
            ),
            !self.read_only() && items@.len() == 0 ==> (done matches Ok(result) && result@
                == nothing_to_do()),
            !self.read_only() && items@.len() > 0 ==> match done {
                Ok(result) => exists|chunks: Seq<ChunkModel>|
                    cut_into(chunks, items@.len(), batch_size as nat) && all_settled(chunks)
                        && each_ran_inserts(chunks, items@) && result@ == #[trigger] tally(
                        initial(items@.len(), true),
                        chunks,
                    ),
                Err(e) => e is LockFailed || engine_refused(e@, ""@),
            },
    {
        if self.readonly {
            return Err(AdapterError::ReadOnly(Mutation::Insert));
        }
        if items.len() == 0 {
            return Ok(BatchResult::empty());
        }
        let total = items.len();
        let mut result = BatchResult::start(total, true);
        let ghost mut chunks: Seq<ChunkModel> = Seq::empty();
        let mut start: usize = 0;
        while start < total
            invariant
                !self.read_only(),
                start <= total,
                total == items@.len(),
                batch_size > 0,
                result@ == tally(initial(total as nat, true), chunks),
                items_in(chunks) == start,
                all_settled(chunks),
                each_ran_inserts(chunks, items@),
                forall|k: int| 0 <= k < chunks.len() ==> 0 < (#[trigger] chunks[k]).size <= batch_size,
                start < total ==> forall|k: int|
                    0 <= k < chunks.len() ==> (#[trigger] chunks[k]).size == batch_size,
                forall|k: int| 0 <= k < chunks.len() - 1 ==> (#[trigger] chunks[k]).size == batch_size,
            decreases total - start,
        {
            let end = chunk_end(start, batch_size, total);
            let outcome = {
                let guard = match lock(&self.conn) {
                    Some(guard) => guard,
                    None => {
                        return Err(AdapterError::LockFailed);
                    },
                };
                insert_chunk(locked(&guard), table, &items, start, end)?
            };
            proof {
                lemma_tally_counts_every_item(total as nat, true, chunks);
                let extended = chunks.push(outcome@);
                assert(extended.drop_last() =~= chunks);
                assert forall|k: int| 0 <= k < extended.len() implies ran_inserts(
                    #[trigger] extended[k],
                    items@,
                    items_in(extended.subrange(0, k)) as int,
                ) by {
                    assert(extended.subrange(0, k) =~= chunks.subrange(0, k));
                    if k == chunks.len() {
                        assert(chunks.subrange(0, k) =~= chunks);
                    }
                }
                chunks = extended;
            }
            result.record_chunk(outcome);
            start = end;
        }
        Ok(result)
    }

    /// Applies `updates`, each an identity and the data to set, in chunks
    /// of `batch_size`, each chunk under one transaction and one hold of
    /// the lock. The identity column is resolved once, before the first
    /// chunk.
    pub fn batch_update(
        &self,
        table: &str,
        updates: Vec<(i64, serde_json::Value)>,
        batch_size: usize,
    ) -> (done: Result<BatchResult, AdapterError>)
        requires
            !self.read_only() && updates@.len() > 0 ==> batch_size > 0,
        ensures
            self.read_only() ==> done == Err::<BatchResult, AdapterError>(
                AdapterError::ReadOnly(Mutation::Update),
            ),
            !self.read_only() && updates@.len() == 0 ==> (done matches Ok(result) && result@
                == nothing_to_do()),
            !self.read_only() && updates@.len() > 0 ==> match done {
                Ok(result) => exists|chunks: Seq<ChunkModel>|
                    cut_into(chunks, updates@.len(), batch_size as nat) && all_settled(chunks)
                        && each_ran_updates(chunks, update_data(updates@)) && result@
                        == #[trigger] tally(initial(updates@.len(), false), chunks),
                Err(e) => e is LockFailed || engine_refused(e@, ""@) || e is TooManyRows || e
                    is MalformedRow || e is CompositePrimaryKey,
            },
    {
        if self.readonly {
            return Err(AdapterError::ReadOnly(Mutation::Update));
        }
        if updates.len() == 0 {
            return Ok(BatchResult::empty());
        }
        let total = updates.len();
        let key_column = {
            let guard = match lock(&self.conn) {
                Some(guard) => guard,
                None => {
                    return Err(AdapterError::LockFailed);
                },
            };
            let described = fetch_cells(locked(&guard), &table_info_statement(table), "")?;
            read_identity(&described)?
        };
        let mut result = BatchResult::start(total, false);
        let ghost mut chunks: Seq<ChunkModel> = Seq::empty();
        let mut start: usize = 0;
        while start < total
            invariant
                !self.read_only(),
                start <= total,
                total == updates@.len(),
                batch_size > 0,
                result@ == tally(initial(total as nat, false), chunks),
                items_in(chunks) == start,
                all_settled(chunks),
                each_ran_updates(chunks, update_data(updates@)),
                forall|k: int| 0 <= k < chunks.len() ==> 0 < (#[trigger] chunks[k]).size <= batch_size,
                start < total ==> forall|k: int|
                    0 <= k < chunks.len() ==> (#[trigger] chunks[k]).size == batch_size,
                forall|k: int| 0 <= k < chunks.len() - 1 ==> (#[trigger] chunks[k]).size == batch_size,
            decreases total - start,
        {
            let end = chunk_end(start, batch_size, total);
            let outcome = {
                let guard = match lock(&self.conn) {
                    Some(guard) => guard,
                    None => {
                        return Err(AdapterError::LockFailed);
                    },
                };
                update_chunk(locked(&guard), table, key_column.as_str(), &updates, start, end)?
            };
            proof {
                lemma_tally_counts_every_item(total as nat, false, chunks);
                let extended = chunks.push(outcome@);
                assert(extended.drop_last() =~= chunks);
                assert forall|k: int| 0 <= k < extended.len() implies ran_updates(
                    #[trigger] extended[k],
                    update_data(updates@),
                    items_in(extended.subrange(0, k)) as int,
                ) by {
                    assert(extended.subrange(0, k) =~= chunks.subrange(0, k));
                    if k == chunks.len() {
                        assert(chunks.subrange(0, k) =~= chunks);
                    }
                }
                chunks = extended;
            }
            result.record_chunk(outcome);
            start = end;
        }
        Ok(result)
    }

    /// Deletes every row of `table` whose identity column holds one of
    /// `ids`, in one statement. Returns the number of rows deleted.
    pub fn batch_delete(&self, table: &str, ids: Vec<i64>) -> (changed: Result<usize, AdapterError>)
        ensures
            self.read_only() ==> changed == Err::<usize, AdapterError>(
                AdapterError::ReadOnly(Mutation::Delete),
            ),
            !self.read_only() && ids@.len() == 0 ==> changed == Ok::<usize, AdapterError>(0),
            !self.read_only() && ids@.len() > 0 ==> (changed matches Err(e) ==> e is LockFailed
                || engine_refused(e@, ""@) || e is TooManyRows || e is MalformedRow || e
                is CompositePrimaryKey),
    {
        if self.readonly {
            return Err(AdapterError::ReadOnly(Mutation::Delete));
        }
        if ids.len() == 0 {
            return Ok(0);
        }
        let guard = match lock(&self.conn) {
            Some(guard) => guard,
            None => {
                return Err(AdapterError::LockFailed);
            },
        };
        let conn = locked(&guard);
        let described = fetch_cells(conn, &table_info_statement(table), "")?;
        let key_column = read_identity(&described)?;
        let statement = batch_delete_statement(table, key_column.as_str(), &ids);
        run(conn, &statement, "")
    }

    /// Stores `desc` as the comment of `table`, in place of any earlier
    /// one. Fails where the table does not exist.
    pub fn set_table_comment(&self, table: &str, desc: &str) -> (done: Result<(), AdapterError>)
        ensures
            self.read_only() ==> done == Err::<(), AdapterError>(
                AdapterError::ReadOnly(Mutation::SetTableComment),
            ),
            !self.read_only() ==> (done matches Err(e) ==> e is LockFailed || e is TooManyRows
                || e is MalformedRow || e@ == (ErrorModel::TableNotFound { table: table@ })
                || engine_refused(e@, table_check_context(table@)) || setup_refused(e@)
                || engine_refused(e@, set_table_comment_context(table@))),
    {
        if self.readonly {
            return Err(AdapterError::ReadOnly(Mutation::SetTableComment));
        }
        let guard = match lock(&self.conn) {
            Some(guard) => guard,
            None => {
                return Err(AdapterError::LockFailed);
            },
        };
        let conn = locked(&guard);
        let counted = fetch_cells(
            conn,
            &table_exists_statement(table),
            table_check_words(table).as_str(),
        )?;
        require_table(read_presence(counted)?, table)?;
        ensure_auxiliary_tables_exist(conn)?;
        run(conn, &table_comment_statement(table, desc), set_table_comment_words(table).as_str())?;
        Ok(())
    }

    /// Stores `desc` as the comment of `column` of `table`, in place of any
    /// earlier one. Fails where the table or the column does not exist.
    pub fn set_column_comment(&self, table: &str, column: &str, desc: &str) -> (done: Result<
        (),
        AdapterError,
    >)
        ensures
            self.read_only() ==> done == Err::<(), AdapterError>(
                AdapterError::ReadOnly(Mutation::SetColumnComment),
            ),
            !self.read_only() ==> (done matches Err(e) ==> e is LockFailed || e is TooManyRows
                || e is MalformedRow || e@ == (ErrorModel::TableNotFound { table: table@ }) || e@
                == (ErrorModel::ColumnNotFound { table: table@, column: column@ })
                || engine_refused(e@, table_check_context(table@)) || engine_refused(
                e@,
                column_check_context(table@, column@),
            ) || setup_refused(e@) || engine_refused(
                e@,
                set_column_comment_context(table@, column@),
            )),
    {
        if self.readonly {
            return Err(AdapterError::ReadOnly(Mutation::SetColumnComment));
        }
        let guard = match lock(&self.conn) {
            Some(guard) => guard,
            None => {
                return Err(AdapterError::LockFailed);
            },
        };
        let conn = locked(&guard);
        let counted = fetch_cells(
            conn,
            &table_exists_statement(table),
            table_check_words(table).as_str(),
        )?;
        require_table(read_presence(counted)?, table)?;
        let counted = fetch_cells(
            conn,
            &column_exists_statement(table, column),
            column_check_words(table, column).as_str(),
        )?;
        require_column(read_presence(counted)?, table, column)?;
        ensure_auxiliary_tables_exist(conn)?;
        run(
            conn,
            &column_comment_statement(table, column, desc),
            set_column_comment_words(table, column).as_str(),
        )?;
        Ok(())
    }
}

} // verus!
