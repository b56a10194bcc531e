//! Batched inserts, updates and deletes.

use crate::batch::{
    all_settled, cut_into, each_ran_inserts, each_ran_updates, initial,
    lemma_tally_keeps_collecting, nothing_to_do, tally, update_data, BatchModel, BatchResult,
    ChunkModel,
};
use crate::error::{engine_refused, AdapterError, Mutation};
use crate::sqlite::SqliteDatabase;
use crate::text::string_views;
use vstd::prelude::*;

verus! {

/// The most items that one batched insert or update may carry.
pub const MAX_BATCH_ITEMS: usize = 100;

#[derive(Debug, PartialEq)]
pub struct BatchInsertInput {
    pub table: String,
    pub items: Vec<serde_json::Value>,
    /// The number of items per transaction.
    pub batch_size: usize,
}

/// The number of items per transaction where a caller names none.
pub fn default_batch_size() -> (size: usize)
    ensures
        size == 50,
{
    50
}

#[derive(Clone, Debug, PartialEq)]
pub struct BatchInsertOutput {
    pub total: usize,
    pub succeeded: usize,
    pub failed: usize,
    pub errors: Vec<String>,
    pub inserted_ids: Option<Vec<i64>>,
}

impl View for BatchInsertOutput {
    type V = BatchModel;

    open spec fn view(&self) -> BatchModel {
        BatchModel {
            total: self.total as nat,
            succeeded: self.succeeded as nat,
            failed: self.failed as nat,
            errors: string_views(self.errors@),
            inserted_ids: match self.inserted_ids {
                Some(ids) => Some(ids@),
                None => None,
            },
        }
    }
}

/// Inserts the items of `input`, unless there are more of them than one
/// batch may carry: such a batch is refused before anything runs.
pub fn insert_execute(db: &SqliteDatabase, input: BatchInsertInput) -> (output: Result<
    BatchInsertOutput,
    AdapterError,
>)
    requires
        !db.read_only() && 0 < input.items@.len() <= MAX_BATCH_ITEMS ==> input.batch_size > 0,
    ensures
        input.items@.len() > MAX_BATCH_ITEMS ==> output == Err::<BatchInsertOutput, AdapterError>(
            AdapterError::BatchTooLarge { updates: false },
        ),
        input.items@.len() <= MAX_BATCH_ITEMS && db.read_only() ==> output == Err::<
            BatchInsertOutput,
            AdapterError,
        >(AdapterError::ReadOnly(Mutation::Insert)),
        input.items@.len() == 0 && !db.read_only() ==> (output matches Ok(done) && done@
            == nothing_to_do()),
        0 < input.items@.len() <= MAX_BATCH_ITEMS && !db.read_only() ==> match output {
            Ok(done) => exists|chunks: Seq<ChunkModel>|
                cut_into(chunks, input.items@.len(), input.batch_size as nat) && all_settled(
                    chunks,
                ) && each_ran_inserts(chunks, input.items@) && done@ == #[trigger] tally(
                    initial(input.items@.len(), true),
                    chunks,
                ),
            Err(e) => e is LockFailed || engine_refused(e@, ""@),
        },
{
    let BatchInsertInput { table, items, batch_size } = input;
    if items.len() > MAX_BATCH_ITEMS {
        return Err(AdapterError::BatchTooLarge { updates: false });
    }
    let result = db.batch_insert(table.as_str(), items, batch_size)?;
    let BatchResult { total, succeeded, failed, errors, inserted_ids } = result;
    Ok(BatchInsertOutput { total, succeeded, failed, errors, inserted_ids })
}

#[derive(Debug, PartialEq)]
pub struct BatchUpdateInput {
    pub table: String,
    pub updates: Vec<BatchUpdateItem>,
    /// The number of items per transaction.
    pub batch_size: usize,
}

#[derive(Debug, PartialEq)]
pub struct BatchUpdateItem {
    pub id: i64,
    pub data: serde_json::Value,
}

#[derive(Clone, Debug, PartialEq)]
pub struct BatchUpdateOutput {
    pub total: usize,
    pub succeeded: usize,
    pub failed: usize,
    pub errors: Vec<String>,
}

impl View for BatchUpdateOutput {
    type V = BatchModel;

    open spec fn view(&self) -> BatchModel {
        BatchModel {
            total: self.total as nat,
            succeeded: self.succeeded as nat,
            failed: self.failed as nat,
            errors: string_views(self.errors@),
            inserted_ids: None,
        }
    }
}

/// Each update as the pair of its identity and its data, in order.
pub open spec fn update_pairs(updates: Seq<BatchUpdateItem>) -> Seq<(i64, serde_json::Value)> {
    updates.map_values(|u: BatchUpdateItem| (u.id, u.data))
}

fn into_pairs(updates: Vec<BatchUpdateItem>) -> (pairs: Vec<(i64, serde_json::Value)>)
    ensures
        pairs@ == update_pairs(updates@),
{
    let mut updates = updates;
    let ghost all = updates@;
    let mut reversed: Vec<(i64, serde_json::Value)> = Vec::new();
    while updates.len() > 0
        invariant
            updates@.len() + reversed@.len() == all.len(),
            updates@ == all.subrange(0, updates@.len() as int),
            forall|k: int|
                0 <= k < reversed@.len() ==> (#[trigger] reversed@[k]) == (
                    all[all.len() - 1 - k].id,
                    all[all.len() - 1 - k].data,
                ),
        decreases updates@.len(),
    {
        match updates.pop() {
            Some(item) => {
                let BatchUpdateItem { id, data } = item;
                reversed.push((id, data));
            },
            None => {},
        }
    }
    let mut pairs: Vec<(i64, serde_json::Value)> = Vec::new();
    let ghost turned = reversed@;
    while reversed.len() > 0
        invariant
            turned.len() == all.len(),
            reversed@.len() + pairs@.len() == all.len(),
            reversed@ == turned.subrange(0, reversed@.len() as int),
            forall|k: int|
                0 <= k < turned.len() ==> (#[trigger] turned[k]) == (
                    all[all.len() - 1 - k].id,
                    all[all.len() - 1 - k].data,
                ),
            forall|k: int| 0 <= k < pairs@.len() ==> (#[trigger] pairs@[k]) == (all[k].id, all[k].data),
        decreases reversed@.len(),
    {
        match reversed.pop() {
            Some(pair) => {
                pairs.push(pair);
            },
            None => {},
        }
    }
    pairs
}

/// Applies the updates of `input`, unless there are more of them than one
/// batch may carry: such a batch is refused before anything runs.
pub fn update_execute(db: &SqliteDatabase, input: BatchUpdateInput) -> (output: Result<
    BatchUpdateOutput,
    AdapterError,
>)
    requires
        !db.read_only() && 0 < input.updates@.len() <= MAX_BATCH_ITEMS ==> input.batch_size > 0,
    ensures
        input.updates@.len() > MAX_BATCH_ITEMS ==> output == Err::<
            BatchUpdateOutput,
            AdapterError,
        >(AdapterError::BatchTooLarge { updates: true }),
        input.updates@.len() <= MAX_BATCH_ITEMS && db.read_only() ==> output == Err::<
            BatchUpdateOutput,
            AdapterError,
        >(AdapterError::ReadOnly(Mutation::Update)),
        input.updates@.len() == 0 && !db.read_only() ==> (output matches Ok(done) && done@
            == nothing_to_do()),
        0 < input.updates@.len() <= MAX_BATCH_ITEMS && !db.read_only() ==> match output {
            Ok(done) => exists|chunks: Seq<ChunkModel>|
                cut_into(chunks, input.updates@.len(), input.batch_size as nat) && all_settled(
                    chunks,
                ) && each_ran_updates(chunks, update_data(update_pairs(input.updates@))) && done@
                    == #[trigger] tally(initial(input.updates@.len(), false), chunks),
            Err(e) => e is LockFailed || e is Engine || e is TooManyRows || e is MalformedRow || e
                is CompositePrimaryKey,
        },
{
    let BatchUpdateInput { table, updates, batch_size } = input;
    if updates.len() > MAX_BATCH_ITEMS {
        return Err(AdapterError::BatchTooLarge { updates: true });
    }
    let pairs = into_pairs(updates);
    let ghost count = pairs@.len();
    let ghost sent = pairs@;
    let result = db.batch_update(table.as_str(), pairs, batch_size)?;
    proof {
        if count > 0 {
            let chunks = choose|chunks: Seq<ChunkModel>|
                cut_into(chunks, count, batch_size as nat) && all_settled(chunks)
                    && each_ran_updates(chunks, update_data(sent)) && result@ == #[trigger] tally(
                    initial(count, false),
                    chunks,
                );
            lemma_tally_keeps_collecting(count, false, chunks);
        }
    }
    let BatchResult { total, succeeded, failed, errors, inserted_ids } = result;
    Ok(BatchUpdateOutput { total, succeeded, failed, errors })
}

#[derive(Clone, Debug, PartialEq)]
pub struct BatchDeleteInput {
    pub table: String,
    pub ids: Vec<i64>,
}

#[derive(Clone, Debug, PartialEq)]
pub struct BatchDeleteOutput {
    pub affected_rows: u64,
}

/// Deletes the rows that `input` names, in one statement.
pub fn delete_execute(db: &SqliteDatabase, input: BatchDeleteInput) -> (output: Result<
    BatchDeleteOutput,
    AdapterError,
>)
    ensures
        db.read_only() ==> output == Err::<BatchDeleteOutput, AdapterError>(
            AdapterError::ReadOnly(Mutation::Delete),
        ),
        !db.read_only() && input.ids@.len() == 0 ==> output == Ok::<
            BatchDeleteOutput,
            AdapterError,
        >(BatchDeleteOutput { affected_rows: 0 }),
        !db.read_only() && input.ids@.len() > 0 ==> (output matches Err(e) ==> e is LockFailed
            || e is Engine || e is TooManyRows || e is MalformedRow || e is CompositePrimaryKey),
{
    let BatchDeleteInput { table, ids } = input;
    match db.batch_delete(table.as_str(), ids) {
        Ok(affected) => Ok(BatchDeleteOutput { affected_rows: affected as u64 }),
        Err(e) => Err(e),
    }
}

} // verus!
