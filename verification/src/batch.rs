//! Accounting for batched mutations: a batch is cut into chunks, each chunk
//! runs under one transaction and either succeeds as a whole or fails as a
//! whole.

use crate::json::json_shape;
use crate::text::{signed_decimal, signed_to_text, string_views};
use vstd::prelude::*;
use vstd::string::StringExecFns;

verus! {

/// The outcome of a batched mutation.
#[derive(Clone, Debug, PartialEq)]
pub struct BatchResult {
    /// The number of items handed in.
    pub total: usize,
    /// The items of chunks that were committed.
    pub succeeded: usize,
    /// The items of chunks that were rolled back.
    pub failed: usize,
    /// The messages of the items that the engine rejected, in order.
    pub errors: Vec<String>,
    /// For insert batches, the row identities assigned in committed
    /// chunks, in execution order.
    pub inserted_ids: Option<Vec<i64>>,
}

/// What happened to one chunk.
#[derive(Debug, PartialEq)]
pub struct ChunkOutcome {
    /// The number of items in the chunk.
    pub size: usize,
    /// One message for each item that the engine rejected.
    pub errors: Vec<String>,
    /// The row identities assigned while the chunk ran.
    pub inserted_ids: Vec<i64>,
}

/// The mathematical counterpart of [`BatchResult`].
pub struct BatchModel {
    pub total: nat,
    pub succeeded: nat,
    pub failed: nat,
    pub errors: Seq<Seq<char>>,
    pub inserted_ids: Option<Seq<i64>>,
}

/// The mathematical counterpart of [`ChunkOutcome`].
pub struct ChunkModel {
    pub size: nat,
    pub errors: Seq<Seq<char>>,
    pub inserted_ids: Seq<i64>,
}

impl View for BatchResult {
    type V = BatchModel;

    open spec fn view(&self) -> BatchModel {
        BatchModel {
            total: self.total as nat,
            succeeded: self.succeeded as nat,
            failed: self.failed as nat,
            errors: string_views(self.errors@),
            inserted_ids: match self.inserted_ids {
                Some(ids) => Some(ids@),
                None => None,
            },
        }
    }
}

impl View for ChunkOutcome {
    type V = ChunkModel;

    open spec fn view(&self) -> ChunkModel {
        ChunkModel {
            size: self.size as nat,
            errors: string_views(self.errors@),
            inserted_ids: self.inserted_ids@,
        }
    }
}

/// The result before any chunk has run.
pub open spec fn initial(total: nat, collect_ids: bool) -> BatchModel {
    BatchModel {
        total,
        succeeded: 0,
        failed: 0,
        errors: Seq::empty(),
        inserted_ids: if collect_ids {
            Some(Seq::empty())
        } else {
            None
        },
    }
}

/// The result of a batch with no items.
pub open spec fn nothing_to_do() -> BatchModel {
    initial(0, false)
}

/// The result after one more chunk. A chunk without errors is committed:
/// all its items count as succeeded and its row identities are kept. A
/// chunk with an error is rolled back: all its items count as failed,
/// whichever of them the engine rejected, and its row identities are
/// dropped with it.
pub open spec fn recorded(so_far: BatchModel, chunk: ChunkModel) -> BatchModel {
    if chunk.errors.len() == 0 {
        BatchModel {
            succeeded: so_far.succeeded + chunk.size,
            inserted_ids: match so_far.inserted_ids {
                Some(ids) => Some(ids + chunk.inserted_ids),
                None => None,
            },
            ..so_far
        }
    } else {
        BatchModel {
            failed: so_far.failed + chunk.size,
            errors: so_far.errors + chunk.errors,
            ..so_far
        }
    }
}

/// The result after a run of chunks.
pub open spec fn tally(start: BatchModel, chunks: Seq<ChunkModel>) -> BatchModel
    decreases chunks.len(),
{
    if chunks.len() == 0 {
        start
    } else {
        recorded(tally(start, chunks.drop_last()), chunks.last())
    }
}

/// The number of items in a run of chunks.
pub open spec fn items_in(chunks: Seq<ChunkModel>) -> nat
    decreases chunks.len(),
{
    if chunks.len() == 0 {
        0
    } else {
        items_in(chunks.drop_last()) + chunks.last().size
    }
}

/// A run of chunks cuts `total` items into pieces of `size`: every chunk
/// but the last is full, the last holds what is left, and none is empty.
pub open spec fn cut_into(chunks: Seq<ChunkModel>, total: nat, size: nat) -> bool {
    &&& items_in(chunks) == total
    &&& forall|k: int| 0 <= k < chunks.len() - 1 ==> (#[trigger] chunks[k]).size == size
    &&& forall|k: int| 0 <= k < chunks.len() ==> 0 < (#[trigger] chunks[k]).size <= size
}

/// What holds of a chunk however it ran: each of its items left at most
/// one message or one row identity.
pub open spec fn settled(chunk: ChunkModel) -> bool {
    chunk.errors.len() + chunk.inserted_ids.len() <= chunk.size
}

/// Every chunk of a run is settled.
pub open spec fn all_settled(chunks: Seq<ChunkModel>) -> bool {
    forall|k: int| 0 <= k < chunks.len() ==> settled(#[trigger] chunks[k])
}

/// The number of JSON objects among `items[start..end]`: the items that
/// give a statement.
pub open spec fn objects_between(items: Seq<serde_json::Value>, start: int, end: int) -> nat
    decreases end - start,
{
    if end <= start {
        0
    } else {
        objects_between(items, start, end - 1) + if json_shape(items[end - 1]) is Object {
            1nat
        } else {
            0nat
        }
    }
}

/// The data of each update, in order.
pub open spec fn update_data(updates: Seq<(i64, serde_json::Value)>) -> Seq<serde_json::Value> {
    updates.map_values(|u: (i64, serde_json::Value)| u.1)
}

/// A chunk of inserts that starts at item `start` ran: every item of it
/// that is a JSON object left exactly one message or one row identity,
/// and no other item left anything.
pub open spec fn ran_inserts(chunk: ChunkModel, items: Seq<serde_json::Value>, start: int) -> bool {
    chunk.errors.len() + chunk.inserted_ids.len() == objects_between(
        items,
        start,
        start + chunk.size,
    )
}

/// Every chunk of a run of inserts over `items` ran, each from where the
/// chunk before it ended.
pub open spec fn each_ran_inserts(chunks: Seq<ChunkModel>, items: Seq<serde_json::Value>) -> bool {
    forall|k: int|
        0 <= k < chunks.len() ==> ran_inserts(
            #[trigger] chunks[k],
            items,
            items_in(chunks.subrange(0, k)) as int,
        )
}

/// A chunk of updates that starts at item `start` ran: every item of it
/// whose data is a JSON object left at most one message, no other item
/// left anything, and no row identity was noted.
pub open spec fn ran_updates(chunk: ChunkModel, data: Seq<serde_json::Value>, start: int) -> bool {
    chunk.inserted_ids.len() == 0 && chunk.errors.len() <= objects_between(
        data,
        start,
        start + chunk.size,
    )
}

/// Every chunk of a run of updates ran, each from where the chunk before
/// it ended.
pub open spec fn each_ran_updates(chunks: Seq<ChunkModel>, data: Seq<serde_json::Value>) -> bool {
    forall|k: int|
        0 <= k < chunks.len() ==> ran_updates(
            #[trigger] chunks[k],
            data,
            items_in(chunks.subrange(0, k)) as int,
        )
}

/// What the engine answered to one statement, its words taken as
/// characters.
pub open spec fn answer_view<T>(answer: Result<T, String>) -> Result<T, Seq<char>> {
    match answer {
        Ok(value) => Ok(value),
        Err(detail) => Err(detail@),
    }
}

/// A chunk after one insert was answered: the row identity is noted where
/// the engine gave one, the message where it refused.
pub open spec fn after_insert(chunk: ChunkModel, answer: Result<i64, Seq<char>>) -> ChunkModel {
    match answer {
        Ok(id) => ChunkModel { inserted_ids: chunk.inserted_ids.push(id), ..chunk },
        Err(detail) => ChunkModel { errors: chunk.errors.push(insert_failure_text(detail)), ..chunk },
    }
}

/// A chunk after the update of the row `id` was answered: nothing is noted
/// where the engine ran it, the message where it refused.
pub open spec fn after_update(chunk: ChunkModel, id: i64, answer: Result<usize, Seq<char>>) -> ChunkModel {
    match answer {
        Ok(_) => chunk,
        Err(detail) => ChunkModel {
            errors: chunk.errors.push(update_failure_text(id, detail)),
            ..chunk
        },
    }
}

/// The message for an item that the engine would not insert.
pub open spec fn insert_failure_text(detail: Seq<char>) -> Seq<char> {
    "Insert failed: "@ + detail
}

/// The message for an item that the engine would not update.
pub open spec fn update_failure_text(id: i64, detail: Seq<char>) -> Seq<char> {
    "Update failed for ID "@ + signed_decimal(id as int) + ": "@ + detail
}

/// Builds the message for an item that the engine would not insert.
pub fn insert_failure(detail: &str) -> (message: String)
    ensures
        message@ == insert_failure_text(detail@),
{
    let mut message = String::from_str("Insert failed: ");
    message.append(detail);
    message
}

/// Builds the message for an item that the engine would not update.
pub fn update_failure(id: i64, detail: &str) -> (message: String)
    ensures
        message@ == update_failure_text(id, detail@),
{
    let mut message = String::from_str("Update failed for ID ");
    let digits = signed_to_text(id);
    message.append(digits.as_str());
    message.append(": ");
    message.append(detail);
    message
}

/// The end of the chunk that starts at `start`: `size` items further, or
/// the end of the batch where fewer are left.
pub fn chunk_end(start: usize, size: usize, total: usize) -> (end: usize)
    requires
        start < total,
        size > 0,
    ensures
        start < end <= total,
        end - start <= size,
        end < total ==> end - start == size,
{
    if total - start <= size {
        total
    } else {
        start + size
    }
}

impl ChunkOutcome {
    /// A chunk of `size` items, none of them run yet.
    pub fn new(size: usize) -> (outcome: ChunkOutcome)
        ensures
            outcome@ == (ChunkModel { size: size as nat, errors: Seq::empty(), inserted_ids: Seq::empty() }),
    {
        let outcome = ChunkOutcome { size, errors: Vec::new(), inserted_ids: Vec::new() };
        assert(string_views(outcome.errors@) =~= Seq::empty());
        outcome
    }

    /// Notes the row identity that an insert was given.
    pub fn record_inserted(&mut self, id: i64)
        ensures
            final(self)@ == (ChunkModel {
                inserted_ids: old(self)@.inserted_ids.push(id),
                ..old(self)@
            }),
    {
        self.inserted_ids.push(id);
    }

    /// Notes the message of an item that the engine rejected.
    pub fn record_failure(&mut self, message: String)
        ensures
            final(self)@ == (ChunkModel {
                errors: old(self)@.errors.push(message@),
                ..old(self)@
            }),
    {
        let ghost before = string_views(self.errors@);
        self.errors.push(message);
        assert(string_views(self.errors@) =~= before.push(message@));
    }

    /// Notes what the engine answered to one insert: the row identity it
    /// gave, or the words with which it refused.
    pub fn record_insert(&mut self, answer: Result<i64, String>)
        ensures
            final(self)@ == after_insert(old(self)@, answer_view(answer)),
    {
        match answer {
            Ok(id) => {
                self.record_inserted(id);
            },
            Err(detail) => {
                self.record_failure(insert_failure(detail.as_str()));
            },
        }
    }

    /// Notes what the engine answered to the update of the row `id`: the
    /// rows it changed, of which nothing is kept, or the words with which
    /// it refused.
    pub fn record_update(&mut self, id: i64, answer: Result<usize, String>)
        ensures
            final(self)@ == after_update(old(self)@, id, answer_view(answer)),
    {
        match answer {
            Ok(_) => {},
            Err(detail) => {
                self.record_failure(update_failure(id, detail.as_str()));
            },
        }
    }

    /// Whether every item of the chunk ran without error, so that the
    /// chunk is to be committed.
    pub fn is_clean(&self) -> (clean: bool)
        ensures
            clean == (self@.errors.len() == 0),
    {
        self.errors.len() == 0
    }
}

impl BatchResult {
    /// The result of a batch with no items.
    pub fn empty() -> (result: BatchResult)
        ensures
            result@ == nothing_to_do(),
    {
        let result = BatchResult {
            total: 0,
            succeeded: 0,
            failed: 0,
            errors: Vec::new(),
            inserted_ids: None,
        };
        assert(string_views(result.errors@) =~= Seq::empty());
        result
    }

    /// The result of a batch of `total` items before any chunk has run.
    pub fn start(total: usize, collect_ids: bool) -> (result: BatchResult)
        ensures
            result@ == initial(total as nat, collect_ids),
    {
        let result = BatchResult {
            total,
            succeeded: 0,
            failed: 0,
            errors: Vec::new(),
            inserted_ids: if collect_ids {
                Some(Vec::new())
            } else {
                None
            },
        };
        assert(string_views(result.errors@) =~= Seq::empty());
        result
    }

    /// Adds the outcome of one chunk.
    pub fn record_chunk(&mut self, outcome: ChunkOutcome)
        requires
            old(self).succeeded + old(self).failed + outcome.size <= usize::MAX,
        ensures
            final(self)@ == recorded(old(self)@, outcome@),
    {
        let ghost before_errors = string_views(self.errors@);
        let ChunkOutcome { size, errors, inserted_ids } = outcome;
        if errors.len() == 0 {
            self.succeeded = self.succeeded + size;
            let mut ids = inserted_ids;
            match &mut self.inserted_ids {
                Some(collected) => {
                    collected.append(&mut ids);
                },
                None => {},
            }
        } else {
            self.failed = self.failed + size;
            let mut messages = errors;
            let ghost added = string_views(messages@);
            self.errors.append(&mut messages);
            proof {
                assert(string_views(self.errors@) =~= before_errors + added);
            }
        }
    }
}

/// Every item of a batch is accounted for once: after any run of chunks,
/// the succeeded and failed counts add up to the items in those chunks.
pub proof fn lemma_tally_counts_every_item(total: nat, collect_ids: bool, chunks: Seq<ChunkModel>)
    ensures
        tally(initial(total, collect_ids), chunks).succeeded + tally(
            initial(total, collect_ids),
            chunks,
        ).failed == items_in(chunks),
        tally(initial(total, collect_ids), chunks).total == total,
    decreases chunks.len(),
{
    if chunks.len() > 0 {
        lemma_tally_counts_every_item(total, collect_ids, chunks.drop_last());
    }
}

/// A batch never reports more messages than failed items, nor more row
/// identities than succeeded items.
pub proof fn lemma_tally_bounds(total: nat, collect_ids: bool, chunks: Seq<ChunkModel>)
    requires
        all_settled(chunks),
    ensures
        tally(initial(total, collect_ids), chunks).errors.len() <= tally(
            initial(total, collect_ids),
            chunks,
        ).failed,
        tally(initial(total, collect_ids), chunks).inserted_ids matches Some(ids) ==> ids.len()
            <= tally(initial(total, collect_ids), chunks).succeeded,
    decreases chunks.len(),
{
    if chunks.len() > 0 {
        assert(all_settled(chunks.drop_last())) by {
            assert forall|k: int| 0 <= k < chunks.drop_last().len() implies settled(
                #[trigger] chunks.drop_last()[k],
            ) by {
            }
        }
        lemma_tally_bounds(total, collect_ids, chunks.drop_last());
    }
}

/// There are no more objects among some items than items.
pub proof fn lemma_objects_are_items(items: Seq<serde_json::Value>, start: int, end: int)
    requires
        start <= end,
    ensures
        objects_between(items, start, end) <= end - start,
    decreases end - start,
{
    if start < end {
        lemma_objects_are_items(items, start, end - 1);
    }
}

/// Row identities are collected through a whole batch or not at all.
pub proof fn lemma_tally_keeps_collecting(total: nat, collect_ids: bool, chunks: Seq<ChunkModel>)
    ensures
        tally(initial(total, collect_ids), chunks).inserted_ids is Some <==> collect_ids,
    decreases chunks.len(),
{
    if chunks.len() > 0 {
        lemma_tally_keeps_collecting(total, collect_ids, chunks.drop_last());
    }
}

/// A chunk with any error fails as a whole: all its items are added to the
/// failed count, none to the succeeded count, and none of its row
/// identities is reported.
pub proof fn lemma_failed_chunk_counts_whole(so_far: BatchModel, chunk: ChunkModel)
    requires
        chunk.errors.len() > 0,
    ensures
        recorded(so_far, chunk).failed == so_far.failed + chunk.size,
        recorded(so_far, chunk).succeeded == so_far.succeeded,
        recorded(so_far, chunk).inserted_ids == so_far.inserted_ids,
        recorded(so_far, chunk).errors == so_far.errors + chunk.errors,
{
}

/// A chunk without errors succeeds as a whole: all its items are added to
/// the succeeded count and no message is added.
pub proof fn lemma_clean_chunk_counts_whole(so_far: BatchModel, chunk: ChunkModel)
    requires
        chunk.errors.len() == 0,
    ensures
        recorded(so_far, chunk).succeeded == so_far.succeeded + chunk.size,
        recorded(so_far, chunk).failed == so_far.failed,
        recorded(so_far, chunk).errors == so_far.errors,
{
}

} // verus!
