//! The durable store's rules.
//!
//! A durable store keeps the records in one table of a storage engine,
//! keyed by the identifier, and turns each operation into one statement
//! against that table. Running a statement is the caller's business; this
//! module decides what the engine's answer means for the operation. A caller
//! must run the statements of one operation without letting another
//! operation in between.

use vstd::prelude::*;
use crate::error::StoreError;
use crate::laws::law_toggle_is_get_then_update;
use crate::records::{change_result, distinct_ids, get_result, has_id, insert_result, lookup, toggled, updated};
use crate::todo::{Todo, TodoView};

verus! {

/// What the engine answered to a statement that writes.
#[derive(Debug, Clone, Copy, PartialEq, Eq)]
pub enum WriteReply {
    /// The statement ran and changed this many rows.
    Changed(usize),
    /// The statement was refused because it would have stored a key twice.
    Conflict,
    /// The engine could not run the statement.
    Failed,
}

/// What the engine answered to the lookup of one key.
#[derive(Debug, PartialEq, Eq)]
pub enum ReadReply {
    /// The row with that key, decoded.
    Row(Todo),
    /// No row has that key.
    NoRow,
    /// The engine could not run the lookup.
    Failed,
}

/// What a durable toggle does once its lookup is answered.
#[derive(Debug, PartialEq, Eq)]
pub enum ToggleStep {
    /// Write this record back with an update, then read the update's answer
    /// with [`update_outcome`].
    Write(Todo),
    /// Nothing is written; this is the toggle's answer.
    Finish(Result<(), StoreError>),
}

/// The meaning of the engine's answer to the statement that creates the
/// table unless it exists.
pub open spec fn schema_outcome_of(reply: WriteReply) -> Result<(), StoreError> {
    match reply {
        WriteReply::Changed(_) => Ok(()),
        WriteReply::Conflict => Err(StoreError::StorageUnavailable),
        WriteReply::Failed => Err(StoreError::StorageUnavailable),
    }
}

/// The meaning of the engine's answer to the insert of one row.
pub open spec fn insert_outcome_of(reply: WriteReply) -> Result<(), StoreError> {
    match reply {
        WriteReply::Changed(_) => Ok(()),
        WriteReply::Conflict => Err(StoreError::DuplicateIdentifier),
        WriteReply::Failed => Err(StoreError::StorageUnavailable),
    }
}

/// The meaning of the engine's answer to the update of the row with one
/// key.
pub open spec fn update_outcome_of(reply: WriteReply) -> Result<(), StoreError> {
    match reply {
        WriteReply::Changed(rows) => if rows == 0 {
            Err(StoreError::NotFound)
        } else {
            Ok(())
        },
        WriteReply::Conflict => Err(StoreError::StorageUnavailable),
        WriteReply::Failed => Err(StoreError::StorageUnavailable),
    }
}

/// The meaning of the engine's answer to the lookup of one key.
pub open spec fn get_outcome_of(reply: ReadReply) -> Result<Todo, StoreError> {
    match reply {
        ReadReply::Row(todo) => Ok(todo),
        ReadReply::NoRow => Err(StoreError::NotFound),
        ReadReply::Failed => Err(StoreError::StorageUnavailable),
    }
}

/// Reads the answer to the statement that creates the table unless it
/// exists: whatever keeps the table from being there makes the storage
/// unavailable.
pub fn schema_outcome(reply: WriteReply) -> (result: Result<(), StoreError>)
    ensures
        result == schema_outcome_of(reply),
{
    match reply {
        WriteReply::Changed(_) => Ok(()),
        _ => Err(StoreError::StorageUnavailable),
    }
}

/// Reads the answer to an insert: a key conflict means that the identifier
/// is taken.
pub fn insert_outcome(reply: WriteReply) -> (result: Result<(), StoreError>)
    ensures
        result == insert_outcome_of(reply),
{
    match reply {
        WriteReply::Changed(_) => Ok(()),
        WriteReply::Conflict => Err(StoreError::DuplicateIdentifier),
        WriteReply::Failed => Err(StoreError::StorageUnavailable),
    }
}

/// Reads the answer to an update: no row changed means that no record has
/// the identifier.
pub fn update_outcome(reply: WriteReply) -> (result: Result<(), StoreError>)
    ensures
        result == update_outcome_of(reply),
{
    match reply {
        WriteReply::Changed(rows) => {
            if rows == 0 {
                Err(StoreError::NotFound)
            } else {
                Ok(())
            }
        },
        _ => Err(StoreError::StorageUnavailable),
    }
}

/// Reads the answer to a lookup: no row means that no record has the
/// identifier.
pub fn get_outcome(reply: ReadReply) -> (result: Result<Todo, StoreError>)
    ensures
        result == get_outcome_of(reply),
{
    match reply {
        ReadReply::Row(todo) => Ok(todo),
        ReadReply::NoRow => Err(StoreError::NotFound),
        ReadReply::Failed => Err(StoreError::StorageUnavailable),
    }
}

/// Decides how a toggle goes on after its lookup: a record that was found
/// is written back with its completion flag flipped and everything else
/// unchanged; otherwise the toggle ends with the error of the lookup.
pub fn toggle_step(reply: ReadReply) -> (step: ToggleStep)
    ensures
        match get_outcome_of(reply) {
            Ok(found) => step matches ToggleStep::Write(todo) && todo@ == found@.toggled(),
            Err(e) => step == ToggleStep::Finish(Err(e)),
        },
{
    match reply {
        ReadReply::Row(todo) => ToggleStep::Write(todo.toggled()),
        ReadReply::NoRow => ToggleStep::Finish(Err(StoreError::NotFound)),
        ReadReply::Failed => ToggleStep::Finish(Err(StoreError::StorageUnavailable)),
    }
}

/// A table keyed by the identifier that holds the records `s` answers
/// the lookup of `id` with `reply`.
pub open spec fn table_reads(s: Seq<TodoView>, id: u32, reply: ReadReply) -> bool {
    match lookup(s, id) {
        Some(record) => reply matches ReadReply::Row(todo) && todo@ == record,
        None => reply == ReadReply::NoRow,
    }
}

/// A table keyed by the identifier that holds the records `s` answers
/// the insert of a row with the key `id` with `reply`.
pub open spec fn table_inserts(s: Seq<TodoView>, id: u32, reply: WriteReply) -> bool {
    if has_id(s, id) {
        reply == WriteReply::Conflict
    } else {
        reply == WriteReply::Changed(1)
    }
}

/// A table keyed by the identifier that holds the records `s` answers
/// the update of the row with the key `id` with `reply`.
pub open spec fn table_updates(s: Seq<TodoView>, id: u32, reply: WriteReply) -> bool {
    if has_id(s, id) {
        reply == WriteReply::Changed(1)
    } else {
        reply == WriteReply::Changed(0)
    }
}

/// Over an engine that answers as a keyed table does, insert, get and
/// update of the durable store answer exactly as the model of the store
/// does.
pub proof fn law_durable_answers(
    s: Seq<TodoView>,
    record: TodoView,
    id: u32,
    inserting: WriteReply,
    reading: ReadReply,
    updating: WriteReply,
)
    requires
        table_inserts(s, record.id, inserting),
        table_reads(s, id, reading),
        table_updates(s, record.id, updating),
    ensures
        insert_outcome_of(inserting) == insert_result(s, record),
        match get_outcome_of(reading) {
            Ok(todo) => get_result(s, id) == Ok::<TodoView, StoreError>(todo@),
            Err(e) => get_result(s, id) == Err::<TodoView, StoreError>(e),
        },
        update_outcome_of(updating) == change_result(s, record.id),
{
}

/// Over an engine that answers as a keyed table does, and with nothing
/// coming between the lookup and the write, the durable toggle is the
/// toggle of the model: it gives the same answer, and the record that it
/// writes back turns the table into the toggled one.
pub proof fn law_durable_toggle(
    s: Seq<TodoView>,
    id: u32,
    reading: ReadReply,
    step: ToggleStep,
    writing: WriteReply,
)
    requires
        distinct_ids(s),
        table_reads(s, id, reading),
        match get_outcome_of(reading) {
            Ok(found) => step matches ToggleStep::Write(todo) && todo@ == found@.toggled(),
            Err(e) => step == ToggleStep::Finish(Err(e)),
        },
        step matches ToggleStep::Write(todo) ==> table_updates(s, todo.id, writing),
    ensures
        match step {
            ToggleStep::Write(todo) => update_outcome_of(writing) == change_result(s, id)
                && updated(s, todo@) == toggled(s, id),
            ToggleStep::Finish(result) => result == change_result(s, id) && toggled(s, id) == s,
        },
{
    law_toggle_is_get_then_update(s, id);
}

} // verus!
