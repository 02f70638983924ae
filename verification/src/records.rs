//! The mathematical model of a store: a sequence of records, in the order
//! in which they were inserted, no two of them with the same identifier.
//!
//! Each store operation is described here as a function on such sequences.
//! The contracts of the executable stores and the laws are stated over these
//! functions.

use vstd::prelude::*;
use crate::error::StoreError;
use crate::todo::{Todo, TodoView};

verus! {

/// The values of a sequence of records, one by one.
pub open spec fn views(todos: Seq<Todo>) -> Seq<TodoView> {
    todos.map_values(|todo: Todo| todo@)
}

/// Some record of `s` has the identifier `id`.
pub open spec fn has_id(s: Seq<TodoView>, id: u32) -> bool {
    exists|i: int| 0 <= i < s.len() && (#[trigger] s[i]).id == id
}

/// No two records of `s` share an identifier.
pub open spec fn distinct_ids(s: Seq<TodoView>) -> bool {
    forall|i: int, j: int|
        0 <= i < j < s.len() ==> (#[trigger] s[i]).id != (#[trigger] s[j]).id
}

/// A place in `s` at which a record with the identifier `id` stands. Where
/// the identifiers are distinct there is at most one such place.
pub open spec fn index_of(s: Seq<TodoView>, id: u32) -> int {
    choose|i: int| 0 <= i < s.len() && (#[trigger] s[i]).id == id
}

/// The record of `s` with the identifier `id`, if there is one.
pub open spec fn lookup(s: Seq<TodoView>, id: u32) -> Option<TodoView> {
    if has_id(s, id) {
        Some(s[index_of(s, id)])
    } else {
        None
    }
}

/// What `get` answers on the store `s`.
pub open spec fn get_result(s: Seq<TodoView>, id: u32) -> Result<TodoView, StoreError> {
    match lookup(s, id) {
        Some(record) => Ok(record),
        None => Err(StoreError::NotFound),
    }
}

/// What `insert` answers on the store `s`: an identifier that is already
/// there is refused.
pub open spec fn insert_result(s: Seq<TodoView>, record: TodoView) -> Result<(), StoreError> {
    if has_id(s, record.id) {
        Err(StoreError::DuplicateIdentifier)
    } else {
        Ok(())
    }
}

/// The store `s` after `insert`: the new record stands last, unless its
/// identifier was taken, in which case nothing changes.
pub open spec fn inserted(s: Seq<TodoView>, record: TodoView) -> Seq<TodoView> {
    if has_id(s, record.id) {
        s
    } else {
        s.push(record)
    }
}

/// What `update` and `toggle` answer on the store `s` for the identifier
/// `id`.
pub open spec fn change_result(s: Seq<TodoView>, id: u32) -> Result<(), StoreError> {
    if has_id(s, id) {
        Ok(())
    } else {
        Err(StoreError::NotFound)
    }
}

/// The store `s` after `update`: the record that shares the identifier of
/// `record` is replaced by it, in place; every other record stays.
pub open spec fn updated(s: Seq<TodoView>, record: TodoView) -> Seq<TodoView> {
    s.map_values(
        |stored: TodoView|
            if stored.id == record.id {
                record
            } else {
                stored
            },
    )
}

/// The store `s` after `toggle`: the record with the identifier `id` has its
/// completion flag flipped; every other record stays.
pub open spec fn toggled(s: Seq<TodoView>, id: u32) -> Seq<TodoView> {
    s.map_values(
        |stored: TodoView|
            if stored.id == id {
                stored.toggled()
            } else {
                stored
            },
    )
}

/// In a store with distinct identifiers, a record found at some place is
/// the one that `lookup` gives for its identifier.
pub proof fn lemma_lookup_at(s: Seq<TodoView>, i: int)
    requires
        distinct_ids(s),
        0 <= i < s.len(),
    ensures
        has_id(s, s[i].id),
        index_of(s, s[i].id) == i,
        lookup(s, s[i].id) == Some(s[i]),
{
    let id = s[i].id;
    let k = index_of(s, id);
    assert(0 <= k < s.len() && s[k].id == id);
    if k < i {
        assert(s[k].id != s[i].id);
    } else if i < k {
        assert(s[i].id != s[k].id);
    }
}

} // verus!
