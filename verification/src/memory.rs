//! The in-memory store: the records in a vector, in insertion order.
//!
//! Every operation that changes the store takes it by `&mut`, so a change
//! runs with exclusive access from its first read to its last write. A
//! service shares one store among its requests behind a reader/writer lock.

use vstd::prelude::*;
use crate::error::StoreError;
use crate::records::{
    change_result, distinct_ids, get_result, has_id, insert_result, inserted, lemma_lookup_at,
    toggled, updated, views,
};
use crate::todo::{Todo, TodoView};

verus! {

/// The authoritative set of records, held in memory.
pub struct MemoryStore {
    items: Vec<Todo>,
}

impl View for MemoryStore {
    type V = Seq<TodoView>;

    /// The stored records, in insertion order.
    closed spec fn view(&self) -> Seq<TodoView> {
        views(self.items@)
    }
}

impl MemoryStore {
    /// Identifiers are unique among the stored records, at all times.
    #[verifier::type_invariant]
    spec fn ids_are_unique(&self) -> bool {
        distinct_ids(views(self.items@))
    }

    /// An empty store.
    pub fn new() -> (store: MemoryStore)
        ensures
            store@ == Seq::<TodoView>::empty(),
    {
        let store = MemoryStore { items: Vec::new() };
        assert(store@ =~= Seq::<TodoView>::empty());
        store
    }

    /// Moves the records out and leaves the store empty, so that they can
    /// be changed and put back in one piece.
    fn take_items(&mut self) -> (items: Vec<Todo>)
        ensures
            views(items@) == old(self)@,
            distinct_ids(views(items@)),
            final(self)@ == Seq::<TodoView>::empty(),
    {
        proof {
            use_type_invariant(&*self);
        }
        let mut items: Vec<Todo> = Vec::new();
        std::mem::swap(&mut self.items, &mut items);
        assert(self@ =~= Seq::<TodoView>::empty());
        items
    }

    /// The place of the record with the identifier `id`, if it is stored.
    fn position(&self, id: u32) -> (place: Option<usize>)
        ensures
            match place {
                Some(i) => i < self@.len() && self@[i as int].id == id,
                None => !has_id(self@, id),
            },
    {
        let mut i: usize = 0;
        while i < self.items.len()
            invariant
                i <= self.items.len(),
                forall|k: int| 0 <= k < i ==> (#[trigger] self@[k]).id != id,
            decreases self.items.len() - i,
        {
            if self.items[i].id == id {
                return Some(i);
            }
            i += 1;
        }
        None
    }

    /// Adds a record. An identifier that the store already holds is refused
    /// with `DuplicateIdentifier`, and the store stays as it was.
    pub fn insert(&mut self, todo: Todo) -> (result: Result<(), StoreError>)
        ensures
            distinct_ids(old(self)@),
            distinct_ids(final(self)@),
            final(self)@ == inserted(old(self)@, todo@),
            result == insert_result(old(self)@, todo@),
    {
        proof {
            use_type_invariant(&*self);
        }
        match self.position(todo.id) {
            Some(_) => Err(StoreError::DuplicateIdentifier),
            None => {
                let mut items = self.take_items();
                items.push(todo);
                assert(views(items@) =~= old(self)@.push(todo@));
                self.items = items;
                Ok(())
            },
        }
    }

    /// Every stored record, as independent copies, in insertion order. An
    /// empty store gives an empty vector.
    pub fn list(&self) -> (todos: Vec<Todo>)
        ensures
            distinct_ids(self@),
            views(todos@) == self@,
    {
        proof {
            use_type_invariant(&*self);
        }
        let mut todos: Vec<Todo> = Vec::new();
        let mut i: usize = 0;
        while i < self.items.len()
            invariant
                i <= self.items.len(),
                todos@ == self.items@.subrange(0, i as int),
            decreases self.items.len() - i,
        {
            todos.push(self.items[i].clone());
            assert(todos@ =~= self.items@.subrange(0, i + 1));
            i += 1;
        }
        assert(todos@ =~= self.items@);
        todos
    }

    /// A copy of the record with the identifier `id`, or `NotFound`.
    pub fn get(&self, id: u32) -> (result: Result<Todo, StoreError>)
        ensures
            distinct_ids(self@),
            match result {
                Ok(todo) => get_result(self@, id) == Ok::<TodoView, StoreError>(todo@),
                Err(e) => get_result(self@, id) == Err::<TodoView, StoreError>(e),
            },
            result is Ok <==> has_id(self@, id),
            result matches Ok(todo) ==> todo.id == id && self@.contains(todo@),
    {
        proof {
            use_type_invariant(&*self);
        }
        match self.position(id) {
            Some(i) => {
                proof {
                    lemma_lookup_at(self@, i as int);
                }
                Ok(self.items[i].clone())
            },
            None => Err(StoreError::NotFound),
        }
    }

    /// Replaces the stored record that shares the identifier of `todo` by
    /// `todo`. Where no record has that identifier the answer is `NotFound`
    /// and the store stays as it was.
    pub fn update(&mut self, todo: Todo) -> (result: Result<(), StoreError>)
        ensures
            distinct_ids(old(self)@),
            distinct_ids(final(self)@),
            final(self)@ == updated(old(self)@, todo@),
            result == change_result(old(self)@, todo.id),
            !has_id(old(self)@, todo.id) ==> final(self)@ == old(self)@,
    {
        proof {
            use_type_invariant(&*self);
        }
        match self.position(todo.id) {
            Some(i) => {
                let mut items = self.take_items();
                items.set(i, todo);
                assert(views(items@) =~= updated(old(self)@, todo@));
                self.items = items;
                Ok(())
            },
            None => {
                assert(self@ =~= updated(old(self)@, todo@));
                Err(StoreError::NotFound)
            },
        }
    }

    /// Flips the completion flag of the record with the identifier `id`, as
    /// one step. Where no record has that identifier the answer is
    /// `NotFound` and the store stays as it was.
    pub fn toggle(&mut self, id: u32) -> (result: Result<(), StoreError>)
        ensures
            distinct_ids(old(self)@),
            distinct_ids(final(self)@),
            final(self)@ == toggled(old(self)@, id),
            result == change_result(old(self)@, id),
            !has_id(old(self)@, id) ==> final(self)@ == old(self)@,
    {
        proof {
            use_type_invariant(&*self);
        }
        match self.position(id) {
            Some(i) => {
                let mut items = self.take_items();
                items[i].completed = !items[i].completed;
                assert(views(items@) =~= toggled(old(self)@, id));
                self.items = items;
                Ok(())
            },
            None => {
                assert(self@ =~= toggled(old(self)@, id));
                Err(StoreError::NotFound)
            },
        }
    }
}

} // verus!
