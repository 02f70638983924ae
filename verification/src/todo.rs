//! The record that the store keeps.

use vstd::prelude::*;

verus! {

/// The mathematical value of a [`Todo`]: its identifier, its title as a
/// sequence of characters, and its completion flag.
pub struct TodoView {
    pub id: u32,
    pub name: Seq<char>,
    pub completed: bool,
}

impl TodoView {
    /// The same record with the completion flag flipped.
    pub open spec fn toggled(self) -> TodoView {
        TodoView { id: self.id, name: self.name, completed: !self.completed }
    }
}

/// A todo item. The identifier is chosen by the caller and never changes;
/// all three fields are always present.
#[derive(Debug, PartialEq, Eq)]
pub struct Todo {
    pub id: u32,
    pub name: String,
    pub completed: bool,
}

impl View for Todo {
    type V = TodoView;

    open spec fn view(&self) -> TodoView {
        TodoView { id: self.id, name: self.name@, completed: self.completed }
    }
}

impl Clone for Todo {
    /// An independent copy of this record.
    fn clone(&self) -> (copy: Todo)
        ensures
            copy == *self,
    {
        Todo { id: self.id, name: self.name.clone(), completed: self.completed }
    }
}

impl Todo {
    /// A fresh record: not completed yet.
    pub fn new(id: u32, name: String) -> (todo: Todo)
        ensures
            todo@ == (TodoView { id, name: name@, completed: false }),
    {
        Todo { id, name, completed: false }
    }

    /// This record with the completion flag flipped; identifier and title
    /// stay as they are.
    pub fn toggled(self) -> (todo: Todo)
        ensures
            todo@ == self@.toggled(),
    {
        Todo { id: self.id, name: self.name, completed: !self.completed }
    }
}

} // verus!
