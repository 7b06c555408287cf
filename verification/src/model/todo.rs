//! A todo entry and its status.

use vstd::prelude::*;

verus! {

/// Whether a todo is finished or still being worked on.
#[derive(Debug, Clone, Copy, PartialEq, Eq, Structural)]
pub enum TodoStatus {
    DONE,
    PROGESS,
}

/// What a [`Todo`] is in contracts: the characters of its name, and its status.
pub struct TodoView {
    pub name: Seq<char>,
    pub status: TodoStatus,
}

/// One task of the list.
#[derive(Debug)]
pub struct Todo {
    pub name: String,
    pub status: TodoStatus,
}

impl View for Todo {
    type V = TodoView;

    open spec fn view(&self) -> TodoView {
        TodoView { name: self.name@, status: self.status }
    }
}

impl Clone for Todo {
    fn clone(&self) -> (copy: Self)
        ensures
            copy == *self,
    {
        Todo { name: self.name.clone(), status: self.status }
    }
}

impl Todo {
    /// A todo with the given name and status.
    pub fn new(name: String, status: TodoStatus) -> (todo: Self)
        ensures
            todo.name == name,
            todo.status == status,
    {
        Self { name, status }
    }
}

} // verus!
