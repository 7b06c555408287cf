//! The todo list: the entries in the order in which they were added, and the
//! one entry, if any, that is selected.
//!
//! Moving the selection never wraps around. At either end of the list it stays
//! where it is, and in an empty list nothing is ever selected.

use crate::model::todo::{Todo, TodoStatus, TodoView};
use crate::tui::{
    list_state_select_first, list_state_select_last, list_state_select_next,
    list_state_select_previous,
};
use vstd::prelude::*;

verus! {

/// What a [`TodoList`] is in contracts: its entries in order, and the index of
/// the selected one.
pub struct ListView {
    pub todos: Seq<TodoView>,
    pub selected: Option<int>,
}

impl ListView {
    /// The invariant of the list: a selection is the index of an entry. In an
    /// empty list, therefore, nothing is selected.
    pub open spec fn wf(self) -> bool {
        self.selected matches Some(i) ==> 0 <= i < self.todos.len()
    }

    /// The empty list.
    pub open spec fn empty() -> ListView {
        ListView { todos: Seq::empty(), selected: None }
    }

    /// The list with the entry nearest to `wanted` selected: the first entry
    /// for an index before the list, the last one for an index behind it, and
    /// nothing where the list is empty.
    pub open spec fn select(self, wanted: int) -> ListView {
        ListView {
            todos: self.todos,
            selected: if self.todos.len() == 0 {
                None
            } else if wanted < 0 {
                Some(0)
            } else if wanted >= self.todos.len() {
                Some(self.todos.len() - 1)
            } else {
                Some(wanted)
            },
        }
    }

    /// The list with its first entry selected.
    pub open spec fn select_first(self) -> ListView {
        self.select(0)
    }

    /// The list with its last entry selected.
    pub open spec fn select_last(self) -> ListView {
        self.select(self.todos.len() - 1)
    }

    /// The list with the selection moved one entry on. Without a selection the
    /// first entry is selected; on the last entry the selection stays.
    pub open spec fn select_next(self) -> ListView {
        match self.selected {
            None => self.select_first(),
            Some(i) => self.select(i + 1),
        }
    }

    /// The list with the selection moved one entry back. Without a selection
    /// the last entry is selected; on the first entry the selection stays.
    pub open spec fn select_prev(self) -> ListView {
        match self.selected {
            None => self.select_last(),
            Some(i) => self.select(i - 1),
        }
    }

    /// The selected entry, if the selection is the index of one.
    pub open spec fn current(self) -> Option<TodoView> {
        match self.selected {
            None => None,
            Some(i) => if 0 <= i < self.todos.len() {
                Some(self.todos[i])
            } else {
                None
            },
        }
    }

    /// The list with the status of the selected entry replaced. Without a
    /// selected entry it is the list itself.
    pub open spec fn set_status(self, status: TodoStatus) -> ListView {
        match self.selected {
            None => self,
            Some(i) => if 0 <= i < self.todos.len() {
                ListView {
                    todos: self.todos.update(i, TodoView { name: self.todos[i].name, status }),
                    selected: self.selected,
                }
            } else {
                self
            },
        }
    }

    /// The list with `todo` added behind its last entry.
    pub open spec fn append(self, todo: TodoView) -> ListView {
        ListView { todos: self.todos.push(todo), selected: self.selected }
    }

    /// The list after `rounds` times `select_first` followed by `select_last`.
    pub open spec fn first_then_last(self, rounds: nat) -> ListView
        decreases rounds,
    {
        if rounds == 0 {
            self
        } else {
            self.select_first().select_last().first_then_last((rounds - 1) as nat)
        }
    }
}

/// The entries of a vector of todos as contracts see them.
pub open spec fn todo_views(todos: Seq<Todo>) -> Seq<TodoView> {
    todos.map_values(|todo: Todo| todo@)
}

/// The names of the entries, in order.
pub open spec fn todo_names(todos: Seq<TodoView>) -> Seq<Seq<char>> {
    todos.map_values(|todo: TodoView| todo.name)
}

/// The characters of each string of a vector.
pub open spec fn string_views(strings: Seq<String>) -> Seq<Seq<char>> {
    strings.map_values(|s: String| s@)
}

/// The todos and the selection cursor over them.
#[derive(Debug)]
pub struct TodoList {
    todos: Vec<Todo>,
    selected: Option<usize>,
}

impl View for TodoList {
    type V = ListView;

    closed spec fn view(&self) -> ListView {
        ListView {
            todos: todo_views(self.todos@),
            selected: match self.selected {
                None => None,
                Some(i) => Some(i as int),
            },
        }
    }
}

impl TodoList {
    /// An empty list with nothing selected.
    pub fn new() -> (list: Self)
        ensures
            list@ == ListView::empty(),
            list@.wf(),
    {
        let list = TodoList { todos: Vec::new(), selected: None };
        assert(list@.todos =~= Seq::empty());
        list
    }

    /// The number of entries.
    pub fn len(&self) -> (n: usize)
        ensures
            n == self@.todos.len(),
    {
        self.todos.len()
    }

    /// Whether the list has no entry.
    pub fn is_empty(&self) -> (empty: bool)
        ensures
            empty == (self@.todos.len() == 0),
    {
        self.todos.len() == 0
    }

    /// The entries, in the order in which they were added.
    pub fn todos(&self) -> (todos: &Vec<Todo>)
        ensures
            todo_views(todos@) == self@.todos,
    {
        &self.todos
    }

    /// The index of the selected entry.
    pub fn selected(&self) -> (selected: Option<usize>)
        ensures
            selected matches Some(i) ==> self@.selected == Some(i as int),
            selected is None ==> self@.selected is None,
    {
        self.selected
    }

    /// The names of the entries, in order: the lines of the list as it is
    /// shown.
    pub fn names(&self) -> (names: Vec<String>)
        ensures
            string_views(names@) == todo_names(self@.todos),
    {
        let mut names: Vec<String> = Vec::new();
        let mut i: usize = 0;
        while i < self.todos.len()
            invariant
                i <= self.todos.len(),
                names.len() == i,
                forall|k: int| 0 <= k < i ==> (#[trigger] names[k])@ == self.todos[k].name@,
            decreases self.todos.len() - i,
        {
            names.push(self.todos[i].name.clone());
            i += 1;
        }
        assert(string_views(names@) =~= todo_names(self@.todos));
        names
    }

    /// Adds `todo` behind the last entry. The entries that were there keep
    /// their places and their contents, and the selection stays where it was.
    pub fn append(&mut self, todo: Todo)
        ensures
            final(self)@ == old(self)@.append(todo@),
            final(self)@.todos.len() == old(self)@.todos.len() + 1,
            forall|i: int|
                0 <= i < old(self)@.todos.len() ==> final(self)@.todos[i] == old(self)@.todos[i],
            old(self)@.wf() ==> final(self)@.wf(),
    {
        self.todos.push(todo);
        assert(final(self)@.todos =~= old(self)@.todos.push(todo@));
    }

    /// Selects the entry nearest to `wanted`, as the list widget does when it
    /// is handed an index: nothing in an empty list, and the last entry for an
    /// index behind it.
    fn settle(&mut self, wanted: usize)
        ensures
            final(self)@ == old(self)@.select(wanted as int),
            final(self)@.wf(),
    {
        let len = self.todos.len();
        self.selected = if len == 0 {
            None
        } else if wanted >= len {
            Some(len - 1)
        } else {
            Some(wanted)
        };
    }

    /// Selects the first entry. In an empty list nothing is selected.
    pub fn select_first(&mut self)
        ensures
            final(self)@ == old(self)@.select_first(),
            final(self)@.wf(),
            final(self)@.todos.len() > 0 ==> final(self)@.selected == Some(0int),
            old(self)@.wf() && old(self)@.todos.len() == 0 ==> final(self)@ == old(self)@,
    {
        match list_state_select_first(self.selected) {
            Some(wanted) => self.settle(wanted),
            None => {},
        }
    }

    /// Selects the last entry. In an empty list nothing is selected.
    pub fn select_last(&mut self)
        ensures
            final(self)@ == old(self)@.select_last(),
            final(self)@.wf(),
            final(self)@.todos.len() > 0 ==> final(self)@.selected == Some(
                final(self)@.todos.len() - 1,
            ),
            old(self)@.wf() && old(self)@.todos.len() == 0 ==> final(self)@ == old(self)@,
    {
        assert(self.todos.len() <= usize::MAX);
        match list_state_select_last(self.selected) {
            Some(wanted) => self.settle(wanted),
            None => {},
        }
    }

    /// Moves the selection one entry on, and stays on the last entry. Without
    /// a selection the first entry is selected. In an empty list nothing is
    /// selected.
    pub fn select_next(&mut self)
        ensures
            final(self)@ == old(self)@.select_next(),
            final(self)@.wf(),
            old(self)@.wf() && old(self)@.todos.len() == 0 ==> final(self)@ == old(self)@,
    {
        assert(self.todos.len() <= usize::MAX);
        match list_state_select_next(self.selected) {
            Some(wanted) => self.settle(wanted),
            None => {},
        }
    }

    /// Moves the selection one entry back, and stays on the first entry.
    /// Without a selection the last entry is selected. In an empty list
    /// nothing is selected.
    pub fn select_prev(&mut self)
        ensures
            final(self)@ == old(self)@.select_prev(),
            final(self)@.wf(),
            old(self)@.wf() && old(self)@.todos.len() == 0 ==> final(self)@ == old(self)@,
    {
        assert(self.todos.len() <= usize::MAX);
        match list_state_select_previous(self.selected) {
            Some(wanted) => self.settle(wanted),
            None => {},
        }
    }

    /// Gives the selected entry the status `status`. Where nothing is
    /// selected, or the selection is the index of no entry, the list is left
    /// as it is.
    pub fn set_status(&mut self, status: TodoStatus)
        ensures
            final(self)@ == old(self)@.set_status(status),
            old(self)@.selected is None ==> final(self)@ == old(self)@,
            final(self)@.selected == old(self)@.selected,
            final(self)@.todos.len() == old(self)@.todos.len(),
            forall|i: int|
                0 <= i < old(self)@.todos.len()
                    ==> final(self)@.todos[i].name == old(self)@.todos[i].name,
            forall|i: int|
                0 <= i < old(self)@.todos.len() && old(self)@.selected != Some(i)
                    ==> final(self)@.todos[i] == old(self)@.todos[i],
            old(self)@.wf() ==> final(self)@.wf(),
    {
        match self.selected {
            None => {},
            Some(idx) => {
                if idx < self.todos.len() {
                    self.todos[idx].status = status;
                    assert(final(self)@.todos =~= old(self)@.set_status(status).todos);
                }
            },
        }
    }

    /// A copy of the selected entry.
    pub fn current(&self) -> (current: Option<Todo>)
        ensures
            match current {
                Some(todo) => self@.current() == Some(todo@),
                None => self@.current() is None,
            },
    {
        match self.selected {
            None => None,
            Some(idx) => {
                if idx < self.todos.len() {
                    Some(self.todos[idx].clone())
                } else {
                    None
                }
            },
        }
    }
}

/// On a list that has an entry, selecting the first and then the last entry,
/// any number of times over, leaves an entry selected: the selection is an
/// index into the list. The entries themselves are never touched.
pub proof fn lemma_first_then_last_selects_an_entry(list: ListView, rounds: nat)
    requires
        list.todos.len() > 0,
    ensures
        list.first_then_last(rounds).todos == list.todos,
        rounds == 0 ==> list.first_then_last(rounds) == list,
        rounds > 0 ==> list.first_then_last(rounds).wf(),
        rounds > 0 ==> (list.first_then_last(rounds).selected matches Some(i) && 0 <= i
            < list.todos.len()),
    decreases rounds,
{
    if rounds > 0 {
        let once = list.select_first().select_last();
        lemma_first_then_last_selects_an_entry(once, (rounds - 1) as nat);
    }
}

/// On an empty list that keeps its invariant, moving the selection on changes
/// nothing, and there is no current entry.
pub proof fn lemma_select_next_on_empty(list: ListView)
    requires
        list.wf(),
        list.todos.len() == 0,
    ensures
        list.select_next() == list,
        list.select_next().current() is None,
{
}

} // verus!
