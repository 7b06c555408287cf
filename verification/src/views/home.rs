//! The home screen: the list of todos, and the form that adds one.
//!
//! A key reaches the list while the form is closed, and the form while it is
//! open. The form keeps every key to itself, so that nothing typed into it
//! moves the selection behind it.

use crate::app::{App, AppView, Focus};
use crate::key::Key;
use crate::model::input::InputView;
use crate::model::list::{string_views, todo_names};
use crate::model::todo::{Todo, TodoStatus, TodoView};
use crate::tui::visual_scroll_of;
use vstd::prelude::*;

verus! {

/// The todo that the form makes of a name: in progress, under that name.
pub open spec fn new_todo(name: Seq<char>) -> TodoView {
    TodoView { name, status: TodoStatus::PROGESS }
}

/// The field that has the keyboard after Up or Down.
pub open spec fn other_focus(focus: Focus) -> Focus {
    match focus {
        Focus::Nothing => Focus::Name,
        Focus::Name => Focus::Nothing,
    }
}

/// The state with the form opened: its fields are empty, and the name has
/// the keyboard.
pub open spec fn open_form(state: AppView) -> AppView {
    AppView {
        show_popup: true,
        focus: Focus::Name,
        name_input: InputView::empty(),
        summary_input: InputView::empty(),
        ..state
    }
}

/// The state with the form closed: what was typed into its fields is gone.
pub open spec fn close_form(state: AppView) -> AppView {
    AppView {
        show_popup: false,
        name_input: InputView::empty(),
        summary_input: InputView::empty(),
        ..state
    }
}

/// The state after the form is committed: a todo with the typed name stands
/// at the end of the list, and the fields are empty. The form stays open.
pub open spec fn commit_form(state: AppView) -> AppView {
    AppView {
        todos: state.todos.append(new_todo(state.name_input.value)),
        name_input: InputView::empty(),
        summary_input: InputView::empty(),
        ..state
    }
}

/// What a key does while the list is browsed.
///
/// `q` and Esc stop the application. Down, `j` and `J` move the selection
/// on, Up, `k` and `K` move it back, `g` selects the first entry and `G` the
/// last. `x` marks the selected entry as done, and `e` opens the form. Every
/// other key is ignored.
pub open spec fn browse(state: AppView, key: Key) -> AppView {
    match key {
        Key::Char('q') | Key::Esc => AppView { running: false, ..state },
        Key::Down | Key::Char('j') | Key::Char('J') => AppView {
            todos: state.todos.select_next(),
            ..state
        },
        Key::Up | Key::Char('k') | Key::Char('K') => AppView {
            todos: state.todos.select_prev(),
            ..state
        },
        Key::Char('G') => AppView { todos: state.todos.select_last(), ..state },
        Key::Char('g') => AppView { todos: state.todos.select_first(), ..state },
        Key::Char('x') => AppView { todos: state.todos.set_status(TodoStatus::DONE), ..state },
        Key::Char('e') => open_form(state),
        _ => state,
    }
}

/// What a key does while the form is open.
///
/// Enter commits the form if the name has the keyboard; the name may be
/// empty. Up and Down hand the keyboard to the name or take it away. `q`, `Q`
/// and Esc close the form. Every other key goes to the field that has the
/// keyboard, and nowhere if none has.
pub open spec fn fill_form(state: AppView, key: Key) -> AppView {
    match key {
        Key::Enter => match state.focus {
            Focus::Nothing => state,
            Focus::Name => commit_form(state),
        },
        Key::Up | Key::Down => AppView { focus: other_focus(state.focus), ..state },
        Key::Char('Q') | Key::Esc | Key::Char('q') => close_form(state),
        _ => match state.focus {
            Focus::Nothing => state,
            Focus::Name => AppView { name_input: state.name_input.handle_key(key), ..state },
        },
    }
}

/// The state after a key: the form takes the key if it is open, the list
/// otherwise.
pub open spec fn step(state: AppView, key: Key) -> AppView {
    if state.show_popup {
        fill_form(state, key)
    } else {
        browse(state, key)
    }
}

/// The state after the characters `typed`, each as a key of its own, in the
/// order in which they stand.
pub open spec fn type_chars(state: AppView, typed: Seq<char>) -> AppView
    decreases typed.len(),
{
    if typed.len() == 0 {
        state
    } else {
        type_chars(step(state, Key::Char(typed.first())), typed.drop_first())
    }
}

/// The word that stands for a status where a todo is shown.
pub open spec fn status_label(status: TodoStatus) -> Seq<char> {
    match status {
        TodoStatus::DONE => "Done"@,
        TodoStatus::PROGESS => "Progress"@,
    }
}

/// The rows of the detail panel, each a label and the text beside it: the
/// name and the status of the selected todo, and no row without one.
pub open spec fn detail_rows(current: Option<TodoView>) -> Seq<(Seq<char>, Seq<char>)> {
    match current {
        None => Seq::empty(),
        Some(todo) => seq![("Name:"@, todo.name), ("Progress:"@, status_label(todo.status))],
    }
}

/// The offset that a paragraph is scrolled by when its text asks for
/// `scroll` cells: a paragraph counts its offset in 16 bits, and of a larger
/// number it takes the low 16 bits.
pub open spec fn paragraph_offset(scroll: int) -> int {
    scroll % 0x1_0000
}

/// The characters of each row of label and text.
pub open spec fn row_views(rows: Seq<(String, String)>) -> Seq<(Seq<char>, Seq<char>)> {
    rows.map_values(|row: (String, String)| (row.0@, row.1@))
}

/// The home screen.
#[derive(Debug)]
pub struct Home {}

impl Home {
    /// The home screen. It keeps nothing of its own: all state is in the
    /// [`App`] that its methods are handed.
    pub fn new() -> Self {
        Self {}
    }

    /// Reacts to a key: changes `app` into the state that [`step`] gives.
    pub fn handle_key(&mut self, key: Key, app: &mut App)
        ensures
            final(app)@ == step(old(app)@, key),
            old(app)@.wf() ==> final(app)@.wf(),
    {
        if app.show_popup {
            match key {
                Key::Enter => {
                    match app.home_add_todo_focus {
                        Focus::Nothing => {},
                        Focus::Name => {
                            let todo = self.create_todo(app.home_add_todo_todo_name_input.value());
                            app.todos.append(todo);
                            app.home_add_todo_todo_summary_input.reset();
                            app.home_add_todo_todo_name_input.reset();
                        },
                    }
                },
                Key::Up | Key::Down => {
                    match app.home_add_todo_focus {
                        Focus::Nothing => app.home_add_todo_focus = Focus::Name,
                        Focus::Name => app.home_add_todo_focus = Focus::Nothing,
                    }
                },
                Key::Char('Q') | Key::Esc | Key::Char('q') => {
                    app.show_popup = false;
                    app.home_add_todo_todo_summary_input.reset();
                    app.home_add_todo_todo_name_input.reset();
                },
                _ => {
                    match app.home_add_todo_focus {
                        Focus::Nothing => {},
                        Focus::Name => app.home_add_todo_todo_name_input.handle_key(key),
                    }
                },
            }
            return ;
        }
        match key {
            Key::Char('q') | Key::Esc => app.quit(),
            Key::Down | Key::Char('j') | Key::Char('J') => self.select_next(app),
            Key::Up | Key::Char('k') | Key::Char('K') => self.select_prev(app),
            Key::Char('G') => self.select_last(app),
            Key::Char('g') => self.select_first(app),
            Key::Char('x') => self.set_status(app, TodoStatus::DONE),
            Key::Char('e') => {
                app.show_popup = true;
                app.home_add_todo_focus = Focus::Name;
                app.home_add_todo_todo_summary_input.reset();
                app.home_add_todo_todo_name_input.reset();
            },
            _ => {},
        }
    }

    /// A todo in progress under the given name.
    pub fn create_todo(&self, name: &str) -> (todo: Todo)
        ensures
            todo@ == new_todo(name@),
    {
        Todo { name: name.to_owned(), status: TodoStatus::PROGESS }
    }

    /// Gives the selected todo the status `status`. Without a selected todo
    /// nothing changes.
    pub fn set_status(&self, app: &mut App, status: TodoStatus)
        ensures
            final(app)@ == (AppView { todos: old(app)@.todos.set_status(status), ..old(app)@ }),
            old(app)@.todos.selected is None ==> final(app)@ == old(app)@,
    {
        app.todos.set_status(status);
    }

    /// Selects the first todo.
    pub fn select_first(&self, app: &mut App)
        ensures
            final(app)@ == (AppView { todos: old(app)@.todos.select_first(), ..old(app)@ }),
            final(app)@.todos.wf(),
            old(app)@.todos.wf() && old(app)@.todos.todos.len() == 0 ==> final(app)@ == old(app)@,
    {
        app.todos.select_first();
    }

    /// Selects the last todo.
    pub fn select_last(&self, app: &mut App)
        ensures
            final(app)@ == (AppView { todos: old(app)@.todos.select_last(), ..old(app)@ }),
            final(app)@.todos.wf(),
            old(app)@.todos.wf() && old(app)@.todos.todos.len() == 0 ==> final(app)@ == old(app)@,
    {
        app.todos.select_last();
    }

    /// Moves the selection one todo back, and stays on the first one.
    pub fn select_prev(&self, app: &mut App)
        ensures
            final(app)@ == (AppView { todos: old(app)@.todos.select_prev(), ..old(app)@ }),
            final(app)@.todos.wf(),
            old(app)@.todos.wf() && old(app)@.todos.todos.len() == 0 ==> final(app)@ == old(app)@,
    {
        app.todos.select_prev();
    }

    /// Moves the selection one todo on, and stays on the last one.
    pub fn select_next(&self, app: &mut App)
        ensures
            final(app)@ == (AppView { todos: old(app)@.todos.select_next(), ..old(app)@ }),
            final(app)@.todos.wf(),
            old(app)@.todos.wf() && old(app)@.todos.todos.len() == 0 ==> final(app)@ == old(app)@,
    {
        app.todos.select_next();
    }

    /// The offset by which the name of the form is scrolled when it is shown
    /// `width` cells wide, so that its cursor stays in sight.
    pub fn name_scroll(&self, app: &App, width: u16) -> (offset: u16)
        ensures
            offset == paragraph_offset(
                visual_scroll_of(app@.name_input.value, app@.name_input.cursor, width as int),
            ),
    {
        let scroll = app.home_add_todo_todo_name_input.visual_scroll(width as usize);
        self.scroll_offset(scroll)
    }

    /// The offset that a paragraph is scrolled by for a scroll of `scroll`
    /// cells.
    pub fn scroll_offset(&self, scroll: usize) -> (offset: u16)
        ensures
            offset == paragraph_offset(scroll as int),
    {
        (scroll % 0x1_0000) as u16
    }

    /// The lines of the list as it is shown: the names of the todos, in order.
    pub fn list_items(&self, app: &App) -> (items: Vec<String>)
        ensures
            string_views(items@) == todo_names(app@.todos.todos),
    {
        app.todos.names()
    }

    /// The word that the detail panel shows for `status`.
    pub fn progress_label(&self, status: TodoStatus) -> (label: &'static str)
        ensures
            label@ == status_label(status),
    {
        match status {
            TodoStatus::DONE => "Done",
            TodoStatus::PROGESS => "Progress",
        }
    }

    /// The rows of the detail panel for the selected todo.
    pub fn selected_todo_rows(&self, app: &App) -> (rows: Vec<(String, String)>)
        ensures
            row_views(rows@) == detail_rows(app@.todos.current()),
    {
        let mut rows: Vec<(String, String)> = Vec::new();
        match self.get_current_item(app) {
            None => {},
            Some(todo) => {
                rows.push(("Name:".to_owned(), todo.name));
                rows.push(("Progress:".to_owned(), self.progress_label(todo.status).to_owned()));
            },
        }
        assert(row_views(rows@) =~= detail_rows(app@.todos.current()));
        rows
    }

    /// The width of the label column of the detail panel: that of its widest
    /// label.
    pub fn label_width(&self) -> (width: usize)
        ensures
            width == 9,
    {
        let header: [&str; 3] = ["Name:", "Summary:", "Progress:"];
        let mut width: usize = 0;
        let mut i: usize = 0;
        while i < 3
            invariant
                i <= 3,
                header@ == seq!["Name:", "Summary:", "Progress:"],
                i == 0 ==> width == 0,
                i == 1 ==> width == 5,
                i == 2 ==> width == 8,
                i == 3 ==> width == 9,
            decreases 3 - i,
        {
            proof {
                reveal_strlit("Name:");
                reveal_strlit("Summary:");
                reveal_strlit("Progress:");
            }
            let len = header[i].unicode_len();
            if len > width {
                width = len;
            }
            i += 1;
        }
        width
    }

    /// A copy of the selected todo.
    pub fn get_current_item(&self, app: &App) -> (current: Option<Todo>)
        ensures
            match current {
                Some(todo) => app@.todos.current() == Some(todo@),
                None => app@.todos.current() is None,
            },
    {
        app.todos.current()
    }
}

/// No key breaks the invariant of the state: after any key the selection is
/// still the index of a todo, or there is none, and the cursor of each field
/// still lies in its text.
pub proof fn lemma_step_keeps_invariant(state: AppView, key: Key)
    requires
        state.wf(),
    ensures
        step(state, key).wf(),
{
}

/// While the form is open, no character but `q` and `Q` closes it, stops the
/// application or touches the list.
pub proof fn lemma_typing_stays_in_form(state: AppView, typed: Seq<char>)
    requires
        state.show_popup,
        forall|i: int| 0 <= i < typed.len() ==> typed[i] != 'q' && typed[i] != 'Q',
    ensures
        type_chars(state, typed).show_popup,
        type_chars(state, typed).todos == state.todos,
        type_chars(state, typed).running == state.running,
    decreases typed.len(),
{
    if typed.len() > 0 {
        let next = step(state, Key::Char(typed.first()));
        let rest = typed.drop_first();
        assert(forall|i: int| 0 <= i < rest.len() ==> rest[i] == typed[i + 1]);
        lemma_typing_stays_in_form(next, rest);
    }
}

/// Opening the form with `e`, typing characters into it and closing it with
/// Esc discards what was typed: the list is browsed again, and the todos, the
/// selection and the fields of the form are as if nothing had been typed.
///
/// `q` and `Q` are left out of what is typed, because they are not typed into
/// the form: they close it.
pub proof fn lemma_cancel_discards_typed_input(state: AppView, typed: Seq<char>)
    requires
        !state.show_popup,
        forall|i: int| 0 <= i < typed.len() ==> typed[i] != 'q' && typed[i] != 'Q',
    ensures
        ({
            let end = step(type_chars(step(state, Key::Char('e')), typed), Key::Esc);
            &&& !end.show_popup
            &&& end.todos == state.todos
            &&& end.running == state.running
            &&& end.name_input == InputView::empty()
            &&& end.summary_input == InputView::empty()
        }),
{
    lemma_typing_stays_in_form(step(state, Key::Char('e')), typed);
}

} // verus!
