//! The state of the application.

use crate::model::input::{InputField, InputView};
use crate::model::list::{ListView, TodoList};
use vstd::prelude::*;

verus! {

/// What went wrong while the application ran.
///
/// No operation of this crate fails; the type is for the program around it,
/// which reports the failures of its terminal with it.
#[derive(Debug)]
pub struct AppError {
    pub message: String,
}

/// Application result type.
pub type AppResult<T> = Result<T, AppError>;

/// Where the keys go: to the list, or into the form that adds a todo.
#[derive(Debug, Clone, Copy, PartialEq, Eq, Structural)]
pub enum InputMode {
    /// The list is browsed.
    Normal,
    /// The form is open and takes the keys.
    Insert,
}

/// The screens of the application.
#[derive(Debug, Clone, Copy, PartialEq, Eq, Structural)]
pub enum Screen {
    Home,
}

/// Which field of the form has the keyboard.
#[derive(Debug, Clone, Copy, PartialEq, Eq, Structural)]
pub enum Focus {
    /// No field has it: what is typed goes nowhere.
    Nothing,
    /// The field for the name of the todo.
    Name,
}

/// What an [`App`] is in contracts.
pub struct AppView {
    pub screen: Screen,
    pub running: bool,
    pub todos: ListView,
    pub show_popup: bool,
    pub focus: Focus,
    pub name_input: InputView,
    pub summary_input: InputView,
}

impl AppView {
    /// The state in which the application starts: running, with an empty
    /// list, the form closed and its fields empty.
    pub open spec fn initial() -> AppView {
        AppView {
            screen: Screen::Home,
            running: true,
            todos: ListView::empty(),
            show_popup: false,
            focus: Focus::Name,
            name_input: InputView::empty(),
            summary_input: InputView::empty(),
        }
    }

    /// The invariant of the state: those of the list and of the two fields.
    pub open spec fn wf(self) -> bool {
        &&& self.todos.wf()
        &&& self.name_input.wf()
        &&& self.summary_input.wf()
    }

    /// The mode that the state is in.
    pub open spec fn input_mode(self) -> InputMode {
        if self.show_popup {
            InputMode::Insert
        } else {
            InputMode::Normal
        }
    }
}

/// Application.
#[derive(Debug)]
pub struct App {
    pub screen: Screen,
    /// Is the application running?
    pub running: bool,
    /// The todos and the selection among them.
    pub todos: TodoList,
    /// Is the form that adds a todo open?
    pub show_popup: bool,
    pub home_add_todo_focus: Focus,
    pub home_add_todo_todo_name_input: InputField,
    pub home_add_todo_todo_summary_input: InputField,
}

impl View for App {
    type V = AppView;

    open spec fn view(&self) -> AppView {
        AppView {
            screen: self.screen,
            running: self.running,
            todos: self.todos@,
            show_popup: self.show_popup,
            focus: self.home_add_todo_focus,
            name_input: self.home_add_todo_todo_name_input@,
            summary_input: self.home_add_todo_todo_summary_input@,
        }
    }
}

impl Default for App {
    fn default() -> (app: Self)
        ensures
            app@ == AppView::initial(),
            app@.wf(),
    {
        Self {
            screen: Screen::Home,
            running: true,
            todos: TodoList::new(),
            show_popup: false,
            home_add_todo_focus: Focus::Name,
            home_add_todo_todo_name_input: InputField::new(),
            home_add_todo_todo_summary_input: InputField::new(),
        }
    }
}

impl App {
    /// Constructs a new instance of [`App`].
    pub fn new() -> (app: Self)
        ensures
            app@ == AppView::initial(),
            app@.wf(),
    {
        Self::default()
    }

    /// Handles the tick event of the terminal. Nothing changes with time.
    pub fn tick(&self) {
    }

    /// Set running to false to quit the application.
    pub fn quit(&mut self)
        ensures
            final(self)@ == (AppView { running: false, ..old(self)@ }),
    {
        self.running = false;
    }

    /// The mode that the application is in: `Insert` while the form is open.
    pub fn input_mode(&self) -> (mode: InputMode)
        ensures
            mode == self@.input_mode(),
    {
        if self.show_popup {
            InputMode::Insert
        } else {
            InputMode::Normal
        }
    }
}

} // verus!
