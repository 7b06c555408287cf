//! The state and key handling of a keyboard-driven todo list for the terminal.
//!
//! The crate holds what the program decides: the list with its selection, the
//! text fields of the form that adds a todo, and the reaction to each key. The
//! terminal itself, the event loop and the drawing are left to the program
//! that uses it.

pub mod app;
pub mod handler;
pub mod key;
pub mod model;
pub mod tui;
pub mod views;
