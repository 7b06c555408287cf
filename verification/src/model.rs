//! The data that the application keeps: todo entries and the list of them.

pub mod input;
pub mod list;
pub mod todo;
