[package]
name = "todo_tui"
version = "0.1.0"
edition = "2021"

[dependencies]
crossterm = "0.28"
ratatui = "0.29"
tui-input = "0.11"
