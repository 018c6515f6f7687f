//! A small verified task-list backend: tasks (title, category, priority,
//! completion flag) persisted in a local SQLite database, with three
//! operations — create, list, toggle-completion — whose effect on the stored
//! table is stated against a mathematical model of that table.

pub mod commands;
pub mod laws;
pub mod store;
pub mod task;
