//! A kanban-style task board: the pipeline of statuses a task moves through,
//! the reducer that owns the tasks and the new-task form, and the screen
//! selection of the surrounding shell.

pub mod components;
pub mod models;
pub mod router;
pub mod status;
pub mod task;
pub mod text;
