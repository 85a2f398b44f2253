//! An in-memory to-do list: an ordered store of items that can be added,
//! marked complete and listed, and the command grammar that drives it from
//! a console.
pub mod command;
pub mod text;
pub mod todo_app;
