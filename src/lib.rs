//! A task list kept as two ordered collections, the active tasks and the
//! completed ones, with the operations that change them and the rules that
//! decide which collection a command reads and writes.

pub mod task;
pub mod command;
pub mod store;
pub mod laws;
