//! A small command-line task tracker: a flag-based argument list is parsed
//! into a command, its options are validated against a static option table,
//! and a task record is built, with its due date resolved from a compact
//! relative-duration token such as `5h`.

pub mod command;
pub mod digits;
pub mod errors;
pub mod options;
pub mod task;
pub mod task_builder;
pub mod time;

pub use command::{dispatch, Command, CommandFlags};
pub use errors::TaskError;
pub use options::CommandOptions;
pub use task::{Priority, Task, TaskStatus};
pub use task_builder::TaskBuilder;
pub use time::estimate_due_datetime;
