//! Task-list viewer: record schema, navigation state machine and view model.

pub mod deserialize;

pub use deserialize::{
    parse_completion, parse_due_date, DueDate, DueDateError, IsCompleted, Timestamp,
};
pub mod todo_obj;

pub use todo_obj::{DetailRow, Extent, Reminder, TableRow, TodoObj};
pub mod app;

pub use app::{screen_layout, Action, App, AppModel, InputMode, Key, TableChunk};
