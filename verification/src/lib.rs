//! The logic of a to-do list: the tasks, the filters that choose which of
//! them are shown, the transition function that every user event goes
//! through, and the rule that decides when the list is written to disk.
//!
//! Nothing here draws a widget or touches a file. A front end feeds
//! [`Message`]s to [`Todos::update`], carries out the [`Effects`] that come
//! back, and renders what the query functions report.

pub mod display;
pub mod filter;
pub mod importance;
pub mod laws;
pub mod persistence;
pub mod state;
pub mod task;
pub mod text;
pub mod update;

pub use display::{icon_for_extension, Button, Controls};
pub use filter::Filter;
pub use importance::Importance;
pub use persistence::{LoadError, SaveError, SavedState};
pub use state::State;
pub use task::{Task, TaskMessage, TaskState};
pub use update::{Command, Effects, Event, Message, Todos};
