//! What is kept on disk between runs, and the ways in which reading or
//! writing it can fail. Reading and writing themselves are the front end's
//! business; this module fixes what is stored, under which name, and how
//! long a save holds the line before the next one may start.

use vstd::prelude::*;
use crate::filter::Filter;
use crate::task::{tasks_view, Task, TaskView};

verus! {

/// Name of the file that holds the list, inside the application's data
/// directory.
pub const FILE_NAME: &'static str = "todos.json";

/// Seconds that a save waits after writing before it reports back, so
/// that a burst of edits costs one write per window.
pub const SAVE_COOLDOWN_SECS: u64 = 2;

/// The unit of durable storage: it is replaced as a whole on every save.
#[derive(Debug, PartialEq, Eq)]
pub struct SavedState {
    pub input_value: String,
    pub filter: Filter,
    pub tasks: Vec<Task>,
}

/// The mathematical content of a [`SavedState`].
#[verifier::ext_equal]
pub struct SavedStateView {
    pub input_value: Seq<char>,
    pub filter: Filter,
    pub tasks: Seq<TaskView>,
}

impl View for SavedState {
    type V = SavedStateView;

    open spec fn view(&self) -> SavedStateView {
        SavedStateView {
            input_value: self.input_value@,
            filter: self.filter,
            tasks: tasks_view(self.tasks@),
        }
    }
}

impl Clone for SavedState {
    fn clone(&self) -> (copy: Self)
        ensures
            copy@ == self@,
    {
        let tasks = self.tasks.clone();
        assert(tasks@ =~= self.tasks@);
        SavedState { input_value: self.input_value.clone(), filter: self.filter, tasks }
    }
}

/// Why the stored list could not be read.
#[derive(Debug, Clone, Copy, PartialEq, Eq, Structural)]
pub enum LoadError {
    /// The file is missing or could not be read.
    FileError,
    /// The file does not hold a list in the expected format.
    FormatError,
}

/// Why the list could not be stored.
#[derive(Debug, Clone, Copy, PartialEq, Eq, Structural)]
pub enum SaveError {
    /// The directory or the file could not be created.
    FileError,
    /// The file could not be written.
    WriteError,
    /// The list could not be put into the storage format.
    FormatError,
}

} // verus!
