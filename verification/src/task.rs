//! A single entry of the list and the messages that change it.

use vstd::prelude::*;
use crate::importance::Importance;

verus! {

/// Whether a task is merely shown or is being edited. Which of the two it
/// is decides how a front end draws the task; it is not part of what is
/// written to disk.
#[derive(Debug, Clone, Copy, PartialEq, Eq, Structural)]
pub enum TaskState {
    Idle,
    Editing,
}

impl Default for TaskState {
    fn default() -> (state: Self)
        ensures
            state == TaskState::Idle,
    {
        TaskState::Idle
    }
}

/// What a user can do to one task.
#[derive(Debug, PartialEq, Eq)]
pub enum TaskMessage {
    /// The checkbox was set or cleared.
    Completed(bool),
    /// Editing of the description begins.
    Edit,
    /// The description was replaced while editing.
    DescriptionEdited(String),
    /// Editing ends; ignored while the description is empty.
    FinishEdition,
    /// The task is to be removed from the list.
    Delete,
    /// The file at this path is to be opened with its default program.
    StartProcess(String),
}

/// A to-do entry.
#[derive(Debug, PartialEq, Eq)]
pub struct Task {
    pub description: String,
    /// Path of the attached file, empty when there is none.
    pub file_path: String,
    pub completed: bool,
    /// When the task was added, as text.
    pub date: String,
    pub importance: Importance,
    pub state: TaskState,
}

/// The mathematical content of a [`Task`].
#[verifier::ext_equal]
pub struct TaskView {
    pub description: Seq<char>,
    pub file_path: Seq<char>,
    pub completed: bool,
    pub date: Seq<char>,
    pub importance: Importance,
    pub state: TaskState,
}

impl View for Task {
    type V = TaskView;

    open spec fn view(&self) -> TaskView {
        TaskView {
            description: self.description@,
            file_path: self.file_path@,
            completed: self.completed,
            date: self.date@,
            importance: self.importance,
            state: self.state,
        }
    }
}

/// The contents of a list of tasks, in order.
pub open spec fn tasks_view(tasks: Seq<Task>) -> Seq<TaskView> {
    tasks.map_values(|task: Task| task@)
}

/// The tasks of a list as they are stored, in order.
pub open spec fn stored_tasks(tasks: Seq<TaskView>) -> Seq<TaskView> {
    tasks.map_values(|task: TaskView| task.stored())
}

/// The text inside an optional string.
pub open spec fn option_text(text: Option<String>) -> Option<Seq<char>> {
    match text {
        Some(text) => Some(text@),
        None => None,
    }
}

impl TaskView {
    /// A task as it is when first added: not completed and not being edited.
    pub open spec fn fresh(
        description: Seq<char>,
        file_path: Seq<char>,
        date: Seq<char>,
        importance: Importance,
    ) -> TaskView {
        TaskView {
            description,
            file_path,
            completed: false,
            date,
            importance,
            state: TaskState::Idle,
        }
    }

    /// The task as it is stored. Whether a task is being edited is not
    /// stored: a stored task is idle.
    pub open spec fn stored(self) -> TaskView {
        TaskView { state: TaskState::Idle, ..self }
    }

    /// Whether a message changes what is stored of the task.
    pub open spec fn altered_by(self, message: TaskMessage) -> bool {
        self.apply(message).stored() != self.stored()
    }

    /// The task after a message. `Delete` and `StartProcess` leave the task
    /// itself as it is: the list removes the task, the front end opens the
    /// file.
    pub open spec fn apply(self, message: TaskMessage) -> TaskView {
        match message {
            TaskMessage::Completed(completed) => TaskView { completed, ..self },
            TaskMessage::Edit => TaskView { state: TaskState::Editing, ..self },
            TaskMessage::DescriptionEdited(description) => TaskView {
                description: description@,
                ..self
            },
            TaskMessage::FinishEdition => if self.description.len() > 0 {
                TaskView { state: TaskState::Idle, ..self }
            } else {
                self
            },
            TaskMessage::Delete => self,
            TaskMessage::StartProcess(_) => self,
        }
    }
}

impl TaskMessage {
    /// The path that a message asks to have opened, if it asks for that.
    pub open spec fn launch(self) -> Option<Seq<char>> {
        match self {
            TaskMessage::StartProcess(path) => Some(path@),
            _ => None,
        }
    }
}

impl Clone for TaskMessage {
    fn clone(&self) -> (copy: Self)
        ensures
            copy == *self,
    {
        match self {
            TaskMessage::Completed(completed) => TaskMessage::Completed(*completed),
            TaskMessage::Edit => TaskMessage::Edit,
            TaskMessage::DescriptionEdited(description) => TaskMessage::DescriptionEdited(
                description.clone(),
            ),
            TaskMessage::FinishEdition => TaskMessage::FinishEdition,
            TaskMessage::Delete => TaskMessage::Delete,
            TaskMessage::StartProcess(path) => TaskMessage::StartProcess(path.clone()),
        }
    }
}

impl Clone for Task {
    fn clone(&self) -> (copy: Self)
        ensures
            copy == *self,
    {
        Task {
            description: self.description.clone(),
            file_path: self.file_path.clone(),
            completed: self.completed,
            date: self.date.clone(),
            importance: self.importance,
            state: self.state,
        }
    }
}

impl Task {
    /// A new task: not completed, not being edited.
    pub fn new(description: String, file_path: String, date: String, importance: Importance) -> (task:
        Task)
        ensures
            task@ == TaskView::fresh(description@, file_path@, date@, importance),
    {
        Task { description, completed: false, file_path, date, importance, state: TaskState::Idle }
    }

    /// A copy of the task as it is stored: with everything it holds, and
    /// idle.
    pub fn stored(&self) -> (copy: Task)
        ensures
            copy@ == self@.stored(),
    {
        Task {
            description: self.description.clone(),
            file_path: self.file_path.clone(),
            completed: self.completed,
            date: self.date.clone(),
            importance: self.importance,
            state: TaskState::Idle,
        }
    }

    /// Whether a message changes what is stored of the task: a completion
    /// flag that differs from the task's, or a description that differs.
    /// To start or end editing changes nothing that is stored.
    pub fn alters(&self, message: &TaskMessage) -> (altered: bool)
        ensures
            altered == self@.altered_by(*message),
    {
        match message {
            TaskMessage::Completed(completed) => *completed != self.completed,
            TaskMessage::DescriptionEdited(description) => !(*description == self.description),
            TaskMessage::Edit => false,
            TaskMessage::FinishEdition => false,
            TaskMessage::Delete => false,
            TaskMessage::StartProcess(_) => false,
        }
    }

    /// Applies a message to the task. Returns the path of a file that the
    /// caller is asked to open, which only `StartProcess` does.
    pub fn update(&mut self, message: TaskMessage) -> (open: Option<String>)
        ensures
            final(self)@ == old(self)@.apply(message),
            option_text(open) == message.launch(),
    {
        match message {
            TaskMessage::Completed(completed) => {
                self.completed = completed;
                None
            },
            TaskMessage::Edit => {
                self.state = TaskState::Editing;
                None
            },
            TaskMessage::DescriptionEdited(new_description) => {
                self.description = new_description;
                None
            },
            TaskMessage::FinishEdition => {
                if !self.description.as_str().is_empty() {
                    self.state = TaskState::Idle;
                }
                None
            },
            TaskMessage::StartProcess(process) => Some(process),
            TaskMessage::Delete => None,
        }
    }
}

} // verus!
