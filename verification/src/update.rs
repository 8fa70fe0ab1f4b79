//! The transition function: every event of the user interface and every
//! answer of the storage goes through [`Todos::update`], which changes the
//! state and says what the front end has to do next.

use vstd::prelude::*;
use crate::filter::Filter;
use crate::importance::Importance;
use crate::persistence::{LoadError, SaveError, SavedState, SavedStateView};
use crate::state::{State, StateView};
use crate::task::{option_text, stored_tasks, Task, TaskMessage, TaskView};

verus! {

/// Pattern, in chrono's notation, after which the time stamp of a dropped
/// file is written. The library never reads the clock: whoever reports the
/// drop reads it and writes the stamp.
pub const STAMP_PATTERN: &'static str = " Added %Y/%m/%d %H:%M";

/// What the window reports. Only a file dropped onto it changes the list;
/// every other event is known by the fact that it happened.
#[derive(Debug, PartialEq, Eq)]
pub enum Event {
    /// A file was dropped onto the window.
    FileDropped {
        path: String,
        /// The local time of the drop, written after [`STAMP_PATTERN`].
        stamp: String,
    },
    Other,
}

/// Everything that can happen to the application.
#[derive(Debug, PartialEq, Eq)]
pub enum Message {
    /// The stored list was read, or could not be.
    Loaded(Result<SavedState, LoadError>),
    /// The save in flight has ended, well or badly.
    Saved(Result<(), SaveError>),
    /// The text of the entry field changed.
    InputChanged(String),
    /// The entry field was submitted.
    CreateTask,
    FilterChanged(Filter),
    /// A message for the task at a position of the list.
    TaskMessage(usize, TaskMessage),
    Dropped(Event),
    /// The keyword of the keyword filter changed.
    FilterTextChanged(String),
    ImportanceChanged(Importance),
}

/// Work for the storage.
#[derive(Debug, PartialEq, Eq)]
pub enum Command {
    /// Nothing to do.
    Nothing,
    /// Read the stored list and answer with `Message::Loaded`.
    Load,
    /// Store this list, wait out the cooldown and answer with
    /// `Message::Saved`.
    Save(SavedState),
}

/// The mathematical content of a [`Command`].
#[verifier::ext_equal]
pub enum CommandView {
    Nothing,
    Load,
    Save(SavedStateView),
}

impl View for Command {
    type V = CommandView;

    open spec fn view(&self) -> CommandView {
        match self {
            Command::Nothing => CommandView::Nothing,
            Command::Load => CommandView::Load,
            Command::Save(saved) => CommandView::Save(saved@),
        }
    }
}

/// What the front end has to do after an update.
#[derive(Debug, PartialEq, Eq)]
pub struct Effects {
    /// A file to open with its default program, before anything else.
    pub open: Option<String>,
    pub command: Command,
}

/// The mathematical content of [`Effects`].
#[verifier::ext_equal]
pub struct EffectsView {
    pub open: Option<Seq<char>>,
    pub command: CommandView,
}

impl View for Effects {
    type V = EffectsView;

    open spec fn view(&self) -> EffectsView {
        EffectsView { open: option_text(self.open), command: self.command@ }
    }
}

impl EffectsView {
    /// Nothing to do.
    pub open spec fn nothing() -> EffectsView {
        EffectsView { open: None, command: CommandView::Nothing }
    }
}

/// The application: waiting for the stored list, or running.
#[derive(Debug, PartialEq, Eq)]
pub enum Todos {
    Loading,
    Loaded(State),
}

/// The mathematical content of [`Todos`].
#[verifier::ext_equal]
pub enum TodosView {
    Loading,
    Loaded(StateView),
}

impl View for Todos {
    type V = TodosView;

    open spec fn view(&self) -> TodosView {
        match self {
            Todos::Loading => TodosView::Loading,
            Todos::Loaded(state) => TodosView::Loaded(state@),
        }
    }
}

impl Clone for Event {
    fn clone(&self) -> (copy: Self)
        ensures
            copy == *self,
    {
        match self {
            Event::FileDropped { path, stamp } => Event::FileDropped {
                path: path.clone(),
                stamp: stamp.clone(),
            },
            Event::Other => Event::Other,
        }
    }
}

impl Clone for Message {
    /// The copy is the same message; where the message carries a stored
    /// list, the copy carries a list with the same contents.
    fn clone(&self) -> (copy: Self)
        ensures
            match *self {
                Message::Loaded(Ok(saved)) => copy matches Message::Loaded(Ok(other)) && other@
                    == saved@,
                _ => copy == *self,
            },
    {
        match self {
            Message::Loaded(Ok(saved)) => Message::Loaded(Ok(saved.clone())),
            Message::Loaded(Err(error)) => Message::Loaded(Err(*error)),
            Message::Saved(result) => Message::Saved(*result),
            Message::InputChanged(value) => Message::InputChanged(value.clone()),
            Message::CreateTask => Message::CreateTask,
            Message::FilterChanged(filter) => Message::FilterChanged(*filter),
            Message::TaskMessage(index, message) => Message::TaskMessage(*index, message.clone()),
            Message::Dropped(event) => Message::Dropped(event.clone()),
            Message::FilterTextChanged(value) => Message::FilterTextChanged(value.clone()),
            Message::ImportanceChanged(importance) => Message::ImportanceChanged(*importance),
        }
    }
}

impl StateView {
    /// The state after a task was made from the entry field: the task is
    /// last in the list, carries the given path and the current time stamp,
    /// and the entry field is empty.
    pub open spec fn with_new_task(self, file_path: Seq<char>) -> StateView {
        StateView {
            tasks: self.tasks.push(
                TaskView::fresh(self.input_value, file_path, self.datetime, self.importance()),
            ),
            input_value: Seq::empty(),
            file_path,
            ..self
        }
    }

    /// The state after a message for the task at `index`. `Delete` takes
    /// that task out and keeps the others in order. Any other message goes
    /// to the task, and to nobody where there is no such task.
    pub open spec fn tell_task(self, index: int, message: TaskMessage) -> StateView {
        if message is Delete {
            StateView { tasks: self.tasks.remove(index), ..self }
        } else if 0 <= index < self.tasks.len() {
            StateView { tasks: self.tasks.update(index, self.tasks[index].apply(message)), ..self }
        } else {
            self
        }
    }

    /// The path that the message asks to have opened. A task that is not
    /// there asks for nothing.
    pub open spec fn launch(self, message: Message) -> Option<Seq<char>> {
        match message {
            Message::TaskMessage(index, message) => if index < self.tasks.len() {
                message.launch()
            } else {
                None
            },
            _ => None,
        }
    }

    /// What a message does to the state, before the question of saving is
    /// settled. A dropped file becomes a task of its own, made from the
    /// entry field as it stands, with the time of the drop as its date.
    pub open spec fn receive(self, message: Message) -> StateView {
        match message {
            Message::CreateTask => if self.input_value.len() > 0 {
                self.with_new_task(Seq::empty())
            } else {
                self
            },
            Message::FilterTextChanged(value) => StateView { filter_input_value: value@, ..self },
            Message::ImportanceChanged(importance) => StateView {
                selected_importance: Some(importance),
                ..self
            },
            Message::InputChanged(value) => StateView { input_value: value@, ..self },
            Message::FilterChanged(filter) => StateView { filter, ..self },
            Message::TaskMessage(index, message) => self.tell_task(index as int, message),
            Message::Saved(_) => StateView { saving: false, ..self },
            Message::Dropped(Event::FileDropped { path, stamp }) => StateView {
                datetime: stamp@,
                ..self
            }.with_new_task(path@),
            Message::Dropped(Event::Other) => self,
            Message::Loaded(_) => self,
        }
    }

    /// Whether a message changes what is stored of the state. A message
    /// that changes only what is on the screen (the keyword, the selected
    /// importance, which task is being edited), or nothing at all, does
    /// not.
    pub open spec fn edited_by(self, message: Message) -> bool {
        self.receive(message).snapshot() != self.snapshot()
    }

    /// Decides whether a save starts. A change of what is stored makes the
    /// state dirty. A dirty state with no save in flight starts one, of the
    /// state as it then is; otherwise the state stays as dirty as it is and
    /// waits.
    pub open spec fn settle(self, edited: bool) -> (StateView, CommandView) {
        let dirty = self.dirty || edited;
        if dirty && !self.saving {
            let next = StateView { dirty: false, saving: true, ..self };
            (next, CommandView::Save(next.snapshot()))
        } else {
            (StateView { dirty, ..self }, CommandView::Nothing)
        }
    }

    /// The whole step of a running application.
    pub open spec fn step(self, message: Message) -> (StateView, EffectsView) {
        let (next, command) = self.receive(message).settle(self.edited_by(message));
        (next, EffectsView { open: self.launch(message), command })
    }

    /// The messages that a running application can take: a `Delete` has to
    /// name a task that is there.
    pub open spec fn accepts(self, message: Message) -> bool {
        message matches Message::TaskMessage(index, TaskMessage::Delete) ==> index
            < self.tasks.len()
    }
}

impl TodosView {
    /// The messages that the application can take.
    pub open spec fn accepts(self, message: Message) -> bool {
        self matches TodosView::Loaded(state) ==> state.accepts(message)
    }

    /// The step of the application. While loading, only the answer of the
    /// storage is heard: a stored list is restored, and a failure of either
    /// kind starts with an empty list. Nothing is ever saved in that step.
    pub open spec fn step(self, message: Message) -> (TodosView, EffectsView) {
        match self {
            TodosView::Loading => (
                match message {
                    Message::Loaded(Ok(saved)) => TodosView::Loaded(StateView::restored(saved@)),
                    Message::Loaded(Err(_)) => TodosView::Loaded(StateView::initial()),
                    _ => TodosView::Loading,
                },
                EffectsView::nothing(),
            ),
            TodosView::Loaded(state) => {
                let (next, effects) = state.step(message);
                (TodosView::Loaded(next), effects)
            },
        }
    }

    /// Whether there are changes that no save has picked up.
    pub open spec fn dirty(self) -> bool {
        match self {
            TodosView::Loading => false,
            TodosView::Loaded(state) => state.dirty,
        }
    }

    /// The window title, which marks unsaved changes with a star.
    pub open spec fn title(self) -> Seq<char> {
        if self.dirty() {
            "Todos* - Iced"@
        } else {
            "Todos - Iced"@
        }
    }
}

/// To replace one task of a list changes what is stored of the list exactly
/// when the new task is stored differently from the old one.
pub proof fn lemma_stored_tasks_update(tasks: Seq<TaskView>, index: int, task: TaskView)
    requires
        0 <= index < tasks.len(),
    ensures
        (stored_tasks(tasks.update(index, task)) == stored_tasks(tasks)) == (task.stored()
            == tasks[index].stored()),
{
    if task.stored() == tasks[index].stored() {
        assert(stored_tasks(tasks.update(index, task)) =~= stored_tasks(tasks));
    } else {
        assert(stored_tasks(tasks.update(index, task))[index] != stored_tasks(tasks)[index]);
    }
}

impl State {
    /// Makes a task from the entry field and empties the field.
    fn add_task(&mut self, file_path: String)
        ensures
            final(self)@ == old(self)@.with_new_task(file_path@),
    {
        let task = Task::new(
            self.input_value.clone(),
            file_path.clone(),
            self.datetime.clone(),
            self.importance(),
        );
        self.file_path = file_path;
        self.tasks.push(task);
        self.input_value = String::new();
        assert(final(self)@ =~= old(self)@.with_new_task(file_path@));
    }

    /// Decides whether a save starts, and of what.
    fn settle(&mut self, edited: bool) -> (command: Command)
        ensures
            (final(self)@, command@) == old(self)@.settle(edited),
    {
        if edited {
            self.dirty = true;
        }
        if self.dirty && !self.saving {
            self.dirty = false;
            self.saving = true;
            Command::Save(self.snapshot())
        } else {
            Command::Nothing
        }
    }

    /// One step of a running application.
    pub fn update(&mut self, message: Message) -> (effects: Effects)
        requires
            old(self)@.accepts(message),
        ensures
            (final(self)@, effects@) == old(self)@.step(message),
    {
        let ghost before = self@;
        let mut open: Option<String> = None;
        let mut edited = false;
        match message {
            Message::CreateTask => {
                if !self.input_value.as_str().is_empty() {
                    self.add_task(String::new());
                    edited = true;
                    assert(self@.snapshot().tasks.len() == before.snapshot().tasks.len() + 1);
                }
            },
            Message::FilterTextChanged(value) => {
                self.filter_input_value = value;
            },
            Message::ImportanceChanged(importance) => {
                self.selected_importance = Some(importance);
            },
            Message::InputChanged(value) => {
                edited = !(value == self.input_value);
                self.input_value = value;
            },
            Message::FilterChanged(filter) => {
                edited = !(filter == self.filter);
                self.filter = filter;
            },
            Message::TaskMessage(index, TaskMessage::Delete) => {
                self.tasks.remove(index);
                edited = true;
                assert(self@ =~= before.tell_task(index as int, TaskMessage::Delete));
                assert(self@.snapshot().tasks.len() == before.snapshot().tasks.len() - 1);
            },
            Message::TaskMessage(index, task_message) => {
                if index < self.tasks.len() {
                    edited = self.tasks[index].alters(&task_message);
                    open = self.tasks[index].update(task_message);
                    assert(self@ =~= before.tell_task(index as int, task_message));
                    proof {
                        lemma_stored_tasks_update(
                            before.tasks,
                            index as int,
                            before.tasks[index as int].apply(task_message),
                        );
                    }
                }
            },
            Message::Saved(_) => {
                self.saving = false;
            },
            Message::Dropped(Event::FileDropped { path, stamp }) => {
                self.datetime = stamp;
                self.add_task(path);
                edited = true;
                assert(self@.snapshot().tasks.len() == before.snapshot().tasks.len() + 1);
            },
            Message::Dropped(Event::Other) => {},
            Message::Loaded(_) => {},
        }
        assert(self@ =~= before.receive(message));
        assert(edited == before.edited_by(message));
        let command = self.settle(edited);
        Effects { open, command }
    }
}

impl Todos {
    /// The application at its start, with the order to read the stored
    /// list.
    pub fn new() -> (start: (Todos, Command))
        ensures
            start.0@ == TodosView::Loading,
            start.1@ == CommandView::Load,
    {
        (Todos::Loading, Command::Load)
    }

    /// The window title, which marks unsaved changes with a star.
    pub fn title(&self) -> (title: String)
        ensures
            title@ == self@.title(),
    {
        let dirty = match self {
            Todos::Loading => false,
            Todos::Loaded(state) => state.dirty,
        };
        if dirty {
            "Todos* - Iced".to_owned()
        } else {
            "Todos - Iced".to_owned()
        }
    }

    /// One step of the application: the state changes as the message asks,
    /// and the effects say what is to be opened and what the storage has to
    /// do.
    pub fn update(&mut self, message: Message) -> (effects: Effects)
        requires
            old(self)@.accepts(message),
        ensures
            (final(self)@, effects@) == old(self)@.step(message),
    {
        match self {
            Todos::Loading => {
                match message {
                    Message::Loaded(Ok(saved)) => {
                        *self = Todos::Loaded(State::restore(saved));
                    },
                    Message::Loaded(Err(_)) => {
                        *self = Todos::Loaded(State::default());
                    },
                    _ => {},
                }
                Effects { open: None, command: Command::Nothing }
            },
            Todos::Loaded(state) => state.update(message),
        }
    }
}

} // verus!
