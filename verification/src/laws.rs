//! Facts about the transition function that hold for every state and every
//! message. They are stated over the same model that the contracts of
//! [`Todos::update`](crate::update::Todos::update) and
//! [`State::update`](crate::state::State::update) use, so each of them
//! holds of every step that the executable code takes.

use vstd::prelude::*;
use crate::filter::{lemma_empty_keyword_matches, Filter};
use crate::persistence::{LoadError, SaveError, SavedState, SavedStateView};
use crate::state::StateView;
use crate::task::{stored_tasks, TaskMessage, TaskState, TaskView};
use crate::text::is_substring;
use crate::update::{
    lemma_stored_tasks_update, CommandView, EffectsView, Event, Message, TodosView,
};

verus! {

/// Deleting the task at a position takes out that task and no other: the
/// tasks before it stay where they are, the tasks behind it move up by one
/// and keep their order, and each of them is the task it was. Nothing else
/// of what is stored changes.
pub proof fn lemma_delete_removes_exactly_one(state: StateView, index: usize)
    requires
        index < state.tasks.len(),
    ensures
        ({
            let next = state.step(Message::TaskMessage(index, TaskMessage::Delete)).0;
            &&& next.tasks.len() == state.tasks.len() - 1
            &&& forall|at: int| 0 <= at < index ==> next.tasks[at] == state.tasks[at]
            &&& forall|at: int| index <= at < next.tasks.len() ==> next.tasks[at] == state.tasks[at + 1]
            &&& next.input_value == state.input_value
            &&& next.filter == state.filter
        }),
{
}

/// A message for a task that is not there changes no task.
pub proof fn lemma_missing_task_changes_nothing(
    state: StateView,
    index: usize,
    message: TaskMessage,
)
    requires
        index >= state.tasks.len(),
        !(message is Delete),
    ensures
        ({
            let (next, effects) = state.step(Message::TaskMessage(index, message));
            &&& next.tasks == state.tasks
            &&& effects.open is None
        }),
{
}

/// A message for one task leaves every other task as it is.
pub proof fn lemma_task_message_is_local(state: StateView, index: usize, message: TaskMessage)
    requires
        index < state.tasks.len(),
        !(message is Delete),
    ensures
        ({
            let next = state.step(Message::TaskMessage(index, message)).0;
            &&& next.tasks.len() == state.tasks.len()
            &&& next.tasks[index as int] == state.tasks[index as int].apply(message)
            &&& forall|at: int|
                0 <= at < state.tasks.len() && at != index ==> next.tasks[at] == state.tasks[at]
        }),
{
}

/// A stored list that cannot be read, for whichever reason, starts the
/// application with the empty state of a first run, and asks for nothing.
pub proof fn lemma_failed_load_starts_empty(error: LoadError)
    ensures
        TodosView::Loading.step(Message::Loaded(Err(error))) == (
            TodosView::Loaded(StateView::initial()),
            EffectsView::nothing(),
        ),
        StateView::initial().tasks.len() == 0,
{
}

/// What is stored of a restored list is the list as it is stored: the
/// same entry field, filter and tasks, every task idle. So a list that
/// came out of the storage, where every task is idle, is stored again as
/// it was.
pub proof fn lemma_restore_then_snapshot(saved: SavedStateView)
    ensures
        StateView::restored(saved).snapshot() == (SavedStateView {
            tasks: stored_tasks(saved.tasks),
            ..saved
        }),
        (forall|at: int| 0 <= at < saved.tasks.len() ==> saved.tasks[at].state == TaskState::Idle)
            ==> StateView::restored(saved).snapshot() == saved,
        !StateView::restored(saved).dirty,
        !StateView::restored(saved).saving,
{
    if forall|at: int| 0 <= at < saved.tasks.len() ==> saved.tasks[at].state == TaskState::Idle {
        assert(stored_tasks(saved.tasks) =~= saved.tasks);
    }
}

/// What was stored of a state, restored and stored again, is stored as it
/// was the first time.
pub proof fn lemma_snapshot_survives_restore(state: StateView)
    ensures
        StateView::restored(state.snapshot()).snapshot() == state.snapshot(),
{
    assert(stored_tasks(stored_tasks(state.tasks)) =~= stored_tasks(state.tasks));
}

/// A stored list that was read starts the application with that list, and
/// asks for nothing: what was just read is not written back.
pub proof fn lemma_load_restores(saved: SavedState)
    ensures
        TodosView::Loading.step(Message::Loaded(Ok(saved))) == (
            TodosView::Loaded(StateView::restored(saved@)),
            EffectsView::nothing(),
        ),
{
}

/// With the filter `All` and no keyword, every task is shown.
pub proof fn lemma_everything_is_shown_unfiltered(state: StateView, index: int)
    requires
        state.filter == Filter::All,
        state.filter_input_value.len() == 0,
        0 <= index < state.tasks.len(),
    ensures
        state.shows(index),
{
    assert(state.filter_input_value =~= Seq::<char>::empty());
    lemma_empty_keyword_matches(state.tasks[index].description);
}

/// Under the filter `Active` no completed task is shown, under `Completed`
/// no open one, whatever the keyword.
pub proof fn lemma_status_filter_hides(state: StateView, index: int)
    requires
        0 <= index < state.tasks.len(),
    ensures
        state.filter == Filter::Active && state.tasks[index].completed ==> !state.shows(index),
        state.filter == Filter::Completed && !state.tasks[index].completed ==> !state.shows(index),
        state.shows(index) ==> is_substring(
            state.filter_input_value,
            state.tasks[index].description,
        ),
{
}

/// While the stored list is awaited, nothing but the answer of the storage
/// is heard.
pub proof fn lemma_loading_waits_for_storage(message: Message)
    requires
        !(message is Loaded),
    ensures
        TodosView::Loading.step(message) == (TodosView::Loading, EffectsView::nothing()),
{
}

/// At most one save is in flight. A step starts a save only when none is
/// running or the running one has just ended; the save is then marked as
/// running, takes the state as the step left it, and leaves nothing
/// unsaved behind. A running application never asks to load.
pub proof fn lemma_one_save_in_flight(state: StateView, message: Message)
    ensures
        ({
            let (next, effects) = state.step(message);
            &&& !(effects.command is Load)
            &&& effects.command is Save ==> {
                &&& !state.saving || message is Saved
                &&& next.saving
                &&& !next.dirty
                &&& effects.command == CommandView::Save(next.snapshot())
            }
            &&& effects.command is Nothing ==> next.saving == (state.saving && !(message is Saved))
        }),
{
}

/// After every step, unsaved changes wait for a save that is in flight:
/// the state is never dirty while nothing is being saved.
pub proof fn lemma_dirty_waits_for_save(state: StateView, message: Message)
    ensures
        ({
            let next = state.step(message).0;
            next.dirty ==> next.saving
        }),
{
}

/// A change that arrives while a save is in flight starts no save of its
/// own; it is remembered as unsaved.
pub proof fn lemma_edit_during_save_is_remembered(state: StateView, message: Message)
    requires
        state.saving,
        state.edited_by(message),
    ensures
        ({
            let (next, effects) = state.step(message);
            &&& effects.command is Nothing
            &&& next.saving
            &&& next.dirty
        }),
{
}

/// When a save ends, whether it went well or not, the changes remembered
/// meanwhile start one save of the state as it is, and no change means no
/// save. The list itself is not touched.
pub proof fn lemma_end_of_save(state: StateView, result: Result<(), SaveError>)
    ensures
        ({
            let (next, effects) = state.step(Message::Saved(result));
            &&& effects.open is None
            &&& next.snapshot() == state.snapshot()
            &&& !next.dirty
            &&& next.saving == state.dirty
            &&& effects.command == if state.dirty {
                CommandView::Save(state.snapshot())
            } else {
                CommandView::Nothing
            }
        }),
{
}

/// A change made during a save is followed by exactly one save: the end of
/// the running save starts it, with the edits in it, and the end of that
/// one starts no further save.
pub proof fn lemma_exactly_one_follow_up_save(
    state: StateView,
    edit: Message,
    first_result: Result<(), SaveError>,
    second_result: Result<(), SaveError>,
)
    requires
        state.saving,
        state.edited_by(edit),
    ensures
        ({
            let (edited, on_edit) = state.step(edit);
            let (resumed, on_first_end) = edited.step(Message::Saved(first_result));
            let (rested, on_second_end) = resumed.step(Message::Saved(second_result));
            &&& on_edit.command is Nothing
            &&& on_first_end.command == CommandView::Save(edited.snapshot())
            &&& on_second_end.command is Nothing
            &&& !rested.saving
            &&& !rested.dirty
            &&& rested.snapshot() == edited.snapshot()
        }),
{
}

/// A change of what is stored, with no save in flight, starts a save at
/// once, and the save holds the change.
pub proof fn lemma_change_starts_save(state: StateView, message: Message)
    requires
        state.edited_by(message),
        !state.saving,
    ensures
        ({
            let (next, effects) = state.step(message);
            &&& effects.command == CommandView::Save(state.receive(message).snapshot())
            &&& effects.command != CommandView::Save(state.snapshot())
            &&& next.saving
            &&& !next.dirty
        }),
{
}

/// A message that changes nothing of what is stored starts no save on a
/// clean state, and leaves the state clean.
pub proof fn lemma_no_change_no_save(state: StateView, message: Message)
    requires
        !state.edited_by(message),
        !state.dirty,
    ensures
        ({
            let (next, effects) = state.step(message);
            &&& effects.command is Nothing
            &&& !next.dirty
            &&& next.saving == (state.saving && !(message is Saved))
            &&& next.snapshot() == state.snapshot()
        }),
{
}

/// The messages that change nothing at all: an empty entry that is
/// submitted, a window event that is no dropped file, and an answer of the
/// storage that comes when the list is already there. Unless a change
/// waits with no save in flight, the state after them is the state before
/// them, and there is nothing to do.
pub proof fn lemma_idle_messages_change_nothing(state: StateView, message: Message)
    requires
        message is CreateTask && state.input_value.len() == 0 || message == Message::Dropped(
            Event::Other,
        ) || message is Loaded,
    ensures
        !state.edited_by(message),
        state.receive(message) == state,
        !state.dirty || state.saving ==> state.step(message) == (
            state,
            EffectsView::nothing(),
        ),
{
}

/// What a message changes on the screen only is no change of what is
/// stored: the keyword, the selected importance, the start and the end of
/// editing, the request to open a file, and any message for a task that is
/// not there. Nor is an entry or a filter that is set to what it was.
pub proof fn lemma_screen_only_messages_store_nothing(state: StateView, message: Message)
    requires
        state.accepts(message),
    ensures
        message is FilterTextChanged ==> !state.edited_by(message),
        message is ImportanceChanged ==> !state.edited_by(message),
        message is Saved ==> !state.edited_by(message),
        message matches Message::InputChanged(value) ==> state.edited_by(message) == (value@
            != state.input_value),
        message matches Message::FilterChanged(filter) ==> state.edited_by(message) == (filter
            != state.filter),
        message matches Message::TaskMessage(index, task_message) ==> state.edited_by(message)
            == (index < state.tasks.len() && (task_message is Delete
            || state.tasks[index as int].altered_by(task_message))),
        message matches Message::TaskMessage(_, task_message) ==> (task_message is Edit
            || task_message is FinishEdition || task_message is StartProcess)
            ==> !state.edited_by(message),
{
    match message {
        Message::TaskMessage(index, task_message) => {
            if index < state.tasks.len() {
                if task_message is Delete {
                    assert(state.receive(message).snapshot().tasks.len()
                        == state.snapshot().tasks.len() - 1);
                } else {
                    lemma_stored_tasks_update(
                        state.tasks,
                        index as int,
                        state.tasks[index as int].apply(task_message),
                    );
                }
            }
        },
        _ => {},
    }
}

/// A task made from the entry field or from a dropped file is a change of
/// what is stored.
pub proof fn lemma_new_task_is_a_change(state: StateView, message: Message)
    requires
        message is CreateTask && state.input_value.len() > 0 || message matches Message::Dropped(
            Event::FileDropped { .. },
        ),
    ensures
        state.edited_by(message),
        state.receive(message).tasks.len() == state.tasks.len() + 1,
{
    assert(state.receive(message).snapshot().tasks.len() == state.snapshot().tasks.len()
        + 1);
}

/// A dropped file becomes the last task of the list: it has the text of
/// the entry field as its description, the path of the file, and the time
/// of the drop as its date. The entry field is empty afterwards, and an
/// empty entry field does not stand in the way.
pub proof fn lemma_drop_adds_a_stamped_task(state: StateView, path: String, stamp: String)
    ensures
        ({
            let next = state.step(Message::Dropped(Event::FileDropped { path, stamp })).0;
            &&& next.tasks == state.tasks.push(
                TaskView::fresh(state.input_value, path@, stamp@, state.importance()),
            )
            &&& next.input_value.len() == 0
            &&& next.datetime == stamp@
            &&& next.file_path == path@
        }),
{
}

} // verus!
