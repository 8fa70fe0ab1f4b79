//! Everything the application remembers while it runs, and the questions a
//! front end asks of it when it draws the list.

use vstd::prelude::*;
use crate::filter::Filter;
use crate::importance::Importance;
use crate::persistence::{SavedState, SavedStateView};
use crate::task::{stored_tasks, tasks_view, Task, TaskView};
use crate::text::is_substring;

verus! {

/// The state of the loaded application.
#[derive(Debug, PartialEq, Eq)]
pub struct State {
    /// Text of the entry field for new tasks.
    pub input_value: String,
    pub filter: Filter,
    pub tasks: Vec<Task>,
    /// There are changes that no save has picked up yet.
    pub dirty: bool,
    /// A save is in flight.
    pub saving: bool,
    /// Path given to the task added last.
    pub file_path: String,
    /// Time stamp of the last file drop; new tasks carry it as their date.
    pub datetime: String,
    /// Keyword that a task's description has to contain to be shown.
    pub filter_input_value: String,
    pub selected_importance: Option<Importance>,
}

/// The mathematical content of a [`State`].
#[verifier::ext_equal]
pub struct StateView {
    pub input_value: Seq<char>,
    pub filter: Filter,
    pub tasks: Seq<TaskView>,
    pub dirty: bool,
    pub saving: bool,
    pub file_path: Seq<char>,
    pub datetime: Seq<char>,
    pub filter_input_value: Seq<char>,
    pub selected_importance: Option<Importance>,
}

impl View for State {
    type V = StateView;

    open spec fn view(&self) -> StateView {
        StateView {
            input_value: self.input_value@,
            filter: self.filter,
            tasks: tasks_view(self.tasks@),
            dirty: self.dirty,
            saving: self.saving,
            file_path: self.file_path@,
            datetime: self.datetime@,
            filter_input_value: self.filter_input_value@,
            selected_importance: self.selected_importance,
        }
    }
}

impl StateView {
    /// The state of a first run: no tasks, nothing typed, every task shown.
    pub open spec fn initial() -> StateView {
        StateView {
            input_value: Seq::empty(),
            filter: Filter::All,
            tasks: Seq::empty(),
            dirty: false,
            saving: false,
            file_path: Seq::empty(),
            datetime: Seq::empty(),
            filter_input_value: Seq::empty(),
            selected_importance: None,
        }
    }

    /// The state that a stored list is restored to.
    pub open spec fn restored(saved: SavedStateView) -> StateView {
        StateView {
            input_value: saved.input_value,
            filter: saved.filter,
            tasks: saved.tasks,
            ..StateView::initial()
        }
    }

    /// What is stored of the state: the entry field, the filter and the
    /// tasks, each task as it is stored.
    pub open spec fn snapshot(self) -> SavedStateView {
        SavedStateView {
            input_value: self.input_value,
            filter: self.filter,
            tasks: stored_tasks(self.tasks),
        }
    }

    /// The importance given to the next task: the selected level, or
    /// `Normal` while none was selected.
    pub open spec fn importance(self) -> Importance {
        match self.selected_importance {
            Some(importance) => importance,
            None => Importance::Normal,
        }
    }

    /// Whether the task at `index` passes both the status filter and the
    /// keyword filter.
    pub open spec fn shows(self, index: int) -> bool {
        &&& self.filter.admits(self.tasks[index].completed)
        &&& is_substring(self.filter_input_value, self.tasks[index].description)
    }

    /// The number of tasks that are not completed.
    pub open spec fn tasks_left(self) -> nat {
        unfinished(self.tasks).len()
    }
}

/// The tasks of a list that are not completed, in list order.
pub open spec fn unfinished(tasks: Seq<TaskView>) -> Seq<TaskView> {
    tasks.filter(|task: TaskView| !task.completed)
}

impl Default for State {
    fn default() -> (state: Self)
        ensures
            state@ == StateView::initial(),
    {
        let state = State {
            input_value: String::new(),
            filter: Filter::All,
            tasks: Vec::new(),
            dirty: false,
            saving: false,
            file_path: String::new(),
            datetime: String::new(),
            filter_input_value: String::new(),
            selected_importance: None,
        };
        assert(state@ =~= StateView::initial());
        state
    }
}

impl State {
    /// The state that a stored list is restored to: its text, filter and
    /// tasks, and everything else as on a first run.
    pub fn restore(saved: SavedState) -> (state: State)
        ensures
            state@ == StateView::restored(saved@),
    {
        let state = State {
            input_value: saved.input_value,
            filter: saved.filter,
            tasks: saved.tasks,
            dirty: false,
            saving: false,
            file_path: String::new(),
            datetime: String::new(),
            filter_input_value: String::new(),
            selected_importance: None,
        };
        assert(state@ =~= StateView::restored(saved@));
        state
    }

    /// A copy of what is stored of the state.
    pub fn snapshot(&self) -> (saved: SavedState)
        ensures
            saved@ == self@.snapshot(),
    {
        let mut tasks: Vec<Task> = Vec::new();
        let mut index: usize = 0;
        while index < self.tasks.len()
            invariant
                index <= self.tasks@.len(),
                tasks@.len() == index,
                forall|at: int| 0 <= at < index ==> (#[trigger] tasks@[at])@ == self.tasks@[at]@.stored(),
            decreases self.tasks@.len() - index,
        {
            tasks.push(self.tasks[index].stored());
            index += 1;
        }
        let saved = SavedState { input_value: self.input_value.clone(), filter: self.filter, tasks };
        assert(saved@.tasks =~= stored_tasks(tasks_view(self.tasks@)));
        saved
    }

    /// The importance given to the next task.
    pub fn importance(&self) -> (importance: Importance)
        ensures
            importance == self@.importance(),
    {
        match self.selected_importance {
            Some(importance) => importance,
            None => Importance::Normal,
        }
    }

    /// The positions of the tasks that are shown, in list order: those that
    /// pass the status filter and whose description contains the keyword.
    pub fn visible(&self) -> (shown: Vec<usize>)
        ensures
            forall|k: int| 0 <= k < shown@.len() ==> #[trigger] shown@[k] < self.tasks@.len(),
            forall|k: int| 0 <= k < shown@.len() ==> self@.shows(#[trigger] shown@[k] as int),
            forall|j: int, k: int| 0 <= j < k < shown@.len() ==> shown@[j] < shown@[k],
            forall|index: int|
                0 <= index < self.tasks@.len() && #[trigger] self@.shows(index) ==> shown@.contains(
                    index as usize,
                ),
    {
        let mut shown: Vec<usize> = Vec::new();
        let mut index: usize = 0;
        while index < self.tasks.len()
            invariant
                index <= self.tasks@.len(),
                forall|k: int| 0 <= k < shown@.len() ==> #[trigger] shown@[k] < index,
                forall|k: int| 0 <= k < shown@.len() ==> self@.shows(#[trigger] shown@[k] as int),
                forall|j: int, k: int| 0 <= j < k < shown@.len() ==> shown@[j] < shown@[k],
                forall|seen: int|
                    0 <= seen < index && #[trigger] self@.shows(seen) ==> shown@.contains(
                        seen as usize,
                    ),
            decreases self.tasks@.len() - index,
        {
            let task = &self.tasks[index];
            let ghost before = shown@;
            let by_status = self.filter.matches(task);
            let by_keyword = self.filter.word_matches(task, &self.filter_input_value);
            if by_status && by_keyword {
                shown.push(index);
                assert(shown@[before.len() as int] == index);
            }
            proof {
                assert forall|seen: int|
                    0 <= seen < index + 1 && #[trigger] self@.shows(seen) implies shown@.contains(
                    seen as usize,
                ) by {
                    if seen < index {
                        let at = choose|at: int| 0 <= at < before.len() && before[at] == seen as usize;
                        assert(shown@[at] == seen as usize);
                    }
                }
            }
            index += 1;
        }
        shown
    }

    /// The number of tasks that are not completed.
    pub fn tasks_left(&self) -> (left: usize)
        ensures
            left == self@.tasks_left(),
    {
        count_unfinished(&self.tasks)
    }
}

/// The number of tasks in a list that are not completed.
pub fn count_unfinished(tasks: &Vec<Task>) -> (left: usize)
    ensures
        left == unfinished(tasks_view(tasks@)).len(),
{
    let ghost all = tasks_view(tasks@);
    let mut left: usize = 0;
    let mut index: usize = 0;
    proof {
        reveal(Seq::filter);
        assert(all.take(0) =~= Seq::<TaskView>::empty());
    }
    while index < tasks.len()
        invariant
            index <= tasks@.len(),
            all == tasks_view(tasks@),
            left == unfinished(all.take(index as int)).len(),
            left <= index,
        decreases tasks@.len() - index,
    {
        proof {
            reveal(Seq::filter);
            let next = all.take(index + 1);
            assert(next.drop_last() =~= all.take(index as int));
            assert(next.last() == tasks@[index as int]@);
        }
        if !tasks[index].completed {
            left += 1;
        }
        index += 1;
    }
    proof {
        assert(all.take(index as int) =~= all);
    }
    left
}

} // verus!
