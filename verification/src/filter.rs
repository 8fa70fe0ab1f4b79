//! The two display-time filters: by completion status and by keyword.

use vstd::prelude::*;
use crate::task::Task;
use crate::text::{is_substring, occurs_at, str_contains};

verus! {

/// Which tasks the list shows, by their completion status.
#[derive(Debug, Clone, Copy, PartialEq, Eq, Structural)]
pub enum Filter {
    All,
    Active,
    Completed,
}

impl Default for Filter {
    fn default() -> (filter: Self)
        ensures
            filter == Filter::All,
    {
        Filter::All
    }
}

impl Filter {
    /// Whether the filter lets a task with this completion flag through.
    pub open spec fn admits(self, completed: bool) -> bool {
        match self {
            Filter::All => true,
            Filter::Active => !completed,
            Filter::Completed => completed,
        }
    }

    /// The text shown in place of the list when the filter leaves no task.
    pub open spec fn empty_text(self) -> Seq<char> {
        match self {
            Filter::All => "まだ何のタスクもありません..."@,
            Filter::Active => "タスクを全て完了しました :D"@,
            Filter::Completed => "まだ何のタスクも完了していません..."@,
        }
    }

    /// Whether the status filter shows the task.
    pub fn matches(&self, task: &Task) -> (shown: bool)
        ensures
            shown == self.admits(task@.completed),
    {
        match self {
            Filter::All => true,
            Filter::Active => !task.completed,
            Filter::Completed => task.completed,
        }
    }

    /// Whether the keyword filter shows the task: the keyword has to occur
    /// in the description. The status filter plays no part in this.
    pub fn word_matches(&self, task: &Task, filter_input_value: &String) -> (shown: bool)
        ensures
            shown == is_substring(filter_input_value@, task@.description),
    {
        str_contains(task.description.as_str(), filter_input_value.as_str())
    }

    /// The text shown in place of the list when the filter leaves no task.
    pub fn empty_message(self) -> (text: &'static str)
        ensures
            text@ == self.empty_text(),
    {
        match self {
            Filter::All => "まだ何のタスクもありません...",
            Filter::Active => "タスクを全て完了しました :D",
            Filter::Completed => "まだ何のタスクも完了していません...",
        }
    }
}

/// Every task passes `All`, and passes exactly one of `Active` and
/// `Completed`: the one that its completion flag names.
pub proof fn lemma_filters_split_by_completion(completed: bool)
    ensures
        Filter::All.admits(completed),
        Filter::Active.admits(completed) == !completed,
        Filter::Completed.admits(completed) == completed,
        Filter::Active.admits(completed) != Filter::Completed.admits(completed),
{
}

/// The empty keyword hides nothing.
pub proof fn lemma_empty_keyword_matches(description: Seq<char>)
    ensures
        is_substring(Seq::<char>::empty(), description),
{
    assert(description.subrange(0, 0) =~= Seq::<char>::empty());
    assert(occurs_at(Seq::<char>::empty(), description, 0));
}

} // verus!
