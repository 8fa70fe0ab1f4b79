//! What a front end shows around the list: the line that counts the open
//! tasks, the look of the filter buttons, and the icon of an attachment.

use vstd::prelude::*;
use vstd::string::StringExecFns;
use crate::filter::Filter;
use crate::state::{count_unfinished, unfinished};
use crate::task::{tasks_view, Task};
use crate::text::{decimal, decimal_text};

verus! {

/// The looks a button can have.
#[derive(Debug, Clone, Copy, PartialEq, Eq, Structural)]
pub enum Button {
    /// A filter button whose filter is not in force.
    FilterActive,
    /// The button of the filter in force.
    FilterSelected,
    /// A button that shows an icon only.
    Icon,
    /// A button that deletes.
    Destructive,
}

impl Button {
    /// The look of the button that selects `filter` while `current_filter`
    /// is in force.
    pub open spec fn spec_for_filter(filter: Filter, current_filter: Filter) -> Button {
        if filter == current_filter {
            Button::FilterSelected
        } else {
            Button::FilterActive
        }
    }

    /// The look of the button that selects `filter` while `current_filter`
    /// is in force.
    pub fn for_filter(filter: Filter, current_filter: Filter) -> (style: Button)
        ensures
            style == Button::spec_for_filter(filter, current_filter),
    {
        if filter == current_filter {
            Button::FilterSelected
        } else {
            Button::FilterActive
        }
    }
}

impl Filter {
    /// The caption of the button that selects the filter.
    pub open spec fn label_text(self) -> Seq<char> {
        match self {
            Filter::All => "All"@,
            Filter::Active => "Active"@,
            Filter::Completed => "Completed"@,
        }
    }

    /// The caption of the button that selects the filter.
    pub fn label(self) -> (text: &'static str)
        ensures
            text@ == self.label_text(),
    {
        match self {
            Filter::All => "All",
            Filter::Active => "Active",
            Filter::Completed => "Completed",
        }
    }
}

/// The line that says how many tasks are left: the count in decimal, then
/// `task` for exactly one and `tasks` for any other count, then `left`.
pub open spec fn summary_text(tasks_left: nat) -> Seq<char> {
    decimal(tasks_left) + " "@ + (if tasks_left == 1 {
        "task"@
    } else {
        "tasks"@
    }) + " left"@
}

/// The row under the entry field: how many tasks are left to do, and one
/// button for each filter.
#[derive(Debug, Clone, Copy, PartialEq, Eq, Structural)]
pub struct Controls {
    /// The number of tasks that are not completed, whatever the filters
    /// show.
    pub tasks_left: usize,
    pub all_button: Button,
    pub active_button: Button,
    pub completed_button: Button,
}

impl Controls {
    /// The controls for a list of tasks under a filter.
    pub fn view(tasks: &Vec<Task>, current_filter: Filter) -> (controls: Controls)
        ensures
            controls.tasks_left == unfinished(tasks_view(tasks@)).len(),
            controls.all_button == Button::spec_for_filter(Filter::All, current_filter),
            controls.active_button == Button::spec_for_filter(Filter::Active, current_filter),
            controls.completed_button == Button::spec_for_filter(
                Filter::Completed,
                current_filter,
            ),
    {
        Controls {
            tasks_left: count_unfinished(tasks),
            all_button: Button::for_filter(Filter::All, current_filter),
            active_button: Button::for_filter(Filter::Active, current_filter),
            completed_button: Button::for_filter(Filter::Completed, current_filter),
        }
    }

    /// The line that says how many tasks are left.
    pub fn summary(&self) -> (text: String)
        ensures
            text@ == summary_text(self.tasks_left as nat),
    {
        let mut text = decimal_text(self.tasks_left);
        text.append(" ");
        text.append(if self.tasks_left == 1 { "task" } else { "tasks" });
        text.append(" left");
        text
    }
}

/// The image shown for an attachment, chosen by the extension of its file
/// name. An extension without an image of its own gets the empty path,
/// which shows nothing.
pub open spec fn icon_path(extension: Seq<char>) -> Seq<char> {
    if extension == "txt"@ {
        "icons/icons8-txt-48.png"@
    } else if extension == "xlsx"@ {
        "icons/icons8-xls-48.png"@
    } else if extension == "jpg"@ {
        "icons/icons8-jpg-48.png"@
    } else if extension == "exe"@ {
        "icons/icons8-exe-48.png"@
    } else if extension == "zip"@ {
        "icons/icons8-zip-48.png"@
    } else {
        ""@
    }
}

/// Whether two texts are the same, character for character.
fn same_text(left: &str, right: &str) -> (same: bool)
    ensures
        same == (left@ == right@),
{
    left.to_owned() == right.to_owned()
}

/// The path of the image shown for an attachment with this extension.
pub fn icon_for_extension(extension: &str) -> (path: &'static str)
    ensures
        path@ == icon_path(extension@),
{
    if same_text(extension, "txt") {
        "icons/icons8-txt-48.png"
    } else if same_text(extension, "xlsx") {
        "icons/icons8-xls-48.png"
    } else if same_text(extension, "jpg") {
        "icons/icons8-jpg-48.png"
    } else if same_text(extension, "exe") {
        "icons/icons8-exe-48.png"
    } else if same_text(extension, "zip") {
        "icons/icons8-zip-48.png"
    } else {
        ""
    }
}

} // verus!
