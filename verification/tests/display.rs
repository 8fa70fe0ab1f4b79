use todos::text::decimal_text;
use todos::{icon_for_extension, Button, Controls, Filter, Importance, State, Task};

fn tasks(flags: &[bool]) -> Vec<Task> {
    flags
        .iter()
        .enumerate()
        .map(|(index, completed)| {
            let mut task = Task::new(
                format!("task {}", index),
                String::new(),
                String::new(),
                Importance::Normal,
            );
            task.completed = *completed;
            task
        })
        .collect()
}

#[test]
fn selected_filter_button_stands_out() {
    assert_eq!(
        Button::for_filter(Filter::All, Filter::All),
        Button::FilterSelected
    );
    assert_eq!(
        Button::for_filter(Filter::Active, Filter::All),
        Button::FilterActive
    );
    assert_eq!(
        Button::for_filter(Filter::Completed, Filter::Active),
        Button::FilterActive
    );
    assert_eq!(
        Button::for_filter(Filter::Completed, Filter::Completed),
        Button::FilterSelected
    );
}

#[test]
fn controls_mark_exactly_the_current_filter() {
    let controls = Controls::view(&tasks(&[false, true]), Filter::Active);
    assert_eq!(controls.all_button, Button::FilterActive);
    assert_eq!(controls.active_button, Button::FilterSelected);
    assert_eq!(controls.completed_button, Button::FilterActive);
    let controls = Controls::view(&tasks(&[]), Filter::Completed);
    assert_eq!(controls.all_button, Button::FilterActive);
    assert_eq!(controls.active_button, Button::FilterActive);
    assert_eq!(controls.completed_button, Button::FilterSelected);
}

#[test]
fn controls_count_the_open_tasks_whatever_the_filter() {
    let list = tasks(&[false, true, false, true, true]);
    assert_eq!(Controls::view(&list, Filter::All).tasks_left, 2);
    assert_eq!(Controls::view(&list, Filter::Active).tasks_left, 2);
    assert_eq!(Controls::view(&list, Filter::Completed).tasks_left, 2);
    assert_eq!(Controls::view(&tasks(&[]), Filter::All).tasks_left, 0);
    assert_eq!(Controls::view(&tasks(&[true]), Filter::All).tasks_left, 0);
    assert_eq!(Controls::view(&tasks(&[false; 12]), Filter::All).tasks_left, 12);
}

#[test]
fn state_counts_the_open_tasks() {
    let mut state = State::default();
    assert_eq!(state.tasks_left(), 0);
    state.tasks = tasks(&[true, false, false]);
    assert_eq!(state.tasks_left(), 2);
}

#[test]
fn summary_uses_the_singular_for_one_task_only() {
    assert_eq!(
        Controls::view(&tasks(&[]), Filter::All).summary(),
        "0 tasks left"
    );
    assert_eq!(
        Controls::view(&tasks(&[false]), Filter::All).summary(),
        "1 task left"
    );
    assert_eq!(
        Controls::view(&tasks(&[false, true, false]), Filter::All).summary(),
        "2 tasks left"
    );
}

#[test]
fn summary_writes_the_count_in_decimal() {
    assert_eq!(
        Controls::view(&tasks(&[false; 10]), Filter::All).summary(),
        "10 tasks left"
    );
    assert_eq!(
        Controls::view(&tasks(&[false; 11]), Filter::All).summary(),
        "11 tasks left"
    );
    assert_eq!(
        Controls::view(&tasks(&[false; 205]), Filter::All).summary(),
        "205 tasks left"
    );
    let controls = Controls {
        tasks_left: 1234567890,
        all_button: Button::FilterSelected,
        active_button: Button::FilterActive,
        completed_button: Button::FilterActive,
    };
    assert_eq!(controls.summary(), "1234567890 tasks left");
}

#[test]
fn decimal_text_of_counts() {
    assert_eq!(decimal_text(0), "0");
    assert_eq!(decimal_text(7), "7");
    assert_eq!(decimal_text(9), "9");
    assert_eq!(decimal_text(10), "10");
    assert_eq!(decimal_text(99), "99");
    assert_eq!(decimal_text(100), "100");
    assert_eq!(decimal_text(1234567890), "1234567890");
    assert_eq!(decimal_text(9080706050), "9080706050");
    assert_eq!(decimal_text(usize::MAX), usize::MAX.to_string());
}

#[test]
fn icons_by_extension() {
    assert_eq!(icon_for_extension("txt"), "icons/icons8-txt-48.png");
    assert_eq!(icon_for_extension("xlsx"), "icons/icons8-xls-48.png");
    assert_eq!(icon_for_extension("jpg"), "icons/icons8-jpg-48.png");
    assert_eq!(icon_for_extension("exe"), "icons/icons8-exe-48.png");
    assert_eq!(icon_for_extension("zip"), "icons/icons8-zip-48.png");
}

#[test]
fn other_extensions_have_no_icon() {
    assert_eq!(icon_for_extension(""), "");
    assert_eq!(icon_for_extension("png"), "");
    assert_eq!(icon_for_extension("TXT"), "");
    assert_eq!(icon_for_extension("xls"), "");
    assert_eq!(icon_for_extension(".txt"), "");
    assert_eq!(icon_for_extension("txt "), "");
}
