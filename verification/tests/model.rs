use todos::persistence::{FILE_NAME, SAVE_COOLDOWN_SECS};
use todos::{Filter, Importance, SavedState, Task, TaskMessage, TaskState};

fn task(description: &str, completed: bool) -> Task {
    let mut task = Task::new(
        description.to_string(),
        String::new(),
        String::new(),
        Importance::Normal,
    );
    task.completed = completed;
    task
}

#[test]
fn all_lists_the_levels_lowest_first() {
    assert_eq!(
        Importance::all(),
        [Importance::Low, Importance::Normal, Importance::High]
    );
}

#[test]
fn importance_labels() {
    assert_eq!(Importance::Low.label(), "Low");
    assert_eq!(Importance::Normal.label(), "Normal");
    assert_eq!(Importance::High.label(), "High");
}

#[test]
fn string_from_importance_is_the_label() {
    assert_eq!(String::from(Importance::Low), "Low");
    assert_eq!(String::from(Importance::Normal), "Normal");
    let text: String = Importance::High.into();
    assert_eq!(text, "High");
}

#[test]
fn default_filter_is_all() {
    assert_eq!(Filter::default(), Filter::All);
}

#[test]
fn default_task_state_is_idle() {
    assert_eq!(TaskState::default(), TaskState::Idle);
}

#[test]
fn filter_all_matches_every_task() {
    assert!(Filter::All.matches(&task("a", false)));
    assert!(Filter::All.matches(&task("a", true)));
}

#[test]
fn filter_active_matches_open_tasks_only() {
    assert!(Filter::Active.matches(&task("a", false)));
    assert!(!Filter::Active.matches(&task("a", true)));
}

#[test]
fn filter_completed_matches_completed_tasks_only() {
    assert!(!Filter::Completed.matches(&task("a", false)));
    assert!(Filter::Completed.matches(&task("a", true)));
}

#[test]
fn each_task_is_active_or_completed_never_both() {
    for completed in [false, true] {
        let task = task("a", completed);
        assert_ne!(
            Filter::Active.matches(&task),
            Filter::Completed.matches(&task)
        );
    }
}

#[test]
fn word_matches_a_keyword_inside_the_description() {
    let task = task("buy milk and bread", false);
    assert!(Filter::All.word_matches(&task, &"milk".to_string()));
    assert!(Filter::All.word_matches(&task, &"buy".to_string()));
    assert!(Filter::All.word_matches(&task, &"bread".to_string()));
    assert!(Filter::All.word_matches(&task, &"k a".to_string()));
    assert!(Filter::All.word_matches(&task, &"buy milk and bread".to_string()));
}

#[test]
fn word_matches_rejects_a_keyword_that_does_not_occur() {
    let task = task("buy milk", false);
    assert!(!Filter::All.word_matches(&task, &"bread".to_string()));
    assert!(!Filter::All.word_matches(&task, &"Milk".to_string()));
    assert!(!Filter::All.word_matches(&task, &"bymilk".to_string()));
    assert!(!Filter::All.word_matches(&task, &"buy milk!".to_string()));
    assert!(!Filter::All.word_matches(&task, &"milk buy".to_string()));
}

#[test]
fn word_matches_the_empty_keyword_always() {
    assert!(Filter::All.word_matches(&task("anything", true), &String::new()));
    assert!(Filter::All.word_matches(&task("", false), &String::new()));
}

#[test]
fn word_matches_nothing_in_an_empty_description_but_the_empty_keyword() {
    assert!(!Filter::All.word_matches(&task("", false), &"a".to_string()));
}

#[test]
fn word_matches_ignores_the_status_filter() {
    let done = task("write report", true);
    assert!(Filter::Active.word_matches(&done, &"report".to_string()));
    assert!(Filter::Completed.word_matches(&done, &"report".to_string()));
    assert!(!Filter::Completed.word_matches(&done, &"letter".to_string()));
}

#[test]
fn word_matches_characters_outside_ascii() {
    let task = task("牛乳を買う", false);
    assert!(Filter::All.word_matches(&task, &"牛乳".to_string()));
    assert!(Filter::All.word_matches(&task, &"買う".to_string()));
    assert!(!Filter::All.word_matches(&task, &"パン".to_string()));
}

#[test]
fn empty_messages_by_filter() {
    assert_eq!(Filter::All.empty_message(), "まだ何のタスクもありません...");
    assert_eq!(Filter::Active.empty_message(), "タスクを全て完了しました :D");
    assert_eq!(
        Filter::Completed.empty_message(),
        "まだ何のタスクも完了していません..."
    );
}

#[test]
fn filter_button_captions() {
    assert_eq!(Filter::All.label(), "All");
    assert_eq!(Filter::Active.label(), "Active");
    assert_eq!(Filter::Completed.label(), "Completed");
}

#[test]
fn new_task_is_open_and_idle() {
    let task = Task::new(
        "call home".to_string(),
        "/tmp/notes.txt".to_string(),
        " Added 2021/05/01 09:30".to_string(),
        Importance::High,
    );
    assert_eq!(task.description, "call home");
    assert_eq!(task.file_path, "/tmp/notes.txt");
    assert_eq!(task.date, " Added 2021/05/01 09:30");
    assert_eq!(task.importance, Importance::High);
    assert!(!task.completed);
    assert_eq!(task.state, TaskState::Idle);
}

#[test]
fn completed_message_sets_and_clears_the_flag() {
    let mut task = task("a", false);
    assert_eq!(task.update(TaskMessage::Completed(true)), None);
    assert!(task.completed);
    assert_eq!(task.update(TaskMessage::Completed(true)), None);
    assert!(task.completed);
    assert_eq!(task.update(TaskMessage::Completed(false)), None);
    assert!(!task.completed);
    assert_eq!(task.description, "a");
}

#[test]
fn edit_message_starts_editing() {
    let mut task = task("a", false);
    assert_eq!(task.update(TaskMessage::Edit), None);
    assert_eq!(task.state, TaskState::Editing);
    assert_eq!(task.description, "a");
    assert!(!task.completed);
}

#[test]
fn description_edited_replaces_the_description() {
    let mut task = task("old", true);
    task.update(TaskMessage::Edit);
    assert_eq!(
        task.update(TaskMessage::DescriptionEdited("new".to_string())),
        None
    );
    assert_eq!(task.description, "new");
    assert_eq!(task.state, TaskState::Editing);
    assert!(task.completed);
}

#[test]
fn finish_edition_returns_to_idle() {
    let mut task = task("a", false);
    task.update(TaskMessage::Edit);
    assert_eq!(task.update(TaskMessage::FinishEdition), None);
    assert_eq!(task.state, TaskState::Idle);
}

#[test]
fn finish_edition_is_ignored_while_the_description_is_empty() {
    let mut task = task("a", false);
    task.update(TaskMessage::Edit);
    task.update(TaskMessage::DescriptionEdited(String::new()));
    assert_eq!(task.update(TaskMessage::FinishEdition), None);
    assert_eq!(task.state, TaskState::Editing);
    task.update(TaskMessage::DescriptionEdited("b".to_string()));
    task.update(TaskMessage::FinishEdition);
    assert_eq!(task.state, TaskState::Idle);
    assert_eq!(task.description, "b");
}

#[test]
fn delete_message_leaves_the_task_itself_alone() {
    let mut task = task("a", true);
    let before = task.clone();
    assert_eq!(task.update(TaskMessage::Delete), None);
    assert_eq!(task, before);
}

#[test]
fn start_process_hands_the_path_back() {
    let mut task = task("a", false);
    let before = task.clone();
    assert_eq!(
        task.update(TaskMessage::StartProcess("/tmp/report.xlsx".to_string())),
        Some("/tmp/report.xlsx".to_string())
    );
    assert_eq!(task, before);
}

#[test]
fn stored_task_is_the_task_idle() {
    let mut task = Task::new(
        "a".to_string(),
        "p".to_string(),
        "d".to_string(),
        Importance::Low,
    );
    task.completed = true;
    task.state = TaskState::Editing;
    let stored = task.stored();
    assert_eq!(stored.state, TaskState::Idle);
    assert_eq!(stored.description, "a");
    assert_eq!(stored.file_path, "p");
    assert_eq!(stored.date, "d");
    assert_eq!(stored.importance, Importance::Low);
    assert!(stored.completed);
    assert_eq!(task.state, TaskState::Editing);
}

#[test]
fn only_flag_and_description_alter_what_is_stored() {
    let task = task("a", false);
    assert!(task.alters(&TaskMessage::Completed(true)));
    assert!(!task.alters(&TaskMessage::Completed(false)));
    assert!(task.alters(&TaskMessage::DescriptionEdited("b".to_string())));
    assert!(task.alters(&TaskMessage::DescriptionEdited(String::new())));
    assert!(!task.alters(&TaskMessage::DescriptionEdited("a".to_string())));
    assert!(!task.alters(&TaskMessage::Edit));
    assert!(!task.alters(&TaskMessage::FinishEdition));
    assert!(!task.alters(&TaskMessage::Delete));
    assert!(!task.alters(&TaskMessage::StartProcess("p".to_string())));
}

#[test]
fn task_clone_is_equal() {
    let mut task = Task::new(
        "a".to_string(),
        "p".to_string(),
        "d".to_string(),
        Importance::Low,
    );
    task.completed = true;
    task.state = TaskState::Editing;
    let copy = task.clone();
    assert_eq!(copy, task);
}

#[test]
fn task_message_clone_is_equal() {
    let messages = [
        TaskMessage::Completed(true),
        TaskMessage::Edit,
        TaskMessage::DescriptionEdited("x".to_string()),
        TaskMessage::FinishEdition,
        TaskMessage::Delete,
        TaskMessage::StartProcess("p".to_string()),
    ];
    for message in messages.iter() {
        assert_eq!(&message.clone(), message);
    }
}

#[test]
fn saved_state_clone_is_equal() {
    let saved = SavedState {
        input_value: "draft".to_string(),
        filter: Filter::Completed,
        tasks: vec![task("a", false), task("b", true)],
    };
    assert_eq!(saved.clone(), saved);
}

#[test]
fn storage_constants() {
    assert_eq!(FILE_NAME, "todos.json");
    assert_eq!(SAVE_COOLDOWN_SECS, 2);
}
