use rusty_journal::error::JournalError;
use rusty_journal::tasks::{
    add_task, complete_task, complete_task_at, edit_task, list_completed_tasks, list_tasks,
    locate, select, Task,
};
use rusty_journal::time::Timestamp;

fn stamp(secs: i64) -> Timestamp {
    Timestamp::from_secs(secs).unwrap()
}

fn open_task(text: &str) -> Task {
    Task { text: String::from(text), create_at: Timestamp::now(), completed_at: None }
}

fn done_task(text: &str) -> Task {
    Task {
        text: String::from(text),
        create_at: Timestamp::now(),
        completed_at: Some(Timestamp::now()),
    }
}

fn four_tasks() -> Vec<Task> {
    vec![open_task("Task 1"), open_task("Task 2"), done_task("Task 3"), open_task("Task 4")]
}

#[test]
fn test_list_completed_tasks() {
    let tasks = vec![done_task("Task 1"), open_task("Task 2")];

    let open = list_tasks(&tasks);
    assert_eq!(open.len(), 1);
    assert!(open[0].starts_with("1. Task 2 "));

    let completed = list_completed_tasks(&tasks);
    assert_eq!(completed.len(), 1);
    assert!(completed[0].starts_with("1. Task 1 "));
    assert!(completed[0].contains(" (completed at "));
}

#[test]
fn test_complete_task() {
    let mut tasks = four_tasks();

    assert_eq!(list_tasks(&tasks).len(), 3);
    println!("Complete task 1");
    complete_task(&mut tasks, 1).unwrap();

    assert!(tasks[0].completed_at.is_some());
    assert!(tasks[1].completed_at.is_none());

    assert_eq!(list_tasks(&tasks).len(), 2);
    println!("Complete task 4");
    complete_task(&mut tasks, 2).unwrap();
    println!("Left");
    let left = list_tasks(&tasks);
    assert_eq!(left.len(), 1);
    assert!(left[0].starts_with("1. Task 2 "));

    println!("Already complete ----");
    assert_eq!(list_completed_tasks(&tasks).len(), 3);

    assert_eq!(tasks.len(), 4);
    assert!(tasks[0].completed_at.is_some());
    assert!(tasks[1].completed_at.is_none());
    assert!(tasks[2].completed_at.is_some());
    assert!(tasks[3].completed_at.is_some());
}

#[test]
fn new_task_is_open_and_keeps_its_text() {
    let before = chrono::Utc::now().timestamp();
    let task = Task::new(String::from("buy milk"));
    let after = chrono::Utc::now().timestamp();
    assert_eq!(task.text, "buy milk");
    assert!(task.completed_at.is_none());
    assert!(before <= task.create_at.secs() && task.create_at.secs() <= after);
}

#[test]
fn add_appends_at_the_end() {
    let mut tasks = vec![open_task("first")];
    add_task(&mut tasks, open_task("second"));
    add_task(&mut tasks, done_task("third"));
    assert_eq!(tasks.len(), 3);
    assert_eq!(tasks[0].text, "first");
    assert_eq!(tasks[1].text, "second");
    assert_eq!(tasks[2].text, "third");
    assert!(tasks[2].completed_at.is_some());
}

#[test]
fn select_gives_indices_by_state() {
    let tasks = four_tasks();
    assert_eq!(select(&tasks, false), vec![0, 1, 3]);
    assert_eq!(select(&tasks, true), vec![2]);
    let none: Vec<Task> = Vec::new();
    assert_eq!(select(&none, false), Vec::<usize>::new());
    assert_eq!(select(&none, true), Vec::<usize>::new());
}

#[test]
fn locate_counts_open_tasks_only() {
    let tasks = four_tasks();
    assert_eq!(locate(&tasks, 0), None);
    assert_eq!(locate(&tasks, 1), Some(0));
    assert_eq!(locate(&tasks, 2), Some(1));
    assert_eq!(locate(&tasks, 3), Some(3));
    assert_eq!(locate(&tasks, 4), None);
    assert_eq!(locate(&tasks, usize::MAX), None);
}

#[test]
fn complete_at_marks_the_named_task_only() {
    let mut tasks = four_tasks();
    let created: Vec<i64> = tasks.iter().map(|t| t.create_at.secs()).collect();
    let third_done = tasks[2].completed_at.map(|t| t.secs());

    assert_eq!(complete_task_at(&mut tasks, 3, stamp(2_000_000_000)), Ok(()));

    assert!(tasks[0].completed_at.is_none());
    assert!(tasks[1].completed_at.is_none());
    assert_eq!(tasks[2].completed_at.map(|t| t.secs()), third_done);
    assert_eq!(tasks[3].completed_at.map(|t| t.secs()), Some(2_000_000_000));
    assert_eq!(tasks[3].text, "Task 4");
    let after: Vec<i64> = tasks.iter().map(|t| t.create_at.secs()).collect();
    assert_eq!(after, created);
    assert_eq!(select(&tasks, false), vec![0, 1]);
    assert_eq!(select(&tasks, true), vec![2, 3]);
}

#[test]
fn complete_rejects_position_zero() {
    let mut tasks = four_tasks();
    assert_eq!(complete_task(&mut tasks, 0), Err(JournalError::InvalidPosition));
    assert_eq!(select(&tasks, false), vec![0, 1, 3]);
}

#[test]
fn complete_rejects_position_beyond_open_tasks() {
    let mut tasks = four_tasks();
    assert_eq!(complete_task(&mut tasks, 4), Err(JournalError::InvalidPosition));
    assert_eq!(
        complete_task_at(&mut tasks, 4, stamp(5)),
        Err(JournalError::InvalidPosition)
    );
    assert_eq!(tasks.len(), 4);
    assert_eq!(select(&tasks, false), vec![0, 1, 3]);
    assert_eq!(tasks[0].text, "Task 1");
}

#[test]
fn complete_rejects_any_position_in_an_empty_journal() {
    let mut tasks: Vec<Task> = Vec::new();
    assert_eq!(complete_task(&mut tasks, 1), Err(JournalError::InvalidPosition));
    assert!(tasks.is_empty());
}

#[test]
fn complete_sets_the_current_time() {
    let mut tasks = vec![open_task("only")];
    let before = chrono::Utc::now().timestamp();
    complete_task(&mut tasks, 1).unwrap();
    let after = chrono::Utc::now().timestamp();
    let at = tasks[0].completed_at.unwrap().secs();
    assert!(before <= at && at <= after);
    assert!(at >= tasks[0].create_at.secs());
}

#[test]
fn completed_task_cannot_be_completed_again() {
    let mut tasks = vec![open_task("only")];
    assert_eq!(complete_task_at(&mut tasks, 1, stamp(10)), Ok(()));
    assert_eq!(
        complete_task_at(&mut tasks, 1, stamp(20)),
        Err(JournalError::InvalidPosition)
    );
    assert_eq!(tasks[0].completed_at.map(|t| t.secs()), Some(10));
}

#[test]
fn edit_replaces_the_text_of_the_named_task() {
    let mut tasks = four_tasks();
    assert_eq!(edit_task(&mut tasks, 3, String::from("Task four")), Ok(()));
    assert_eq!(tasks[0].text, "Task 1");
    assert_eq!(tasks[1].text, "Task 2");
    assert_eq!(tasks[2].text, "Task 3");
    assert_eq!(tasks[3].text, "Task four");
    assert!(tasks[3].completed_at.is_none());
    assert_eq!(select(&tasks, false), vec![0, 1, 3]);
}

#[test]
fn edit_rejects_invalid_positions() {
    let mut tasks = four_tasks();
    assert_eq!(
        edit_task(&mut tasks, 0, String::from("x")),
        Err(JournalError::InvalidPosition)
    );
    assert_eq!(
        edit_task(&mut tasks, 4, String::from("x")),
        Err(JournalError::InvalidPosition)
    );
    let texts: Vec<&str> = tasks.iter().map(|t| t.text.as_str()).collect();
    assert_eq!(texts, vec!["Task 1", "Task 2", "Task 3", "Task 4"]);
}

#[test]
fn listing_an_empty_journal_gives_the_notice() {
    let tasks: Vec<Task> = Vec::new();
    assert_eq!(list_tasks(&tasks), vec![String::from("Task list is empty!")]);
    assert_eq!(list_completed_tasks(&tasks), vec![String::from("Task list is empty!")]);
}

#[test]
fn listing_without_a_task_in_the_state_gives_no_line() {
    let only_done = vec![done_task("a")];
    assert!(list_tasks(&only_done).is_empty());
    let only_open = vec![open_task("a")];
    assert!(list_completed_tasks(&only_open).is_empty());
}

#[test]
fn listing_numbers_the_tasks_from_one() {
    let mut tasks: Vec<Task> = Vec::new();
    for n in 1..=12 {
        tasks.push(open_task(&format!("task {}", n)));
    }
    let lines = list_tasks(&tasks);
    assert_eq!(lines.len(), 12);
    assert!(lines[0].starts_with("1. task 1 "));
    assert!(lines[8].starts_with("9. task 9 "));
    assert!(lines[9].starts_with("10. task 10 "));
    assert!(lines[11].starts_with("12. task 12 "));
}

#[test]
fn listing_twice_gives_the_same_lines() {
    let tasks = four_tasks();
    assert_eq!(list_tasks(&tasks), list_tasks(&tasks));
    assert_eq!(list_completed_tasks(&tasks), list_completed_tasks(&tasks));
}

#[test]
fn listing_a_line_is_rank_then_display() {
    let tasks = vec![done_task("a"), open_task("b")];
    assert_eq!(list_tasks(&tasks), vec![format!("1. {}", tasks[1].display())]);
    assert_eq!(list_completed_tasks(&tasks), vec![format!("1. {}", tasks[0].display())]);
}

#[test]
fn three_added_second_completed() {
    let mut tasks: Vec<Task> = Vec::new();
    add_task(&mut tasks, Task::new(String::from("T1")));
    add_task(&mut tasks, Task::new(String::from("T2")));
    add_task(&mut tasks, Task::new(String::from("T3")));
    complete_task(&mut tasks, 2).unwrap();

    let open = list_tasks(&tasks);
    assert_eq!(open.len(), 2);
    assert!(open[0].starts_with("1. T1 "));
    assert!(open[1].starts_with("2. T3 "));

    let completed = list_completed_tasks(&tasks);
    assert_eq!(completed.len(), 1);
    assert!(completed[0].starts_with("1. T2 "));
}

#[test]
fn created_task_holds_what_it_was_given() {
    let task = Task::created(String::from("buy milk"), stamp(1_700_000_000));
    assert_eq!(task.text, "buy milk");
    assert_eq!(task.create_at.secs(), 1_700_000_000);
    assert!(task.completed_at.is_none());
}
