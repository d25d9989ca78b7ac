use rust_cli_todo::listing::{decimal_string, list_tasks};
use rust_cli_todo::ops::{add_task, complete_task, delete_task, Outcome};
use rust_cli_todo::store::{tasks_from_store, StoreError, StoredFile};
use rust_cli_todo::task::Task;

fn descriptions(tasks: &[Task]) -> Vec<String> {
    tasks.iter().map(|t| t.description.clone()).collect()
}

fn statuses(tasks: &[Task]) -> Vec<bool> {
    tasks.iter().map(|t| t.completed).collect()
}

#[test]
fn test_add_task() {
    let mut tasks: Vec<Task> = Vec::new();

    add_task("Buy Medicines".to_string(), &mut tasks);
    assert_eq!(tasks.len(), 1);
    assert_eq!(tasks[0].description, "Buy Medicines");
    assert!(!tasks[0].completed);
}

#[test]
fn test_complete_task() {
    let mut tasks = vec![Task::new("Learn Rust".to_string())];

    complete_task(1, &mut tasks);
    assert!(tasks[0].completed);
}

#[test]
fn test_delete_task() {
    let mut tasks = vec![
        Task::new("Pack Things".to_string()),
        Task::new("Write Letters".to_string()),
    ];

    delete_task(1, &mut tasks);
    assert_eq!(tasks.len(), 1);
    assert_eq!(tasks[0].description, "Write Letters");
}

#[test]
fn new_task_is_open() {
    let t = Task::new("Water Plants".to_string());
    assert_eq!(t.description, "Water Plants");
    assert!(!t.completed);
}

#[test]
fn add_appends_last_and_keeps_order() {
    let mut tasks = vec![Task::new("A".to_string()), Task::new("B".to_string())];
    complete_task(1, &mut tasks);
    let o = add_task("C".to_string(), &mut tasks);
    assert_eq!(o, Outcome::Added);
    assert_eq!(descriptions(&tasks), vec!["A", "B", "C"]);
    assert_eq!(statuses(&tasks), vec![true, false, false]);
}

#[test]
fn add_accepts_empty_description() {
    let mut tasks: Vec<Task> = Vec::new();
    add_task(String::new(), &mut tasks);
    assert_eq!(tasks.len(), 1);
    assert_eq!(tasks[0].description, "");
    assert!(!tasks[0].completed);
}

#[test]
fn complete_changes_only_target_and_is_idempotent() {
    let mut tasks = vec![
        Task::new("A".to_string()),
        Task::new("B".to_string()),
        Task::new("C".to_string()),
    ];
    assert_eq!(complete_task(2, &mut tasks), Outcome::Completed);
    assert_eq!(descriptions(&tasks), vec!["A", "B", "C"]);
    assert_eq!(statuses(&tasks), vec![false, true, false]);
    assert_eq!(complete_task(2, &mut tasks), Outcome::Completed);
    assert_eq!(descriptions(&tasks), vec!["A", "B", "C"]);
    assert_eq!(statuses(&tasks), vec![false, true, false]);
}

#[test]
fn delete_shifts_later_tasks() {
    let mut tasks = vec![
        Task::new("A".to_string()),
        Task::new("B".to_string()),
        Task::new("C".to_string()),
    ];
    complete_task(3, &mut tasks);
    assert_eq!(delete_task(2, &mut tasks), Outcome::Deleted);
    assert_eq!(descriptions(&tasks), vec!["A", "C"]);
    assert_eq!(statuses(&tasks), vec![false, true]);
}

#[test]
fn invalid_index_changes_nothing() {
    let mut tasks = vec![Task::new("A".to_string()), Task::new("B".to_string())];
    for i in [0usize, 3, usize::MAX] {
        assert_eq!(complete_task(i, &mut tasks), Outcome::InvalidIndex);
        assert_eq!(delete_task(i, &mut tasks), Outcome::InvalidIndex);
        assert_eq!(descriptions(&tasks), vec!["A", "B"]);
        assert_eq!(statuses(&tasks), vec![false, false]);
    }
    let mut empty: Vec<Task> = Vec::new();
    assert_eq!(complete_task(1, &mut empty), Outcome::InvalidIndex);
    assert_eq!(delete_task(1, &mut empty), Outcome::InvalidIndex);
    assert!(empty.is_empty());
}

#[test]
fn outcome_messages() {
    assert_eq!(Outcome::Added.message(), "Tasks Added Successfully");
    assert_eq!(Outcome::Completed.message(), "Task Marked Complete");
    assert_eq!(Outcome::Deleted.message(), "Task Deleted Successfully");
    assert_eq!(Outcome::InvalidIndex.message(), "Invalid Index");
    assert!(Outcome::Added.changed());
    assert!(!Outcome::InvalidIndex.changed());
}

#[test]
fn decimal_numbers() {
    assert_eq!(decimal_string(0), "0");
    assert_eq!(decimal_string(7), "7");
    assert_eq!(decimal_string(10), "10");
    assert_eq!(decimal_string(1203), "1203");
    assert_eq!(decimal_string(usize::MAX), usize::MAX.to_string());
}

#[test]
fn list_empty_collection() {
    assert_eq!(list_tasks(&[]), "No Tasks Found\n");
}

#[test]
fn list_shows_index_marker_and_description() {
    let mut tasks = vec![Task::new("Buy Milk".to_string()), Task::new("Buy Medicine".to_string())];
    complete_task(2, &mut tasks);
    assert_eq!(
        list_tasks(&tasks),
        "List of Tasks:\n1: [ ] Buy Milk\n2: [\u{2713}] Buy Medicine\n"
    );
}

#[test]
fn list_numbers_past_nine() {
    let mut tasks: Vec<Task> = Vec::new();
    for k in 0..11 {
        add_task(format!("t{}", k), &mut tasks);
    }
    let text = list_tasks(&tasks);
    assert!(text.ends_with("10: [ ] t9\n11: [ ] t10\n"));
    assert_eq!(text.lines().count(), 12);
}

#[test]
fn load_missing_file_is_empty() {
    let tasks = tasks_from_store(StoredFile::Missing).unwrap();
    assert!(tasks.is_empty());
}

#[test]
fn load_errors() {
    assert_eq!(tasks_from_store(StoredFile::Unreadable).unwrap_err(), StoreError::IOFailure);
    assert_eq!(tasks_from_store(StoredFile::Malformed).unwrap_err(), StoreError::DataCorruption);
}

#[test]
fn load_decoded_keeps_order() {
    let mut stored = vec![Task::new("X".to_string()), Task::new("Y".to_string())];
    complete_task(1, &mut stored);
    let tasks = tasks_from_store(StoredFile::Decoded(stored)).unwrap();
    assert_eq!(descriptions(&tasks), vec!["X", "Y"]);
    assert_eq!(statuses(&tasks), vec![true, false]);
}
