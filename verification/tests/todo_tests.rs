use record_store::clock::Timestamp;
use record_store::todo_cli::commands::{
    add, add_at, done, done_at, edit, list_todos, remove, stats,
};
use record_store::todo_cli::error::AppError;
use record_store::todo_cli::models::{Priority, Todo, TodoStore};

fn at(secs: i64) -> Timestamp {
    Timestamp { secs, nanos: 0 }
}

fn tags(names: &[&str]) -> Vec<String> {
    names.iter().map(|n| n.to_string()).collect()
}

fn sample() -> TodoStore {
    let mut store = TodoStore::default();
    add_at(&mut store, "write".to_string(), Priority::High, tags(&["work", "doc"]), at(1));
    add_at(&mut store, "shop".to_string(), Priority::Low, tags(&["home"]), at(2));
    add_at(&mut store, "call".to_string(), Priority::Medium, tags(&[]), at(3));
    add_at(&mut store, "ship".to_string(), Priority::High, tags(&["work"]), at(4));
    store
}

fn ids(shown: &[&Todo]) -> Vec<u64> {
    shown.iter().map(|t| t.id).collect()
}

#[test]
fn default_list_is_empty_and_starts_at_one() {
    let store = TodoStore::default();
    assert!(store.todos.is_empty());
    assert_eq!(store.next_id, 1);
}

#[test]
fn add_appends_an_open_todo_with_the_next_id() {
    let mut store = TodoStore::default();
    let id = add_at(&mut store, "write".to_string(), Priority::High, tags(&["a", "b"]), at(9));
    assert_eq!(id, 1);
    assert_eq!(store.next_id, 2);
    assert_eq!(store.todos.len(), 1);
    let todo = &store.todos[0];
    assert_eq!(todo.id, 1);
    assert_eq!(todo.text, "write");
    assert!(!todo.done);
    assert_eq!(todo.priority, Priority::High);
    assert_eq!(todo.tags, tags(&["a", "b"]));
    assert_eq!(todo.created_at, at(9));
    assert_eq!(todo.completed_at, None);
    let id = add_at(&mut store, "more".to_string(), Priority::Low, tags(&[]), at(10));
    assert_eq!(id, 2);
    assert_eq!(store.todos[1].text, "more");
    assert_eq!(store.todos[0].text, "write");
}

#[test]
fn add_stamps_the_current_time() {
    let mut store = TodoStore::default();
    let id = add(&mut store, "now".to_string(), Priority::Medium, tags(&[]));
    assert_eq!(id, 1);
    assert!(store.todos[0].created_at.secs > 1_600_000_000);
    assert_eq!(store.todos[0].completed_at, None);
}

#[test]
fn list_hides_completed_todos_unless_asked() {
    let mut store = sample();
    done_at(&mut store, 2, at(50)).unwrap();
    assert_eq!(ids(&list_todos(&store, false, None, None)), vec![1, 3, 4]);
    assert_eq!(ids(&list_todos(&store, true, None, None)), vec![1, 2, 3, 4]);
}

#[test]
fn list_filters_by_tag_and_priority() {
    let mut store = sample();
    assert_eq!(ids(&list_todos(&store, false, Some("work"), None)), vec![1, 4]);
    assert_eq!(ids(&list_todos(&store, false, Some("doc"), None)), vec![1]);
    assert_eq!(ids(&list_todos(&store, false, Some("Work"), None)), Vec::<u64>::new());
    assert_eq!(ids(&list_todos(&store, false, Some("wor"), None)), Vec::<u64>::new());
    assert_eq!(ids(&list_todos(&store, false, None, Some(Priority::High))), vec![1, 4]);
    assert_eq!(ids(&list_todos(&store, false, None, Some(Priority::Medium))), vec![3]);
    let none = list_todos(&store, false, Some("home"), Some(Priority::High));
    assert!(none.is_empty());
    done_at(&mut store, 1, at(60)).unwrap();
    assert_eq!(ids(&list_todos(&store, false, Some("work"), Some(Priority::High))), vec![4]);
    assert_eq!(ids(&list_todos(&store, true, Some("work"), Some(Priority::High))), vec![1, 4]);
}

#[test]
fn done_marks_the_todo_and_returns_its_text() {
    let mut store = sample();
    assert_eq!(done_at(&mut store, 3, at(77)), Ok("call".to_string()));
    assert!(store.todos[2].done);
    assert_eq!(store.todos[2].completed_at, Some(at(77)));
    assert_eq!(store.todos[2].created_at, at(3));
    assert!(!store.todos[0].done && !store.todos[1].done && !store.todos[3].done);
    assert_eq!(store.next_id, 5);
}

#[test]
fn done_twice_is_already_done() {
    let mut store = sample();
    done_at(&mut store, 3, at(77)).unwrap();
    assert_eq!(done_at(&mut store, 3, at(88)), Err(AppError::AlreadyDone(3)));
    assert_eq!(store.todos[2].completed_at, Some(at(77)));
    assert_eq!(AppError::AlreadyDone(3).to_string(), "Todo #3 is already done");
}

#[test]
fn done_of_a_missing_todo_is_not_found() {
    let mut store = sample();
    assert_eq!(done_at(&mut store, 9, at(77)), Err(AppError::NotFound(9)));
    assert_eq!(done(&mut store, 0), Err(AppError::NotFound(0)));
    assert!(store.todos.iter().all(|t| !t.done));
    assert_eq!(AppError::NotFound(9).to_string(), "Todo #9 not found");
}

#[test]
fn done_with_the_clock_stamps_the_current_time() {
    let mut store = sample();
    assert_eq!(done(&mut store, 1), Ok("write".to_string()));
    let completed = store.todos[0].completed_at.unwrap();
    assert!(completed.secs > 1_600_000_000);
}

#[test]
fn remove_drops_the_todo_and_keeps_the_order() {
    let mut store = sample();
    assert_eq!(remove(&mut store, 2), Ok(()));
    assert_eq!(store.todos.iter().map(|t| t.id).collect::<Vec<u64>>(), vec![1, 3, 4]);
    assert_eq!(store.todos[1].text, "call");
    assert_eq!(store.next_id, 5);
    assert_eq!(remove(&mut store, 2), Err(AppError::NotFound(2)));
    assert_eq!(store.todos.len(), 3);
    assert_eq!(remove(&mut store, 1), Ok(()));
    assert_eq!(remove(&mut store, 4), Ok(()));
    assert_eq!(remove(&mut store, 3), Ok(()));
    assert!(store.todos.is_empty());
    assert_eq!(remove(&mut store, 3), Err(AppError::NotFound(3)));
    assert_eq!(add_at(&mut store, "x".to_string(), Priority::Low, tags(&[]), at(5)), 5);
}

#[test]
fn remove_drops_every_todo_with_the_id() {
    let mut store = sample();
    store.todos[3].id = 1;
    store.todos[2].id = 1;
    assert_eq!(remove(&mut store, 1), Ok(()));
    assert_eq!(store.todos.len(), 1);
    assert_eq!(store.todos[0].text, "shop");
}

#[test]
fn edit_replaces_only_the_fields_that_are_present() {
    let mut store = sample();
    assert_eq!(edit(&mut store, 1, Some("rewrite".to_string()), None, None), Ok(()));
    assert_eq!(store.todos[0].text, "rewrite");
    assert_eq!(store.todos[0].priority, Priority::High);
    assert_eq!(store.todos[0].tags, tags(&["work", "doc"]));
    assert_eq!(edit(&mut store, 1, None, Some(Priority::Low), Some(tags(&["x"]))), Ok(()));
    assert_eq!(store.todos[0].text, "rewrite");
    assert_eq!(store.todos[0].priority, Priority::Low);
    assert_eq!(store.todos[0].tags, tags(&["x"]));
    assert_eq!(edit(&mut store, 1, None, None, None), Ok(()));
    assert_eq!(store.todos[0].text, "rewrite");
    assert_eq!(store.todos[0].created_at, at(1));
    assert_eq!(store.todos[1].text, "shop");
    assert_eq!(edit(&mut store, 8, Some("x".to_string()), None, None), Err(AppError::NotFound(8)));
}

#[test]
fn edit_and_done_act_on_the_first_todo_with_the_id() {
    let mut store = sample();
    store.todos[2].id = 2;
    assert_eq!(edit(&mut store, 2, Some("first".to_string()), None, None), Ok(()));
    assert_eq!(store.todos[1].text, "first");
    assert_eq!(store.todos[2].text, "call");
    assert_eq!(done_at(&mut store, 2, at(9)), Ok("first".to_string()));
    assert!(store.todos[1].done);
    assert!(!store.todos[2].done);
    assert_eq!(done_at(&mut store, 2, at(9)), Err(AppError::AlreadyDone(2)));
}

#[test]
fn stats_count_open_todos_by_priority() {
    let mut store = sample();
    let s = stats(&store);
    assert_eq!((s.total, s.pending, s.completed), (4, 4, 0));
    assert_eq!(
        s.by_priority,
        vec![(Priority::Low, 1), (Priority::Medium, 1), (Priority::High, 2)]
    );
    done_at(&mut store, 2, at(5)).unwrap();
    done_at(&mut store, 1, at(6)).unwrap();
    let s = stats(&store);
    assert_eq!((s.total, s.pending, s.completed), (4, 2, 2));
    assert_eq!(s.by_priority, vec![(Priority::Medium, 1), (Priority::High, 1)]);
    let s = stats(&TodoStore::default());
    assert_eq!((s.total, s.pending, s.completed), (0, 0, 0));
    assert!(s.by_priority.is_empty());
}

#[test]
fn priorities_are_read_ignoring_case() {
    assert_eq!(Priority::from_str("low"), Ok(Priority::Low));
    assert_eq!(Priority::from_str("MEDIUM"), Ok(Priority::Medium));
    assert_eq!(Priority::from_str("High"), Ok(Priority::High));
    assert_eq!(Priority::from_str("urgent"), Err("invalid priority: urgent".to_string()));
    assert_eq!(Priority::from_str(""), Err("invalid priority: ".to_string()));
    assert_eq!(Priority::from_str(" low"), Err("invalid priority:  low".to_string()));
    assert_eq!("hIgH".parse::<Priority>(), Ok(Priority::High));
    assert_eq!("x".parse::<Priority>(), Err("invalid priority: x".to_string()));
}

#[test]
fn priorities_are_written_in_lowercase_and_ordered() {
    assert_eq!(Priority::Low.to_string(), "low");
    assert_eq!(Priority::Medium.to_string(), "medium");
    assert_eq!(Priority::High.to_string(), "high");
    assert!(Priority::Low < Priority::Medium && Priority::Medium < Priority::High);
}
