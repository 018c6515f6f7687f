use taskstore::commands::{add_task, get_tasks, toggle_task};
use taskstore::store::TaskStore;
use taskstore::task::TaskRequest;

fn request(title: &str, category: &str, priority: i64) -> TaskRequest {
    TaskRequest { title: String::from(title), category: String::from(category), priority }
}

#[test]
fn empty_store_lists_nothing() {
    let store = TaskStore::open_in_memory().unwrap();
    let tasks = get_tasks(&store).unwrap();
    assert_eq!(tasks.len(), 0);
}

#[test]
fn add_then_list_shows_task() {
    let mut store = TaskStore::open_in_memory().unwrap();
    let t = add_task(&mut store, request("Buy milk", "errands", 2)).unwrap();
    assert_eq!(t.id, 1);
    assert_eq!(t.title, "Buy milk");
    assert_eq!(t.category, "errands");
    assert_eq!(t.priority, 2);
    assert!(!t.completed);

    let tasks = get_tasks(&store).unwrap();
    assert_eq!(tasks.len(), 1);
    assert_eq!(tasks[0].id, 1);
    assert_eq!(tasks[0].title, "Buy milk");
    assert_eq!(tasks[0].category, "errands");
    assert_eq!(tasks[0].priority, 2);
    assert!(!tasks[0].completed);
}

#[test]
fn full_scenario_toggle_twice() {
    let mut store = TaskStore::open_in_memory().unwrap();
    let t = add_task(&mut store, request("Buy milk", "errands", 2)).unwrap();
    assert_eq!(t.id, 1);
    assert!(!t.completed);

    toggle_task(&mut store, 1).unwrap();
    let tasks = get_tasks(&store).unwrap();
    assert_eq!(tasks.len(), 1);
    assert!(tasks[0].completed);

    toggle_task(&mut store, 1).unwrap();
    let tasks = get_tasks(&store).unwrap();
    assert_eq!(tasks.len(), 1);
    assert!(!tasks[0].completed);
}

#[test]
fn toggle_missing_id_is_silent_noop() {
    let mut store = TaskStore::open_in_memory().unwrap();
    let r = toggle_task(&mut store, 999);
    assert!(r.is_ok());
    let tasks = get_tasks(&store).unwrap();
    assert_eq!(tasks.len(), 0);
}

#[test]
fn toggle_missing_id_leaves_other_rows_unchanged() {
    let mut store = TaskStore::open_in_memory().unwrap();
    add_task(&mut store, request("Water plants", "home", 1)).unwrap();
    toggle_task(&mut store, 999).unwrap();
    let tasks = get_tasks(&store).unwrap();
    assert_eq!(tasks.len(), 1);
    assert_eq!(tasks[0].title, "Water plants");
    assert!(!tasks[0].completed);
}

#[test]
fn successive_ids_are_pairwise_distinct() {
    let mut store = TaskStore::open_in_memory().unwrap();
    let a = add_task(&mut store, request("one", "a", 1)).unwrap();
    let b = add_task(&mut store, request("two", "b", 2)).unwrap();
    let c = add_task(&mut store, request("three", "c", 3)).unwrap();
    assert_ne!(a.id, b.id);
    assert_ne!(a.id, c.id);
    assert_ne!(b.id, c.id);
}

#[test]
fn fields_kept_exactly_even_when_empty_or_extreme() {
    let mut store = TaskStore::open_in_memory().unwrap();
    let t = add_task(&mut store, request("", "", i64::MIN)).unwrap();
    let tasks = get_tasks(&store).unwrap();
    assert_eq!(tasks.len(), 1);
    assert_eq!(tasks[0].id, t.id);
    assert_eq!(tasks[0].title, "");
    assert_eq!(tasks[0].category, "");
    assert_eq!(tasks[0].priority, i64::MIN);
}

#[test]
fn rows_survive_a_second_connection() {
    // A shared-cache in-memory database plays the part of the database file:
    // a second connection to the same name sees the rows the first wrote.
    // Deliberately outside the contracts' single-client reading: durability
    // across connections is checkable only from here.
    let name = "file:reopen_test?mode=memory&cache=shared";
    let mut first = TaskStore::open(name).unwrap();
    add_task(&mut first, request("Persist me", "durability", 7)).unwrap();

    let second = TaskStore::open(name).unwrap();
    let tasks = get_tasks(&second).unwrap();
    assert_eq!(tasks.len(), 1);
    assert_eq!(tasks[0].title, "Persist me");
    assert_eq!(tasks[0].category, "durability");
    assert_eq!(tasks[0].priority, 7);
    assert!(!tasks[0].completed);
}

#[test]
fn open_on_a_directory_fails_with_message() {
    let r = TaskStore::open(".");
    match r {
        Ok(_) => panic!("opening a directory as a database must fail"),
        Err(e) => assert!(!e.message.is_empty()),
    }
}

#[test]
fn open_refuses_a_noncanonical_tasks_table() {
    // A preexisting tasks table in which id is an ordinary column, not the
    // rowid alias, can hold duplicate ids; the store must refuse it at
    // opening rather than operate on it.
    let name = "file:noncanonical_test?mode=memory&cache=shared";
    let raw = rusqlite::Connection::open(name).unwrap();
    raw.execute(
        "CREATE TABLE tasks (id INTEGER, title TEXT, category TEXT, priority INTEGER, completed BOOLEAN)",
        (),
    )
    .unwrap();
    raw.execute(
        "INSERT INTO tasks (id, title, category, priority, completed) VALUES (1, 'a', 'x', 0, 0), (1, 'b', 'y', 0, 0)",
        (),
    )
    .unwrap();

    let r = TaskStore::open(name);
    match r {
        Ok(_) => panic!("a non-canonical tasks table must be refused at opening"),
        Err(e) => assert!(!e.message.is_empty()),
    }
}

#[test]
fn open_refuses_a_tasks_table_with_a_trigger() {
    // A canonical table with a trigger attached would do more than each
    // statement's own work; the store must refuse it at opening.
    let name = "file:trigger_test?mode=memory&cache=shared";
    let anchor = rusqlite::Connection::open(name).unwrap();
    let first = TaskStore::open(name).unwrap();
    drop(first);
    anchor
        .execute(
            "CREATE TRIGGER tasks_autocomplete AFTER INSERT ON tasks BEGIN UPDATE tasks SET completed = 1 WHERE id = NEW.id; END",
            (),
        )
        .unwrap();

    let r = TaskStore::open(name);
    match r {
        Ok(_) => panic!("a tasks table with a trigger must be refused at opening"),
        Err(e) => assert!(!e.message.is_empty()),
    }
}

#[test]
fn open_accepts_a_database_this_library_made() {
    // Reopening a database whose table this library created must succeed:
    // the schema check recognises its own table.
    let name = "file:recognise_own_schema_test?mode=memory&cache=shared";
    let first = TaskStore::open(name).unwrap();
    let second = TaskStore::open(name);
    assert!(second.is_ok());
    drop(first);
}

#[test]
fn failed_statement_returns_error_string() {
    // Drop the table behind the store's back through a second connection to
    // the same shared-cache database; the next listing must fail cleanly.
    // Deliberately outside the contracts' single-client reading: this is how
    // a statement failure can be provoked at all.
    let name = "file:vanishing_table_test?mode=memory&cache=shared";
    let mut store = TaskStore::open(name).unwrap();
    add_task(&mut store, request("doomed", "x", 0)).unwrap();

    let saboteur = rusqlite::Connection::open(name).unwrap();
    saboteur.execute("DROP TABLE tasks", ()).unwrap();

    let r = get_tasks(&store);
    match r {
        Ok(_) => panic!("listing a dropped table must fail"),
        Err(message) => assert!(!message.is_empty()),
    }
}
