use vstd::prelude::*;

use crate::task::{flipped, fresh_row, StorageError, StoreInitError, Task, TaskRow};

verus! {

/// Declares rusqlite's connection handle; a value of it is opaque and stands
/// for the database it reaches.
#[verifier::external_type_specification]
#[verifier::external_body]
pub struct ExConnection(rusqlite::Connection);

/// Declares rusqlite's error type; the wrappers return it and the gateway maps
/// it to this crate's own errors.
#[verifier::external_type_specification]
#[verifier::external_body]
pub struct ExRusqliteError(rusqlite::Error);

/// The tasks table behind a connection, as a map from rowid to row content.
/// A database in which the table does not exist is read as the empty map, and
/// a stored `completed` column is read as its numeric coercion compared
/// against zero — the truth value SQL's NOT negates and the boolean column
/// read accepts.
///
/// The reading makes the database a function of the connection value, which
/// is faithful only while that connection is the database's only client: a
/// second connection to the same database (or another process on the same
/// file) changes the table without the value changing, and steps outside
/// every contract stated over this model.
pub uninterp spec fn table_of(conn: rusqlite::Connection) -> Map<int, TaskRow>;

/// The database behind the connection holds a tasks table of the canonical
/// shape: the one `create_tasks_table` makes, in which `id` is the INTEGER
/// PRIMARY KEY alias of the rowid (so the statements keyed on `id` reach
/// exactly the row the model holds under that key), the remaining columns are
/// title, category, priority and completed, and no trigger is attached to the
/// table (so each data statement does exactly its own work and nothing
/// fires behind it). Only the schema check run at opening establishes it; the
/// data statements never change a schema.
pub uninterp spec fn canonical_schema(conn: rusqlite::Connection) -> bool;

/// The model of a store with no rows.
pub open spec fn empty_table() -> Map<int, TaskRow> {
    Map::empty()
}

/// Relies on rusqlite::Connection::open: opens, or creates empty, the
/// database file at `path`. Nothing is promised of the rows already in the
/// file, beyond the table being finite.
#[verifier::external_body]
fn open_connection(path: &str) -> (r: Result<rusqlite::Connection, rusqlite::Error>)
    ensures
        r is Ok ==> table_of(r->Ok_0).dom().finite(),
{
    rusqlite::Connection::open(path)
}

/// Relies on rusqlite::Connection::open_in_memory: a fresh in-memory database
/// holds no tasks table, so its model is the empty map.
#[verifier::external_body]
fn open_in_memory_connection() -> (r: Result<rusqlite::Connection, rusqlite::Error>)
    ensures
        r is Ok ==> table_of(r->Ok_0) == empty_table(),
{
    rusqlite::Connection::open_in_memory()
}

/// Relies on rusqlite::Connection::execute running CREATE TABLE IF NOT
/// EXISTS: idempotent, and it leaves whatever rows the table already holds
/// unchanged; creating the table afresh gives it no rows.
#[verifier::external_body]
fn create_tasks_table(conn: &mut rusqlite::Connection) -> (r: Result<(), rusqlite::Error>)
    ensures
        table_of(*final(conn)) == table_of(*old(conn)),
{
    conn.execute(
        "CREATE TABLE IF NOT EXISTS tasks (id INTEGER PRIMARY KEY, title TEXT NOT NULL, category TEXT NOT NULL, priority INTEGER NOT NULL, completed BOOLEAN NOT NULL DEFAULT 0)",
        (),
    )?;
    Ok(())
}

/// Relies on rusqlite::Connection::query_row over sqlite_master: the stored
/// CREATE TABLE text of a table is its defining statement (IF NOT EXISTS
/// stripped), so a tasks table stored under exactly the text that
/// `create_tasks_table` issues is the canonical one, with `id` the rowid
/// alias; and a trigger on the table would stand in sqlite_master as a
/// trigger row with tbl_name tasks, so finding none means none is attached.
/// Nothing is promised when the text differs, the table is missing, or a
/// trigger is present.
#[verifier::external_body]
fn tasks_table_is_canonical(conn: &rusqlite::Connection) -> (r: Result<bool, rusqlite::Error>)
    ensures
        r is Ok && r->Ok_0 ==> canonical_schema(*conn),
{
    conn.query_row(
        "SELECT EXISTS(SELECT 1 FROM sqlite_master WHERE type = 'table' AND name = 'tasks' AND sql = 'CREATE TABLE tasks (id INTEGER PRIMARY KEY, title TEXT NOT NULL, category TEXT NOT NULL, priority INTEGER NOT NULL, completed BOOLEAN NOT NULL DEFAULT 0)') AND NOT EXISTS(SELECT 1 FROM sqlite_master WHERE type = 'trigger' AND tbl_name = 'tasks')",
        (),
        |row| row.get(0),
    )
}

/// Relies on rusqlite::Connection::execute running a single INSERT into the
/// canonical tasks table, and on rusqlite::Connection::last_insert_rowid:
/// SQLite assigns the new row a rowid distinct from every rowid in the table,
/// and last_insert_rowid returns it; a failed statement leaves the table
/// unchanged, and a data statement never changes a schema.
#[verifier::external_body]
fn insert_row(
    conn: &mut rusqlite::Connection,
    title: &str,
    category: &str,
    priority: i64,
) -> (r: Result<i64, rusqlite::Error>)
    ensures
        r is Ok && canonical_schema(*old(conn)) ==> !table_of(*old(conn)).dom().contains(
            r->Ok_0 as int,
        ) && table_of(*final(conn)) == table_of(*old(conn)).insert(
            r->Ok_0 as int,
            fresh_row(title@, category@, priority as int),
        ),
        r is Err ==> table_of(*final(conn)) == table_of(*old(conn)),
        canonical_schema(*old(conn)) ==> canonical_schema(*final(conn)),
{
    conn.execute(
        "INSERT INTO tasks (title, category, priority, completed) VALUES (?1, ?2, ?3, 0)",
        (title, category, priority),
    )?;
    Ok(conn.last_insert_rowid())
}

/// How a produced list relates to the model of the table: every listed task
/// is a row of the table under its id, no id is listed twice, and every row
/// of the table is listed. The order of the list is not constrained: the
/// store promises none.
pub open spec fn lists(table: Map<int, TaskRow>, tasks: Seq<Task>) -> bool {
    &&& forall|i: int|
        0 <= i < tasks.len() ==> table.dom().contains((#[trigger] tasks[i]).id as int)
            && table[tasks[i].id as int] == tasks[i].row()
    &&& forall|i: int, j: int|
        0 <= i < tasks.len() && 0 <= j < tasks.len() && i != j
            ==> (#[trigger] tasks[i]).id != (#[trigger] tasks[j]).id
    &&& forall|k: int|
        #[trigger] table.dom().contains(k)
            ==> exists|i: int| 0 <= i < tasks.len() && (#[trigger] tasks[i]).id as int == k
}

/// Relies on rusqlite::Statement::query_map over a SELECT of the whole
/// canonical tasks table: on success the collected rows are exactly the
/// table's rows, one per rowid (whose alias the id column is), in an order
/// SQLite does not promise.
#[verifier::external_body]
fn select_all_rows(conn: &rusqlite::Connection) -> (r: Result<Vec<Task>, rusqlite::Error>)
    ensures
        r is Ok && canonical_schema(*conn) ==> lists(table_of(*conn), (r->Ok_0)@),
{
    let mut stmt = conn.prepare("SELECT id, title, category, priority, completed FROM tasks")?;
    let rows = stmt.query_map((), |row| {
        Ok(Task {
            id: row.get(0)?,
            title: row.get(1)?,
            category: row.get(2)?,
            priority: row.get(3)?,
            completed: row.get(4)?,
        })
    })?;
    rows.collect()
}

/// Relies on rusqlite::Connection::execute running a single UPDATE with a
/// WHERE clause on the id column — in the canonical table, the rowid the
/// model keys by: it negates the completed column of the matching row and
/// touches nothing else; with no matching row it succeeds and changes
/// nothing; a failed statement leaves the table unchanged, and a data
/// statement never changes a schema.
#[verifier::external_body]
fn update_toggle_row(conn: &mut rusqlite::Connection, id: i64) -> (r: Result<
    (),
    rusqlite::Error,
>)
    ensures
        r is Ok && canonical_schema(*old(conn)) && table_of(*old(conn)).dom().contains(id as int)
            ==> table_of(*final(conn)) == table_of(*old(conn)).insert(
            id as int,
            flipped(table_of(*old(conn))[id as int]),
        ),
        r is Ok && canonical_schema(*old(conn)) && !table_of(*old(conn)).dom().contains(id as int)
            ==> table_of(*final(conn)) == table_of(*old(conn)),
        r is Err ==> table_of(*final(conn)) == table_of(*old(conn)),
        canonical_schema(*old(conn)) ==> canonical_schema(*final(conn)),
{
    conn.execute("UPDATE tasks SET completed = NOT completed WHERE id = ?1", (id,))?;
    Ok(())
}

/// Relies on the Display impl of rusqlite::Error for the human-readable
/// message of a failed statement.
#[verifier::external_body]
fn error_text(e: &rusqlite::Error) -> String {
    e.to_string()
}

/// The table after toggling `id`: the matching row's completion flag is
/// negated; a missing id leaves the table as it was.
pub open spec fn toggle_table(table: Map<int, TaskRow>, id: int) -> Map<int, TaskRow> {
    if table.dom().contains(id) {
        table.insert(id, flipped(table[id]))
    } else {
        table
    }
}

/// The storage gateway: owns the one connection to the task database. Its
/// view is the model of the stored tasks table.
pub struct TaskStore {
    conn: rusqlite::Connection,
}

impl View for TaskStore {
    type V = Map<int, TaskRow>;

    closed spec fn view(&self) -> Map<int, TaskRow> {
        table_of(self.conn)
    }
}

impl TaskStore {
    /// Well-formed: the connection reaches a tasks table of the canonical
    /// schema, so the id column the statements key on is the rowid the model
    /// keys by. The two open functions establish it — they fail rather than
    /// adopt a table of another shape — and every operation preserves it.
    pub closed spec fn wf(&self) -> bool {
        canonical_schema(self.conn)
    }

    /// Checks that the tasks table behind `conn` is canonical and wraps the
    /// connection, or reports why not.
    fn adopt(conn: rusqlite::Connection) -> (r: Result<TaskStore, StoreInitError>)
        ensures
            r matches Ok(store) ==> store.wf() && store@ == table_of(conn),
    {
        match tasks_table_is_canonical(&conn) {
            Ok(true) => Ok(TaskStore { conn }),
            Ok(false) => Err(
                StoreInitError {
                    message: String::from_str(
                        "the tasks table in this database does not have the canonical schema",
                    ),
                },
            ),
            Err(e) => Err(StoreInitError { message: error_text(&e) }),
        }
    }

    /// Opens (or creates) the database file at `path`, ensures the tasks
    /// table exists, and refuses a database whose tasks table is not the
    /// canonical one. Rows already in the file are kept: nothing is promised
    /// of the opened store's contents beyond finiteness.
    ///
    /// While the store lives, its connection must be the database's only
    /// client: the contracts read the table as a function of this one
    /// connection, and a second connection (or another process on the same
    /// file) invalidates that reading.
    pub fn open(path: &str) -> (r: Result<TaskStore, StoreInitError>)
        ensures
            r matches Ok(store) ==> store@.dom().finite() && store.wf(),
    {
        let mut conn = match open_connection(path) {
            Ok(conn) => conn,
            Err(e) => {
                return Err(StoreInitError { message: error_text(&e) });
            },
        };
        match create_tasks_table(&mut conn) {
            Ok(()) => TaskStore::adopt(conn),
            Err(e) => Err(StoreInitError { message: error_text(&e) }),
        }
    }

    /// Opens a fresh, empty in-memory store and ensures the tasks table
    /// exists.
    pub fn open_in_memory() -> (r: Result<TaskStore, StoreInitError>)
        ensures
            r matches Ok(store) ==> store@ == empty_table() && store.wf(),
    {
        let mut conn = match open_in_memory_connection() {
            Ok(conn) => conn,
            Err(e) => {
                return Err(StoreInitError { message: error_text(&e) });
            },
        };
        match create_tasks_table(&mut conn) {
            Ok(()) => TaskStore::adopt(conn),
            Err(e) => Err(StoreInitError { message: error_text(&e) }),
        }
    }

    /// Inserts a new, uncompleted task and returns it, carrying the id the
    /// store assigned — an id no row of the table had before.
    pub fn insert(&mut self, title: String, category: String, priority: i64) -> (r: Result<
        Task,
        StorageError,
    >)
        requires
            old(self).wf(),
        ensures
            final(self).wf(),
            r matches Ok(t) ==> t.title == title && t.category == category && t.priority
                == priority && t.completed == false,
            r matches Ok(t) ==> !old(self)@.dom().contains(t.id as int) && final(self)@ == old(
                self,
            )@.insert(t.id as int, t.row()),
            r is Err ==> final(self)@ == old(self)@,
    {
        match insert_row(&mut self.conn, title.as_str(), category.as_str(), priority) {
            Ok(id) => Ok(Task { id, title, category, priority, completed: false }),
            Err(e) => Err(StorageError { message: error_text(&e) }),
        }
    }

    /// Returns every stored task, fully materialized, in no promised order.
    pub fn list_all(&self) -> (r: Result<Vec<Task>, StorageError>)
        requires
            self.wf(),
        ensures
            r matches Ok(tasks) ==> lists(self@, tasks@),
    {
        match select_all_rows(&self.conn) {
            Ok(tasks) => Ok(tasks),
            Err(e) => Err(StorageError { message: error_text(&e) }),
        }
    }

    /// Flips the completion flag of the task with the given id; an id with no
    /// matching row succeeds and changes nothing.
    pub fn toggle(&mut self, id: i64) -> (r: Result<(), StorageError>)
        requires
            old(self).wf(),
        ensures
            final(self).wf(),
            r is Ok ==> final(self)@ == toggle_table(old(self)@, id as int),
            r is Err ==> final(self)@ == old(self)@,
    {
        match update_toggle_row(&mut self.conn, id) {
            Ok(()) => Ok(()),
            Err(e) => Err(StorageError { message: error_text(&e) }),
        }
    }
}

} // verus!
