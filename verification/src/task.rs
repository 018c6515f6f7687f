use vstd::prelude::*;

verus! {

/// A persisted task record. The store assigns `id` when the task is created;
/// `completed` is the only field that changes afterwards.
#[derive(Debug)]
pub struct Task {
    pub id: i64,
    pub title: String,
    pub category: String,
    pub priority: i64,
    pub completed: bool,
}

/// The fields a caller supplies to create a task; the store picks the id and
/// starts the task uncompleted.
#[derive(Debug)]
pub struct TaskRequest {
    pub title: String,
    pub category: String,
    pub priority: i64,
}

/// The mathematical content of one stored row, apart from its id.
pub ghost struct TaskRow {
    pub title: Seq<char>,
    pub category: Seq<char>,
    pub priority: int,
    pub completed: bool,
}

impl Task {
    /// The table row, in the model, that carries these fields.
    pub open spec fn row(self) -> TaskRow {
        TaskRow {
            title: self.title@,
            category: self.category@,
            priority: self.priority as int,
            completed: self.completed,
        }
    }
}

/// The row a freshly created task carries: the given fields, not yet completed.
pub open spec fn fresh_row(title: Seq<char>, category: Seq<char>, priority: int) -> TaskRow {
    TaskRow { title, category, priority, completed: false }
}

/// `row` with its completion flag negated.
pub open spec fn flipped(row: TaskRow) -> TaskRow {
    TaskRow { completed: !row.completed, ..row }
}

/// One statement of the store failed; `message` says why.
#[derive(Debug)]
pub struct StorageError {
    pub message: String,
}

impl StorageError {
    /// The error rendered for the caller, as the command surface hands it out.
    pub fn text(self) -> (r: String)
        ensures
            r == self.message,
    {
        self.message
    }
}

/// The store could not be opened or its table could not be ensured; fatal at
/// startup.
#[derive(Debug)]
pub struct StoreInitError {
    pub message: String,
}

} // verus!
