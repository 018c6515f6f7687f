use vstd::prelude::*;

use crate::store::{lists, toggle_table, TaskStore};
use crate::task::{Task, TaskRequest};

verus! {

/// Creates a task from the request and returns it with the id the store
/// assigned — an id no row of the table had before — or the storage error
/// rendered as a string.
pub fn add_task(store: &mut TaskStore, request: TaskRequest) -> (r: Result<Task, String>)
    requires
        old(store).wf(),
    ensures
        final(store).wf(),
        r matches Ok(t) ==> t.title == request.title && t.category == request.category
            && t.priority == request.priority && t.completed == false,
        r matches Ok(t) ==> !old(store)@.dom().contains(t.id as int) && final(store)@ == old(
            store,
        )@.insert(t.id as int, t.row()),
        r is Err ==> final(store)@ == old(store)@,
{
    match store.insert(request.title, request.category, request.priority) {
        Ok(t) => Ok(t),
        Err(e) => Err(e.text()),
    }
}

/// Returns every stored task, in no promised order, or the storage error
/// rendered as a string.
pub fn get_tasks(store: &TaskStore) -> (r: Result<Vec<Task>, String>)
    requires
        store.wf(),
    ensures
        r matches Ok(tasks) ==> lists(store@, tasks@),
{
    match store.list_all() {
        Ok(tasks) => Ok(tasks),
        Err(e) => Err(e.text()),
    }
}

/// Flips the completion flag of the task with the given id; an id with no
/// matching row succeeds and changes nothing. A storage error is rendered as
/// a string.
pub fn toggle_task(store: &mut TaskStore, id: i64) -> (r: Result<(), String>)
    requires
        old(store).wf(),
    ensures
        final(store).wf(),
        r is Ok ==> final(store)@ == toggle_table(old(store)@, id as int),
        r is Err ==> final(store)@ == old(store)@,
{
    match store.toggle(id) {
        Ok(()) => Ok(()),
        Err(e) => Err(e.text()),
    }
}

} // verus!
