use vstd::prelude::*;

use crate::store::{lists, toggle_table};
use crate::task::{Task, TaskRow};

verus! {

/// A task just added is listed: if the table came from inserting a fresh task
/// `t` under an id it did not hold, then any listing of that table carries a
/// task with `t`'s id, `t`'s fields, and the completion flag still false.
pub proof fn lemma_added_task_is_listed(before: Map<int, TaskRow>, t: Task, tasks: Seq<Task>)
    requires
        !before.dom().contains(t.id as int),
        t.completed == false,
        lists(before.insert(t.id as int, t.row()), tasks),
    ensures
        exists|i: int|
            0 <= i < tasks.len() && (#[trigger] tasks[i]).id == t.id && tasks[i].title@ == t.title@
                && tasks[i].category@ == t.category@ && tasks[i].priority == t.priority
                && tasks[i].completed == false,
{
    let after = before.insert(t.id as int, t.row());
    assert(after.dom().contains(t.id as int));
    let i = choose|i: int| 0 <= i < tasks.len() && (#[trigger] tasks[i]).id as int == t.id as int;
    assert(after[tasks[i].id as int] == tasks[i].row());
    assert(tasks[i].row() == t.row());
}

/// Ids assigned by successive insertions are distinct: the second insertion
/// picks an id absent from a table that already holds the first.
pub proof fn lemma_successive_ids_distinct(
    before: Map<int, TaskRow>,
    first_id: int,
    first_row: TaskRow,
    second_id: int,
)
    requires
        !before.insert(first_id, first_row).dom().contains(second_id),
    ensures
        first_id != second_id,
{
}

/// Toggling the same id twice restores the table, whether or not a row with
/// that id exists.
pub proof fn lemma_double_toggle_restores(table: Map<int, TaskRow>, id: int)
    ensures
        toggle_table(toggle_table(table, id), id) == table,
{
    if table.dom().contains(id) {
        assert(toggle_table(toggle_table(table, id), id) =~= table);
    }
}

/// A listing of the empty table holds no tasks.
pub proof fn lemma_empty_table_lists_nothing(tasks: Seq<Task>)
    requires
        lists(Map::empty(), tasks),
    ensures
        tasks.len() == 0,
{
    if tasks.len() > 0 {
        assert(Map::<int, TaskRow>::empty().dom().contains(tasks[0].id as int));
    }
}

} // verus!
