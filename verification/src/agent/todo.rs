use vstd::prelude::*;
use crate::agent::tool_trait::{ToolImportance, ToolOutput, ToolValue};
use crate::text::{decimal, joined, push_decimal, push_str, to_string};

verus! {

/// A task of an agent's plan.
#[derive(Debug, Clone)]
pub struct TodoItem {
    pub id: i64,
    pub run_id: i64,
    pub task_id: String,
    pub title: String,
    pub description: String,
    pub status: String,
    pub created_at: String,
    pub updated_at: String,
}

/// A task to add to an agent's plan.
#[derive(Debug, Clone)]
pub struct NewTodo {
    pub task_id: String,
    pub title: String,
    pub description: String,
}

/// The task identifiers of items, in order.
pub open spec fn task_ids(items: Seq<TodoItem>) -> Seq<Seq<char>> {
    items.map_values(|i: TodoItem| i.task_id@)
}

/// The line of a task in a plan listing.
pub open spec fn todo_line(i: TodoItem) -> Seq<char> {
    "["@ + i.status@ + "] "@ + i.task_id@ + ": "@ + i.title@
}

/// What the agent is told when tasks were created: how many and their ids.
pub fn todo_created_output(items: &Vec<TodoItem>) -> (r: ToolOutput)
    ensures
        r.result matches ToolValue::Text(t) && t@ == "created "@ + decimal(items@.len() as nat)
            + ": "@ + joined(task_ids(items@), ", "@),
        r.importance == ToolImportance::High,
{
    let mut t = to_string("created ");
    push_decimal(&mut t, items.len() as u64);
    push_str(&mut t, ": ");
    let ghost head = t@;
    let mut i: usize = 0;
    while i < items.len()
        invariant
            i <= items@.len(),
            t@ == head + joined(task_ids(items@.take(i as int)), ", "@),
        decreases items@.len() - i,
    {
        let ghost prev = task_ids(items@.take(i as int));
        assert(task_ids(items@.take(i + 1)) =~= prev.push(items@[i as int].task_id@));
        assert(prev.push(items@[i as int].task_id@).drop_last() =~= prev);
        if i > 0 {
            push_str(&mut t, ", ");
        } else {
            assert(prev =~= Seq::<Seq<char>>::empty());
        }
        push_str(&mut t, items[i].task_id.as_str());
        i += 1;
    }
    assert(items@.take(items@.len() as int) =~= items@);
    ToolOutput::text(t.as_str(), ToolImportance::High)
}

/// What the agent is told when a task changed status.
pub fn todo_updated_output(item: &TodoItem) -> (r: ToolOutput)
    ensures
        r.result matches ToolValue::Text(t) && t@ == item.task_id@ + " → "@ + item.status@,
        r.importance == ToolImportance::High,
{
    let mut t = to_string(item.task_id.as_str());
    push_str(&mut t, " → ");
    push_str(&mut t, item.status.as_str());
    ToolOutput::text(t.as_str(), ToolImportance::High)
}

/// The error when a task to update does not exist.
pub fn todo_missing_error(task_id: &str) -> (r: String)
    ensures
        r@ == "task '"@ + task_id@ + "' not found"@,
{
    let mut t = to_string("task '");
    push_str(&mut t, task_id);
    push_str(&mut t, "' not found");
    t
}

/// The plan listing: one line per task, in order.
pub fn todo_list_output(items: &Vec<TodoItem>) -> (r: ToolOutput)
    ensures
        r.result matches ToolValue::Text(t) && t@ == joined(
            items@.map_values(|i: TodoItem| todo_line(i)),
            "\n"@,
        ),
        r.importance == ToolImportance::High,
{
    let mut t = String::new();
    let mut i: usize = 0;
    while i < items.len()
        invariant
            i <= items@.len(),
            t@ == joined(items@.take(i as int).map_values(|i: TodoItem| todo_line(i)), "\n"@),
        decreases items@.len() - i,
    {
        let ghost prev = items@.take(i as int).map_values(|i: TodoItem| todo_line(i));
        assert(items@.take(i + 1).map_values(|i: TodoItem| todo_line(i)) =~= prev.push(
            todo_line(items@[i as int]),
        ));
        assert(prev.push(todo_line(items@[i as int])).drop_last() =~= prev);
        if i > 0 {
            push_str(&mut t, "\n");
        } else {
            assert(t@ =~= Seq::<char>::empty());
        }
        let it = &items[i];
        push_str(&mut t, "[");
        push_str(&mut t, it.status.as_str());
        push_str(&mut t, "] ");
        push_str(&mut t, it.task_id.as_str());
        push_str(&mut t, ": ");
        push_str(&mut t, it.title.as_str());
        i += 1;
    }
    assert(items@.take(items@.len() as int) =~= items@);
    ToolOutput::text(t.as_str(), ToolImportance::High)
}

} // verus!
