//! The todo-list tool's core: applying an action to the list of items.
//!
//! Loading the list from disk, persisting it, and streaming progress back to
//! the caller are the host's business; this module decides, for a given list
//! and request, what the new list is, whether it must be saved, and which
//! error to report, and renders the list for display.

use vstd::prelude::*;
use vstd::string::{StrSliceExecFns, StringExecFns};
use crate::text::{spec_decimal, u64_to_string};

verus! {

/// The completion state of one todo item.
#[derive(Clone, Copy, Debug, PartialEq, Eq, Structural)]
pub enum TodoStatus {
    Pending,
    InProgress,
    Completed,
}

/// The operation to perform on the todo list.
#[derive(Clone, Copy, Debug, PartialEq, Eq, Structural)]
pub enum TodoAction {
    Create,
    Update,
    List,
    Clear,
}

/// One todo item: a stable identifier, a description, and its state.
#[derive(Debug)]
pub struct TodoItem {
    pub id: u64,
    pub content: String,
    pub status: TodoStatus,
}

impl Clone for TodoItem {
    fn clone(&self) -> (res: Self)
        ensures
            res == *self,
    {
        TodoItem { id: self.id, content: self.content.clone(), status: self.status }
    }
}

/// A request against the todo list: the action plus the fields it may need.
pub struct TodoListToolInput {
    pub action: TodoAction,
    /// The item text, used when creating or updating.
    pub content: Option<String>,
    /// The target item, used when updating.
    pub todo_id: Option<u64>,
    /// The new state, used when updating.
    pub status: Option<TodoStatus>,
}

/// The list as an action leaves it.
pub struct TodoListToolOutput {
    pub todos: Vec<TodoItem>,
}

/// Why a request was rejected.
#[derive(Clone, Copy, Debug, PartialEq, Eq, Structural)]
pub enum TodoError {
    /// Create was asked for without content.
    ContentRequired,
    /// Update was asked for without a target identifier.
    IdRequired,
    /// Update named an identifier that no item carries.
    NotFound(u64),
}

impl TodoError {
    /// The error message shown to the caller; a missing item is reported
    /// with the identifier that was asked for.
    pub fn message(&self) -> (r: String)
        ensures
            match self {
                TodoError::ContentRequired => r@ == "Content is required when creating a todo"@,
                TodoError::IdRequired => r@ == "Todo ID is required for update action"@,
                TodoError::NotFound(id) => r@ == "Todo with ID "@ + spec_decimal(*id as nat)
                    + " not found"@,
            },
    {
        match self {
            TodoError::ContentRequired => "Content is required when creating a todo".to_owned(),
            TodoError::IdRequired => "Todo ID is required for update action".to_owned(),
            TodoError::NotFound(id) => {
                let mut r = "Todo with ID ".to_owned();
                let digits = u64_to_string(*id);
                r.append(digits.as_str());
                r.append(" not found");
                r
            },
        }
    }
}

/// What applying an action yields: the new list and whether it differs from
/// what is on disk.
#[derive(Debug)]
pub struct TodoRunOutcome {
    pub todos: Vec<TodoItem>,
    pub save_needed: bool,
}

/// The index of the first item at or after `from` whose identifier is `id`.
pub open spec fn spec_find_from(todos: Seq<TodoItem>, id: u64, from: int) -> Option<int>
    decreases todos.len() - from,
    when 0 <= from <= todos.len()
{
    if from >= todos.len() {
        None
    } else if todos[from].id == id {
        Some(from)
    } else {
        spec_find_from(todos, id, from + 1)
    }
}

/// The index of the first item whose identifier is `id`.
pub open spec fn spec_find_todo(todos: Seq<TodoItem>, id: u64) -> Option<int> {
    spec_find_from(todos, id, 0)
}

/// An item with its content and status replaced where the request supplies
/// new values.
pub open spec fn spec_updated_item(
    item: TodoItem,
    content: Option<String>,
    status: Option<TodoStatus>,
) -> TodoItem {
    TodoItem {
        id: item.id,
        content: match content {
            Some(c) => c,
            None => item.content,
        },
        status: match status {
            Some(s) => s,
            None => item.status,
        },
    }
}

/// Finds the first item whose identifier is `id`.
pub fn find_todo(todos: &Vec<TodoItem>, id: u64) -> (r: Option<usize>)
    ensures
        match r {
            Some(i) => i < todos@.len() && todos@[i as int].id == id && spec_find_todo(todos@, id)
                == Some(i as int),
            None => spec_find_todo(todos@, id) is None,
        },
{
    let n = todos.len();
    let mut i: usize = 0;
    while i < n
        invariant
            i <= n,
            n == todos@.len(),
            spec_find_todo(todos@, id) == spec_find_from(todos@, id, i as int),
        decreases n - i,
    {
        if todos[i].id == id {
            return Some(i);
        }
        i = i + 1;
    }
    None
}

/// Applies `input` to `todos`. Creating appends a pending item under
/// `new_id`; updating rewrites the first item carrying the requested
/// identifier; listing changes nothing; clearing empties the list. The
/// outcome says whether the list must be persisted, and each rejected
/// request reports which requirement it missed.
pub fn run(todos: Vec<TodoItem>, input: TodoListToolInput, new_id: u64) -> (r: Result<
    TodoRunOutcome,
    TodoError,
>)
    ensures
        match input.action {
            TodoAction::Create => match input.content {
                Some(content) => match r {
                    Ok(o) => o.todos@ == todos@.push(
                        TodoItem { id: new_id, content, status: TodoStatus::Pending },
                    ) && o.save_needed,
                    Err(_) => false,
                },
                None => r == Err::<TodoRunOutcome, TodoError>(TodoError::ContentRequired),
            },
            TodoAction::Update => match input.todo_id {
                Some(tid) => match spec_find_todo(todos@, tid) {
                    Some(i) => match r {
                        Ok(o) => o.todos@ == todos@.update(
                            i,
                            spec_updated_item(todos@[i], input.content, input.status),
                        ) && o.save_needed,
                        Err(_) => false,
                    },
                    None => r == Err::<TodoRunOutcome, TodoError>(TodoError::NotFound(tid)),
                },
                None => r == Err::<TodoRunOutcome, TodoError>(TodoError::IdRequired),
            },
            TodoAction::List => match r {
                Ok(o) => o.todos@ == todos@ && !o.save_needed,
                Err(_) => false,
            },
            TodoAction::Clear => match r {
                Ok(o) => o.todos@ == Seq::<TodoItem>::empty() && o.save_needed,
                Err(_) => false,
            },
        },
{
    let TodoListToolInput { action, content, todo_id, status } = input;
    match action {
        TodoAction::Create => match content {
            Some(c) => {
                let mut todos = todos;
                todos.push(TodoItem { id: new_id, content: c, status: TodoStatus::Pending });
                Ok(TodoRunOutcome { todos, save_needed: true })
            },
            None => Err(TodoError::ContentRequired),
        },
        TodoAction::Update => match todo_id {
            Some(tid) => {
                let mut todos = todos;
                let ghost orig = todos@;
                let ghost requested_content = content;
                let ghost requested_status = status;
                match find_todo(&todos, tid) {
                    Some(i) => {
                        let old_item = todos.remove(i);
                        let updated = TodoItem {
                            id: old_item.id,
                            content: match content {
                                Some(c) => c,
                                None => old_item.content,
                            },
                            status: match status {
                                Some(s) => s,
                                None => old_item.status,
                            },
                        };
                        todos.insert(i, updated);
                        proof {
                            assert(updated == spec_updated_item(
                                orig[i as int],
                                requested_content,
                                requested_status,
                            ));
                            assert(todos@ =~= orig.update(
                                i as int,
                                spec_updated_item(
                                    orig[i as int],
                                    requested_content,
                                    requested_status,
                                ),
                            ));
                        }
                        Ok(TodoRunOutcome { todos, save_needed: true })
                    },
                    None => Err(TodoError::NotFound(tid)),
                }
            },
            None => Err(TodoError::IdRequired),
        },
        TodoAction::List => Ok(TodoRunOutcome { todos, save_needed: false }),
        TodoAction::Clear => {
            let mut todos = todos;
            todos.clear();
            Ok(TodoRunOutcome { todos, save_needed: true })
        },
    }
}

/// The title shown for a request before it runs; a request that could not
/// be parsed gets the generic title.
pub fn initial_title(input: Option<TodoAction>) -> (r: &'static str)
    ensures
        match input {
            Some(TodoAction::Create) => r@ == "Create todo"@,
            Some(TodoAction::Update) => r@ == "Update todo"@,
            Some(TodoAction::List) => r@ == "List todos"@,
            Some(TodoAction::Clear) => r@ == "Clear todos"@,
            None => r@ == "Todo List"@,
        },
{
    match input {
        Some(TodoAction::Create) => "Create todo",
        Some(TodoAction::Update) => "Update todo",
        Some(TodoAction::List) => "List todos",
        Some(TodoAction::Clear) => "Clear todos",
        None => "Todo List",
    }
}

/// The name a status goes by in progress messages.
pub fn status_label(status: TodoStatus) -> (r: &'static str)
    ensures
        match status {
            TodoStatus::Pending => r@ == "Pending"@,
            TodoStatus::InProgress => r@ == "InProgress"@,
            TodoStatus::Completed => r@ == "Completed"@,
        },
{
    match status {
        TodoStatus::Pending => "Pending",
        TodoStatus::InProgress => "InProgress",
        TodoStatus::Completed => "Completed",
    }
}

/// The icon shown before an item, by status.
pub open spec fn spec_status_icon(status: TodoStatus) -> Seq<char> {
    match status {
        TodoStatus::Pending => "\u{23f3}"@,
        TodoStatus::InProgress => "\u{1f504}"@,
        TodoStatus::Completed => "\u{2705}"@,
    }
}

/// One rendered list entry: icon, content, identifier.
pub open spec fn spec_todo_line(t: TodoItem) -> Seq<char> {
    spec_status_icon(t.status) + " "@ + t.content@ + " (ID: "@ + spec_decimal(t.id as nat)
        + ")\n\n"@
}

/// All entries rendered in order.
pub open spec fn spec_todo_lines(todos: Seq<TodoItem>) -> Seq<char>
    decreases todos.len(),
{
    if todos.len() == 0 {
        Seq::empty()
    } else {
        spec_todo_lines(todos.drop_last()) + spec_todo_line(todos.last())
    }
}

/// Renders the list as markdown: a fixed line for an empty list, otherwise
/// a heading followed by one entry per item.
pub fn render_markdown(todos: &Vec<TodoItem>) -> (r: String)
    ensures
        todos@.len() == 0 ==> r@ == "No todos found."@,
        todos@.len() > 0 ==> r@ == "Current todos:\n\n"@ + spec_todo_lines(todos@),
{
    if todos.len() == 0 {
        return "No todos found.".to_owned();
    }
    let mut r = "Current todos:\n\n".to_owned();
    let n = todos.len();
    let mut i: usize = 0;
    proof {
        assert(todos@.take(0) =~= Seq::<TodoItem>::empty());
        assert(r@ =~= "Current todos:\n\n"@ + spec_todo_lines(todos@.take(0)));
    }
    while i < n
        invariant
            i <= n,
            n == todos@.len(),
            r@ == "Current todos:\n\n"@ + spec_todo_lines(todos@.take(i as int)),
        decreases n - i,
    {
        let icon: &'static str = match todos[i].status {
            TodoStatus::Pending => "\u{23f3}",
            TodoStatus::InProgress => "\u{1f504}",
            TodoStatus::Completed => "\u{2705}",
        };
        r.append(icon);
        r.append(" ");
        r.append(todos[i].content.as_str());
        r.append(" (ID: ");
        let id_str = u64_to_string(todos[i].id);
        r.append(id_str.as_str());
        r.append(")\n\n");
        i = i + 1;
        proof {
            assert(todos@.take(i as int).drop_last() =~= todos@.take(i - 1));
            assert(todos@.take(i as int).last() == todos@[i - 1]);
            assert(r@ =~= "Current todos:\n\n"@ + spec_todo_lines(todos@.take(i as int)));
        }
    }
    proof {
        assert(todos@.take(n as int) =~= todos@);
    }
    r
}

} // verus!
