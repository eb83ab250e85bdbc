use copilot_v2::todo::{
    find_todo, initial_title, render_markdown, run, status_label, TodoAction, TodoError,
    TodoItem, TodoListToolInput, TodoStatus,
};

fn item(id: u64, content: &str, status: TodoStatus) -> TodoItem {
    TodoItem {
        id,
        content: content.to_string(),
        status,
    }
}

fn input(
    action: TodoAction,
    content: Option<&str>,
    todo_id: Option<u64>,
    status: Option<TodoStatus>,
) -> TodoListToolInput {
    TodoListToolInput {
        action,
        content: content.map(|c| c.to_string()),
        todo_id,
        status,
    }
}

#[test]
fn create_appends_pending_item() {
    let todos = vec![item(1, "first", TodoStatus::Completed)];
    let outcome = run(todos, input(TodoAction::Create, Some("second"), None, None), 99)
        .expect("create succeeds");
    assert!(outcome.save_needed);
    assert_eq!(outcome.todos.len(), 2);
    assert_eq!(outcome.todos[1].id, 99);
    assert_eq!(outcome.todos[1].content, "second");
    assert_eq!(outcome.todos[1].status, TodoStatus::Pending);
}

#[test]
fn create_without_content_is_rejected() {
    let r = run(Vec::new(), input(TodoAction::Create, None, None, None), 99);
    assert_eq!(r.unwrap_err(), TodoError::ContentRequired);
}

#[test]
fn update_rewrites_matching_item() {
    let todos = vec![
        item(1, "first", TodoStatus::Pending),
        item(2, "second", TodoStatus::Pending),
    ];
    let outcome = run(
        todos,
        input(
            TodoAction::Update,
            Some("second, revised"),
            Some(2),
            Some(TodoStatus::InProgress),
        ),
        99,
    )
    .expect("update succeeds");
    assert!(outcome.save_needed);
    assert_eq!(outcome.todos.len(), 2);
    assert_eq!(outcome.todos[0].content, "first");
    assert_eq!(outcome.todos[1].content, "second, revised");
    assert_eq!(outcome.todos[1].status, TodoStatus::InProgress);
    assert_eq!(outcome.todos[1].id, 2);
}

#[test]
fn update_keeps_fields_not_supplied() {
    let todos = vec![item(5, "keep me", TodoStatus::InProgress)];
    let outcome = run(
        todos,
        input(TodoAction::Update, None, Some(5), Some(TodoStatus::Completed)),
        99,
    )
    .expect("update succeeds");
    assert_eq!(outcome.todos[0].content, "keep me");
    assert_eq!(outcome.todos[0].status, TodoStatus::Completed);
}

#[test]
fn update_without_id_is_rejected() {
    let todos = vec![item(1, "first", TodoStatus::Pending)];
    let r = run(todos, input(TodoAction::Update, Some("x"), None, None), 99);
    assert_eq!(r.unwrap_err(), TodoError::IdRequired);
}

#[test]
fn update_with_unknown_id_is_rejected() {
    let todos = vec![item(1, "first", TodoStatus::Pending)];
    let r = run(todos, input(TodoAction::Update, Some("x"), Some(42), None), 99);
    assert_eq!(r.unwrap_err(), TodoError::NotFound(42));
}

#[test]
fn update_targets_first_match() {
    let todos = vec![
        item(7, "one", TodoStatus::Pending),
        item(7, "two", TodoStatus::Pending),
    ];
    assert_eq!(find_todo(&todos, 7), Some(0));
    let outcome = run(
        todos,
        input(TodoAction::Update, Some("revised"), Some(7), None),
        99,
    )
    .expect("update succeeds");
    assert_eq!(outcome.todos[0].content, "revised");
    assert_eq!(outcome.todos[1].content, "two");
}

#[test]
fn list_changes_nothing() {
    let todos = vec![item(1, "first", TodoStatus::Pending)];
    let outcome = run(todos, input(TodoAction::List, None, None, None), 99).expect("list succeeds");
    assert!(!outcome.save_needed);
    assert_eq!(outcome.todos.len(), 1);
    assert_eq!(outcome.todos[0].content, "first");
}

#[test]
fn clear_empties_list() {
    let todos = vec![
        item(1, "first", TodoStatus::Pending),
        item(2, "second", TodoStatus::Completed),
    ];
    let outcome = run(todos, input(TodoAction::Clear, None, None, None), 99)
        .expect("clear succeeds");
    assert!(outcome.save_needed);
    assert!(outcome.todos.is_empty());
}

#[test]
fn titles_and_labels() {
    assert_eq!(initial_title(Some(TodoAction::Create)), "Create todo");
    assert_eq!(initial_title(Some(TodoAction::Update)), "Update todo");
    assert_eq!(initial_title(Some(TodoAction::List)), "List todos");
    assert_eq!(initial_title(Some(TodoAction::Clear)), "Clear todos");
    assert_eq!(initial_title(None), "Todo List");
    assert_eq!(status_label(TodoStatus::Pending), "Pending");
    assert_eq!(status_label(TodoStatus::InProgress), "InProgress");
    assert_eq!(status_label(TodoStatus::Completed), "Completed");
}

#[test]
fn error_messages() {
    assert_eq!(
        TodoError::ContentRequired.message(),
        "Content is required when creating a todo"
    );
    assert_eq!(
        TodoError::IdRequired.message(),
        "Todo ID is required for update action"
    );
    assert_eq!(TodoError::NotFound(42).message(), "Todo with ID 42 not found");
    assert_eq!(TodoError::NotFound(0).message(), "Todo with ID 0 not found");
}

#[test]
fn markdown_of_empty_list() {
    assert_eq!(render_markdown(&Vec::new()), "No todos found.");
}

#[test]
fn markdown_lists_each_item() {
    let todos = vec![
        item(3, "write tests", TodoStatus::Pending),
        item(12, "ship it", TodoStatus::Completed),
    ];
    assert_eq!(
        render_markdown(&todos),
        "Current todos:\n\n\u{23f3} write tests (ID: 3)\n\n\u{2705} ship it (ID: 12)\n\n"
    );
}

#[test]
fn markdown_in_progress_icon() {
    let todos = vec![item(1, "doing", TodoStatus::InProgress)];
    assert_eq!(
        render_markdown(&todos),
        "Current todos:\n\n\u{1f504} doing (ID: 1)\n\n"
    );
}
