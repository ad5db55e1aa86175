use rook::ipc::handlers::chat::session::{
    clear_conversation_state, format_todos_for_prompt, get_session_cwd, get_session_todos_json,
    get_snapshot, mark_of, pop_snapshot, resolve_conv_path, session_todos, set_session_cwd,
    snapshot_file, undo_depth, write_list, write_todos, Sessions, TodoItem, MAX_SNAPSHOTS,
};
use rook::ipc::protocol::IPCResponse;

fn todo(content: &str, status: &str) -> TodoItem {
    TodoItem {
        content: content.to_string(),
        active_form: format!("doing {}", content),
        status: status.to_string(),
    }
}

#[test]
fn a_conversation_has_a_directory_of_its_own() {
    let mut s = Sessions::new();
    assert_eq!(get_session_cwd(&s, "c", "/start"), "/start");
    set_session_cwd(&mut s, "c", "/work".to_string());
    assert_eq!(get_session_cwd(&s, "c", "/start"), "/work");
    assert_eq!(get_session_cwd(&s, "d", "/start"), "/start");
    let r = resolve_conv_path(&s, "c", "a.txt", false, "/start");
    assert_eq!((r.base.as_deref(), r.path.as_str()), (Some("/work"), "a.txt"));
    let r = resolve_conv_path(&s, "c", "/etc/x", true, "/start");
    assert_eq!((r.base.as_deref(), r.path.as_str()), (None, "/etc/x"));
}

#[test]
fn undo_goes_back_one_edit_at_a_time() {
    let mut s = Sessions::new();
    for v in ["one", "two", "two", "three"] {
        snapshot_file(&mut s, "c", "f", v.to_string());
    }
    assert_eq!(undo_depth(&s, "c", "f"), 3);
    assert_eq!(get_snapshot(&s, "c", "f").as_deref(), Some("one"));
    assert_eq!(pop_snapshot(&mut s, "c", "f").as_deref(), Some("three"));
    assert_eq!(pop_snapshot(&mut s, "c", "f").as_deref(), Some("two"));
    assert_eq!(undo_depth(&s, "c", "f"), 1);
    assert_eq!(pop_snapshot(&mut s, "c", "f").as_deref(), Some("one"));
    assert_eq!(pop_snapshot(&mut s, "c", "f"), None);
    assert_eq!(get_snapshot(&s, "c", "f"), None);
}

#[test]
fn a_history_is_bounded() {
    let mut s = Sessions::new();
    for i in 0..30 {
        snapshot_file(&mut s, "c", "f", i.to_string());
    }
    assert_eq!(undo_depth(&s, "c", "f"), MAX_SNAPSHOTS);
    assert_eq!(get_snapshot(&s, "c", "f").as_deref(), Some("10"));
    assert_eq!(undo_depth(&s, "c", "g"), 0);
    assert_eq!(undo_depth(&s, "d", "f"), 0);
}

#[test]
fn a_cleared_conversation_is_forgotten() {
    let mut s = Sessions::new();
    set_session_cwd(&mut s, "c", "/work".to_string());
    snapshot_file(&mut s, "c", "f", "x".to_string());
    snapshot_file(&mut s, "d", "f", "y".to_string());
    let _ = write_todos(&mut s, "c", vec![todo("a", "pending")]);
    clear_conversation_state(&mut s, "c");
    assert_eq!(get_session_cwd(&s, "c", "/"), "/");
    assert_eq!(undo_depth(&s, "c", "f"), 0);
    assert!(session_todos(&s, "c").is_empty());
    assert_eq!(undo_depth(&s, "d", "f"), 1);
}

#[test]
fn a_list_that_cannot_be_read_changes_nothing() {
    let mut s = Sessions::new();
    let (said, told) = write_list(&mut s, "1", "c", Ok(vec![todo("a", "pending")]));
    assert!(said.starts_with("Task list updated (1 items):\n  1. [ ] a\n"));
    match told {
        Some(IPCResponse::SessionTodos { id, conversation_id, todos }) => {
            assert_eq!((id.as_str(), conversation_id.as_str()), ("1", "c"));
            assert_eq!(todos.len(), 1);
            assert_eq!(todos[0].text_at("content").as_deref(), Some("a"));
        }
        other => panic!("{:?}", other),
    }
    let (said, told) = write_list(&mut s, "2", "c", Err("missing field".to_string()));
    assert_eq!(said, "Error: invalid todo list: missing field");
    assert!(told.is_none());
    assert_eq!(session_todos(&s, "c").len(), 1);
}

#[test]
fn todos_are_told() {
    let mut s = Sessions::new();
    assert_eq!(format_todos_for_prompt(&s, "c"), "");
    let said = write_todos(
        &mut s,
        "c",
        vec![todo("a", "completed"), todo("b", "in_progress"), todo("c", "pending")],
    );
    assert_eq!(
        said,
        "Task list updated (3 items):\n  1. [x] a\n  2. [~] b\n  3. [ ] c\n\nContinue with the in_progress task. Update statuses as you complete each item."
    );
    assert_eq!(
        format_todos_for_prompt(&s, "c"),
        "\n\n## Current task list (your TODOs)\n1. [x] a\n2. [~] doing b\n3. [ ] c\n\nKeep exactly one task `in_progress`. Mark each task `completed` immediately after finishing it. Use `todo_write` to update the list.\n"
    );
    let j = get_session_todos_json(&s, "c");
    assert_eq!(j.len(), 3);
    assert_eq!(j[1].text_at("status").as_deref(), Some("in_progress"));
    assert_eq!(j[1].text_at("content").as_deref(), Some("b"));
    assert_eq!(j[1].text_at("activeForm").as_deref(), Some("doing b"));
    assert_eq!(mark_of("completed"), "[x]");
    assert_eq!(mark_of("whatever"), "[ ]");
}
