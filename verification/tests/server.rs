use rook::computer_use::actions::{click, focus_window, pick_window, target_of, type_text};
use rook::computer_use::context::{
    compact_summary, get, logs, put_last_tree, record, set_last_tree, ActionRecord, MAX_ACTIONS,
};
use rook::computer_use::uia::{
    element_for_id, find_element, reset_registry, snapshot, stash, UiElement, UiHit,
};
use rook::ipc::handlers::chat::session::{write_todos, Sessions, TodoItem};
use rook::ipc::protocol::{IPCRequest, IPCResponse};
use rook::ipc::server::{
    app_stats, directory_indexed, dispatch, extract_request_id, load_project_instructions,
    memory_capabilities, on_line, on_unreadable, raw_type, stats_windows, Cancellations, Dispatch,
    LineStep, RateLimiter, RequestStep, StatsCounts, TaskStatus, RATE_LIMIT,
};
use rook::json::Json;
use rook::llm::types::{EmbeddingProvider, FloatBits, LLMConfig};

fn s(v: &str) -> String {
    v.to_string()
}

// ---- lines

#[test]
fn sixty_lines_are_let_in_each_second() {
    let mut l = RateLimiter::new();
    for i in 0..RATE_LIMIT {
        assert!(matches!(on_line(&mut l, " {} ", 1000 + i as u64), LineStep::Read(t) if t == "{}"));
    }
    assert!(matches!(on_line(&mut l, "  \n", 1100), LineStep::Ignore));
    match on_line(&mut l, "{}", 1999) {
        LineStep::Refuse(IPCResponse::Error { id, message }) => {
            assert_eq!(id, "rate-limited");
            assert_eq!(message, "Rate limit exceeded \u{2014} slow down requests");
        }
        other => panic!("{:?}", other),
    }
    assert!(matches!(on_line(&mut l, "{}", 2000), LineStep::Read(_)));
}

#[test]
fn a_line_that_is_no_request_is_answered() {
    assert!(matches!(
        on_unreadable("eof"),
        IPCResponse::Error { id, message } if id == "unknown" && message == "Invalid JSON: eof"
    ));
    let v = Json::Object(vec![(s("type"), Json::Text(s("chat")))]);
    assert_eq!(raw_type(Some(&v)), "chat");
    assert_eq!(raw_type(Some(&Json::Null)), "<unparseable>");
    assert_eq!(raw_type(None), "<unparseable>");
}

// ---- requests

#[test]
fn a_request_under_way_can_be_cancelled() {
    let mut c = Cancellations::new();
    let health = |id: &str| IPCRequest::HealthCheck { id: s(id) };
    assert_eq!(extract_request_id(&health("a")), "a");
    assert!(matches!(
        c.on_request(health("a")),
        RequestStep::Start { id, token: 0, .. } if id == "a"
    ));
    assert!(matches!(c.on_request(health("b")), RequestStep::Start { token: 1, .. }));
    let cancel = |t: &str| IPCRequest::CancelRequest { id: s("x"), target_id: s(t) };
    match c.on_request(cancel("a")) {
        RequestStep::Cancel { token, answer: IPCResponse::Cancelled { id, target_id } } => {
            assert_eq!((token, id.as_str(), target_id.as_str()), (Some(0), "x", "a"));
        }
        other => panic!("{:?}", other),
    }
    assert!(matches!(c.on_request(cancel("a")), RequestStep::Cancel { token: None, .. }));
    assert!(matches!(
        c.on_done("b", Err(s("boom"))),
        IPCResponse::Error { id, message } if id == "b" && message == "boom"
    ));
    assert!(matches!(c.on_request(cancel("b")), RequestStep::Cancel { token: None, .. }));
}

fn config(key: &str) -> LLMConfig {
    LLMConfig {
        base_url: s(""),
        api_key: s(key),
        model: s("m"),
        max_tokens: 1,
        temperature: FloatBits { bits: 0 },
        embedding_provider: EmbeddingProvider::Mock,
        embedding_base_url: s(""),
        embedding_model: s(""),
        embedding_api_key: s(""),
    }
}

#[test]
fn requests_find_their_handlers() {
    let mut st = Sessions::new();
    let _ = write_todos(
        &mut st,
        "c",
        vec![TodoItem { content: s("x"), active_form: s(""), status: s("pending") }],
    );
    let d = |r: IPCRequest| dispatch(r, &config(" "), &st);
    assert!(matches!(
        d(IPCRequest::HealthCheck { id: s("1") }),
        Dispatch::Reply(IPCResponse::HealthCheck { mock_mode: true, .. })
    ));
    assert!(matches!(
        dispatch(IPCRequest::HealthCheck { id: s("1") }, &config("k"), &st),
        Dispatch::Reply(IPCResponse::HealthCheck { mock_mode: false, model, .. }) if model == "m"
    ));
    assert!(matches!(
        d(IPCRequest::GetSessionTodos { id: s("1"), conversation_id: s("c") }),
        Dispatch::Reply(IPCResponse::SessionTodos { todos, .. }) if todos.len() == 1
    ));
    assert!(matches!(
        d(IPCRequest::Screenshot { id: s("1"), selector: None, full: None }),
        Dispatch::Screenshot { full: true, .. }
    ));
    assert!(matches!(
        d(IPCRequest::GitLog { id: s("1"), n: None }),
        Dispatch::GitLog { n: 10, .. }
    ));
    assert!(matches!(
        d(IPCRequest::PauseScheduledTask { id: s("1"), task_id: s("t") }),
        Dispatch::SetTaskStatus { status: TaskStatus::Paused, action, .. } if action == "pause"
    ));
    assert!(matches!(
        d(IPCRequest::CancelScheduledTask { id: s("1"), task_id: s("t") }),
        Dispatch::SetTaskStatus { status: TaskStatus::Archived, .. }
    ));
    assert!(matches!(
        d(IPCRequest::ListSkills { id: s("1") }),
        Dispatch::Handler(IPCRequest::ListSkills { .. })
    ));
    assert!(matches!(
        d(IPCRequest::CancelRequest { id: s("1"), target_id: s("2") }),
        Dispatch::Reply(IPCResponse::Error { id, .. }) if id == "?"
    ));
}

#[test]
fn instructions_come_from_the_first_file_that_has_any() {
    assert_eq!(
        load_project_instructions(vec![Some(s("  \n")), None, Some(s("be nice"))]).as_deref(),
        Some("be nice")
    );
    assert_eq!(load_project_instructions(vec![None]), None);
}

#[test]
fn the_overview_is_counted() {
    assert_eq!(stats_windows(1_000_000), (1_000_000 - 86_400, 1_000_000 - 604_800));
    assert!(matches!(
        app_stats("1", 5, &None),
        IPCResponse::Error { message, .. } if message == "DB unavailable"
    ));
    let c = StatsCounts {
        conversation_count: Some(1),
        message_count: Some(2),
        user_message_count: None,
        conversations_today: Some(3),
        messages_today: Some(4),
        conversations_this_week: Some(5),
        memory_node_count: Some(6),
        memory_edge_count: Some(7),
        embedding_count: Some(8),
        plugin_installed_count: Some(9),
        plugin_enabled_count: Some(10),
        tool_calls_count: Some(11),
        db_size_bytes: Some(12),
        first_message_at: None,
        oldest_conversation_at: Some(13),
    };
    assert!(matches!(
        app_stats("1", 77, &Some(c)),
        IPCResponse::AppStats {
            conversation_count: 1,
            user_message_count: 0,
            tool_calls_count: 11,
            db_size_bytes: 12,
            started_at: 77,
            oldest_conversation_at: Some(13),
            ..
        }
    ));
    assert!(matches!(
        memory_capabilities("1", true, Some(4), None),
        IPCResponse::MemoryCapabilities { node_count: 0, gnn_available: true, .. }
    ));
    assert!(matches!(
        memory_capabilities("1", false, None, Some((1, 2, 3))),
        IPCResponse::MemoryCapabilities { node_count: 1, edge_count: 2, embedding_count: 3, .. }
    ));
    assert!(matches!(
        directory_indexed("1", "/w", true, &Ok(4)),
        IPCResponse::DirectoryIndexed { files_indexed: 4, .. }
    ));
    assert!(matches!(
        directory_indexed("1", "/w", true, &Err(s("x"))),
        IPCResponse::DirectoryIndexed { files_indexed: 0, .. }
    ));
    assert!(matches!(
        directory_indexed("1", "/w", false, &Ok(4)),
        IPCResponse::Error { message, .. } if message == "Not a directory: /w"
    ));
}

// ---- windows

fn act(i: i64) -> ActionRecord {
    ActionRecord { at: i, kind: s("click"), target: s("e"), value: None, ok: true, error: None }
}

#[test]
fn a_log_holds_the_last_actions() {
    let mut l = logs();
    for i in 0..60 {
        record(&mut l, "c", act(i));
    }
    let log = get(&l, "c");
    assert_eq!(log.actions.len(), MAX_ACTIONS);
    assert_eq!(log.actions[0].at, 10);
    assert_eq!(compact_summary(&l, "c", 2), "click e ok (58)\nclick e ok (59)");
    assert_eq!(compact_summary(&l, "d", 2), "");
    put_last_tree(&mut l, "c", "tree", 7);
    assert_eq!(get(&l, "c").last_tree_hash, Some(7));
    set_last_tree(&mut l, "c", &"x".repeat(70_000));
    let log = get(&l, "c");
    assert_eq!(log.last_tree_json.unwrap().len(), 65_536);
    set_last_tree(&mut l, "e", &format!("x{}", "\u{e9}".repeat(40_000)));
    let kept = get(&l, "e").last_tree_json.unwrap();
    assert_eq!(kept.len(), 65_535);
    assert!(kept.starts_with("x\u{e9}"));
    set_last_tree(&mut l, "e", &"\u{e9}".repeat(32_768));
    assert_eq!(get(&l, "e").last_tree_json.unwrap().len(), 65_536);
    set_last_tree(&mut l, "d", &"x".repeat(70_000));
    assert_eq!(get(&l, "d").last_tree_hash, log.last_tree_hash);
    set_last_tree(&mut l, "d", "other");
    assert_ne!(get(&l, "d").last_tree_hash, log.last_tree_hash);
}

fn element(handle: usize, name: &str, children: Vec<UiElement>) -> UiElement {
    UiElement {
        handle,
        offscreen: false,
        role: None,
        name: Some(s(name)),
        bounds: None,
        value: Some(s("")),
        accelerator: Some(s("Ctrl+S")),
        can_invoke: false,
        can_toggle: true,
        can_select: true,
        can_edit: false,
        children,
    }
}

#[test]
fn elements_get_ids_by_which_they_are_found() {
    let mut r = reset_registry();
    assert_eq!(stash(&mut r, 40), "e0");
    assert_eq!(stash(&mut r, 41), "e1");
    assert_eq!(element_for_id(&r, "e1"), Some(41));
    assert_eq!(element_for_id(&r, "e01"), None);
    assert_eq!(target_of(&r, "e0"), Ok(40));
    assert!(target_of(&r, "e9").is_err());
}

#[test]
fn windows_are_described() {
    let mut hidden = element(3, "hidden", vec![]);
    hidden.offscreen = true;
    let root = element(1, "root", vec![element(2, "child", vec![]), hidden]);
    let mut r = reset_registry();
    let n = snapshot(&root, false, &mut r).unwrap();
    assert_eq!((n.id.as_str(), n.role.as_str(), n.name.as_str()), ("e0", "Unknown", "root"));
    assert_eq!(n.value, None);
    assert_eq!(n.shortcut.as_deref(), Some("Ctrl+S"));
    assert_eq!(n.invoke_hint.as_deref(), Some("toggle"));
    assert_eq!(n.children.len(), 1);
    assert_eq!(n.children[0].id, "e1");
    assert_eq!(element_for_id(&r, "e1"), Some(2));
    let n = snapshot(&root, true, &mut r).unwrap();
    assert_eq!(n.children.len(), 2);
}

#[test]
fn windows_and_elements_are_found_by_part_of_their_names() {
    let titles = vec![s("Mail"), s("My NOTES"), s("notes 2")];
    assert_eq!(pick_window(&titles, "notes"), Ok(1));
    assert!(pick_window(&titles, "zz").is_err());
    let hit = |n: &str| UiHit { id: s("e"), name: s(n), role: s("") };
    assert_eq!(find_element(&vec![hit("Save As"), hit("x"), hit("SAVE")], "save"), vec![0, 2]);
    assert!(find_element(&vec![hit("x")], "save").is_empty());
}

#[test]
fn without_a_desktop_nothing_is_done() {
    assert!(click("e0").is_err());
    assert!(type_text("e0", "x").is_err());
    assert!(focus_window("x").is_err());
}
