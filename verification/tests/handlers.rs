use rook::ipc::handlers::admin::{
    audit_cut, audit_entry, audit_limit, export_edge, export_node, export_object,
    handle_delete_node, handle_export_memory, handle_get_memory_health, handle_get_tool_audit_log,
    handle_get_user_fact, handle_graceful_shutdown, handle_import_memory, handle_log_tool_audit,
    handle_set_node_pinned, handle_set_user_fact, handle_update_node_summary, import_edges,
    import_nodes, import_replaces, Exported, MemoryCounts, NodeRow,
};
use rook::ipc::handlers::chat::session::{set_session_cwd, get_session_cwd, Sessions};
use rook::ipc::handlers::conversations::{
    auto_title_if_ready, conversation_row, found_row, handle_delete_conversation,
    handle_get_conversation_messages, handle_get_conversations, handle_pin_conversation,
    handle_regenerate_last_message, handle_rename_conversation, handle_search_conversations,
    message_row, search_pattern, title_fallback, title_of_reply, title_prompt, title_wanted,
};
use rook::ipc::handlers::git::{
    handle_git_branch, handle_git_commit, handle_git_diff, handle_git_log, handle_git_status,
};
use rook::ipc::handlers::memory::{
    handle_create_node, handle_get_connected_nodes, handle_get_node, handle_query_memory,
    handle_search_embeddings, handle_submit_memory_feedback, search_size, semantic_text,
};
use rook::ipc::handlers::plugins::{
    handle_install_plugin, handle_launch_gemma, handle_list_plugins, handle_search_plugins,
    handle_set_plugin_enabled, handle_start_mcp, handle_stop_mcp, handle_uninstall_plugin,
    handle_update_config, mcp_starting, on_detected, plugin_to_info, repo_of, Offer, Plugin,
    StartMcp,
};
use rook::ipc::handlers::scheduler::{
    handle_create_scheduled_task, handle_list_scheduled_tasks, handle_set_status, task_channel,
    task_refused, TaskOutcome,
};
use rook::ipc::handlers::tools::{
    approved_edit, describe_edit, finish_approval, handle_approve_pending_tools,
    handle_browser_debugging_url, handle_cdp_click, handle_cdp_evaluate, handle_cdp_navigate,
    handle_cdp_type, handle_create_preview, handle_execute_skill, handle_get_previews,
    handle_kill_browser, handle_list_skills, handle_read_file, handle_screenshot,
    handle_spawn_browser, handle_spawn_cdp_browser, handle_web_search, handle_write_file,
    plan_step, preview_file, read_note, web_notes, Approval, FileOutcome, PendingTools, Step,
};
use rook::ipc::protocol::{IPCResponse, PendingEditDiff};
use rook::json::{Json, Number};
use rook::llm::orchestrator::Launch;
use rook::llm::types::{EmbeddingProvider, FloatBits, LLMConfig};
use rook::startup::{merge_config, poll_seconds};
use rook::strmap::StrMap;

fn s(v: &str) -> String {
    v.to_string()
}

fn bad<T>(e: &str) -> Result<T, String> {
    Err(s(e))
}

fn object(members: Vec<(&str, &str)>) -> Json {
    Json::Object(members.into_iter().map(|(k, v)| (s(k), Json::Text(s(v)))).collect())
}

// ---- admin

#[test]
fn the_program_ends_later_where_not_all_is_written() {
    let (r, delay) = handle_graceful_shutdown("1", true);
    assert!(matches!(r, IPCResponse::Acknowledged { id } if id == "1"));
    assert_eq!(delay, 300);
    assert_eq!(handle_graceful_shutdown("1", false).1, 1500);
}

#[test]
fn facts_about_the_user_are_answered() {
    assert!(matches!(
        handle_get_user_fact("1", "k", Some(s("v"))),
        IPCResponse::UserFact { key, value: Some(v), .. } if key == "k" && v == "v"
    ));
    assert!(matches!(handle_set_user_fact("1"), IPCResponse::Acknowledged { .. }));
    assert!(matches!(handle_delete_node("1"), IPCResponse::Acknowledged { .. }));
    assert!(matches!(handle_update_node_summary("1"), IPCResponse::Acknowledged { .. }));
    assert!(matches!(handle_log_tool_audit("1"), IPCResponse::Acknowledged { .. }));
    let (_, k, v) = handle_set_node_pinned("1", "n7", true);
    assert_eq!((k.as_str(), v.as_str()), ("node_pinned:n7", "true"));
    assert_eq!(handle_set_node_pinned("1", "n7", false).2, "false");
}

#[test]
fn the_state_of_the_memory_is_told() {
    assert!(matches!(
        handle_get_memory_health("1", &None, true),
        IPCResponse::Error { message, .. } if message == "DB unavailable"
    ));
    let c = MemoryCounts {
        nodes: Some(3),
        edges: None,
        embeddings: Some(2),
        pinned: Some(1),
        rating: Some(0.5f64.to_bits()),
        bytes: None,
        last_trained_at: None,
    };
    assert!(matches!(
        handle_get_memory_health("1", &Some(c), false),
        IPCResponse::MemoryHealth {
            node_count: 3,
            edge_count: 0,
            embedding_count: 2,
            pinned_count: 1,
            db_size_bytes: 0,
            gnn_available: false,
            last_trained_at: None,
            avg_confidence,
            ..
        } if f64::from_bits(avg_confidence) == 0.5
    ));
}

#[test]
fn an_export_can_be_brought_in_again() {
    let node = NodeRow {
        id: s("n1"),
        node_type: s("file"),
        title: s("T"),
        created_at: -5,
        updated_at: 7,
        metadata_json: Some(s("{}")),
    };
    let bare = NodeRow { metadata_json: None, id: s("n2"), ..NodeRow {
        id: s(""),
        node_type: s("x"),
        title: s(""),
        created_at: 0,
        updated_at: i64::MAX,
        metadata_json: None,
    } };
    let all = Exported {
        nodes: vec![export_node(&node), export_node(&bare)],
        objects: vec![export_object(s("n1"), None, Some(s("[]")), None)],
        edges: vec![export_edge(s("e"), s("n1"), s("n2"), s("imports"), 0.72f64.to_bits())],
    };
    let data = match handle_export_memory("1", 99, Some(all)) {
        IPCResponse::MemoryExport { data, .. } => data,
        other => panic!("{:?}", other),
    };
    assert_eq!(data.unsigned_at("version"), Some(1));
    assert_eq!(data.signed_at("exported_at"), Some(99));
    let back = import_nodes(&data);
    assert_eq!(back.len(), 2);
    assert_eq!(back[0].id, "n1");
    assert_eq!(back[0].created_at, -5);
    assert_eq!(back[0].metadata_json.as_deref(), Some("{}"));
    assert_eq!(back[1].updated_at, i64::MAX);
    assert_eq!(back[1].metadata_json, None);
    let edges = import_edges(&data);
    assert_eq!(edges[0].relationship, "imports");
    assert_eq!(edges[0].strength, Some(Number::Fraction(0.72f64.to_bits())));
    assert!(matches!(handle_export_memory("1", 0, None), IPCResponse::Error { .. }));
}

#[test]
fn what_is_missing_gets_a_default() {
    let data = Json::Object(vec![
        (s("nodes"), Json::List(vec![Json::Null])),
        (s("edges"), Json::List(vec![object(vec![("id", "e")])])),
    ]);
    let n = import_nodes(&data);
    assert_eq!((n[0].id.as_str(), n[0].node_type.as_str(), n[0].created_at), ("", "concept", 0));
    let e = import_edges(&data);
    assert_eq!((e[0].relationship.as_str(), e[0].strength), ("relates_to", None));
    assert!(import_nodes(&Json::Null).is_empty());
    assert!(import_replaces("overwrite") && !import_replaces("merge"));
}

#[test]
fn every_node_brought_in_is_counted() {
    assert!(matches!(
        handle_import_memory("1", &vec![Some(1), Some(0), None, Some(2), Some(0)]),
        IPCResponse::MemoryImportResult { imported: 2, skipped: 2, errors: 1, .. }
    ));
}

#[test]
fn the_audit_keeps_the_start_of_a_call() {
    assert_eq!(audit_cut("short").as_deref(), Some("short"));
    assert_eq!(audit_cut(&"a".repeat(501)), Some("a".repeat(500)));
    assert_eq!(audit_cut(&format!("{}\u{fc}", "a".repeat(499))), None);
    assert_eq!(audit_limit(None), 50);
    assert_eq!(audit_limit(Some(7)), 7);
    assert_eq!(audit_limit(Some(usize::MAX)), usize::MAX as i64);
    let e = audit_entry(s("i"), 5, s("grep"), Some(s("{}")), None, None);
    assert_eq!(e.signed_at("timestamp"), Some(5));
    assert!(matches!(e.get("result_summary"), Some(Json::Null)));
    assert!(matches!(
        handle_get_tool_audit_log("1", vec![e]),
        IPCResponse::ToolAuditLog { entries, .. } if entries.len() == 1
    ));
}

// ---- conversations

#[test]
fn conversations_are_told() {
    let c = conversation_row(s("c"), None, 1, 2, 1);
    assert_eq!(c.text_at("title").as_deref(), Some(""));
    assert_eq!(c.bool_at("pinned"), Some(true));
    assert!(matches!(
        handle_get_conversations("1", vec![c]),
        IPCResponse::ConversationList { conversations, .. } if conversations.len() == 1
    ));
    assert_eq!(search_pattern("x"), "%x%");
    let f = found_row(s("c"), Some(s("T")), 3);
    assert_eq!(f.text_at("title").as_deref(), Some("T"));
    assert!(matches!(
        handle_search_conversations("1", vec![f]),
        IPCResponse::ConversationList { .. }
    ));
    let m = message_row(s("m"), s("user"), s("hi"), 4);
    assert_eq!(m.text_at("role").as_deref(), Some("user"));
    assert!(matches!(
        handle_get_conversation_messages("1", "c", vec![m]),
        IPCResponse::ConversationMessages { conversation_id, messages, .. }
            if conversation_id == "c" && messages.len() == 1
    ));
}

#[test]
fn titles_come_after_the_second_message() {
    assert!(!title_wanted(1, &None));
    assert!(title_wanted(2, &None));
    assert!(title_wanted(2, &Some(s("short"))));
    assert!(!title_wanted(3, &Some(s("short"))));
    assert!(title_wanted(3, &Some("x".repeat(60))));
    assert!(title_wanted(3, &Some(s(""))));
}

#[test]
fn titles_are_found_in_replies() {
    assert_eq!(title_of_reply("Title: \"Fixing The Parser\"\nmore"), "Fixing The Parser");
    assert_eq!(title_of_reply("Title: a\nTitle:\n\n  \" Real One \" \n"), "Real One");
    assert_eq!(title_of_reply("plain"), "plain");
    assert_eq!(title_of_reply(" \n\t\n"), "");
    assert_eq!(title_of_reply(&"w".repeat(80)).len(), 60);
    let first = vec![(s("system"), s("x")), (s("user"), "u".repeat(50))];
    assert_eq!(title_fallback(&first), "u".repeat(40));
    assert_eq!(title_fallback(&vec![]), "Conversation");
    assert_eq!(
        title_prompt(&vec![(s("user"), s("hi")), (s("assistant"), "y".repeat(130))]),
        Some(format!(
            "Summarise this conversation in \u{2264}6 words (title case, no punctuation):\n\nuser: hi\nassistant: {}\n\nTitle:",
            "y".repeat(120)
        ))
    );
    assert_eq!(title_prompt(&vec![]), None);
    assert_eq!(auto_title_if_ready(&first, &Some(s("  "))), None);
    assert_eq!(auto_title_if_ready(&first, &None), Some("u".repeat(40)));
    assert_eq!(auto_title_if_ready(&vec![], &Some(s("T"))), None);
}

#[test]
fn conversations_change() {
    assert_eq!(handle_regenerate_last_message("1", Some(s("again"))).unwrap(), "again");
    assert!(matches!(
        handle_regenerate_last_message("1", None),
        Err(IPCResponse::Error { message, .. })
            if message == "No user message found to regenerate from"
    ));
    let mut st = Sessions::new();
    set_session_cwd(&mut st, "c", s("/w"));
    assert!(matches!(
        handle_delete_conversation(&mut st, "1", "c"),
        IPCResponse::ConversationDeleted { conversation_id, .. } if conversation_id == "c"
    ));
    assert_eq!(get_session_cwd(&st, "c", "/"), "/");
    assert!(matches!(
        handle_rename_conversation("1", "c", "T"),
        IPCResponse::ConversationRenamed { title, .. } if title == "T"
    ));
    assert!(matches!(
        handle_pin_conversation("1", "c", true),
        IPCResponse::ConversationPinned { pinned: true, .. }
    ));
}

// ---- git, memory, scheduler

#[test]
fn git_is_passed_on() {
    for h in [handle_git_status, handle_git_log, handle_git_diff, handle_git_branch, handle_git_commit] {
        assert!(matches!(
            h("1", Ok(s("out"))),
            Ok(IPCResponse::GitResult { output, .. }) if output == "out"
        ));
        assert!(matches!(h("1", bad("no")), Err(e) if e == "no"));
    }
}

#[test]
fn the_memory_is_asked() {
    assert_eq!(semantic_text("T", &Some(s("{}"))), "T\n{}");
    assert_eq!(semantic_text("T", &None), "T");
    assert!(matches!(
        handle_create_node("1", Ok(Json::Null)),
        Ok(IPCResponse::NodeCreated { .. })
    ));
    assert!(handle_create_node("1", bad("x")).is_err());
    let many = || Ok((0..30).map(|_| Json::Null).collect::<Vec<_>>());
    assert!(matches!(
        handle_query_memory("1", None, many()),
        Ok(IPCResponse::MemoryResults { nodes, .. }) if nodes.len() == 20
    ));
    assert!(matches!(
        handle_query_memory("1", Some(50), many()),
        Ok(IPCResponse::MemoryResults { nodes, .. }) if nodes.len() == 30
    ));
    assert!(matches!(
        handle_get_node("1", "n", Ok(None)),
        Ok(IPCResponse::Error { message, .. }) if message == "Node not found: n"
    ));
    assert!(matches!(
        handle_get_node("1", "n", Ok(Some((Json::Null, None)))),
        Ok(IPCResponse::NodeDetails { object_memory: None, .. })
    ));
    assert!(matches!(
        handle_get_connected_nodes("1", Ok((vec![Json::Null], vec![]))),
        Ok(IPCResponse::ConnectedNodes { nodes, edges, .. }) if nodes.len() == 1 && edges.is_empty()
    ));
    assert_eq!(search_size(None), (80, 10));
    assert_eq!(search_size(Some(usize::MAX)), (usize::MAX, usize::MAX));
    assert!(matches!(
        handle_search_embeddings("1", Ok(vec![])),
        Ok(IPCResponse::EmbeddingResults { .. })
    ));
    assert!(matches!(
        handle_submit_memory_feedback("1", Ok(Json::Null)),
        Ok(IPCResponse::FeedbackRecorded { success: true, .. })
    ));
}

fn action(r: IPCResponse) -> (String, String, bool, String) {
    match r {
        IPCResponse::ScheduledTaskAction { task_id, action, success, message, .. } => {
            (task_id, action, success, message)
        }
        IPCResponse::PluginAction { plugin_id, action, success, message, .. } => {
            (plugin_id, action, success, message)
        }
        other => panic!("{:?}", other),
    }
}

#[test]
fn tasks_are_scheduled() {
    let kept = TaskOutcome::Kept { task_id: s("7"), next_run: s("noon") };
    assert_eq!(
        action(handle_create_scheduled_task("1", "n", "daily", "p", &kept)),
        (s("7"), s("create"), true, s("scheduled 'n' - next run at noon"))
    );
    assert_eq!(
        action(handle_create_scheduled_task("1", " ", "daily", "p", &kept)),
        (s(""), s("create"), false, s("name, cadence, and prompt are required"))
    );
    let r = TaskOutcome::BadCadence { error: s("x") };
    assert_eq!(action(handle_create_scheduled_task("1", "n", "d", "p", &r)).3, "bad cadence: x");
    let r = TaskOutcome::NotKept { error: s("x") };
    assert_eq!(action(handle_create_scheduled_task("1", "n", "d", "p", &r)).3, "insert failed: x");
    assert!(task_refused("1", "n", "d", "p").is_none());
    assert_eq!(task_channel(&None), "notification");
    assert_eq!(task_channel(&Some(s("mail"))), "mail");
    assert_eq!(
        action(handle_set_status("1", "7", "pause", &Ok(()))),
        (s("7"), s("pause"), true, s("pause ok"))
    );
    assert_eq!(action(handle_set_status("1", "7", "pause", &bad("x"))).3, "x");
    assert!(matches!(
        handle_list_scheduled_tasks("1", bad("x")),
        IPCResponse::ScheduledTaskList { tasks, .. } if tasks.is_empty()
    ));
    assert!(matches!(
        handle_list_scheduled_tasks("1", Ok(vec![Json::Null])),
        IPCResponse::ScheduledTaskList { tasks, .. } if tasks.len() == 1
    ));
}

// ---- plugins

fn plugin(id: &str) -> Plugin {
    Plugin {
        id: s(id),
        name: s("Name"),
        description: None,
        plugin_type: s("mcp"),
        repo_url: s("u"),
        owner: s("o"),
        repo: s("r"),
        stars: 3,
        entry_point: None,
        install_path: None,
        status: s("installed"),
        enabled: true,
        config_json: None,
        error_msg: None,
    }
}

fn offer(name: Option<&str>, url: Option<&str>) -> Offer {
    Offer {
        name: name.map(s),
        description: None,
        plugin_type: None,
        repo_url: url.map(s),
        owner: None,
        repo: Some(s("")),
        stars: None,
    }
}

#[test]
fn plugins_are_listed() {
    let i = plugin_to_info(&plugin("p"), true);
    assert_eq!((i.id.as_str(), i.stars, i.running, i.status.as_str()), ("p", 3, true, "installed"));
    match handle_list_plugins("1", &vec![plugin("a"), plugin("b")], &vec![s("b")]) {
        IPCResponse::PluginList { plugins, .. } => {
            assert_eq!(plugins.iter().map(|p| p.running).collect::<Vec<_>>(), vec![false, true]);
        }
        other => panic!("{:?}", other),
    }
    let known = Plugin { name: s("Known"), ..plugin("a") };
    match handle_search_plugins("1", &vec![plugin("a"), plugin("b")], &vec![Some(known), None]) {
        IPCResponse::PluginList { plugins, .. } => {
            assert_eq!(plugins[0].name, "Known");
            assert_eq!(plugins[1].name, "Name");
            assert!(!plugins[0].running);
        }
        other => panic!("{:?}", other),
    }
}

#[test]
fn plugins_are_installed() {
    let r = handle_install_plugin("1", "p", Some(plugin("p")), offer(None, None), "available");
    assert!(!r.register);
    assert_eq!(
        action(r.response),
        (s("p"), s("install"), true, s("Installing 'Name' in background\u{2026}"))
    );
    let r = handle_install_plugin("1", "own/rep/x", None, offer(Some("N"), Some("u")), "available");
    assert!(r.register);
    let p = r.plugin.unwrap();
    assert_eq!((p.owner.as_str(), p.repo.as_str()), ("own", "rep/x"));
    assert_eq!((p.plugin_type.as_str(), p.status.as_str(), p.stars), ("mcp", "available", 0));
    let r = handle_install_plugin("1", "p", None, offer(Some("N"), None), "available");
    assert!(r.plugin.is_none());
    assert_eq!(action(r.response).3, "Plugin 'p' not found in registry");
    assert_eq!(repo_of("solo", &None, &None), (s("solo"), s("")));
    assert_eq!(repo_of("a/b", &Some(s("x")), &None), (s("x"), s("b")));
}

#[test]
fn plugins_are_switched_and_removed() {
    assert_eq!(action(handle_set_plugin_enabled("1", "p", true, true)).3, "Plugin enabled");
    assert_eq!(action(handle_set_plugin_enabled("1", "p", true, false)).3, "Plugin disabled");
    assert_eq!(action(handle_set_plugin_enabled("1", "p", false, true)).3, "Plugin not found");
    assert_eq!(
        action(handle_uninstall_plugin("1", "p", &Some(s("N")))).3,
        "Uninstalling 'N'\u{2026}"
    );
    assert!(!action(handle_uninstall_plugin("1", "p", &None)).2);
}

#[test]
fn servers_of_plugins_are_started() {
    let said = |r: StartMcp| match r {
        StartMcp::Answer { response } => action(response).3,
        StartMcp::Detect { install_path } => format!("detect {}", install_path),
        StartMcp::Start { entry_point, .. } => format!("start {}", entry_point),
    };
    assert_eq!(said(handle_start_mcp("1", "p", &None)), "Plugin not found");
    assert_eq!(said(handle_start_mcp("1", "p", &Some(plugin("p")))), "Plugin is not installed");
    let there = Plugin { install_path: Some(s("/x")), ..plugin("p") };
    assert_eq!(said(handle_start_mcp("1", "p", &Some(there))), "detect /x");
    let ready =
        Plugin { install_path: Some(s("/x")), entry_point: Some(s("run")), ..plugin("p") };
    assert_eq!(said(handle_start_mcp("1", "p", &Some(ready))), "start run");
    assert_eq!(said(on_detected("1", "p", "/x", &Some(s("go")), &None)), "start go");
    assert_eq!(
        said(on_detected("1", "p", "/x", &None, &None)),
        "Could not detect how to start this MCP server. Check the plugin's README."
    );
    assert_eq!(action(mcp_starting("1", "p")).3, "MCP server starting\u{2026}");
    assert_eq!(action(handle_stop_mcp("1", "p")).3, "MCP server stopping\u{2026}");
}

#[test]
fn the_local_model_is_launched() {
    let said = |o: Result<Launch, String>| match handle_launch_gemma("1", "g", &o) {
        IPCResponse::GemmaLaunched { success, message, .. } => (success, message),
        other => panic!("{:?}", other),
    };
    assert_eq!(said(Ok(Launch::Up)), (true, s("Gemma is up and responding. Model in use: g")));
    assert_eq!(said(Err(s("x"))), (false, s("Failed to launch Gemma: x")));
    assert_eq!(
        said(Ok(Launch::NoMemory)),
        (false, s("Not enough free RAM to start Gemma. Free at least 6 GiB and try again."))
    );
    assert_eq!(
        said(Ok(Launch::TimedOut)),
        (
            false,
            s("Gemma did not become ready within timeout; process may be starting in background")
        )
    );
}

fn config(key: &str, embedding_key: &str) -> LLMConfig {
    LLMConfig {
        base_url: s("b"),
        api_key: s(key),
        model: s("m"),
        max_tokens: 1,
        temperature: FloatBits { bits: 0 },
        embedding_provider: EmbeddingProvider::Mock,
        embedding_base_url: s("e"),
        embedding_model: s("em"),
        embedding_api_key: s(embedding_key),
    }
}

#[test]
fn a_configuration_is_changed() {
    let mut c = config("old", "");
    let _ = handle_update_config("1", &mut c, " ", "new", "");
    assert_eq!(
        (c.base_url.as_str(), c.api_key.as_str(), c.model.as_str(), c.embedding_api_key.as_str()),
        ("b", "new", "m", "new")
    );
    let _ = handle_update_config("1", &mut c, "u", "newer", "n");
    assert_eq!(
        (c.base_url.as_str(), c.api_key.as_str(), c.model.as_str(), c.embedding_api_key.as_str()),
        ("u", "newer", "n", "new")
    );
    let mut c = config("env", "kept");
    let mut saved = config("saved", " ");
    saved.model = s("");
    merge_config(&mut c, Some(saved));
    assert_eq!(
        (c.api_key.as_str(), c.model.as_str(), c.embedding_api_key.as_str()),
        ("saved", "m", "kept")
    );
    merge_config(&mut c, None);
    assert_eq!(c.api_key, "saved");
    assert_eq!(poll_seconds(&None), 30);
    assert_eq!(poll_seconds(&Some(s("5"))), 5);
    assert_eq!(poll_seconds(&Some(s("often"))), 30);
}

// ---- tools

#[test]
fn files_and_pages_are_answered_and_remembered() {
    assert!(matches!(
        handle_read_file("1", "f", Ok(s("text"))),
        Ok(IPCResponse::FileContent { path, content, .. }) if path == "f" && content == "text"
    ));
    assert!(handle_read_file("1", "f", bad("x")).is_err());
    assert!(matches!(
        handle_write_file("1", "f", Ok(())),
        Ok(IPCResponse::FileWritten { success: true, .. })
    ));
    let (meta, summary) = read_note(&"z".repeat(300), &Some(s("c")));
    assert_eq!(meta.text_at("source").as_deref(), Some("file_read"));
    assert_eq!(meta.text_at("conversation_id").as_deref(), Some("c"));
    assert_eq!(summary.len(), 200);
    assert!(read_note("", &None).0.get("conversation_id").is_none());
    let results = vec![
        object(vec![("title", "T"), ("url", "u"), ("snippet", "s")]),
        object(vec![("title", "")]),
        object(vec![("url", "v")]),
        object(vec![("title", "late")]),
    ];
    let notes = web_notes(&results, "query", &None);
    assert_eq!(notes.iter().map(|n| n.title.as_str()).collect::<Vec<_>>(), vec!["T", "query"]);
    assert_eq!(notes[0].meta.text_at("url").as_deref(), Some("u"));
    assert_eq!(notes[0].summary, "s");
    assert!(matches!(
        handle_web_search("1", Ok(results)),
        Ok(IPCResponse::WebSearchResults { results, .. }) if results.len() == 4
    ));
}

#[test]
fn the_browser_is_answered() {
    assert!(matches!(
        handle_spawn_browser("1", Ok(s("u"))),
        Ok(IPCResponse::SpawnBrowserResult { debugging_url, .. }) if debugging_url == "u"
    ));
    assert!(handle_spawn_cdp_browser("1", bad("x")).is_err());
    assert!(matches!(
        handle_cdp_navigate("1", Ok(s("c"))),
        Ok(IPCResponse::CdpNavigateResult { content, .. }) if content == "c"
    ));
    let said = |r: IPCResponse| match r {
        IPCResponse::CdpActionResult { success, details, .. } => {
            (success, details.map(|d| d.as_text().cloned().unwrap()))
        }
        other => panic!("{:?}", other),
    };
    assert_eq!(said(handle_cdp_click("1", Ok(()))), (true, None));
    assert_eq!(said(handle_cdp_type("1", bad("x"))), (false, Some(s("x"))));
    assert_eq!(said(handle_cdp_evaluate("1", Ok(s("4")))), (true, Some(s("4"))));
    assert_eq!(said(handle_kill_browser("1")), (true, None));
    assert!(matches!(
        handle_screenshot("1", bad("x")),
        IPCResponse::Error { message, .. } if message == "x"
    ));
    assert!(matches!(
        handle_browser_debugging_url("1", None, Some(s("o"))),
        IPCResponse::BrowserDebuggingUrl { url: Some(u), .. } if u == "o"
    ));
    assert!(matches!(
        handle_browser_debugging_url("1", Some(s("d")), Some(s("o"))),
        IPCResponse::BrowserDebuggingUrl { url: Some(u), .. } if u == "d"
    ));
    assert!(matches!(
        handle_execute_skill("1", Ok(Json::Null)),
        Ok(IPCResponse::SkillExecuted { .. })
    ));
    assert!(matches!(handle_list_skills("1", vec![]), IPCResponse::SkillsList { .. }));
    assert!(matches!(
        handle_get_previews("1"),
        IPCResponse::Previews { previews, .. } if previews.is_empty()
    ));
    assert_eq!(preview_file("p"), "p.html");
    assert!(matches!(
        handle_create_preview("1", "p", Ok(s("/d/p.html"))),
        Ok(IPCResponse::PreviewCreated { path, .. }) if path == "/d/p.html"
    ));
}

fn call(tool: &str, members: Vec<(&str, &str)>) -> PendingEditDiff {
    PendingEditDiff {
        tool_name: s(tool),
        path: s(""),
        diff: s(""),
        args: object(members),
    }
}

#[test]
fn a_decision_on_calls_is_made_once() {
    let mut p = PendingTools { calls: StrMap::new() };
    p.calls.insert(s("c"), vec![call("code_edit", vec![])]);
    p.calls.insert(s("d"), vec![]);
    assert!(matches!(
        handle_approve_pending_tools(&mut p, "1", "c", true),
        Approval::Carry { calls } if calls.len() == 1
    ));
    let said = |a: Approval| match a {
        Approval::Answer { response: IPCResponse::Chat { content, .. } } => content,
        other => panic!("{:?}", other),
    };
    assert_eq!(
        said(handle_approve_pending_tools(&mut p, "1", "c", true)),
        "No pending changes found for this conversation."
    );
    assert_eq!(said(handle_approve_pending_tools(&mut p, "1", "d", false)), "Changes rejected.");
    assert!(p.calls.get("d").is_none());
}

#[test]
fn approved_calls_are_carried_out() {
    let edit = call(
        "code_edit",
        vec![("action", "search_replace"), ("path", "f"), ("search", "a"), ("replace", "b")],
    );
    assert!(matches!(plan_step(&edit), Step::Rewrite { path } if path == "f"));
    assert_eq!(approved_edit(&edit, "aa"), "ba");
    assert_eq!(describe_edit(&edit, &FileOutcome::Written), "Applied edit to f");
    assert_eq!(
        describe_edit(&edit, &FileOutcome::NotRead { error: s("x") }),
        "Error reading f: x"
    );
    assert_eq!(
        describe_edit(&edit, &FileOutcome::NotWritten { error: s("x") }),
        "Error writing f: x"
    );
    let append = call("code_edit", vec![("action", "append"), ("path", "f"), ("content", "z")]);
    assert_eq!(approved_edit(&append, "x\n"), "x\nz");
    assert_eq!(describe_edit(&append, &FileOutcome::Written), "Appended to f");
    let create = call("code_edit", vec![("action", "create"), ("path", "f"), ("content", "z")]);
    assert!(matches!(plan_step(&create), Step::Create { content, .. } if content == "z"));
    assert_eq!(describe_edit(&create, &FileOutcome::Written), "Created f");
    assert_eq!(
        describe_edit(&create, &FileOutcome::NotWritten { error: s("x") }),
        "Error creating f: x"
    );
    let odd = call("code_edit", vec![("action", "zap"), ("path", "f")]);
    assert!(matches!(
        plan_step(&odd),
        Step::Nothing { result } if result == "Unknown code_edit action 'zap' on f"
    ));
    let run = call("execute_command", vec![("command", "ls")]);
    assert!(matches!(plan_step(&run), Step::Run { command } if command == "ls"));
    let other = call("fly", vec![]);
    assert!(matches!(
        plan_step(&other),
        Step::Nothing { result } if result == "Unsupported tool 'fly' in approval flow"
    ));
    assert!(matches!(
        finish_approval("1", "c", &vec![s("a"), s("b")]),
        IPCResponse::Chat { content, .. } if content == "a\nb"
    ));
}
