use rook::ipc::handlers::chat::context::{
    active_plugins, context_curated, local_server_problem, related_pairs, retrieved_ids,
    user_facts_loaded, RegisteredPlugin,
};
use rook::ipc::handlers::chat::modes::{
    add_warnings, arg_text, cancelled, cancelled_result, chat_messages, coder_tools,
    context_text, finish_chat, finish_coder, guard_reply, narrow_tools, no_tools_note, on_failure,
    pending_edit, replay, show_todos, simulate_edit, team_messages, team_model, timed_out_result,
    tools_supported, trim_result, Team, TeamStep, CHAT_SYSTEM, MAX_ITERATIONS, TOO_MANY,
};
use rook::ipc::handlers::chat::prompt::{
    add_user_note, asks_for_plugins, can_digest, compose_prompt, conversation_history,
    detect_provider, effective_config, estimated_tokens, first_title, index_hint, is_too_short,
    is_trivial_query, mode_max_tokens, needs_local_server, route_chat, splice_history,
    truncate_history, ActivePlugin, ChatRoute, PromptParts,
};
use rook::ipc::handlers::chat::stream::{data_of_line, CallTable, Reply, SseBuffer, StreamOut};
use rook::ipc::handlers::chat::team_tools::build_all_tools;
use rook::ipc::protocol::{IPCRequest, IPCResponse};
use rook::json::Json;
use rook::llm::types::{
    ChatCompletionResponse, Choice, EmbeddingProvider, FloatBits, FunctionCall, LLMConfig, Message,
    ResponseMessage, StreamChoice, StreamChunkResponse, StreamDelta, StreamFunctionDelta,
    StreamToolCallDelta, ToolCallDefinition, Usage,
};

fn say(role: &str, content: &str) -> Message {
    Message::text(role, content.to_string())
}

fn roles(m: &[Message]) -> Vec<&str> {
    m.iter().map(|x| x.role.as_str()).collect()
}

fn chunk(content: Option<&str>, thought: Option<&str>) -> StreamChunkResponse {
    StreamChunkResponse {
        choices: vec![StreamChoice {
            delta: Some(StreamDelta {
                content: content.map(str::to_string),
                role: None,
                reasoning: thought.map(str::to_string),
                reasoning_content: None,
                tool_calls: None,
            }),
            finish_reason: None,
        }],
        usage: None,
    }
}

fn piece(index: usize, id: Option<&str>, name: Option<&str>, args: Option<&str>) -> StreamToolCallDelta {
    StreamToolCallDelta {
        index,
        id: id.map(str::to_string),
        function: Some(StreamFunctionDelta {
            name: name.map(str::to_string),
            arguments: args.map(str::to_string),
        }),
    }
}

fn whole(text: &str) -> ChatCompletionResponse {
    ChatCompletionResponse {
        id: None,
        choices: vec![Choice {
            message: ResponseMessage {
                role: "assistant".to_string(),
                content: Some(Json::Text(text.to_string())),
                tool_calls: None,
            },
            finish_reason: None,
        }],
        usage: Some(Usage { prompt_tokens: 1, completion_tokens: 2, total_tokens: 3 }),
    }
}

fn tokens(outs: Vec<StreamOut>) -> Vec<String> {
    outs.into_iter()
        .map(|o| match o {
            StreamOut::Token(t) => t,
            StreamOut::Thinking(t) => format!("<{}>", t),
        })
        .collect()
}

// ---- streams

#[test]
fn lines_of_a_stream_carry_data() {
    assert_eq!(data_of_line("data: {\"a\":1}\r").as_deref(), Some("{\"a\":1}"));
    assert_eq!(data_of_line("data:x").as_deref(), Some("x"));
    assert_eq!(data_of_line(": ping"), None);
    assert_eq!(data_of_line("event: x"), None);
    assert_eq!(data_of_line("data: [DONE]"), None);
    assert_eq!(data_of_line("data:   "), None);
    assert_eq!(data_of_line(""), None);
}

#[test]
fn it_does_not_matter_how_a_stream_is_cut() {
    let all = "data: one\n: c\r\ndata: two\r\n\ndata: [DONE]\ndata: thr";
    for cut in 0..all.len() {
        let mut b = SseBuffer::new();
        let mut got = b.feed(&all[..cut]);
        got.extend(b.feed(&all[cut..]));
        assert_eq!(got, vec!["one", "two"], "{}", cut);
        assert_eq!(b.buffer, "data: thr");
    }
    let mut b = SseBuffer::new();
    assert_eq!(b.feed_bytes("data: gr\u{fc}n\n".as_bytes()), vec!["gr\u{fc}n"]);
    assert_eq!(b.feed_bytes(&[b'd', b'a', b't', b'a', b':', 0xff, b'\n']), vec!["\u{fffd}"]);
}

#[test]
fn pieces_of_calls_are_put_together() {
    let mut t = CallTable::new();
    assert!(t.is_empty());
    t.note(&piece(1, Some("b"), Some("grep"), Some("{}")));
    t.note(&piece(0, Some("a"), Some("file_read"), Some("{\"path\":")));
    t.note(&piece(0, None, None, Some("\"x\"}")));
    let calls = t.assemble();
    assert_eq!(calls.len(), 2);
    assert_eq!(calls[0].id, "a");
    assert_eq!(calls[0].function.name, "file_read");
    assert_eq!(calls[0].function.arguments, "{\"path\":\"x\"}");
    assert_eq!(calls[1].id, "b");
}

#[test]
fn thinking_is_sent_before_the_first_token() {
    let mut r = Reply::new();
    assert!(tokens(r.apply_chunk(&chunk(None, Some("hm")))).is_empty());
    assert_eq!(tokens(r.apply_chunk(&chunk(Some("a"), Some("m")))), vec!["<hmm>", "a"]);
    assert_eq!(tokens(r.apply_chunk(&chunk(Some("b"), None))), vec!["b"]);
    assert!(tokens(r.apply_chunk(&chunk(Some(""), None))).is_empty());
    assert_eq!(r.content, "ab");
    assert!(r.finish().is_none());
    let mut r = Reply::new();
    let _ = r.apply_chunk(&chunk(None, Some("only")));
    assert!(matches!(r.finish(), Some(StreamOut::Thinking(t)) if t == "only"));
    assert!(r.finish().is_none());
}

#[test]
fn a_whole_reply_replaces_what_came_in() {
    let mut r = Reply::new();
    let _ = r.apply_chunk(&chunk(Some("half"), None));
    r.take_whole(&whole("all of it"));
    assert_eq!(r.content, "all of it");
    assert_eq!(r.usage.unwrap().total_tokens, 3);
}

// ---- prompts

#[test]
fn older_turns_become_a_digest() {
    let turns: Vec<(String, String)> = (0..60)
        .map(|i| ("user".to_string(), format!("message\n{}", i)))
        .collect();
    assert!(can_digest(turns.iter().map(|t| (t.0.clone(), t.1.clone())).collect()));
    let h = conversation_history(Some(turns), vec![]);
    assert_eq!(h[0].role, "system");
    assert!(h[0].content.contains("- user: message 0\n"), "{}", h[0].content);
    assert_eq!(h.last().unwrap().content, "message\n59");
    let latest = vec![
        ("assistant".to_string(), "hi".to_string()),
        ("user".to_string(), "hello".to_string()),
    ];
    let h = conversation_history(None, latest);
    assert_eq!(roles(&h), vec!["user", "assistant"]);
}

#[test]
fn the_history_comes_before_the_last_message() {
    let mut m = vec![say("system", "s"), say("user", "now")];
    splice_history(&mut m, vec![say("user", "before"), say("assistant", "yes")]);
    assert_eq!(roles(&m), vec!["system", "user", "assistant", "user"]);
    assert_eq!(m[3].content, "now");
}

#[test]
fn cutting_keeps_the_messages_of_the_system() {
    let big = "x".repeat(1_000_000);
    let mut m = vec![say("system", "a"), say("user", &big), say("system", "b"), say("user", "q")];
    truncate_history(&mut m);
    assert_eq!(
        m.iter().map(|x| x.content.as_str()).collect::<Vec<_>>(),
        vec!["a", "b", "q"]
    );
    assert_eq!(estimated_tokens(&m), 0);
    let mut m = vec![say("user", "a"), say("user", "b"), say("user", "c")];
    truncate_history(&mut m);
    assert_eq!(m.len(), 3);
}

#[test]
fn short_messages_look_nothing_up() {
    assert!(is_too_short("hi there"));
    assert!(!is_too_short("a b c d"));
    assert!(!is_too_short("a-very-long-single-word-indeed"));
    assert_eq!(first_title(&"t".repeat(100)).len(), 80);
}

#[test]
fn what_is_known_is_hinted_at() {
    assert_eq!(index_hint(&vec![]), None);
    let items: Vec<(String, String)> =
        (0..7).map(|i| ("file".to_string(), format!("t{}", i))).collect();
    let h = index_hint(&items).unwrap();
    assert!(h.ends_with("1. [file] t0\n2. [file] t1\n3. [file] t2\n4. [file] t3\n5. [file] t4\n"));
}

#[test]
fn the_user_is_introduced() {
    let mut m = vec![say("user", "q")];
    add_user_note(&mut m, &vec![]);
    assert_eq!(m.len(), 1);
    add_user_note(
        &mut m,
        &vec![("Name".to_string(), "Ada".to_string()), ("shoe".to_string(), "42".to_string())],
    );
    assert_eq!(m.len(), 2);
    assert!(m.iter().any(|x| x.content.contains("\u{2022} Name: Ada")), "{:?}", m);
    assert!(!m.iter().any(|x| x.content.contains("42")));
}

#[test]
fn plugins_are_asked_for_by_their_words() {
    assert!(asks_for_plugins("Which PLUGIN can do this?"));
    assert!(!asks_for_plugins("what is the weather"));
}

#[test]
fn a_prompt_is_put_together() {
    let parts = PromptParts {
        curated_context: None,
        history: vec![say("user", "earlier")],
        project_instructions: Some("be nice".to_string()),
        system_prompt: Some("you are Rook".to_string()),
        active_plugins: vec![ActivePlugin {
            name: "git".to_string(),
            plugin_type: "mcp".to_string(),
            description: None,
        }],
        fitting_plugins: vec![],
        user_facts: vec![],
    };
    let (m, w) = compose_prompt("How does this parser work in detail?", parts).unwrap();
    assert!(w.is_empty());
    let n = m.len();
    assert_eq!(m[0].content, "you are Rook");
    assert_eq!(m[1].content, "# Project Instructions\n\nbe nice");
    assert_eq!(m[n - 3].content, "earlier");
    assert_eq!(m[n - 2].content, "How does this parser work in detail?");
    assert_eq!(
        m[n - 1].content,
        "# Active Plugins\nThe following plugins are installed and enabled:\n- git [mcp]: (no description)\nYou may reference these plugins when answering questions or suggesting tools."
    );
    let none = PromptParts {
        curated_context: None,
        history: vec![],
        project_instructions: None,
        system_prompt: None,
        active_plugins: vec![],
        fitting_plugins: vec![],
        user_facts: vec![],
    };
    assert!(compose_prompt("   ", none).is_err());
}

fn config() -> LLMConfig {
    LLMConfig {
        base_url: "https://x/v1".to_string(),
        api_key: "k".to_string(),
        model: "m".to_string(),
        max_tokens: 1,
        temperature: FloatBits { bits: 0.5f32.to_bits() },
        embedding_provider: EmbeddingProvider::Mock,
        embedding_base_url: String::new(),
        embedding_model: String::new(),
        embedding_api_key: String::new(),
    }
}

#[test]
fn a_mode_has_its_own_length() {
    let c = effective_config(config(), "Team", None, None);
    assert_eq!(c.max_tokens, mode_max_tokens("Team"));
    let c = effective_config(config(), "Team", Some(77), Some(FloatBits { bits: 0 }));
    assert_eq!(c.max_tokens, 77);
    assert_eq!(c.temperature.bits, 0);
}

#[test]
fn trivial_questions_are_chatted_about() {
    assert!(is_trivial_query("hello"));
    assert!(!is_trivial_query("please refactor the function in src/main.rs for me"));
    assert!(matches!(route_chat(Some("Team"), "hello"), ChatRoute::Chat));
    assert!(matches!(route_chat(Some("Coder"), "hello"), ChatRoute::Coder));
    assert!(matches!(
        route_chat(Some("Team"), "please refactor the function in src/main.rs for me"),
        ChatRoute::Team
    ));
    assert!(matches!(route_chat(Some("Poet"), "hello"), ChatRoute::Other));
}

#[test]
fn providers_are_known_by_their_address() {
    assert_eq!(detect_provider("https://API.openai.com/v1"), "openai");
    assert!(needs_local_server(Some("gemma3:4b")));
    assert!(!needs_local_server(None));
}

// ---- context

#[test]
fn things_looked_up_together_are_linked() {
    let item = |id: &str| object(vec![("node_id", id)]);
    let packet = Some(Json::Object(vec![(
        "memory".to_string(),
        Json::List(vec![
            item("a"),
            Json::Null,
            item("b"),
            item("c"),
            item("d"),
            item("e"),
        ]),
    )]));
    assert_eq!(retrieved_ids(&packet), vec!["a", "b", "c", "d"]);
    assert!(retrieved_ids(&None).is_empty());
    assert_eq!(related_pairs(3), vec![(0, 1), (0, 2), (1, 2)]);
    assert!(related_pairs(1).is_empty());
    assert!(matches!(
        context_curated("1", "c", &None),
        IPCResponse::ContextCurated { nodes: Json::List(l), .. } if l.is_empty()
    ));
    assert!(matches!(
        context_curated("1", "c", &packet),
        IPCResponse::ContextCurated { nodes: Json::List(l), .. } if l.len() == 6
    ));
}

#[test]
fn facts_about_the_user_are_told() {
    let r = user_facts_loaded("1", "c", &vec![("name".to_string(), "Ada".to_string())]);
    match r {
        IPCResponse::UserFactsLoaded { facts, .. } => {
            assert_eq!(facts[0].text_at("key").as_deref(), Some("name"));
            assert_eq!(facts[0].text_at("value").as_deref(), Some("Ada"));
        }
        _ => panic!("another answer"),
    }
}

#[test]
fn plugins_in_use_are_those_installed_and_enabled() {
    let p = |n: &str| ActivePlugin {
        name: n.to_string(),
        plugin_type: "mcp".to_string(),
        description: None,
    };
    let r = |n: &str, installed: bool, enabled: bool| RegisteredPlugin {
        plugin: p(n),
        installed,
        enabled,
    };
    let l = active_plugins(
        vec![p("s")],
        vec![r("a", true, true), r("b", true, false), r("c", false, true), r("d", true, true)],
    );
    assert_eq!(l.iter().map(|x| x.name.as_str()).collect::<Vec<_>>(), vec!["s", "a", "d"]);
}

#[test]
fn a_missing_local_server_is_reported() {
    assert!(local_server_problem("1", &Ok(true)).is_none());
    assert!(matches!(
        local_server_problem("1", &Ok(false)),
        Some(IPCResponse::Error { message, .. }) if message.starts_with("Not enough free RAM")
    ));
    assert!(matches!(
        local_server_problem("1", &Err("x".to_string())),
        Some(IPCResponse::Error { message, .. }) if message == "Failed to start Ollama: x"
    ));
}

// ---- modes

#[test]
fn a_chat_begins_with_its_rules() {
    let m = chat_messages(vec![say("user", "q")]);
    assert_eq!(roles(&m), vec!["system", "user"]);
    assert_eq!(m[0].content, CHAT_SYSTEM);
}

#[test]
fn a_replay_is_the_whole_text() {
    for t in ["", "one", "one two  three\nfour ", " lead"] {
        assert_eq!(tokens(replay(t)).concat(), t);
    }
}

#[test]
fn warnings_come_with_the_reply() {
    assert_eq!(add_warnings("r".to_string(), &vec![]), "r");
    let w = add_warnings("r".to_string(), &vec!["cut".to_string()]);
    assert!(w.contains("cut") && w.contains("r"), "{}", w);
    assert_eq!(guard_reply("fine".to_string(), &vec![]), "fine");
}

#[test]
fn a_chat_ends_with_its_usage() {
    let mut r = Reply::new();
    let _ = r.apply_chunk(&chunk(Some("done"), None));
    let end = finish_chat("1", "c", r, None, &vec![]);
    assert_eq!(end.content, "done");
    assert!(end.distill);
    assert!(matches!(end.last, IPCResponse::ChatDone { .. }));
    let end = finish_chat("1", "c", Reply::new(), Some(&whole("w x")), &vec![]);
    assert_eq!(end.content, "w x");
    assert_eq!(tokens(end.outs).concat(), "w x");
    let (a, b) = cancelled("1", "c");
    assert!(matches!(a, IPCResponse::Cancelled { target_id, .. } if target_id == "1"));
    assert!(matches!(b, IPCResponse::ChatDone { usage: None, .. }));
}

fn object(members: Vec<(&str, &str)>) -> Json {
    Json::Object(
        members.into_iter().map(|(k, v)| (k.to_string(), Json::Text(v.to_string()))).collect(),
    )
}

#[test]
fn edits_are_shown_before_they_are_made() {
    let args = object(vec![("action", "search_replace"), ("search", "a"), ("replace", "b")]);
    assert_eq!(simulate_edit("a a", &args), "b a");
    let args = object(vec![("action", "append"), ("content", "end")]);
    assert_eq!(simulate_edit("x\n\n", &args), "x\nend");
    let args = object(vec![("action", "create")]);
    assert_eq!(simulate_edit("x", &args), "x");
    assert_eq!(arg_text(&args, "nothing"), "");
    let p = pending_edit("terminal_execute", object(vec![("command", "ls")]), "");
    assert_eq!(p.diff, "$ ls");
    let p = pending_edit("code_edit", object(vec![("path", "f")]), "-a\n+b");
    assert_eq!((p.path.as_str(), p.diff.as_str()), ("f", "-a\n+b"));
    assert_eq!(coder_tools().len(), 2);
}

#[test]
fn proposed_calls_wait() {
    let diffs = vec![pending_edit("code_edit", object(vec![]), "d")];
    let end = finish_coder("1", "c", &whole("text"), Some(diffs), None, &vec![]);
    assert!(end.pending && !end.distill);
    assert!(matches!(end.last, IPCResponse::PendingToolApproval { diffs, .. } if diffs.len() == 1));
    let end = finish_coder("1", "c", &whole("text"), None, None, &vec![]);
    assert!(!end.pending && end.distill);
    assert!(matches!(end.last, IPCResponse::Chat { content, .. } if content == "text"));
}

#[test]
fn a_team_is_told_what_is_known() {
    assert_eq!(context_text(None), None);
    let node = object(vec![("title", "T"), ("node_type", "file"), ("summary", "S")]);
    let packet = Json::Object(vec![("memory".to_string(), Json::List(vec![node]))]);
    let t = context_text(Some(&packet)).unwrap();
    assert_eq!(
        t,
        "## Relevant prior context (from memory graph)\n\n1. [file] T\n   S\n\nUse this context but verify before relying on it.\n"
    );
    let (m, top) = team_messages(vec![say("user", "q")], Some(t), "/w");
    assert_eq!((m.len(), top), (4, 3));
    let m = show_todos(&m, top, "todo");
    assert_eq!(roles(&m), vec!["system", "system", "system", "system", "user"]);
    assert_eq!(m[1].content, "Current working directory: /w");
    assert_eq!(m[3].content, "todo");
    assert_eq!(team_model(None, "GPT-4"), "gpt-4");
    assert!(tools_supported("gpt-4", None));
    assert!(!tools_supported("bard-1", None));
    assert!(!tools_supported("gpt-4", Some("1")));
    assert_eq!(
        no_tools_note("m"),
        "*note: tool calls disabled for `m` - reasoning-only mode.*\n\n"
    );
}

#[test]
fn a_team_works_until_no_call_is_left() {
    let mut team = Team::new(vec![say("user", "q")], build_all_tools());
    let all = match team.begin() {
        TeamStep::Ask(t) => t.len(),
        TeamStep::Stop(_) => 0,
    };
    assert_eq!(all, build_all_tools().len());
    let mut r = Reply::new();
    let _ = r.apply_chunk(&chunk(Some("let me see"), None));
    r.calls.note(&piece(0, Some("1"), Some("file_write"), Some("{ \"path\" : \"a\" }")));
    let (outs, calls) = team.on_reply(r);
    assert!(outs.is_empty());
    assert_eq!(calls.len(), 1);
    assert_eq!(team.start_call(&calls[0]), "\n[[TOOL:file_write:{\"path\":\"a\"}]]\n");
    assert_eq!(team.on_result(&calls[0], "Error: no"), Some("[[TERR:file_write]]".to_string()));
    assert_eq!(
        team.content,
        "let me see\n[[TOOL:file_write:{\"path\":\"a\"}]]\n[[TERR:file_write]]"
    );
    assert_eq!(roles(&team.messages), vec!["user", "assistant", "tool"]);
    match team.begin() {
        TeamStep::Ask(t) => {
            assert!(t.len() < all);
            assert!(t.iter().any(|x| x.function.name == "file_write"));
            assert!(t.iter().any(|x| x.function.name == "search_memory"));
        }
        TeamStep::Stop(_) => panic!("stopped early"),
    }
    let (_, calls) = team.on_reply(Reply::new());
    assert!(calls.is_empty());
    let (kept, last) = team.finish("1", "c", &vec![]);
    assert!(kept.starts_with("let me see"));
    assert!(matches!(last, IPCResponse::ChatDone { .. }));
}

#[test]
fn a_team_stops_in_the_end() {
    let mut team = Team::new(vec![], vec![]);
    for _ in 0..MAX_ITERATIONS {
        assert!(matches!(team.begin(), TeamStep::Ask(_)));
    }
    assert!(matches!(team.begin(), TeamStep::Stop(t) if t == TOO_MANY));
}

#[test]
fn arguments_that_are_no_json_are_marked() {
    let mut team = Team::new(vec![], vec![]);
    let call = ToolCallDefinition {
        id: "1".to_string(),
        call_type: "function".to_string(),
        function: FunctionCall { name: "grep".to_string(), arguments: "{oops".to_string() },
    };
    assert_eq!(team.start_call(&call), "\n[[TOOL:grep:null]]\n");
}

#[test]
fn long_results_are_cut() {
    let long = "y".repeat(12_001);
    let t = trim_result(&long).unwrap();
    assert!(t.ends_with("...\n[truncated - 12001 bytes total]"));
    assert_eq!(t.len(), 12_000 + "...\n[truncated - 12001 bytes total]".len());
    assert_eq!(trim_result("short").as_deref(), Some("short"));
    let inside = format!("{}\u{fc}{}", "y".repeat(11_999), "y".repeat(10));
    assert_eq!(trim_result(&inside), None);
}

#[test]
fn failures_are_explained() {
    assert!(on_failure("needs thought_signature", "m").contains("This model (m) requires"));
    assert_eq!(
        on_failure("boom", "m"),
        "\n\n\u{26a0} Tool call failed: boom\n\nTry rephrasing or switching to Chat mode."
    );
    assert_eq!(cancelled_result("grep"), "Error: tool 'grep' cancelled");
    assert!(timed_out_result("grep").starts_with("Error: tool 'grep' timed out after 120s."));
}

#[test]
fn narrowed_tools_are_those_that_matter() {
    let t = narrow_tools(&build_all_tools(), &vec!["git_log".to_string()]);
    let names: Vec<&str> = t.iter().map(|x| x.function.name.as_str()).collect();
    for n in ["search_memory", "file_read", "grep", "glob", "list_files", "get_cwd", "git_log"] {
        assert!(names.contains(&n), "{}", n);
    }
    assert_eq!(names.len(), 7);
}

#[test]
fn every_schema_is_one_of_an_object() {
    for t in build_all_tools().into_iter().chain(coder_tools()) {
        assert_eq!(t.function.parameters.text_at("type").as_deref(), Some("object"));
        assert!(t.function.parameters.get("properties").is_some(), "{}", t.function.name);
    }
}

#[test]
fn ids_are_random() {
    let a = IPCRequest::generate_id();
    let b = IPCRequest::generate_id();
    assert_ne!(a, b);
    assert_eq!(a.len(), 36);
    assert_eq!(uuid::Uuid::parse_str(&a).unwrap().get_version_num(), 4);
}
