use rook::error_log::{chrono_rfc3339, preview_messages};
use rook::ipc::handlers::chat::modes::{
    chat_done, coder_messages, finish_other_stream, finish_other_whole, other_messages,
    reported_call, said_last, team_distills, CODER_SYSTEM, FILES_HEADER,
};
use rook::ipc::handlers::chat::outline::{format_outline, symbol_of_match, Symbol};
use rook::ipc::handlers::chat::patch::{apply_unified_patch, patch_if_possible};
use rook::ipc::handlers::chat::prompt::{
    can_digest, conversation_history, effective_config, mode_max_tokens,
};
use rook::ipc::handlers::chat::stream::{reply_text, Reply};
use rook::ipc::protocol::{token_usage, IPCResponse};
use rook::ipc::server::RateLimiter;
use rook::json::Json;
use rook::llm::client::{
    failed_call, first_embedding, CallFailure, CallKind, ChatPlan, LLMClient,
};
use rook::llm::types::{
    ChatCompletionResponse, Choice, EmbeddingData, EmbeddingProvider, EmbeddingResponse, FloatBits,
    FunctionCall, LLMConfig, Message, ResponseMessage, ToolCallDefinition, Usage,
};
use rook::order::is_before;
use rook::startup::{merge_config, poll_seconds};

fn config(key: &str) -> LLMConfig {
    LLMConfig {
        base_url: "https://api.example.com/v1".to_string(),
        api_key: key.to_string(),
        model: "big".to_string(),
        max_tokens: 100,
        temperature: FloatBits { bits: 0.5f32.to_bits() },
        embedding_provider: EmbeddingProvider::Mock,
        embedding_base_url: "http://127.0.0.1:11434".to_string(),
        embedding_model: "embed".to_string(),
        embedding_api_key: String::new(),
    }
}

fn user(text: &str) -> Vec<Message> {
    vec![Message::text("user", text.to_string())]
}

fn answer(text: &str) -> ChatCompletionResponse {
    ChatCompletionResponse {
        id: None,
        choices: vec![Choice {
            message: ResponseMessage {
                role: "assistant".to_string(),
                content: Some(Json::Text(text.to_string())),
                tool_calls: None,
            },
            finish_reason: None,
        }],
        usage: Some(Usage { prompt_tokens: 1, completion_tokens: 2, total_tokens: 3 }),
    }
}

#[test]
fn time_stamps_are_in_the_order_of_time() {
    let at: [u64; 9] = [
        0,
        59,
        60,
        86_399,
        86_400,
        951_782_399,
        951_782_400,
        1_700_000_000,
        253_402_300_799,
    ];
    for i in 0..at.len() {
        for j in 0..at.len() {
            let (a, b) = (chrono_rfc3339(at[i]), chrono_rfc3339(at[j]));
            assert_eq!(is_before(&a, &b), i < j, "{} {}", a, b);
        }
    }
    assert_eq!(chrono_rfc3339(951_782_400), "2000-02-29T00:00:00Z");
    assert_eq!(chrono_rfc3339(253_402_300_799), "9999-12-31T23:59:59Z");
}

#[test]
fn a_digest_is_short_and_the_last_turns_stay() {
    let mut raw: Vec<(String, String)> = Vec::new();
    for i in 0..100 {
        raw.push(("user".to_string(), format!("turn {} {}", i, "x".repeat(200))));
    }
    assert!(can_digest(raw.clone()));
    let h = conversation_history(Some(raw.clone()), Vec::new());
    assert_eq!(h.len(), 13);
    assert_eq!(h[0].role, "system");
    assert_eq!(h[0].content.len(), 1804);
    for back in 1..=12 {
        assert_eq!(h[13 - back].content, raw[100 - back].1);
    }
}

#[test]
fn tokens_are_limited_by_the_mode() {
    assert_eq!(mode_max_tokens("Team"), 8192);
    let asked = |n| effective_config(config("k"), "Coder", n, None).max_tokens;
    assert_eq!(asked(None), 4096);
    assert_eq!(asked(Some(7)), 7);
    assert_eq!(asked(Some(5000)), 4096);
}

#[test]
fn a_preview_shows_how_messages_begin() {
    let long = "\u{e9}".repeat(301);
    let p = preview_messages(&user(&long));
    assert_eq!(p.len(), 1);
    assert_eq!(p[0].role, "user");
    assert_eq!(p[0].chars, 602);
    assert_eq!(p[0].head, "\u{e9}".repeat(300));
}

#[test]
fn a_coding_agent_is_told_the_files() {
    let none = coder_messages(user("fix it"), &Vec::new());
    assert_eq!(none.len(), 2);
    assert_eq!(none[0].content, CODER_SYSTEM);
    let files: Vec<String> = (0..8).map(|i| format!("f{}.rs", i)).collect();
    let some = coder_messages(user("fix it"), &files);
    assert_eq!(some.len(), 3);
    assert_eq!(some[1].content, "fix it");
    assert_eq!(some[2].role, "system");
    let listed = "- f0.rs\n- f1.rs\n- f2.rs\n- f3.rs\n- f4.rs\n- f5.rs\n";
    assert_eq!(some[2].content, format!("{}{}", FILES_HEADER, listed));
}

#[test]
fn the_last_thing_said_is_learned_from() {
    let mut m = user("first");
    m.push(Message::text("assistant", "hm".to_string()));
    assert_eq!(said_last(&m), "first");
    m.extend(user("second"));
    assert_eq!(said_last(&m), "second");
    assert_eq!(said_last(&Vec::new()), "");
    assert!(team_distills("a", "b"));
    assert!(!team_distills("", "b"));
    assert!(!team_distills("a", ""));
}

#[test]
fn other_modes_are_named_and_answered() {
    let m = other_messages(user("hi"), "Poet");
    assert_eq!(m[0].role, "system");
    assert_eq!(m[0].content, "Agent mode: Poet");
    assert_eq!(m[1].content, "hi");

    let warnings = vec!["careful.".to_string()];
    let whole = answer("text");
    let (kept, last) =
        finish_other_stream("1", "c", Reply::new(), Some(&whole), &warnings);
    assert_eq!(kept, "[context guard] careful.\n\ntext");
    assert!(matches!(last, IPCResponse::ChatDone { usage: None, .. }));
    let (kept, _) = finish_other_stream("1", "c", Reply::new(), None, &warnings);
    assert_eq!(kept, "");

    let call = ToolCallDefinition {
        id: "x".to_string(),
        call_type: "function".to_string(),
        function: FunctionCall { name: "look".to_string(), arguments: "{".to_string() },
    };
    let reported = reported_call(&call, None);
    assert_eq!(reported.name, "look");
    assert!(matches!(reported.args, Json::Null));
    let (kept, last) =
        finish_other_whole("1", "c", &whole, Some(vec![reported]), None, &Vec::new());
    assert_eq!(kept, "text");
    match last {
        IPCResponse::Chat { content, tool_calls: Some(t), usage: Some(u), .. } => {
            assert_eq!(content, "text");
            assert_eq!(t.len(), 1);
            assert_eq!(u.total_tokens, 3);
        }
        other => panic!("{:?}", other),
    }
    assert!(matches!(chat_done("1", "c", None), IPCResponse::ChatDone { .. }));
    assert_eq!(reply_text(&whole), "text");
    assert_eq!(token_usage(whole.usage).map(|u| u.prompt_tokens), Some(1));
}

#[test]
fn a_whole_reply_is_asked_for_with_and_without_tools() {
    let c = LLMClient::new(config("key"), ());
    match c.chat_for_model(user("hi"), Some("llama3"), "http://local/v1") {
        ChatPlan::Call(call) => {
            assert_eq!(call.url, "http://local/v1/chat/completions");
            assert_eq!(call.authorization, None);
            assert_eq!(call.request.user, None);
            assert_eq!(call.request.model, "llama3");
            assert_eq!(call.kind, CallKind::Local);
        }
        other => panic!("{:?}", other),
    }
    match c.chat_for_model(user("hi"), Some("gpt"), "http://local/v1") {
        ChatPlan::Call(call) => {
            assert_eq!(call.url, "https://api.example.com/v1/chat/completions");
            assert_eq!(call.authorization.as_deref(), Some("Bearer key"));
            assert_eq!(call.request.model, "big");
            assert_eq!(call.kind, CallKind::Chat);
        }
        other => panic!("{:?}", other),
    }
    match c.chat_with_tools(user("hi"), Vec::new()) {
        ChatPlan::Call(call) => {
            assert!(call.request.tools.is_some());
            assert_eq!(call.kind, CallKind::Tools);
            assert_eq!(call.request.stream, Some(false));
            assert!(call.request.user.is_some());
        }
        other => panic!("{:?}", other),
    }
    let mock = LLMClient::new(config(" "), ());
    assert!(matches!(mock.chat_with_tools(user("hi"), Vec::new()), ChatPlan::Mock(_)));
    assert!(matches!(
        mock.chat_with_tools_for_model(user("hi"), Vec::new(), Some("a:b"), "http://l/v1"),
        ChatPlan::Call(_)
    ));
    assert_eq!(c.base_config().model, "big");
    let refused = |kind: CallKind| {
        failed_call(kind, CallFailure::Refused { status: "500".to_string(), body: "oops".to_string() })
    };
    assert_eq!(refused(CallKind::Tools), "LLM returned 500: oops");
    assert_eq!(refused(CallKind::Local), "Ollama returned 500: oops");
    assert_eq!(refused(CallKind::Override), "LLM override returned 500: oops");
    assert_eq!(refused(CallKind::Stream), "LLM API returned 500: oops");
    let unsent = |kind: CallKind| failed_call(kind, CallFailure::Unsent { error: "e".to_string() });
    assert_eq!(unsent(CallKind::Chat), "e");
    assert_eq!(unsent(CallKind::Local), "Ollama request failed");
    assert_eq!(unsent(CallKind::Stream), "stream request");
    assert_eq!(unsent(CallKind::StreamTools), "stream+tools request");
    assert_eq!(unsent(CallKind::Tools), "chat_with_tools request");
    let unread = |kind: CallKind| failed_call(kind, CallFailure::Unread { error: "e".to_string() });
    assert_eq!(unread(CallKind::Chat), "e");
    assert_eq!(unread(CallKind::Local), "Ollama JSON parse");
    assert_eq!(unread(CallKind::Override), "override JSON parse");
    assert_eq!(unread(CallKind::Tools), "chat_with_tools JSON parse");
    let data = |v: u8| EmbeddingData { embedding: vec![v], index: 0 };
    assert_eq!(
        first_embedding(EmbeddingResponse { data: vec![data(1), data(2)] }),
        Ok(vec![1u8])
    );
    assert_eq!(
        first_embedding(EmbeddingResponse::<u8> { data: Vec::new() }),
        Err("No embedding data returned".to_string())
    );
}

#[test]
fn an_outline_lists_symbols() {
    let found = (Some("run".to_string()), None);
    let s = symbol_of_match(4, "fn", found).unwrap();
    assert_eq!((s.line, s.label.as_str(), s.name.as_str()), (4, "fn", "run"));
    assert!(symbol_of_match(4, "fn", (None, None)).is_none());
    let l = vec![Symbol { line: 4, label: "fn".to_string(), name: "run".to_string() }];
    assert!(format_outline("a.rs", &l).contains("run"));
}

#[test]
fn an_empty_range_is_put_behind_its_line() {
    let patched = |o: &str, p: &str| patch_if_possible(o, p).unwrap().unwrap();
    assert_eq!(patched("a\nb\nc\n", "@@ -2,0 +3 @@\n+x\n"), "a\nb\nx\nc\n");
    assert_eq!(patched("a\nb\nc\n", "@@ -0,0 +1,2 @@\n+x\n+y\n"), "x\ny\na\nb\nc\n");
    assert_eq!(patched("a\nb\nc\n", "@@ -3,0 +4 @@\n+x\n"), "a\nb\nc\nx\n");
    assert_eq!(
        patched("a\nb\nc\n", "@@ -1,1 +0,0 @@\n-a\n@@ -2,0 +2 @@\n+x\n"),
        "b\nx\nc\n"
    );
    assert_eq!(patched("", "@@ -0,0 +1 @@\n+x\n"), "x");
}

#[test]
fn a_patch_that_fits_is_applied() {
    let patch = "@@ -1,2 +1,2 @@\n one\n-two\n+2\n";
    assert_eq!(apply_unified_patch("one\ntwo\n", patch), Ok("one\n2\n".to_string()));
    assert_eq!(
        patch_if_possible("one\ntwo\n", patch),
        Some(Ok("one\n2\n".to_string()))
    );
}

#[test]
fn a_limiter_counts() {
    let mut l = RateLimiter::new();
    for _ in 0..60 {
        assert!(l.let_in(5));
    }
    assert!(!l.let_in(5));
    assert!(!l.let_in(1_000));
    assert!(l.let_in(1_005));
}

#[test]
fn the_window_slides() {
    let mut l = RateLimiter::new();
    for _ in 0..60 {
        assert!(l.let_in(999));
    }
    assert!(!l.let_in(1_000));
    assert!(!l.let_in(1_998));
    assert!(l.let_in(1_999));
    let mut l = RateLimiter::new();
    let taken: Vec<u64> = (0..3_000).filter(|t| l.let_in(*t)).collect();
    assert_eq!(taken.len(), 180);
    assert!(taken.windows(61).all(|w| w[60] - w[0] >= 1_000));
}

#[test]
fn saving_twice_is_saving_once() {
    let mut c = config("");
    let saved = || {
        let mut s = config("saved");
        s.model = "  ".to_string();
        s
    };
    merge_config(&mut c, Some(saved()));
    assert_eq!((c.api_key.as_str(), c.model.as_str()), ("saved", "big"));
    merge_config(&mut c, Some(saved()));
    assert_eq!((c.api_key.as_str(), c.model.as_str()), ("saved", "big"));
    merge_config(&mut c, None);
    assert_eq!(c.api_key, "saved");
    assert_eq!(poll_seconds(&Some("5".to_string())), 5);
    assert_eq!(poll_seconds(&Some("often".to_string())), 30);
    assert_eq!(poll_seconds(&None), 30);
}
