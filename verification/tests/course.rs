use rook::computer_use::actions::{press_of, pressed, typed, Press, WINDOWS_ONLY};
use rook::computer_use::uia::{snapshot_foreground, snapshot_window};
use rook::error_log::{record, ErrorContext, PromptPreviewEntry};
use rook::ipc::handlers::chat::coder::handle_coder_mode;
use rook::ipc::handlers::chat::context::RegisteredPlugin;
use rook::ipc::handlers::chat::course::{
    handle_chat, ChatAction, ChatAsk, ChatEvent, ChatStart, Course, Hit, Stage,
};
use rook::ipc::handlers::chat::grep::{is_reached, run_builtin_grep, WalkedFile, MAX_DEPTH};
use rook::ipc::handlers::chat::modes::{CHAT_SYSTEM, CODER_SYSTEM, MAX_ITERATIONS, TOO_MANY};
use rook::ipc::handlers::chat::prompt::{ActivePlugin, ChatRoute};
use rook::ipc::handlers::chat::stream::StreamOut;
use rook::ipc::handlers::chat::team::{handle_team_mode, TeamEvent, TeamNext, TeamTurn};
use rook::ipc::handlers::chat::turns::{
    handle_chat_mode, handle_streaming_fallback, Manner, TurnEvent, TurnStep, WholeCall,
};
use rook::ipc::protocol::{IPCRequest, IPCResponse};
use rook::ipc::server::{handle_connection, Cancellations, LineAction, RateLimiter, RequestStep};
use rook::json::{Json, Number};
use rook::llm::types::{
    ChatCompletionResponse, Choice, EmbeddingProvider, FloatBits, FunctionCall, LLMConfig, Message,
    ResponseMessage, StreamChoice, StreamChunkResponse, StreamDelta, ToolCallDefinition, Usage,
};

fn s(t: &str) -> String {
    t.to_string()
}

fn ask(message: &str) -> ChatAsk {
    ChatAsk {
        id: s("1"),
        conversation_id: Some(s("c")),
        message: s(message),
        agent_mode: None,
        model: None,
        system_prompt: None,
        temperature: None,
        max_tokens: None,
    }
}

fn config() -> LLMConfig {
    LLMConfig {
        base_url: s("http://x"),
        api_key: s("k"),
        model: s("m"),
        max_tokens: 1,
        temperature: FloatBits { bits: 7 },
        embedding_provider: EmbeddingProvider::Mock,
        embedding_base_url: s(""),
        embedding_model: s(""),
        embedding_api_key: s(""),
    }
}

fn turns() -> ChatEvent {
    ChatEvent::Turns { stored: Some(vec![(s("user"), s("before"))]), latest: Vec::new() }
}

fn plugins() -> ChatEvent {
    ChatEvent::Plugins { servers: Vec::new(), registered: Vec::new(), fitting: Vec::new() }
}

/// Takes a chat on until the facts are told.
fn to_facts_told(c: &mut Course, hits: Vec<Hit>) {
    assert!(matches!(c.step(turns()), ChatAction::Keep { .. }));
    if let ChatAction::LookUp { pool, most, .. } = c.step(ChatEvent::Done) {
        assert_eq!((pool, most), (24, 5));
        let told = c.step(ChatEvent::Hits { found: Ok(hits) });
        assert!(matches!(
            told,
            ChatAction::Tell { response: IPCResponse::ContextCurated { .. } }
        ));
    }
    assert_eq!(c.stage, Stage::ContextTold);
    assert!(matches!(c.step(ChatEvent::Done), ChatAction::LoadFacts));
    let told = c.step(ChatEvent::Facts { facts: vec![(s("name"), s("Ada"))] });
    assert!(matches!(told, ChatAction::Tell { response: IPCResponse::UserFactsLoaded { .. } }));
}

/// Takes a chat on until the plugins are awaited.
fn to_plugins(c: &mut Course, hits: Vec<Hit>) {
    to_facts_told(c, hits);
    assert!(matches!(c.step(ChatEvent::Done), ChatAction::LoadPlugins { .. }));
}

fn started(a: ChatAction) -> ChatStart {
    match a {
        ChatAction::Run { start } => start,
        other => panic!("{:?}", other),
    }
}

#[test]
fn a_short_message_goes_straight_to_the_model() {
    let (mut c, first) = handle_chat(ask("hi"), Some(s("be kind")));
    assert!(matches!(first, ChatAction::LoadTurns { conv_id } if conv_id == "c"));
    to_plugins(&mut c, Vec::new());
    assert!(matches!(c.step(plugins()), ChatAction::LoadConfig));
    let start = started(c.step(ChatEvent::Config { config: config() }));
    assert_eq!(start.route, ChatRoute::Chat);
    assert_eq!(start.mode, "Chat");
    assert_eq!(start.config.max_tokens, 2048);
    assert_eq!(start.config.temperature.bits, 7);
    assert!(start.packet.is_none());
    let contents: Vec<&str> = start.messages.iter().map(|m| m.content.as_str()).collect();
    assert_eq!(contents[0], "# Project Instructions\n\nbe kind");
    assert_eq!(contents[2], "before");
    assert_eq!(contents[3], "hi");
    assert_eq!(contents[4], "# User (essentials)\n\u{2022} name: Ada");
}

#[test]
fn the_newest_turns_are_sent_of_a_long_conversation() {
    let (mut c, _) = handle_chat(ask("hi"), None);
    let all: Vec<(String, String)> = (0..300).map(|i| (s("user"), format!("m{}", i))).collect();
    c.step(ChatEvent::Turns { stored: Some(all), latest: Vec::new() });
    assert_eq!(c.history.len(), 13);
    assert!(c.history[0].content.starts_with("Earlier in this conversation"));
    assert!(c.history[0].content.contains("- user: m0\n- user: m1\n"));
    let said: Vec<String> = c.history[1..].iter().map(|m| m.content.clone()).collect();
    assert_eq!(said, (288..300).map(|i| format!("m{}", i)).collect::<Vec<_>>());
}

#[test]
fn what_is_looked_up_is_told_hinted_at_and_linked() {
    let node = |id: &str| Hit {
        node_type: s("file"),
        title: s(id),
        node: Json::Object(vec![(s("node_id"), Json::Text(s(id)))]),
    };
    let mut a = ask("how does the parser read long numbers?");
    a.agent_mode = Some(s("Team"));
    a.max_tokens = Some(10);
    let (mut c, _) = handle_chat(a, None);
    to_plugins(&mut c, vec![node("a"), node("b")]);
    match c.step(plugins()) {
        ChatAction::Link { ids, pairs, link } => {
            assert_eq!(ids, vec![s("a"), s("b")]);
            assert_eq!(link.relationship, "relates_to");
            assert_eq!(f64::from_bits(link.strength), 0.3);
            assert_eq!(pairs, vec![(0, 1)]);
        }
        other => panic!("{:?}", other),
    }
    assert!(matches!(c.step(ChatEvent::Done), ChatAction::LoadConfig));
    let start = started(c.step(ChatEvent::Config { config: config() }));
    assert_eq!(start.route, ChatRoute::Team);
    assert_eq!(start.config.max_tokens, 10);
    assert!(start.packet.is_some());
    assert!(start.messages.iter().any(|m| m.content.contains("1. [file] a\n2. [file] b\n")));
}

#[test]
fn a_failed_look_up_is_passed_over() {
    let (mut c, _) = handle_chat(ask("how does the parser read long numbers?"), None);
    c.step(turns());
    c.step(ChatEvent::Done);
    match c.step(ChatEvent::Hits { found: Err(s("no")) }) {
        ChatAction::Tell { response: IPCResponse::ContextCurated { nodes, .. } } => {
            assert!(matches!(nodes, Json::List(l) if l.is_empty()));
        }
        other => panic!("{:?}", other),
    }
    assert!(c.hint.is_none() && c.packet.is_none());
}

#[test]
fn a_blank_message_fails() {
    let (mut c, _) = handle_chat(ask("  "), None);
    to_facts_told(&mut c, Vec::new());
    match c.step(ChatEvent::Done) {
        ChatAction::Fail { problem } => assert_eq!(problem, "Message is empty after trimming"),
        other => panic!("{:?}", other),
    }
    assert_eq!(c.stage, Stage::Over);
}

#[test]
fn a_local_model_needs_its_server() {
    let begin = || {
        let mut a = ask("hi");
        a.model = Some(s("Gemma-2"));
        a.conversation_id = None;
        let (mut c, _) = handle_chat(a, None);
        assert_eq!(c.conv_id.len(), 36);
        to_plugins(&mut c, Vec::new());
        assert!(matches!(c.step(plugins()), ChatAction::StartLocal));
        c
    };
    assert!(matches!(begin().step(ChatEvent::Local { outcome: Ok(true) }), ChatAction::LoadConfig));
    match begin().step(ChatEvent::Local { outcome: Err(s("no such file")) }) {
        ChatAction::Answer { response: IPCResponse::Error { id, message } } => {
            assert_eq!(id, "1");
            assert_eq!(message, "Failed to start Ollama: no such file");
        }
        other => panic!("{:?}", other),
    }
    assert!(matches!(
        begin().step(ChatEvent::Local { outcome: Ok(false) }),
        ChatAction::Answer { .. }
    ));
}

#[test]
fn usable_plugins_are_told_of() {
    let plugin = |n: &str| ActivePlugin { name: s(n), plugin_type: s("mcp"), description: None };
    let (mut c, _) = handle_chat(ask("hi"), None);
    to_plugins(&mut c, Vec::new());
    c.step(ChatEvent::Plugins {
        servers: vec![plugin("one")],
        registered: vec![
            RegisteredPlugin { plugin: plugin("two"), installed: true, enabled: true },
            RegisteredPlugin { plugin: plugin("three"), installed: true, enabled: false },
        ],
        fitting: Vec::new(),
    });
    let note = c.messages.iter().find(|m| m.content.starts_with("# Active Plugins")).unwrap();
    assert!(note.content.contains("- one [mcp]: (no description)\n- two [mcp]"));
    assert!(!note.content.contains("three"));
}

fn user(text: &str) -> Vec<Message> {
    vec![Message::text("user", s(text))]
}

fn chunk(text: Option<&str>, thought: Option<&str>) -> StreamChunkResponse {
    StreamChunkResponse {
        choices: vec![StreamChoice {
            delta: Some(StreamDelta {
                content: text.map(s),
                role: None,
                reasoning: thought.map(s),
                reasoning_content: None,
                tool_calls: None,
            }),
            finish_reason: None,
        }],
        usage: None,
    }
}

fn whole(text: &str, calls: Option<Vec<ToolCallDefinition>>) -> ChatCompletionResponse {
    ChatCompletionResponse {
        id: None,
        choices: vec![Choice {
            message: ResponseMessage {
                role: s("assistant"),
                content: Some(Json::Text(s(text))),
                tool_calls: calls,
            },
            finish_reason: None,
        }],
        usage: Some(Usage { prompt_tokens: 1, completion_tokens: 2, total_tokens: 3 }),
    }
}

fn call(name: &str, args: &str) -> ToolCallDefinition {
    ToolCallDefinition {
        id: s("call_0"),
        call_type: s("function"),
        function: FunctionCall { name: s(name), arguments: s(args) },
    }
}

fn sent(outs: &[StreamOut]) -> Vec<String> {
    outs.iter()
        .map(|o| match o {
            StreamOut::Token(t) => t.clone(),
            StreamOut::Thinking(t) => format!("<{}>", t),
        })
        .collect()
}

#[test]
fn a_plain_chat_is_streamed_and_kept() {
    let mut t = handle_chat_mode("1", "c", user("hi"), vec![s("careful.")]);
    assert_eq!(t.request()[0].content, CHAT_SYSTEM);
    let (outs, step) = t.on_event(TurnEvent::Chunk { chunk: chunk(None, Some("hm")) });
    assert!(outs.is_empty() && matches!(step, TurnStep::Read));
    let (outs, _) = t.on_event(TurnEvent::Chunk { chunk: chunk(Some("hey"), None) });
    assert_eq!(sent(&outs), vec!["<hm>", "hey"]);
    let (outs, step) = t.on_event(TurnEvent::Ended { whole: None });
    assert!(outs.is_empty());
    match step {
        TurnStep::End { content, distill, title, last } => {
            assert_eq!(content, "[context guard] careful.\n\nhey");
            assert!(distill && title);
            assert!(matches!(last, IPCResponse::ChatDone { usage: None, .. }));
        }
        other => panic!("{:?}", other),
    }
}

#[test]
fn a_refused_stream_is_followed_by_a_whole_answer() {
    let mut t = handle_chat_mode("1", "c", user("hi"), Vec::new());
    let (_, step) = t.on_event(TurnEvent::Refused { problem: s("500") });
    match step {
        TurnStep::Ask { call, messages, note } => {
            assert_eq!(call, WholeCall::Chat);
            assert_eq!(messages.len(), 2);
            assert_eq!(note.as_deref(), Some("500"));
        }
        other => panic!("{:?}", other),
    }
    let (outs, step) =
        t.on_event(TurnEvent::Whole { reply: whole("a b", None), args: Vec::new() });
    assert_eq!(sent(&outs), vec!["a ", "b"]);
    match step {
        TurnStep::End { content, last: IPCResponse::ChatDone { usage: Some(u), .. }, .. } => {
            assert_eq!((content.as_str(), u.total_tokens), ("a b", 3));
        }
        other => panic!("{:?}", other),
    }
    let (_, step) = t.on_event(TurnEvent::Failed { problem: s("gone") });
    assert!(matches!(step, TurnStep::Fail { problem } if problem == "gone"));
}

#[test]
fn what_is_left_of_a_stream_may_be_a_reply() {
    let left = || TurnEvent::Ended { whole: Some(whole("a b", None)) };
    let mut t = handle_chat_mode("1", "c", user("hi"), Vec::new());
    let (outs, step) = t.on_event(left());
    assert_eq!(sent(&outs), vec!["a ", "b"]);
    assert!(matches!(step, TurnStep::End { content, .. } if content == "a b"));
    let mut t = handle_chat_mode("1", "c", user("hi"), Vec::new());
    t.on_event(TurnEvent::Chunk { chunk: chunk(Some("hey"), None) });
    let (outs, step) = t.on_event(left());
    assert!(outs.is_empty());
    assert!(matches!(step, TurnStep::End { content, .. } if content == "hey"));
    let mut t = team();
    t.on_event(TeamEvent::Begin { todos: s("") });
    t.on_event(TeamEvent::Chunk { chunk: chunk(Some("hey"), None) });
    let (_, next) = t.on_event(TeamEvent::Ended { whole: Some(whole("a b", None)) });
    assert!(matches!(next, TeamNext::End { content, .. } if content == "hey"));
    let mut t = team();
    t.on_event(TeamEvent::Begin { todos: s("") });
    let (outs, next) = t.on_event(TeamEvent::Ended { whole: Some(whole("a b", None)) });
    assert_eq!(sent(&outs), vec!["a ", "b"]);
    assert!(matches!(next, TeamNext::End { content, .. } if content == "a b"));
}

#[test]
fn a_cancelled_turn_is_given_up() {
    let mut t = handle_chat_mode("1", "c", user("hi"), Vec::new());
    t.on_event(TurnEvent::Chunk { chunk: chunk(None, Some("hm")) });
    let (outs, step) = t.on_event(TurnEvent::Cancelled);
    assert_eq!(sent(&outs), vec!["<hm>"]);
    assert!(matches!(
        step,
        TurnStep::GiveUp { told: IPCResponse::Cancelled { .. }, last: IPCResponse::ChatDone { .. } }
    ));
}

#[test]
fn a_mode_without_rules_reports_calls() {
    let packet = Some(Json::Bool(true));
    let mut t = handle_streaming_fallback("1", "c", user("hi"), Vec::new(), packet, "Poet");
    assert_eq!(t.request()[0].content, "Agent mode: Poet");
    let (_, step) = t.on_event(TurnEvent::NoStream);
    assert!(matches!(step, TurnStep::Ask { call: WholeCall::ChatForModel, note: None, .. }));
    assert_eq!(Manner::Chat.whole_call(), WholeCall::Chat);
    assert_eq!(Manner::Other.whole_call(), WholeCall::ChatForModel);
    let reply = whole("text", Some(vec![call("look", "{}")]));
    let args = vec![Json::Object(Vec::new())];
    let (outs, step) = t.on_event(TurnEvent::Whole { reply, args });
    assert!(outs.is_empty());
    match step {
        TurnStep::End { content, distill, title, last } => {
            assert_eq!(content, "text");
            assert!(!distill && !title);
            match last {
                IPCResponse::Chat { tool_calls: Some(c), context_packet: Some(p), .. } => {
                    assert_eq!((c.len(), c[0].name.as_str()), (1, "look"));
                    assert!(matches!(p, Json::Bool(true)));
                }
                other => panic!("{:?}", other),
            }
        }
        other => panic!("{:?}", other),
    }
}

#[test]
fn a_coding_agent_waits_for_approval() {
    let (mut t, query) = handle_coder_mode("1", "c", user("fix it"), Vec::new(), None);
    assert_eq!(query, "fix it");
    let (messages, tools) = t.on_files(&vec![s("a.rs")]);
    assert_eq!(messages[0].content, CODER_SYSTEM);
    assert_eq!(messages.len(), 3);
    assert_eq!(tools.len(), 2);
    let (told, last) = t.on_cancelled();
    assert!(matches!(told, IPCResponse::Cancelled { .. }));
    assert!(matches!(last, IPCResponse::ChatDone { .. }));
    let args = vec![
        Json::Object(vec![(s("path"), Json::Text(s("a.rs")))]),
        Json::Object(vec![(s("command"), Json::Text(s("ls")))]),
    ];
    let reply = whole("so", Some(vec![call("code_edit", "{}"), call("terminal_execute", "{}")]));
    let done = t.on_reply(&reply, &args, &vec![s("- x"), s("")]);
    assert!(!done.distill);
    let pending = done.pending.unwrap();
    assert_eq!((pending[0].path.as_str(), pending[0].diff.as_str()), ("a.rs", "- x"));
    assert_eq!(pending[1].diff, "$ ls");
    assert!(matches!(done.last, IPCResponse::PendingToolApproval { diffs, .. } if diffs.len() == 2));

    let (t, _) = handle_coder_mode("1", "c", user("why?"), Vec::new(), None);
    let done = t.on_reply(&whole("so", None), &Vec::new(), &Vec::new());
    assert!(done.distill && done.pending.is_none());
    assert!(matches!(done.last, IPCResponse::Chat { content, .. } if content == "so"));
}

fn team() -> TeamTurn {
    let (t, note) = handle_team_mode(
        "1",
        "c",
        user("do it"),
        Vec::new(),
        None,
        "/w",
        Some("GPT"),
        "m",
        None,
    );
    assert!(note.is_none());
    assert_eq!((t.said.as_str(), t.model.as_str()), ("do it", "gpt"));
    t
}

#[test]
fn a_team_calls_tools_until_it_is_done() {
    let mut t = team();
    let all = t.team.tools.len();
    match t.on_event(TeamEvent::Begin { todos: s("") }).1 {
        TeamNext::Ask { tools, .. } => assert_eq!(tools.len(), all),
        other => panic!("{:?}", other),
    }
    assert!(matches!(t.on_event(TeamEvent::NoStream).1, TeamNext::AskWhole { .. }));
    let reply = whole("let me see", Some(vec![call("git_log", "{ }")]));
    let (outs, next) = t.on_event(TeamEvent::Whole { reply });
    assert_eq!(sent(&outs), vec!["let ", "me ", "see", "\n[[TOOL:git_log:{}]]\n"]);
    assert!(matches!(next, TeamNext::Run { calls } if calls.len() == 1));
    let (outs, next) = t.on_event(TeamEvent::Results { results: vec![s("Error: no git")], todos: s("") });
    assert_eq!(sent(&outs), vec!["[[TERR:git_log]]"]);
    match next {
        TeamNext::Ask { messages, tools } => {
            assert_eq!(messages.last().unwrap().content, "Error: no git");
            assert!(tools.len() < all);
            assert!(tools.iter().any(|d| d.function.name == "git_log"));
        }
        other => panic!("{:?}", other),
    }
    t.on_event(TeamEvent::Chunk { chunk: chunk(Some("done"), None) });
    let (outs, next) = t.on_event(TeamEvent::Ended { whole: None });
    assert!(outs.is_empty());
    match next {
        TeamNext::End { content, distill, .. } => {
            assert_eq!(content, "let me see\n[[TOOL:git_log:{}]]\n[[TERR:git_log]]done");
            assert!(distill);
        }
        other => panic!("{:?}", other),
    }
}

#[test]
fn a_team_sees_the_current_list() {
    let mut t = team();
    let shown = |next: TeamNext| match next {
        TeamNext::Ask { messages, .. } | TeamNext::AskWhole { messages, .. } => {
            messages.iter().map(|m| m.content.clone()).collect::<Vec<_>>()
        }
        other => panic!("{:?}", other),
    };
    let first = shown(t.on_event(TeamEvent::Begin { todos: s("one") }).1);
    assert_eq!(first[1], "Current working directory: /w");
    assert_eq!(first[2..], [s("one"), s("do it")]);
    assert_eq!(shown(t.on_event(TeamEvent::NoStream).1)[2], "one");
    let write = |t: &mut TeamTurn| {
        let reply = whole("", Some(vec![call("todo_write", "{}")]));
        let next = t.on_event(TeamEvent::Whole { reply }).1;
        assert!(matches!(next, TeamNext::WriteList { .. }));
        let next = t.on_event(TeamEvent::ListWritten { result: s("ok") }).1;
        assert!(matches!(next, TeamNext::Run { calls } if calls.is_empty()));
    };
    write(&mut t);
    let results = Vec::new();
    let next = shown(t.on_event(TeamEvent::Results { results, todos: s("two") }).1);
    assert_eq!(next[2..], [s("two"), s("do it"), s(""), s("ok")]);
    write(&mut t);
    let results = Vec::new();
    let next = shown(t.on_event(TeamEvent::Results { results, todos: s("") }).1);
    assert_eq!(next[2], "do it");
}

#[test]
fn a_new_list_follows_its_mark() {
    let mut t = team();
    t.on_event(TeamEvent::Begin { todos: s("") });
    let calls = vec![
        call("get_cwd", "{}"),
        call("todo_write", "{\"todos\":[]}"),
        call("todo_write", "{}"),
        call("git_log", "{}"),
    ];
    let (outs, next) = t.on_event(TeamEvent::Whole { reply: whole("", Some(calls)) });
    assert_eq!(
        sent(&outs),
        vec!["\n[[TOOL:get_cwd:{}]]\n", "\n[[TOOL:todo_write:{\"todos\":[]}]]\n"]
    );
    match next {
        TeamNext::WriteList { call } => assert_eq!(call.function.arguments, "{\"todos\":[]}"),
        other => panic!("{:?}", other),
    }
    let (outs, next) = t.on_event(TeamEvent::ListWritten { result: s("Error: invalid") });
    assert_eq!(sent(&outs), vec!["\n[[TOOL:todo_write:{}]]\n"]);
    assert!(matches!(next, TeamNext::WriteList { .. }));
    let (outs, next) = t.on_event(TeamEvent::ListWritten { result: s("second") });
    assert_eq!(sent(&outs), vec!["\n[[TOOL:git_log:{}]]\n"]);
    match next {
        TeamNext::Run { calls } => {
            let names: Vec<&str> = calls.iter().map(|c| c.function.name.as_str()).collect();
            assert_eq!(names, vec!["get_cwd", "git_log"]);
        }
        other => panic!("{:?}", other),
    }
    let results = vec![s("/w"), s("-")];
    let (outs, next) = t.on_event(TeamEvent::Results { results, todos: s("") });
    assert_eq!(sent(&outs), vec!["[[TERR:todo_write]]"]);
    match next {
        TeamNext::Ask { messages, .. } => {
            let said: Vec<&str> =
                messages.iter().rev().take(4).rev().map(|m| m.content.as_str()).collect();
            assert_eq!(said, vec!["/w", "Error: invalid", "second", "-"]);
        }
        other => panic!("{:?}", other),
    }
}

#[test]
fn calls_are_made_once() {
    let mut t = team();
    t.on_event(TeamEvent::Begin { todos: s("") });
    let two = Some(vec![call("get_cwd", "{}"), call("git_log", "{}")]);
    t.on_event(TeamEvent::Whole { reply: whole("", two) });
    t.on_event(TeamEvent::Results { results: vec![s("/w"), s("-")], todos: s("") });
    let one = Some(vec![call("get_cwd", "{}")]);
    match t.on_event(TeamEvent::Whole { reply: whole("", one) }).1 {
        TeamNext::Run { calls } => assert_eq!(calls.len(), 1),
        other => panic!("{:?}", other),
    }
}

#[test]
fn a_team_that_never_ends_is_stopped() {
    let mut t = team();
    let mut next = t.on_event(TeamEvent::Begin { todos: s("") }).1;
    for _ in 0..MAX_ITERATIONS {
        assert!(matches!(next, TeamNext::Ask { .. }));
        t.on_event(TeamEvent::Whole { reply: whole("", Some(vec![call("get_cwd", "{}")])) });
        let (outs, n) = t.on_event(TeamEvent::Results { results: vec![s("/w")], todos: s("") });
        next = n;
        if t.team.iteration == MAX_ITERATIONS && !matches!(next, TeamNext::Ask { .. }) {
            assert_eq!(sent(&outs), vec![TOO_MANY]);
        }
    }
    assert!(matches!(next, TeamNext::End { .. }));
}

#[test]
fn a_team_tells_why_it_cannot_go_on() {
    let mut t = team();
    let (outs, next) = t.on_event(TeamEvent::Refused { problem: s("thought_signature missing") });
    assert!(sent(&outs)[0].contains("This model (gpt) requires"));
    assert!(matches!(next, TeamNext::End { distill: false, .. }));
    assert!(matches!(
        t.on_event(TeamEvent::CallsCancelled).1,
        TeamNext::Leave { last: IPCResponse::ChatDone { usage: None, .. } }
    ));
    assert!(matches!(t.on_event(TeamEvent::Cancelled).1, TeamNext::GiveUp { .. }));
    let (t, note) = handle_team_mode(
        "1",
        "c",
        user("do it"),
        Vec::new(),
        None,
        "/w",
        None,
        "Bard",
        None,
    );
    assert!(t.team.tools.is_empty());
    assert!(matches!(note, Some(StreamOut::Token(n)) if n.contains("`bard`")));
}

#[test]
fn files_are_searched_in_the_order_of_the_walk() {
    let file = |path: &str, content: Option<&str>| WalkedFile {
        path: s(path),
        way: vec![s("w"), s(path)],
        name: s(path),
        size: Some(10),
        content: content.map(s),
    };
    let files = vec![
        file("a.rs", Some("one\ntwo\none")),
        file("b.txt", Some("one")),
        file("c.rs", None),
        file("d.rs", Some("none here")),
    ];
    let grep = |pattern: &str, glob: &str, mode: &str, max: usize| {
        run_builtin_grep(&files, pattern, glob, mode, false, max).unwrap()
    };
    assert_eq!(grep("^one$", "*.rs", "files", 9), "1 file(s) matched:\na.rs");
    assert_eq!(grep("one", "", "count", 9), "a.rs: 2\nb.txt: 1\nd.rs: 1");
    assert_eq!(
        grep("one", "", "content", 1),
        "1 match(es):\na.rs:1:one\n... (1 more not shown)"
    );
    assert!(grep("(", "", "files", 1).starts_with("Error: invalid regex: "));
    assert_eq!(grep("x", "", "files", 1), "(no matches)");
    assert_eq!(grep("x", "", "lines", 1), "Unknown output mode: lines");
    let long = vec![file("l", Some(&"\u{e9}".repeat(200)))];
    assert!(run_builtin_grep(&long, "\u{e9}", "", "content", false, 5).is_some());
    let odd = vec![file("l", Some(&format!("a{}", "\u{e9}".repeat(200))))];
    assert!(run_builtin_grep(&odd, "\u{e9}", "", "content", false, 5).is_none());
}

#[test]
fn a_search_goes_sixteen_levels_down() {
    let deep = |levels: usize| {
        let mut way = vec![s("w"); levels];
        way.push(s("f"));
        way
    };
    assert_eq!(MAX_DEPTH, 16);
    assert!(is_reached(&deep(0)));
    assert!(is_reached(&deep(16)));
    assert!(!is_reached(&deep(17)));
    assert!(!is_reached(&vec![s("w"), s("target"), s("f")]));
    assert!(!is_reached(&vec![s("node_modules"), s("f")]));
    let file = |path: &str, way: Vec<String>| WalkedFile {
        path: s(path),
        way,
        name: s("f"),
        size: Some(1),
        content: Some(s("x")),
    };
    let files = vec![
        file("ignored", vec![s("w"), s(".git"), s("f")]),
        file("deep", deep(17)),
        file("last", deep(16)),
    ];
    assert_eq!(
        run_builtin_grep(&files, "x", "", "files", false, 9).as_deref(),
        Some("1 file(s) matched:\nlast")
    );
}

#[test]
fn a_connection_deals_with_lines() {
    let mut limiter = RateLimiter::new();
    let mut running = Cancellations::new();
    let health = || Ok(IPCRequest::HealthCheck { id: s("h") });
    let mut on = |line: &str, parsed| handle_connection(&mut limiter, &mut running, line, 1, parsed);
    assert!(matches!(on(" \n", health()), LineAction::Nothing));
    match on("{", Err(s("EOF"))) {
        LineAction::Send { answer: IPCResponse::Error { id, message } } => {
            assert_eq!((id.as_str(), message.as_str()), ("unknown", "Invalid JSON: EOF"));
        }
        other => panic!("{:?}", other),
    }
    assert!(matches!(
        on("x", health()),
        LineAction::Take { step: RequestStep::Start { token: 0, .. } }
    ));
    let cancel = IPCRequest::CancelRequest { id: s("z"), target_id: s("h") };
    assert!(matches!(
        on("x", Ok(cancel)),
        LineAction::Take { step: RequestStep::Cancel { token: Some(0), .. } }
    ));
    for _ in 0..57 {
        on("x", health());
    }
    assert!(matches!(on("x", health()), LineAction::Send { .. }));
}

#[test]
fn an_error_is_recorded_with_what_is_known() {
    let context = |preview: bool| ErrorContext {
        source: s("llm_api"),
        message: s("413"),
        conversation_id: None,
        model: Some(s("m")),
        provider: None,
        agent_mode: None,
        max_tokens: Some(9),
        prompt_preview: if preview {
            Some(vec![PromptPreviewEntry { role: s("user"), chars: 2, head: s("hi") }])
        } else {
            None
        },
        est_input_tokens: None,
        extra: None,
    };
    let keys = |j: Json| match j {
        Json::Object(m) => m.into_iter().map(|(k, _)| k).collect::<Vec<_>>(),
        other => panic!("{:?}", other),
    };
    let entry = record(&context(true), 0);
    assert_eq!(entry.text_at("timestamp").as_deref(), Some("1970-01-01T00:00:00Z"));
    assert_eq!(entry.unsigned_at("max_tokens"), Some(9));
    assert!(matches!(entry.get("provider"), Some(Json::Null)));
    match entry.get("prompt_preview") {
        Some(Json::List(l)) => {
            assert_eq!(l[0].text_at("head").as_deref(), Some("hi"));
            assert!(matches!(l[0].get("chars"), Some(Json::Num(Number::Unsigned(2)))));
        }
        other => panic!("{:?}", other),
    }
    assert_eq!(keys(entry).len(), 10);
    assert_eq!(
        keys(record(&context(false), 0)),
        vec![
            "timestamp",
            "source",
            "message",
            "conversation_id",
            "model",
            "provider",
            "agent_mode",
            "max_tokens",
            "est_input_tokens",
        ]
    );
}

#[test]
fn elements_are_invoked_where_they_can_be() {
    assert_eq!(press_of(true), Press::Invoke);
    assert_eq!(press_of(false), Press::Point);
    assert_eq!(pressed(Press::Invoke, Ok(())), Ok(()));
    assert_eq!(pressed(Press::Invoke, Err(s("x"))), Err(s("invoke failed: x")));
    assert_eq!(pressed(Press::Point, Err(s("x"))), Err(s("click failed: x")));
    assert_eq!(typed(Ok(())), Ok(()));
    assert_eq!(typed(Err(s("x"))), Err(s("type failed: x")));
    assert_eq!(snapshot_foreground(true).unwrap_err(), WINDOWS_ONLY);
    assert_eq!(snapshot_window("t").unwrap_err(), WINDOWS_ONLY);
}
