use rook::json::Json;
use rook::llm::cheap_model::{rank_cheapest, CheapestStep, ModelCache, ModelEntry};
use rook::llm::client::{
    get_ollama_embedding, install_user_id, is_local_model, mock_chat_response, ollama_base_url,
    CallKind, ChatPlan, EmbeddingPlan, EmbeddingStep, LLMClient, LocalOutcome, OllamaEmbedResponse,
};
use rook::llm::orchestrator::{split, GemmaOrchestrator, GemmaSettings, Launch, StartStep};
use rook::llm::types::{
    EmbeddingProvider, FloatBits, LLMConfig, LLMSettings, Message, ResponseMessage, StreamDelta,
};

fn entry(id: &str) -> ModelEntry {
    ModelEntry { id: id.into() }
}

#[test]
fn picks_haiku_over_sonnet() {
    let entries = vec![
        entry("3-5-sonnet"),
        entry("3-5-haiku"),
        entry("3-opus"),
    ];
    assert_eq!(rank_cheapest(&entries).as_deref(), Some("3-5-haiku"));
}

#[test]
fn picks_mini_over_turbo() {
    let entries = vec![entry("gpt-4-turbo"), entry("gpt-4o-mini"), entry("gpt-4o")];
    assert_eq!(rank_cheapest(&entries).as_deref(), Some("gpt-4o-mini"));
}

#[test]
fn none_when_nothing_matches() {
    let entries = vec![entry("some-premium-model")];
    assert!(rank_cheapest(&entries).is_none());
}

#[test]
fn parses_embedding_provider_aliases() {
    assert_eq!(
        EmbeddingProvider::from_env_value("ollama"),
        EmbeddingProvider::Ollama
    );
    assert_eq!(
        EmbeddingProvider::from_env_value("local"),
        EmbeddingProvider::Ollama
    );
    assert_eq!(
        EmbeddingProvider::from_env_value("mock"),
        EmbeddingProvider::Mock
    );
    assert_eq!(
        EmbeddingProvider::from_env_value("openai-compatible"),
        EmbeddingProvider::OpenAiCompatible
    );
}

#[test]
fn extracts_embedding_from_ollama_shapes() {
    let payload = OllamaEmbedResponse {
        embeddings: vec![vec![0.1, 0.2, 0.3]],
        embedding: vec![],
    };
    let vector = LLMClient::<()>::extract_ollama_embedding(payload).unwrap();
    assert_eq!(vector.len(), 3);

    let compat_payload = OllamaEmbedResponse {
        embeddings: vec![],
        embedding: vec![0.4, 0.5],
    };
    let compat_vector = LLMClient::<()>::extract_ollama_embedding(compat_payload).unwrap();
    assert_eq!(compat_vector.len(), 2);
}

#[test]
fn an_empty_reply_has_no_vector() {
    let payload: OllamaEmbedResponse<u8> = OllamaEmbedResponse {
        embeddings: vec![vec![]],
        embedding: vec![],
    };
    assert_eq!(
        LLMClient::<()>::extract_ollama_embedding(payload).unwrap_err(),
        "Ollama returned no embedding vector"
    );
}

#[test]
fn provider_names_are_read_in_any_case() {
    assert_eq!(
        EmbeddingProvider::from_env_value("  ReMote "),
        EmbeddingProvider::OpenAiCompatible
    );
    assert_eq!(
        EmbeddingProvider::from_env_value("what"),
        EmbeddingProvider::Ollama
    );
}

fn settings() -> LLMSettings {
    LLMSettings {
        base_url: None,
        api_key: None,
        model: None,
        max_tokens: None,
        temperature: None,
        embedding_provider: None,
        embedding_base_url: None,
        embedding_model: None,
        embedding_api_key: None,
    }
}

#[test]
fn absent_settings_have_defaults() {
    let c = LLMConfig::from_env(&settings());
    assert_eq!(c.base_url, "https://api.openai.com/v1");
    assert_eq!(c.model, "openai-fast");
    assert_eq!(c.max_tokens, 8192);
    assert_eq!(f32::from_bits(c.temperature.bits), 0.7);
    assert_eq!(c.embedding_provider, EmbeddingProvider::Mock);
    let mut s = settings();
    s.embedding_provider = Some("ollama".into());
    let c = LLMConfig::from_env(&s);
    assert_eq!(c.embedding_base_url, "http://127.0.0.1:11434");
    assert_eq!(c.embedding_model, "nomic-embed-text");
}

#[test]
fn the_local_server_is_asked_twice_at_most() {
    let outcome = |success, v: Option<Vec<u8>>| LocalOutcome::Answered {
        success,
        payload: v.map(|embedding| OllamaEmbedResponse { embeddings: Vec::new(), embedding }),
    };
    let taken = |s: EmbeddingStep<u8>| match s {
        EmbeddingStep::Take { vector } => vector,
        other => panic!("{:?}", other),
    };
    assert_eq!(taken(get_ollama_embedding(false, outcome(true, Some(vec![1])))), vec![1]);
    assert_eq!(taken(get_ollama_embedding(true, outcome(false, Some(vec![2])))), vec![2]);
    assert!(matches!(
        get_ollama_embedding(false, outcome(false, Some(vec![1]))),
        EmbeddingStep::AskFallback
    ));
    assert!(matches!(
        get_ollama_embedding::<u8>(false, LocalOutcome::Unreachable),
        EmbeddingStep::AskFallback
    ));
    assert!(matches!(
        get_ollama_embedding::<u8>(true, LocalOutcome::Unreachable),
        EmbeddingStep::Compute
    ));
    assert!(matches!(get_ollama_embedding(false, outcome(true, None)), EmbeddingStep::Compute));
    assert!(matches!(
        get_ollama_embedding(false, outcome(true, Some(Vec::new()))),
        EmbeddingStep::Compute
    ));
}

#[test]
fn a_key_does_not_turn_embeddings_remote() {
    let mut s = settings();
    s.api_key = Some("k".into());
    s.max_tokens = Some("+77".into());
    let c = LLMConfig::from_env(&s);
    assert_eq!(c.embedding_provider, EmbeddingProvider::Mock);
    assert_eq!(c.embedding_base_url, c.base_url);
    assert_eq!(c.embedding_model, "text-embedding-3-small");
    assert_eq!(c.embedding_api_key, "k");
    assert_eq!(c.max_tokens, 77);
    for bad in ["", "+", "-1", "4294967296", "1x", " 1"] {
        s.max_tokens = Some(bad.into());
        assert_eq!(LLMConfig::from_env(&s).max_tokens, 8192, "{}", bad);
        assert!(bad.parse::<u32>().is_err());
    }
}

#[test]
fn models_with_a_tag_are_local() {
    assert!(is_local_model("gemma:2b"));
    assert!(is_local_model("Llama-3"));
    assert!(!is_local_model("gpt-4o"));
}

#[test]
fn local_address_has_defaults() {
    assert_eq!(ollama_base_url(&None, &None), "http://127.0.0.1:11434/v1");
    assert_eq!(
        ollama_base_url(&Some("h".into()), &Some("1".into())),
        "http://h:1/v1"
    );
}

#[test]
fn install_id_is_the_start_of_the_digest() {
    // SHA-256("abc") = ba7816bf 8f01cfea ...
    assert_eq!(
        install_user_id("abc").as_deref(),
        Some("rook-ba7816bf8f01cfea")
    );
    assert_eq!(install_user_id("  "), None);
}

fn client(key: &str) -> LLMClient<()> {
    let mut s = settings();
    s.api_key = Some(key.into());
    s.temperature = Some(FloatBits { bits: 1 });
    LLMClient::new(LLMConfig::from_env(&s), ())
}

#[test]
fn without_a_key_the_reply_is_a_placeholder() {
    let c = client("");
    assert!(c.is_mock_mode());
    match c.chat(vec![Message::text("user", "hi".into())]) {
        ChatPlan::Mock(r) => assert_eq!(
            r.choices[0].message.text_content().unwrap(),
            "Local simulation mode. Backend is connected and responding without an external LLM key.\n\nRequest summary:\nhi"
        ),
        ChatPlan::Call(_) => panic!(),
    }
}

#[test]
fn with_a_key_the_provider_is_called() {
    match client("k").chat(vec![]) {
        ChatPlan::Call(c) => {
            assert_eq!(c.url, "https://api.openai.com/v1/chat/completions");
            assert_eq!(c.authorization.as_deref(), Some("Bearer k"));
            assert_eq!((c.kind, c.timeout_secs), (CallKind::Chat, Some(120)));
            assert_eq!(c.request.model, "openai-fast");
        }
        ChatPlan::Mock(_) => panic!(),
    }
}

#[test]
fn a_local_model_gets_no_key() {
    let c = client("k")
        .chat_stream_for_model(vec![], Some("phi3"), "http://l/v1")
        .unwrap();
    assert_eq!(c.url, "http://l/v1/chat/completions");
    assert_eq!(c.authorization, None);
    assert_eq!(c.request.model, "phi3");
    assert_eq!(c.kind, CallKind::Stream);
    assert!(client("").chat_stream_for_model(vec![], None, "").is_none());
}

#[test]
fn tools_are_left_out_of_a_stream_without_any() {
    let c = client("k")
        .chat_stream_with_tools_for_model(vec![], vec![], None, "")
        .unwrap();
    assert!(c.request.tools.is_none());
    assert_eq!(c.kind, CallKind::StreamTools);
}

#[test]
fn side_work_runs_cooler() {
    match client("k").chat_with_model_override(vec![], "m", 9) {
        ChatPlan::Call(c) => {
            assert_eq!(f32::from_bits(c.request.temperature.unwrap().bits), 0.2);
            assert_eq!(c.request.max_tokens, Some(9));
            assert_eq!((c.kind, c.timeout_secs), (CallKind::Override, Some(60)));
        }
        ChatPlan::Mock(_) => panic!(),
    }
}

#[test]
fn the_placeholder_repeats_the_last_user_message() {
    let r = mock_chat_response(
        &vec![
            Message::text("user", "a".repeat(600)),
            Message::text("assistant", "b".into()),
        ],
        true,
    );
    let t = r.choices[0].message.text_content().unwrap();
    assert!(t.starts_with("Local simulation mode (tools enabled)."));
    assert!(t.ends_with(&format!("\n{}", "a".repeat(500))));
}

#[test]
fn embeddings_follow_the_provider() {
    assert!(matches!(client("k").get_embedding("t"), EmbeddingPlan::Mock));
    let named = |key: &str, provider: &str| {
        let mut s = settings();
        s.api_key = Some(key.into());
        s.embedding_provider = Some(provider.into());
        LLMClient::new(LLMConfig::from_env(&s), ()).get_embedding("t")
    };
    match named("k", "remote") {
        EmbeddingPlan::Remote { url, authorization, request } => {
            assert_eq!(url, "https://api.openai.com/v1/embeddings");
            assert_eq!(authorization, "Bearer k");
            assert_eq!(request.input, "t");
        }
        _ => panic!(),
    }
    assert!(matches!(named(" ", "remote"), EmbeddingPlan::Mock));
    match named("", "ollama") {
        EmbeddingPlan::Local { url, fallback_url, .. } => {
            assert_eq!(url, "http://127.0.0.1:11434/api/embed");
            assert_eq!(fallback_url, "http://127.0.0.1:11434/api/embeddings");
        }
        _ => panic!(),
    }
}

fn block(kind: &str, member: &str, s: &str) -> Json {
    Json::Object(vec![
        ("type".into(), Json::Text(kind.into())),
        (member.into(), Json::Text(s.into())),
    ])
}

#[test]
fn blocks_are_read_by_their_kind() {
    let m = ResponseMessage {
        role: "assistant".into(),
        content: Some(Json::List(vec![
            block("thinking", "thinking", "t1"),
            block("text", "text", "a"),
            block("reasoning", "reasoning", "t2"),
            block("text", "text", "b"),
            block("tool_use", "text", "c"),
        ])),
        tool_calls: None,
    };
    assert_eq!(m.text_content().as_deref(), Some("ab"));
    assert_eq!(m.thinking_content().as_deref(), Some("t1\n\nt2"));
    let empty = ResponseMessage {
        role: String::new(),
        content: Some(Json::Text(String::new())),
        tool_calls: None,
    };
    assert_eq!(empty.text_content(), None);
    assert_eq!(empty.thinking_content(), None);
}

#[test]
fn thinking_comes_under_either_name() {
    let mut d = StreamDelta {
        content: None,
        role: None,
        reasoning: None,
        reasoning_content: Some("b".into()),
        tool_calls: None,
    };
    assert_eq!(d.thinking_delta(), Some("b"));
    d.reasoning = Some("a".into());
    assert_eq!(d.thinking_delta(), Some("a"));
}

#[test]
fn a_choice_is_remembered_for_an_hour() {
    let mut cache = ModelCache::new();
    let key = match cache.cheapest_model("http://p/v1//", "k", 5) {
        CheapestStep::Ask { key, url, bearer, timeout_secs } => {
            assert_eq!(timeout_secs, 5);
            assert_eq!(url, "http://p/v1/models");
            assert_eq!(bearer.as_deref(), Some("Bearer k"));
            key
        }
        CheapestStep::Known(_) => panic!(),
    };
    let entries = vec![entry("big"), entry("x-mini")];
    assert_eq!(
        cache.note_reply(key, Some(&entries), 5).as_deref(),
        Some("x-mini")
    );
    match cache.cheapest_model("http://p/v1", "k", 5 + 3_599_999) {
        CheapestStep::Known(m) => assert_eq!(m.as_deref(), Some("x-mini")),
        CheapestStep::Ask { .. } => panic!(),
    }
    match cache.cheapest_model("http://p/v1", " ", 5 + 3_600_000) {
        CheapestStep::Known(_) => panic!(),
        CheapestStep::Ask { bearer, .. } => assert_eq!(bearer, None),
    }
}

#[test]
fn quotes_hold_words_together() {
    assert_eq!(
        split("serve --name \"two words\"  x\"y z\"").unwrap(),
        vec!["serve", "--name", "two words", "xy z"]
    );
    assert!(split("  ").unwrap().is_empty());
}

#[test]
fn the_server_is_tried_twelve_times() {
    let g = GemmaOrchestrator::from_env(&GemmaSettings {
        cmd: None,
        args: None,
        host: None,
        port: Some("70000".into()),
        auto_start: Some("0".into()),
    });
    assert_eq!(g.cmd, "ollama");
    assert_eq!(g.args, vec!["serve"]);
    assert_eq!(g.address(), "127.0.0.1:11434");
    assert!(!g.is_auto_start());
    assert_eq!(g.try_start(false, false), StartStep::Done { launch: Launch::NoMemory });
    assert_eq!(g.try_start(true, true), StartStep::Done { launch: Launch::Up });
    assert_eq!(g.try_start(true, false), StartStep::Spawn);
    assert_eq!(
        g.after_attempt(1, false),
        StartStep::Retry { attempt: 2, pause_ms: 2500 }
    );
    assert_eq!(
        g.after_attempt(11, false),
        StartStep::Retry { attempt: 12, pause_ms: 2500 }
    );
    assert_eq!(
        g.after_attempt(12, false),
        StartStep::GiveUp { pause_ms: 2500, launch: Launch::TimedOut }
    );
    assert!(Launch::Up.is_started() && Launch::TimedOut.is_started());
    assert!(!Launch::NoMemory.is_started());
    assert_eq!(g.after_attempt(12, true), StartStep::Done { launch: Launch::Up });
    assert_eq!(g.after_attempt(1, true), StartStep::Done { launch: Launch::Up });
}
