//! The client of the language model: which calls it makes, and what it makes
//! of the replies.

use crate::json::{Json, JsonV};
use crate::llm::types::{
    json_view, message_views, text_view, tool_views, ChatCompletionRequest, ChatCompletionResponse,
    ChatRequestV, Choice, EmbeddingProvider, EmbeddingRequest, EmbeddingResponse, FloatBits,
    LLMConfig, LLMConfigV, Message, MessageV, ResponseMessage, ToolDefinition, ToolV, Usage,
};
use crate::outside;
use crate::text;
use vstd::prelude::*;

verus! {

/// The bits of 0.2, the temperature of work on the side.
pub const OVERRIDE_TEMPERATURE: u32 = 0x3e4c_cccd;

/// What the names of models that run locally begin with.
pub open spec fn local_prefixes() -> Seq<Seq<char>> {
    seq!["llama"@, "mistral"@, "phi"@, "qwen"@, "deepseek"@, "codellama"@, "solar"@]
}

/// A model that runs locally: its name holds a tag, or begins as theirs do.
pub open spec fn local_model(model: Seq<char>) -> bool {
    let m = text::lower(model);
    text::occurs(m, ":"@) || text::begins_any(m, local_prefixes())
}

/// Whether a model runs locally.
pub fn is_local_model(model: &str) -> (r: bool)
    ensures
        r == local_model(model@),
{
    let m = text::to_lower(model);
    if text::contains(&m, ":") {
        return true;
    }
    let prefixes = ["llama", "mistral", "phi", "qwen", "deepseek", "codellama", "solar"];
    assert(text::slice_views(prefixes@) =~= local_prefixes());
    text::starts_with_any(&m, &prefixes)
}

/// The address of the local server.
pub open spec fn ollama_url(host: Option<Seq<char>>, port: Option<Seq<char>>) -> Seq<char> {
    let h = match host {
        Some(h) => h,
        None => "127.0.0.1"@,
    };
    let p = match port {
        Some(p) => p,
        None => "11434"@,
    };
    "http://"@ + h + ":"@ + p + "/v1"@
}

/// The address of the local server, by the host and the port that are set.
pub fn ollama_base_url(host: &Option<String>, port: &Option<String>) -> (r: String)
    ensures
        r@ == ollama_url(text_view(*host), text_view(*port)),
{
    let mut out = "http://".to_owned();
    match host {
        Some(h) => out.append(h),
        None => out.append("127.0.0.1"),
    }
    out.append(":");
    match port {
        Some(p) => out.append(p),
        None => out.append("11434"),
    }
    out.append("/v1");
    out
}

/// The id of this installation: the start of the digest of its key.
pub open spec fn install_id(api_key: Seq<char>) -> Option<Seq<char>> {
    if text::blank(api_key) {
        None
    } else {
        Some(
            "rook-"@ + text::hex(
                outside::sha256_of(vstd::utf8::encode_utf8(api_key)).take(8),
            ),
        )
    }
}

/// A stable id of this installation, which does not give its key away.
pub fn install_user_id(api_key: &str) -> (r: Option<String>)
    ensures
        text_view(r) == install_id(api_key@),
{
    if text::is_blank(api_key) {
        return None;
    }
    let digest = outside::sha256(api_key.as_bytes());
    let mut id = "rook-".to_owned();
    id.append(&text::to_hex(&digest, 8));
    Some(id)
}

/// How long it may take to reach a provider, in seconds.
pub const CONNECT_SECS: u64 = 30;

/// What a call of the chat endpoint is for.
#[derive(Clone, Copy, Debug, PartialEq, Eq, Structural)]
pub enum CallKind {
    /// A chat with the configured model.
    Chat,
    /// A chat with a local model.
    Local,
    /// A chat with a named model on the side.
    Override,
    /// A streamed chat.
    Stream,
    /// A streamed chat with tools.
    StreamTools,
    /// A chat with tools.
    Tools,
}

/// Why a call came to nothing.
#[derive(Debug)]
#[allow(inconsistent_fields)]
pub enum CallFailure {
    /// It could not be sent.
    Unsent { error: String },
    /// The reply was no success.
    Refused { status: String, body: String },
    /// The reply could not be read.
    Unread { error: String },
}

/// A call of the chat endpoint.
#[derive(Debug)]
pub struct ChatCall {
    pub kind: CallKind,
    pub url: String,
    /// The value of the authorization header, if it is sent.
    pub authorization: Option<String>,
    pub timeout_secs: Option<u64>,
    pub request: ChatCompletionRequest,
}

/// The model of a call.
pub struct ChatCallV {
    pub kind: CallKind,
    pub url: Seq<char>,
    pub authorization: Option<Seq<char>>,
    pub timeout_secs: Option<u64>,
    pub request: ChatRequestV,
}

impl View for ChatCall {
    type V = ChatCallV;

    open spec fn view(&self) -> ChatCallV {
        ChatCallV {
            kind: self.kind,
            url: self.url@,
            authorization: text_view(self.authorization),
            timeout_secs: self.timeout_secs,
            request: self.request@,
        }
    }
}

/// What answers a chat: a placeholder, or the reply to a call.
#[derive(Debug)]
pub enum ChatPlan {
    Mock(ChatCompletionResponse),
    Call(ChatCall),
}

/// Where a chat goes to.
pub struct TargetV {
    pub model: Seq<char>,
    pub base_url: Seq<char>,
    pub api_key: Seq<char>,
}

/// A local model goes to the local server without a key, any other to the
/// configured provider; without a key for that there is nowhere to go.
pub open spec fn target(
    c: LLMConfigV,
    model: Option<Seq<char>>,
    ollama: Seq<char>,
) -> Option<TargetV> {
    if model is Some && local_model(model->0) {
        Some(TargetV { model: model->0, base_url: ollama, api_key: Seq::empty() })
    } else if text::blank(c.api_key) {
        None
    } else {
        Some(TargetV { model: c.model, base_url: c.base_url, api_key: c.api_key })
    }
}

/// The authorization header for a key.
pub open spec fn bearer(api_key: Seq<char>) -> Option<Seq<char>> {
    if api_key.len() == 0 {
        None
    } else {
        Some("Bearer "@ + api_key)
    }
}

/// The call that sends a chat to a target.
pub open spec fn call_to(
    kind: CallKind,
    t: TargetV,
    c: LLMConfigV,
    messages: Seq<MessageV>,
    tools: Option<Seq<ToolV>>,
    stream: bool,
    user: Option<Seq<char>>,
    timeout_secs: Option<u64>,
) -> ChatCallV {
    ChatCallV {
        kind,
        url: t.base_url + "/chat/completions"@,
        authorization: bearer(t.api_key),
        timeout_secs,
        request: ChatRequestV {
            model: t.model,
            messages,
            tools,
            max_tokens: Some(c.max_tokens),
            temperature: Some(c.temperature),
            stream: Some(stream),
            user,
        },
    }
}

/// The content of the last message of the user.
pub open spec fn last_user(messages: Seq<MessageV>) -> Option<Seq<char>>
    decreases messages.len(),
{
    if messages.len() == 0 {
        None
    } else if messages.last().role == "user"@ {
        Some(messages.last().content)
    } else {
        last_user(messages.drop_last())
    }
}

/// The text that stands in for a reply where there is no key.
pub open spec fn mock_text(messages: Seq<MessageV>, tool_mode: bool) -> Seq<char> {
    let said = match last_user(messages) {
        Some(c) => c,
        None => "No user message provided."@,
    };
    (if tool_mode {
        "Local simulation mode (tools enabled)."@
    } else {
        "Local simulation mode."@
    })
        + " Backend is connected and responding without an external LLM key.\n\nRequest summary:\n"@
        + text::head(said, 500)
}

/// The reply that stands in where there is no key.
pub open spec fn is_mock(
    r: ChatCompletionResponse,
    messages: Seq<MessageV>,
    tool_mode: bool,
) -> bool {
    &&& text_view(r.id) == Some("mock-chat-response"@)
    &&& r.choices@.len() == 1
    &&& r.choices@[0].message.role@ == "assistant"@
    &&& json_view(r.choices@[0].message.content) == Some(
        JsonV::Text(mock_text(messages, tool_mode)),
    )
    &&& r.choices@[0].message.tool_calls is None
    &&& text_view(r.choices@[0].finish_reason) == Some("stop"@)
    &&& r.usage == Some(Usage { prompt_tokens: 0, completion_tokens: 0, total_tokens: 0 })
}

/// What a plan for a chat is.
pub open spec fn plans(
    p: ChatPlan,
    call: Option<ChatCallV>,
    messages: Seq<MessageV>,
    tool_mode: bool,
) -> bool {
    match p {
        ChatPlan::Mock(r) => call is None && is_mock(r, messages, tool_mode),
        ChatPlan::Call(c) => call == Some(c@),
    }
}

/// The reply that stands in where there is no key: it repeats how the last
/// message of the user begins.
pub fn mock_chat_response(messages: &Vec<Message>, tool_mode: bool) -> (r: ChatCompletionResponse)
    ensures
        is_mock(r, message_views(messages@), tool_mode),
{
    let ghost all = message_views(messages@);
    let mut i: usize = messages.len();
    let mut said: Option<String> = None;
    assert(all.take(i as int) =~= all);
    while i > 0 && said.is_none()
        invariant
            i <= messages@.len(),
            all == message_views(messages@),
            said is None ==> last_user(all) == last_user(all.take(i as int)),
            said matches Some(s) ==> last_user(all) == Some(s@),
        decreases i,
    {
        i = i - 1;
        assert(all.take(i + 1).drop_last() =~= all.take(i as int));
        assert(all.take(i + 1).last() == messages@[i as int]@);
        if text::same(&messages[i].role, "user") {
            said = Some(messages[i].content.clone());
        }
    }
    let user_content = match said {
        Some(s) => s,
        None => "No user message provided.".to_owned(),
    };
    let mut content = if tool_mode {
        "Local simulation mode (tools enabled).".to_owned()
    } else {
        "Local simulation mode.".to_owned()
    };
    content.append(
        " Backend is connected and responding without an external LLM key.\n\nRequest summary:\n",
    );
    content.append(&text::take_chars(&user_content, 500));
    let mut choices: Vec<Choice> = Vec::new();
    choices.push(
        Choice {
            message: ResponseMessage {
                role: "assistant".to_owned(),
                content: Some(Json::Text(content)),
                tool_calls: None,
            },
            finish_reason: Some("stop".to_owned()),
        },
    );
    ChatCompletionResponse {
        id: Some("mock-chat-response".to_owned()),
        choices,
        usage: Some(Usage { prompt_tokens: 0, completion_tokens: 0, total_tokens: 0 }),
    }
}

fn endpoint(base_url: &str) -> (r: String)
    ensures
        r@ == base_url@ + "/chat/completions"@,
{
    let mut url = base_url.to_owned();
    url.append("/chat/completions");
    url
}

fn bearer_for(api_key: &str) -> (r: Option<String>)
    ensures
        text_view(r) == bearer(api_key@),
{
    if api_key.is_empty() {
        None
    } else {
        let mut b = "Bearer ".to_owned();
        b.append(api_key);
        Some(b)
    }
}

/// The client: a configuration, and the means to reach the network.
#[derive(Debug)]
pub struct LLMClient<H> {
    pub config: LLMConfig,
    pub http_client: H,
}

/// Where a chat goes to.
#[derive(Debug)]
struct Target {
    model: String,
    base_url: String,
    api_key: String,
}

impl Target {
    spec fn v(self) -> TargetV {
        TargetV { model: self.model@, base_url: self.base_url@, api_key: self.api_key@ }
    }
}

/// What the model of an optional slice is.
pub open spec fn model_view(model: Option<&str>) -> Option<Seq<char>> {
    match model {
        Some(m) => Some(m@),
        None => None,
    }
}

impl<H> LLMClient<H> {
    /// A client with a configuration.
    pub fn new(config: LLMConfig, http_client: H) -> (r: Self)
        ensures
            r.config == config,
            r.http_client == http_client,
    {
        LLMClient { config, http_client }
    }

    /// The configuration.
    pub fn base_config(&self) -> (r: &LLMConfig)
        ensures
            *r == self.config,
    {
        &self.config
    }

    /// Whether replies are placeholders, because there is no key.
    pub fn is_mock_mode(&self) -> (r: bool)
        ensures
            r == text::blank(self.config.api_key@),
    {
        text::is_blank(&self.config.api_key)
    }

    fn target(&self, model: Option<&str>, ollama: &str) -> (r: Option<Target>)
        ensures
            match r {
                Some(t) => target(self.config@, model_view(model), ollama@) == Some(t.v()),
                None => target(self.config@, model_view(model), ollama@) is None,
            },
    {
        if let Some(m) = model {
            if is_local_model(m) {
                return Some(
                    Target {
                        model: m.to_owned(),
                        base_url: ollama.to_owned(),
                        api_key: String::new(),
                    },
                );
            }
        }
        if self.is_mock_mode() {
            None
        } else {
            Some(
                Target {
                    model: self.config.model.clone(),
                    base_url: self.config.base_url.clone(),
                    api_key: self.config.api_key.clone(),
                },
            )
        }
    }

    fn call(
        &self,
        kind: CallKind,
        t: Target,
        messages: Vec<Message>,
        tools: Option<Vec<ToolDefinition>>,
        stream: bool,
        user: Option<String>,
        timeout_secs: Option<u64>,
    ) -> (r: ChatCall)
        ensures
            r@ == call_to(
                kind,
                t.v(),
                self.config@,
                message_views(messages@),
                match tools {
                    Some(l) => Some(tool_views(l@)),
                    None => None,
                },
                stream,
                text_view(user),
                timeout_secs,
            ),
    {
        ChatCall {
            kind,
            url: endpoint(&t.base_url),
            authorization: bearer_for(&t.api_key),
            timeout_secs,
            request: ChatCompletionRequest {
                model: t.model,
                messages,
                tools,
                max_tokens: Some(self.config.max_tokens),
                temperature: Some(self.config.temperature),
                stream: Some(stream),
                user,
            },
        }
    }

    /// A chat with the configured model.
    pub fn chat(&self, messages: Vec<Message>) -> (r: ChatPlan)
        ensures
            plans(
                r,
                match target(self.config@, None, Seq::empty()) {
                    Some(t) => Some(
                        call_to(
                            CallKind::Chat,
                            t,
                            self.config@,
                            message_views(messages@),
                            None,
                            false,
                            install_id(self.config.api_key@),
                            Some(120),
                        ),
                    ),
                    None => None,
                },
                message_views(messages@),
                false,
            ),
    {
        match self.target(None, "") {
            Some(t) => {
                let user = install_user_id(&self.config.api_key);
                ChatPlan::Call(self.call(CallKind::Chat, t, messages, None, false, user, Some(120)))
            },
            None => ChatPlan::Mock(mock_chat_response(&messages, false)),
        }
    }

    /// A chat with a named model at the configured provider, for work on the
    /// side.
    pub fn chat_with_model_override(
        &self,
        messages: Vec<Message>,
        model: &str,
        max_tokens: u32,
    ) -> (r: ChatPlan)
        ensures
            plans(
                r,
                if text::blank(self.config.api_key@) {
                    None
                } else {
                    Some(
                        ChatCallV {
                            kind: CallKind::Override,
                            url: self.config.base_url@ + "/chat/completions"@,
                            authorization: Some("Bearer "@ + self.config.api_key@),
                            timeout_secs: Some(60),
                            request: ChatRequestV {
                                model: model@,
                                messages: message_views(messages@),
                                tools: None,
                                max_tokens: Some(max_tokens),
                                temperature: Some(FloatBits { bits: OVERRIDE_TEMPERATURE }),
                                stream: Some(false),
                                user: install_id(self.config.api_key@),
                            },
                        },
                    )
                },
                message_views(messages@),
                false,
            ),
    {
        if self.is_mock_mode() {
            return ChatPlan::Mock(mock_chat_response(&messages, false));
        }
        let mut authorization = "Bearer ".to_owned();
        authorization.append(&self.config.api_key);
        ChatPlan::Call(
            ChatCall {
                kind: CallKind::Override,
                url: endpoint(&self.config.base_url),
                authorization: Some(authorization),
                timeout_secs: Some(60),
                request: ChatCompletionRequest {
                    model: model.to_owned(),
                    messages,
                    tools: None,
                    max_tokens: Some(max_tokens),
                    temperature: Some(FloatBits { bits: OVERRIDE_TEMPERATURE }),
                    stream: Some(false),
                    user: install_user_id(&self.config.api_key),
                },
            },
        )
    }

    /// A chat with a named model where that one runs locally, and with the
    /// configured one where it does not.
    pub fn chat_for_model(
        &self,
        messages: Vec<Message>,
        model: Option<&str>,
        ollama: &str,
    ) -> (r: ChatPlan)
        ensures
            plans(
                r,
                match target(self.config@, model_view(model), ollama@) {
                    Some(t) => Some(
                        call_to(
                            if model is Some && local_model(model->0@) {
                                CallKind::Local
                            } else {
                                CallKind::Chat
                            },
                            t,
                            self.config@,
                            message_views(messages@),
                            None,
                            false,
                            if model is Some && local_model(model->0@) {
                                None
                            } else {
                                install_id(self.config.api_key@)
                            },
                            Some(120),
                        ),
                    ),
                    None => None,
                },
                message_views(messages@),
                false,
            ),
    {
        if let Some(m) = model {
            if is_local_model(m) {
                let t = Target {
                    model: m.to_owned(),
                    base_url: ollama.to_owned(),
                    api_key: String::new(),
                };
                return ChatPlan::Call(self.call(CallKind::Local, t, messages, None, false, None, Some(120)));
            }
        }
        self.chat(messages)
    }

    /// The call for a streamed chat; none where there is no key.
    pub fn chat_stream_for_model(
        &self,
        messages: Vec<Message>,
        model: Option<&str>,
        ollama: &str,
    ) -> (r: Option<ChatCall>)
        ensures
            match (r, target(self.config@, model_view(model), ollama@)) {
                (Some(c), Some(t)) => c@ == call_to(
                    CallKind::Stream,
                    t,
                    self.config@,
                    message_views(messages@),
                    None,
                    true,
                    install_id(self.config.api_key@),
                    None,
                ),
                (None, None) => true,
                _ => false,
            },
    {
        match self.target(model, ollama) {
            Some(t) => {
                let user = install_user_id(&self.config.api_key);
                Some(self.call(CallKind::Stream, t, messages, None, true, user, None))
            },
            None => None,
        }
    }

    /// The call for a streamed chat with tools; none where there is no key.
    pub fn chat_stream_with_tools_for_model(
        &self,
        messages: Vec<Message>,
        tools: Vec<ToolDefinition>,
        model: Option<&str>,
        ollama: &str,
    ) -> (r: Option<ChatCall>)
        ensures
            match (r, target(self.config@, model_view(model), ollama@)) {
                (Some(c), Some(t)) => c@ == call_to(
                    CallKind::StreamTools,
                    t,
                    self.config@,
                    message_views(messages@),
                    if tools@.len() == 0 {
                        None
                    } else {
                        Some(tool_views(tools@))
                    },
                    true,
                    None,
                    None,
                ),
                (None, None) => true,
                _ => false,
            },
    {
        match self.target(model, ollama) {
            Some(t) => {
                let offered = if tools.len() == 0 {
                    None
                } else {
                    Some(tools)
                };
                Some(self.call(CallKind::StreamTools, t, messages, offered, true, None, None))
            },
            None => None,
        }
    }

    /// A chat with tools and the configured model.
    pub fn chat_with_tools(&self, messages: Vec<Message>, tools: Vec<ToolDefinition>) -> (r:
        ChatPlan)
        ensures
            plans(
                r,
                match target(self.config@, None, Seq::empty()) {
                    Some(t) => Some(
                        call_to(
                            CallKind::Tools,
                            t,
                            self.config@,
                            message_views(messages@),
                            Some(tool_views(tools@)),
                            false,
                            install_id(self.config.api_key@),
                            None,
                        ),
                    ),
                    None => None,
                },
                message_views(messages@),
                tools@.len() > 0,
            ),
    {
        self.chat_with_tools_for_model(messages, tools, None, "")
    }

    /// A chat with tools and a named model.
    pub fn chat_with_tools_for_model(
        &self,
        messages: Vec<Message>,
        tools: Vec<ToolDefinition>,
        model: Option<&str>,
        ollama: &str,
    ) -> (r: ChatPlan)
        ensures
            plans(
                r,
                match target(self.config@, model_view(model), ollama@) {
                    Some(t) => Some(
                        call_to(
                            CallKind::Tools,
                            t,
                            self.config@,
                            message_views(messages@),
                            Some(tool_views(tools@)),
                            false,
                            install_id(self.config.api_key@),
                            None,
                        ),
                    ),
                    None => None,
                },
                message_views(messages@),
                tools@.len() > 0,
            ),
    {
        match self.target(model, ollama) {
            Some(t) => {
                let user = install_user_id(&self.config.api_key);
                ChatPlan::Call(self.call(CallKind::Tools, t, messages, Some(tools), false, user, None))
            },
            None => ChatPlan::Mock(mock_chat_response(&messages, tools.len() > 0)),
        }
    }

    /// The model for work on the side: the cheapest one that the provider
    /// lists, or else the configured one.
    pub fn cheapest_model(&self, listed: Option<String>) -> (r: String)
        ensures
            r@ == (match listed {
                Some(m) => m@,
                None => self.config.model@,
            }),
    {
        match listed {
            Some(m) => m,
            None => self.config.model.clone(),
        }
    }

    /// Where the embedding of a text comes from.
    pub fn get_embedding(&self, text: &str) -> (r: EmbeddingPlan)
        ensures
            match self.config.embedding_provider {
                EmbeddingProvider::Mock => r is Mock,
                EmbeddingProvider::OpenAiCompatible => match r {
                    EmbeddingPlan::Mock => text::blank(self.config.embedding_api_key@),
                    EmbeddingPlan::Remote { url, authorization, request } => {
                        &&& !text::blank(self.config.embedding_api_key@)
                        &&& url@ == self.config.embedding_base_url@ + "/embeddings"@
                        &&& authorization@ == "Bearer "@ + self.config.embedding_api_key@
                        &&& request.model@ == self.config.embedding_model@
                        &&& request.input@ == text@
                    },
                    EmbeddingPlan::Local { .. } => false,
                },
                EmbeddingProvider::Ollama => match r {
                    EmbeddingPlan::Local { url, fallback_url, model, input } => {
                        let base = text::strip_end(self.config.embedding_base_url@, '/');
                        &&& url@ == base + "/api/embed"@
                        &&& fallback_url@ == base + "/api/embeddings"@
                        &&& model@ == self.config.embedding_model@
                        &&& input@ == text@
                    },
                    _ => false,
                },
            },
    {
        match self.config.embedding_provider {
            EmbeddingProvider::Mock => EmbeddingPlan::Mock,
            EmbeddingProvider::OpenAiCompatible => {
                if text::is_blank(&self.config.embedding_api_key) {
                    return EmbeddingPlan::Mock;
                }
                let mut url = self.config.embedding_base_url.clone();
                url.append("/embeddings");
                let mut authorization = "Bearer ".to_owned();
                authorization.append(&self.config.embedding_api_key);
                EmbeddingPlan::Remote {
                    url,
                    authorization,
                    request: EmbeddingRequest {
                        model: self.config.embedding_model.clone(),
                        input: text.to_owned(),
                    },
                }
            },
            EmbeddingProvider::Ollama => {
                let base = text::stripped_end(&self.config.embedding_base_url, '/');
                let mut url = base.clone();
                url.append("/api/embed");
                let mut fallback_url = base;
                fallback_url.append("/api/embeddings");
                EmbeddingPlan::Local {
                    url,
                    fallback_url,
                    model: self.config.embedding_model.clone(),
                    input: text.to_owned(),
                }
            },
        }
    }
}

/// Where the embedding of a text comes from.
#[derive(Debug)]
pub enum EmbeddingPlan {
    /// It is computed from the bytes of the text.
    Mock,
    /// It is asked of the provider.
    Remote { url: String, authorization: String, request: EmbeddingRequest },
    /// It is asked of the local server, at the second address where the first
    /// does not answer; where that fails too it is computed.
    Local { url: String, fallback_url: String, model: String, input: String },
}

pub const NO_VECTOR: &'static str = "Ollama returned no embedding vector";

pub const NO_EMBEDDING: &'static str = "No embedding data returned";

/// The reply of the local server, in either of its shapes.
#[derive(Debug)]
pub struct OllamaEmbedResponse<T> {
    pub embeddings: Vec<Vec<T>>,
    pub embedding: Vec<T>,
}

/// The vector in a reply of the local server.
pub open spec fn ollama_vector<T>(p: OllamaEmbedResponse<T>) -> Option<Vec<T>> {
    if p.embeddings@.len() > 0 && p.embeddings@[0]@.len() > 0 {
        Some(p.embeddings@[0])
    } else if p.embedding@.len() > 0 {
        Some(p.embedding)
    } else {
        None
    }
}

impl<H> LLMClient<H> {
    /// The vector in a reply of the local server: the first of several, or else
    /// the single one, if it is not empty.
    pub fn extract_ollama_embedding<T>(payload: OllamaEmbedResponse<T>) -> (r: Result<Vec<T>, String>)
        ensures
            match r {
                Ok(v) => ollama_vector(payload) == Some(v),
                Err(e) => ollama_vector(payload) is None && e@ == NO_VECTOR@,
            },
    {
        let mut embeddings = payload.embeddings;
        if embeddings.len() > 0 {
            let first = embeddings.remove(0);
            if first.len() > 0 {
                return Ok(first);
            }
        }
        if payload.embedding.len() > 0 {
            return Ok(payload.embedding);
        }
        Err(NO_VECTOR.to_owned())
    }
}

/// What came of a request to the local server.
#[derive(Debug)]
pub enum LocalOutcome<T> {
    /// It could not be reached.
    Unreachable,
    /// It answered, with success or not; the payload is absent where it could not
    /// be read.
    Answered { success: bool, payload: Option<OllamaEmbedResponse<T>> },
}

/// What follows from it.
#[derive(Debug)]
pub enum EmbeddingStep<T> {
    /// The vector is there.
    Take { vector: Vec<T> },
    /// The second address is asked.
    AskFallback,
    /// The vector is computed from the bytes of the text.
    Compute,
}

/// The vector of an outcome, if it holds one.
pub open spec fn vector_in<T>(outcome: LocalOutcome<T>) -> Option<Vec<T>> {
    match outcome {
        LocalOutcome::Answered { payload: Some(p), .. } => ollama_vector(p),
        _ => None,
    }
}

/// What follows from what came of a request: the second address is asked where
/// the first was not answered with success, and the vector is computed where the
/// answer that counts holds none.
pub fn get_ollama_embedding<T>(at_fallback: bool, outcome: LocalOutcome<T>) -> (r: EmbeddingStep<T>)
    ensures
        if !at_fallback && !(outcome matches LocalOutcome::Answered { success, .. } && success) {
            r is AskFallback
        } else {
            match vector_in(outcome) {
                Some(v) => r == EmbeddingStep::Take { vector: v },
                None => r is Compute,
            }
        },
{
    match outcome {
        LocalOutcome::Unreachable => if at_fallback {
            EmbeddingStep::Compute
        } else {
            EmbeddingStep::AskFallback
        },
        LocalOutcome::Answered { success, payload } => {
            if !at_fallback && !success {
                return EmbeddingStep::AskFallback;
            }
            match payload {
                Some(p) => match LLMClient::<()>::extract_ollama_embedding(p) {
                    Ok(vector) => EmbeddingStep::Take { vector },
                    Err(_) => EmbeddingStep::Compute,
                },
                None => EmbeddingStep::Compute,
            }
        },
    }
}

/// The vector in a reply of the provider: the first one.
pub fn first_embedding<T>(reply: EmbeddingResponse<T>) -> (r: Result<Vec<T>, String>)
    ensures
        match r {
            Ok(v) => reply.data@.len() > 0 && v == reply.data@[0].embedding,
            Err(e) => reply.data@.len() == 0 && e@ == NO_EMBEDDING@,
        },
{
    let mut data = reply.data;
    if data.len() > 0 {
        Ok(data.remove(0).embedding)
    } else {
        Err(NO_EMBEDDING.to_owned())
    }
}

/// Who is said to have replied to a call.
pub open spec fn who(kind: CallKind) -> Seq<char> {
    match kind {
        CallKind::Local => "Ollama"@,
        CallKind::Override => "LLM override"@,
        CallKind::Tools => "LLM"@,
        _ => "LLM API"@,
    }
}

/// What is told of a call that came to nothing.
pub open spec fn failure_text(kind: CallKind, failure: CallFailure) -> Seq<char> {
    match failure {
        CallFailure::Unsent { error } => match kind {
            CallKind::Local => "Ollama request failed"@,
            CallKind::Stream => "stream request"@,
            CallKind::StreamTools => "stream+tools request"@,
            CallKind::Tools => "chat_with_tools request"@,
            _ => error@,
        },
        CallFailure::Refused { status, body } => who(kind) + " returned "@ + status@ + ": "@
            + body@,
        CallFailure::Unread { error } => match kind {
            CallKind::Local => "Ollama JSON parse"@,
            CallKind::Override => "override JSON parse"@,
            CallKind::Tools => "chat_with_tools JSON parse"@,
            _ => error@,
        },
    }
}

/// What is told of a call that came to nothing: what was tried, or the error
/// itself; of a reply that is no success, who replied, its status and its body.
pub fn failed_call(kind: CallKind, failure: CallFailure) -> (r: String)
    ensures
        r@ == failure_text(kind, failure),
{
    match failure {
        CallFailure::Unsent { error } => match kind {
            CallKind::Local => "Ollama request failed".to_owned(),
            CallKind::Stream => "stream request".to_owned(),
            CallKind::StreamTools => "stream+tools request".to_owned(),
            CallKind::Tools => "chat_with_tools request".to_owned(),
            _ => error,
        },
        CallFailure::Refused { status, body } => {
            let mut out = match kind {
                CallKind::Local => "Ollama".to_owned(),
                CallKind::Override => "LLM override".to_owned(),
                CallKind::Tools => "LLM".to_owned(),
                _ => "LLM API".to_owned(),
            };
            out.append(" returned ");
            out.append(&status);
            out.append(": ");
            out.append(&body);
            out
        },
        CallFailure::Unread { error } => match kind {
            CallKind::Local => "Ollama JSON parse".to_owned(),
            CallKind::Override => "override JSON parse".to_owned(),
            CallKind::Tools => "chat_with_tools JSON parse".to_owned(),
            _ => error,
        },
    }
}

/// A key never leaves for a local model, and nothing leaves where there is
/// neither a key nor a local model.
pub proof fn local_models_get_no_key(c: LLMConfigV, model: Option<Seq<char>>, ollama: Seq<char>)
    ensures
        model is Some && local_model(model->0) ==> (target(c, model, ollama) matches Some(t)
            && t.base_url == ollama && bearer(t.api_key) is None),
        target(c, model, ollama) is None <==> text::blank(c.api_key) && !(model is Some
            && local_model(model->0)),
{
}

} // verus!
