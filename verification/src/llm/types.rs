//! The configuration of the language model and the types of its wire format.

use crate::json::{Json, JsonV};
use crate::text;
use vstd::prelude::*;

verus! {

/// A 32-bit float that is only carried, by its bits.
#[derive(Clone, Copy, Debug, PartialEq, Eq, Structural)]
pub struct FloatBits {
    pub bits: u32,
}

/// The bits of 0.7, the temperature of a configuration that names none.
pub const DEFAULT_TEMPERATURE: u32 = 0x3f33_3333;

/// Where embeddings come from.
#[derive(Clone, Copy, Debug, PartialEq, Eq, Structural)]
pub enum EmbeddingProvider {
    Mock,
    OpenAiCompatible,
    Ollama,
}

impl EmbeddingProvider {
    /// The provider that a setting names; an unknown name means the local one.
    pub open spec fn named(value: Seq<char>) -> EmbeddingProvider {
        let v = text::lower(text::trim(value));
        if v == "mock"@ {
            EmbeddingProvider::Mock
        } else if v == "openai"@ || v == "openai-compatible"@ || v == "openai_compatible"@ || v
            == "remote"@ {
            EmbeddingProvider::OpenAiCompatible
        } else {
            EmbeddingProvider::Ollama
        }
    }

    /// The provider that a setting names, in any case and with space around it.
    pub fn from_env_value(value: &str) -> (r: Self)
        ensures
            r == EmbeddingProvider::named(value@),
    {
        let v = text::to_lower(&text::trimmed(value));
        if text::same(&v, "mock") {
            EmbeddingProvider::Mock
        } else if text::same(&v, "openai") || text::same(&v, "openai-compatible") || text::same(
            &v,
            "openai_compatible",
        ) || text::same(&v, "remote") {
            EmbeddingProvider::OpenAiCompatible
        } else {
            EmbeddingProvider::Ollama
        }
    }
}

/// The settings that the environment may give, each absent or set.
#[derive(Debug)]
pub struct LLMSettings {
    pub base_url: Option<String>,
    pub api_key: Option<String>,
    pub model: Option<String>,
    pub max_tokens: Option<String>,
    /// Absent also where the setting is no number.
    pub temperature: Option<FloatBits>,
    pub embedding_provider: Option<String>,
    pub embedding_base_url: Option<String>,
    pub embedding_model: Option<String>,
    pub embedding_api_key: Option<String>,
}

/// The text of a setting, or what stands in for an absent one.
pub open spec fn setting(s: Option<String>, otherwise: Seq<char>) -> Seq<char> {
    match s {
        Some(v) => v@,
        None => otherwise,
    }
}

/// The value of a setting, or a copy of what stands in for an absent one.
pub fn setting_or(s: &Option<String>, otherwise: &str) -> (r: String)
    ensures
        r@ == setting(*s, otherwise@),
{
    match s {
        Some(v) => v.clone(),
        None => otherwise.to_owned(),
    }
}

/// How the model and the embeddings are reached.
#[derive(Debug)]
pub struct LLMConfig {
    pub base_url: String,
    pub api_key: String,
    pub model: String,
    pub max_tokens: u32,
    pub temperature: FloatBits,
    pub embedding_provider: EmbeddingProvider,
    pub embedding_base_url: String,
    pub embedding_model: String,
    pub embedding_api_key: String,
}

/// The model of a configuration.
pub struct LLMConfigV {
    pub base_url: Seq<char>,
    pub api_key: Seq<char>,
    pub model: Seq<char>,
    pub max_tokens: u32,
    pub temperature: FloatBits,
    pub embedding_provider: EmbeddingProvider,
    pub embedding_base_url: Seq<char>,
    pub embedding_model: Seq<char>,
    pub embedding_api_key: Seq<char>,
}

impl View for LLMConfig {
    type V = LLMConfigV;

    open spec fn view(&self) -> LLMConfigV {
        LLMConfigV {
            base_url: self.base_url@,
            api_key: self.api_key@,
            model: self.model@,
            max_tokens: self.max_tokens,
            temperature: self.temperature,
            embedding_provider: self.embedding_provider,
            embedding_base_url: self.embedding_base_url@,
            embedding_model: self.embedding_model@,
            embedding_api_key: self.embedding_api_key@,
        }
    }
}

impl LLMConfigV {
    /// The configuration that a set of settings amounts to. Texts are made into
    /// vectors by the built-in embedder unless a provider is named.
    pub open spec fn of_settings(s: LLMSettings) -> LLMConfigV {
        let base_url = setting(s.base_url, "https://api.openai.com/v1"@);
        let api_key = setting(s.api_key, Seq::empty());
        let provider = match s.embedding_provider {
            Some(v) => EmbeddingProvider::named(v@),
            None => EmbeddingProvider::Mock,
        };
        let local = provider == EmbeddingProvider::Ollama;
        LLMConfigV {
            base_url,
            api_key,
            model: setting(s.model, "openai-fast"@),
            max_tokens: match s.max_tokens {
                Some(v) => match text::unsigned_value(v@, u32::MAX as nat) {
                    Some(n) => n as u32,
                    None => 8192,
                },
                None => 8192,
            },
            temperature: match s.temperature {
                Some(t) => t,
                None => (FloatBits { bits: DEFAULT_TEMPERATURE }),
            },
            embedding_provider: provider,
            embedding_base_url: setting(
                s.embedding_base_url,
                if local {
                    "http://127.0.0.1:11434"@
                } else {
                    base_url
                },
            ),
            embedding_model: setting(
                s.embedding_model,
                if local {
                    "nomic-embed-text"@
                } else {
                    "text-embedding-3-small"@
                },
            ),
            embedding_api_key: setting(s.embedding_api_key, api_key),
        }
    }
}

impl LLMConfig {
    /// The configuration that the settings amount to, with a default for each
    /// absent one.
    pub fn from_env(s: &LLMSettings) -> (r: Self)
        ensures
            r@ == LLMConfigV::of_settings(*s),
    {
        let base_url = setting_or(&s.base_url, "https://api.openai.com/v1");
        let api_key = match &s.api_key {
            Some(v) => v.clone(),
            None => String::new(),
        };
        let embedding_provider = match &s.embedding_provider {
            Some(v) => EmbeddingProvider::from_env_value(v),
            None => EmbeddingProvider::Mock,
        };
        let local = embedding_provider == EmbeddingProvider::Ollama;
        let embedding_base_url = if local {
            setting_or(&s.embedding_base_url, "http://127.0.0.1:11434")
        } else {
            setting_or(&s.embedding_base_url, &base_url)
        };
        let embedding_model = if local {
            setting_or(&s.embedding_model, "nomic-embed-text")
        } else {
            setting_or(&s.embedding_model, "text-embedding-3-small")
        };
        let embedding_api_key = setting_or(&s.embedding_api_key, &api_key);
        let max_tokens: u32 = match &s.max_tokens {
            Some(v) => match text::parse_unsigned(v, u32::MAX as u64) {
                Some(n) => n as u32,
                None => 8192,
            },
            None => 8192,
        };
        let temperature = match s.temperature {
            Some(t) => t,
            None => FloatBits { bits: DEFAULT_TEMPERATURE },
        };
        LLMConfig {
            base_url,
            api_key,
            model: setting_or(&s.model, "openai-fast"),
            max_tokens,
            temperature,
            embedding_provider,
            embedding_base_url,
            embedding_model,
            embedding_api_key,
        }
    }
}

/// The name and the arguments of a function that the model calls.
#[derive(Debug, Clone)]
pub struct FunctionCall {
    pub name: String,
    pub arguments: String,
}

/// One call of a tool by the model.
#[derive(Debug, Clone)]
pub struct ToolCallDefinition {
    pub id: String,
    pub call_type: String,
    pub function: FunctionCall,
}

/// The model of a tool call.
pub struct ToolCallV {
    pub id: Seq<char>,
    pub call_type: Seq<char>,
    pub name: Seq<char>,
    pub arguments: Seq<char>,
}

impl View for ToolCallDefinition {
    type V = ToolCallV;

    open spec fn view(&self) -> ToolCallV {
        ToolCallV {
            id: self.id@,
            call_type: self.call_type@,
            name: self.function.name@,
            arguments: self.function.arguments@,
        }
    }
}

impl ToolCallDefinition {
    /// A copy of the call.
    pub fn copy(&self) -> (r: Self)
        ensures
            r@ == self@,
    {
        ToolCallDefinition {
            id: self.id.clone(),
            call_type: self.call_type.clone(),
            function: FunctionCall {
                name: self.function.name.clone(),
                arguments: self.function.arguments.clone(),
            },
        }
    }
}

/// The models of a list of tool calls.
pub open spec fn call_views(calls: Seq<ToolCallDefinition>) -> Seq<ToolCallV> {
    calls.map_values(|c: ToolCallDefinition| c@)
}

/// A copy of a list of tool calls.
pub fn copy_calls(calls: &Vec<ToolCallDefinition>) -> (r: Vec<ToolCallDefinition>)
    ensures
        call_views(r@) == call_views(calls@),
{
    let mut out: Vec<ToolCallDefinition> = Vec::new();
    for i in 0..calls.len()
        invariant
            out@.len() == i,
            forall|j: int| 0 <= j < i ==> (#[trigger] out@[j])@ == calls@[j]@,
    {
        let c = calls[i].copy();
        out.push(c);
    }
    assert(call_views(out@) =~= call_views(calls@));
    out
}

/// A message of the conversation, as it is sent to the model.
#[derive(Debug)]
pub struct Message {
    pub role: String,
    /// The plain text; where `content_blocks` stands too, its readable part.
    pub content: String,
    /// The raw content blocks of an earlier reply, sent in place of `content`
    /// so that the signatures in them come back unchanged.
    pub content_blocks: Option<Json>,
    /// Set on messages of the assistant that call tools.
    pub tool_calls: Option<Vec<ToolCallDefinition>>,
    /// Set on messages that carry a tool's result: the id of the call.
    pub tool_call_id: Option<String>,
    /// The raw reasoning of the model on the turn before, echoed back.
    pub reasoning: Option<Json>,
}

/// The model of a message.
pub struct MessageV {
    pub role: Seq<char>,
    pub content: Seq<char>,
    pub content_blocks: Option<JsonV>,
    pub tool_calls: Option<Seq<ToolCallV>>,
    pub tool_call_id: Option<Seq<char>>,
    pub reasoning: Option<JsonV>,
}

impl View for Message {
    type V = MessageV;

    open spec fn view(&self) -> MessageV {
        MessageV {
            role: self.role@,
            content: self.content@,
            content_blocks: match self.content_blocks {
                Some(b) => Some(b@),
                None => None,
            },
            tool_calls: match self.tool_calls {
                Some(calls) => Some(call_views(calls@)),
                None => None,
            },
            tool_call_id: match self.tool_call_id {
                Some(id) => Some(id@),
                None => None,
            },
            reasoning: match self.reasoning {
                Some(r) => Some(r@),
                None => None,
            },
        }
    }
}

impl MessageV {
    /// A message of plain text.
    pub open spec fn plain(role: Seq<char>, content: Seq<char>) -> MessageV {
        MessageV {
            role,
            content,
            content_blocks: None,
            tool_calls: None,
            tool_call_id: None,
            reasoning: None,
        }
    }
}

/// The models of a list of messages.
pub open spec fn message_views(messages: Seq<Message>) -> Seq<MessageV> {
    messages.map_values(|m: Message| m@)
}

pub broadcast proof fn message_views_push(messages: Seq<Message>, m: Message)
    ensures
        #[trigger] message_views(messages.push(m)) == message_views(messages).push(m@),
{
    assert(message_views(messages.push(m)) =~= message_views(messages).push(m@));
}

impl Default for Message {
    fn default() -> (r: Self)
        ensures
            r@ == MessageV::plain(Seq::empty(), Seq::empty()),
    {
        Message {
            role: String::new(),
            content: String::new(),
            content_blocks: None,
            tool_calls: None,
            tool_call_id: None,
            reasoning: None,
        }
    }
}

impl Message {
    /// A message of plain text.
    pub fn text(role: &str, content: String) -> (r: Self)
        ensures
            r@ == MessageV::plain(role@, content@),
    {
        Message {
            role: role.to_owned(),
            content,
            content_blocks: None,
            tool_calls: None,
            tool_call_id: None,
            reasoning: None,
        }
    }

    /// A message that carries the result of the tool call `id`.
    pub fn tool_result(id: &str, content: String) -> (r: Self)
        ensures
            r@ == (MessageV {
                tool_call_id: Some(id@),
                ..MessageV::plain("tool"@, content@)
            }),
    {
        Message {
            role: "tool".to_owned(),
            content,
            content_blocks: None,
            tool_calls: None,
            tool_call_id: Some(id.to_owned()),
            reasoning: None,
        }
    }

    /// A copy of the message.
    pub fn copy(&self) -> (r: Self)
        ensures
            r@ == self@,
    {
        Message {
            role: self.role.clone(),
            content: self.content.clone(),
            content_blocks: match &self.content_blocks {
                Some(b) => Some(b.copy()),
                None => None,
            },
            tool_calls: match &self.tool_calls {
                Some(calls) => Some(copy_calls(calls)),
                None => None,
            },
            tool_call_id: self.tool_call_id.clone(),
            reasoning: match &self.reasoning {
                Some(r) => Some(r.copy()),
                None => None,
            },
        }
    }
}

/// A copy of a list of messages.
pub fn copy_messages(messages: &Vec<Message>) -> (r: Vec<Message>)
    ensures
        message_views(r@) == message_views(messages@),
{
    let mut out: Vec<Message> = Vec::new();
    for i in 0..messages.len()
        invariant
            out@.len() == i,
            forall|j: int| 0 <= j < i ==> (#[trigger] out@[j])@ == messages@[j]@,
    {
        let m = messages[i].copy();
        out.push(m);
    }
    assert(message_views(out@) =~= message_views(messages@));
    out
}

/// A function that the model may call; `parameters` is its JSON schema.
#[derive(Debug)]
pub struct FunctionDefinition {
    pub name: String,
    pub description: String,
    pub parameters: Json,
}

/// A tool that is offered to the model.
#[derive(Debug)]
pub struct ToolDefinition {
    pub tool_type: String,
    pub function: FunctionDefinition,
}

/// The model of an offered tool.
pub struct ToolV {
    pub tool_type: Seq<char>,
    pub name: Seq<char>,
    pub description: Seq<char>,
    pub parameters: JsonV,
}

impl View for ToolDefinition {
    type V = ToolV;

    open spec fn view(&self) -> ToolV {
        ToolV {
            tool_type: self.tool_type@,
            name: self.function.name@,
            description: self.function.description@,
            parameters: self.function.parameters@,
        }
    }
}

impl ToolDefinition {
    /// A copy of the tool.
    pub fn copy(&self) -> (r: Self)
        ensures
            r@ == self@,
    {
        ToolDefinition {
            tool_type: self.tool_type.clone(),
            function: FunctionDefinition {
                name: self.function.name.clone(),
                description: self.function.description.clone(),
                parameters: self.function.parameters.copy(),
            },
        }
    }
}

/// The models of a list of tools.
pub open spec fn tool_views(tools: Seq<ToolDefinition>) -> Seq<ToolV> {
    tools.map_values(|t: ToolDefinition| t@)
}

pub broadcast proof fn tool_views_push(tools: Seq<ToolDefinition>, t: ToolDefinition)
    ensures
        #[trigger] tool_views(tools.push(t)) == tool_views(tools).push(t@),
{
    assert(tool_views(tools.push(t)) =~= tool_views(tools).push(t@));
}

/// What is sent to the model.
#[derive(Debug)]
pub struct ChatCompletionRequest {
    pub model: String,
    pub messages: Vec<Message>,
    pub tools: Option<Vec<ToolDefinition>>,
    pub max_tokens: Option<u32>,
    pub temperature: Option<FloatBits>,
    pub stream: Option<bool>,
    /// A stable id, by which a provider may keep what it has cached apart.
    pub user: Option<String>,
}

/// The model of a request.
pub struct ChatRequestV {
    pub model: Seq<char>,
    pub messages: Seq<MessageV>,
    pub tools: Option<Seq<ToolV>>,
    pub max_tokens: Option<u32>,
    pub temperature: Option<FloatBits>,
    pub stream: Option<bool>,
    pub user: Option<Seq<char>>,
}

impl View for ChatCompletionRequest {
    type V = ChatRequestV;

    open spec fn view(&self) -> ChatRequestV {
        ChatRequestV {
            model: self.model@,
            messages: message_views(self.messages@),
            tools: match self.tools {
                Some(t) => Some(tool_views(t@)),
                None => None,
            },
            max_tokens: self.max_tokens,
            temperature: self.temperature,
            stream: self.stream,
            user: match self.user {
                Some(u) => Some(u@),
                None => None,
            },
        }
    }
}

/// A request for the embedding of a text.
#[derive(Debug, Clone)]
pub struct EmbeddingRequest {
    pub model: String,
    pub input: String,
}

/// A reply to such a request, with the numbers of an embedding left open.
#[derive(Debug)]
pub struct EmbeddingResponse<T> {
    pub data: Vec<EmbeddingData<T>>,
}

/// An embedding, and its place in the request.
#[derive(Debug)]
pub struct EmbeddingData<T> {
    pub embedding: Vec<T>,
    pub index: usize,
}

/// How many tokens a reply took.
#[derive(Debug, Clone, Copy, PartialEq, Eq, Structural)]
pub struct Usage {
    pub prompt_tokens: u32,
    pub completion_tokens: u32,
    pub total_tokens: u32,
}

/// A whole reply of the model.
#[derive(Debug)]
pub struct ChatCompletionResponse {
    pub id: Option<String>,
    pub choices: Vec<Choice>,
    pub usage: Option<Usage>,
}

/// One of the answers in a reply.
#[derive(Debug)]
pub struct Choice {
    pub message: ResponseMessage,
    pub finish_reason: Option<String>,
}

/// The message of an answer. Its content is a text, or a list of blocks.
#[derive(Debug)]
pub struct ResponseMessage {
    pub role: String,
    pub content: Option<Json>,
    pub tool_calls: Option<Vec<ToolCallDefinition>>,
}

/// What `pick` takes from each block of a list, in order.
pub open spec fn picked(
    blocks: Seq<JsonV>,
    pick: spec_fn(JsonV) -> Option<Seq<char>>,
) -> Seq<Seq<char>>
    decreases blocks.len(),
{
    if blocks.len() == 0 {
        Seq::empty()
    } else {
        let before = picked(blocks.drop_last(), pick);
        match pick(blocks.last()) {
            Some(t) => before.push(t),
            None => before,
        }
    }
}

/// The text of a text block.
pub open spec fn block_text(b: JsonV) -> Option<Seq<char>> {
    if b.text_at("type"@) == Some("text"@) {
        b.text_at("text"@)
    } else {
        None
    }
}

/// The thought in a thinking block or a reasoning block.
pub open spec fn block_thought(b: JsonV) -> Option<Seq<char>> {
    if b.text_at("type"@) == Some("thinking"@) {
        b.text_at("thinking"@)
    } else if b.text_at("type"@) == Some("reasoning"@) {
        b.text_at("reasoning"@)
    } else {
        None
    }
}

/// A text, or nothing where it is empty.
pub open spec fn unless_empty(s: Seq<char>) -> Option<Seq<char>> {
    if s.len() == 0 {
        None
    } else {
        Some(s)
    }
}

/// The readable text of a content.
pub open spec fn content_text(content: Option<JsonV>) -> Option<Seq<char>> {
    match content {
        Some(JsonV::Text(s)) => unless_empty(s),
        Some(JsonV::List(blocks)) => unless_empty(
            text::join(picked(blocks, |b: JsonV| block_text(b)), ""@),
        ),
        _ => None,
    }
}

/// The thoughts in a content.
pub open spec fn content_thoughts(content: Option<JsonV>) -> Option<Seq<char>> {
    match content {
        Some(JsonV::List(blocks)) => unless_empty(
            text::join(picked(blocks, |b: JsonV| block_thought(b)), "\n\n"@),
        ),
        _ => None,
    }
}

/// The model of an optional JSON value.
pub open spec fn json_view(j: Option<Json>) -> Option<JsonV> {
    match j {
        Some(v) => Some(v@),
        None => None,
    }
}

/// The model of an optional string.
pub open spec fn text_view(s: Option<String>) -> Option<Seq<char>> {
    match s {
        Some(v) => Some(v@),
        None => None,
    }
}

fn has_type(b: &Json, kind: &str) -> (r: bool)
    ensures
        r == (b@.text_at("type"@) == Some(kind@)),
{
    match b.text_at("type") {
        Some(t) => text::same(&t, kind),
        None => false,
    }
}

fn text_or_none(s: String) -> (r: Option<String>)
    ensures
        text_view(r) == unless_empty(s@),
{
    if s.as_str().is_empty() {
        None
    } else {
        Some(s)
    }
}

impl ResponseMessage {
    /// The readable text: the content itself, or its text blocks joined.
    pub fn text_content(&self) -> (r: Option<String>)
        ensures
            text_view(r) == content_text(json_view(self.content)),
    {
        broadcast use text::views_push;

        match &self.content {
            Some(Json::Text(s)) => text_or_none(s.clone()),
            Some(Json::List(blocks)) => {
                let ghost all = json_view(self.content)->0->List_0;
                let ghost pick = |b: JsonV| block_text(b);
                let mut parts: Vec<String> = Vec::new();
                assert(all.take(0) =~= Seq::empty());
                for i in 0..blocks.len()
                    invariant
                        all.len() == blocks@.len(),
                        forall|j: int| 0 <= j < all.len() ==> #[trigger] all[j] == blocks@[j]@,
                        pick == (|b: JsonV| block_text(b)),
                        text::views(parts@) == picked(all.take(i as int), pick),
                {
                    proof {
                        assert(all.take(i + 1).drop_last() =~= all.take(i as int));
                        assert(all.take(i + 1).last() == blocks@[i as int]@);
                    }
                    if has_type(&blocks[i], "text") {
                        if let Some(t) = blocks[i].text_at("text") {
                            parts.push(t);
                        }
                    }
                }
                assert(all.take(all.len() as int) =~= all);
                text_or_none(text::joined(&parts, ""))
            },
            _ => None,
        }
    }

    /// The thoughts: the thinking and reasoning blocks, with a blank line
    /// between them.
    pub fn thinking_content(&self) -> (r: Option<String>)
        ensures
            text_view(r) == content_thoughts(json_view(self.content)),
    {
        broadcast use text::views_push;

        match &self.content {
            Some(Json::List(blocks)) => {
                let ghost all = json_view(self.content)->0->List_0;
                let ghost pick = |b: JsonV| block_thought(b);
                let mut parts: Vec<String> = Vec::new();
                assert(all.take(0) =~= Seq::empty());
                for i in 0..blocks.len()
                    invariant
                        all.len() == blocks@.len(),
                        forall|j: int| 0 <= j < all.len() ==> #[trigger] all[j] == blocks@[j]@,
                        pick == (|b: JsonV| block_thought(b)),
                        text::views(parts@) == picked(all.take(i as int), pick),
                {
                    proof {
                        assert(all.take(i + 1).drop_last() =~= all.take(i as int));
                        assert(all.take(i + 1).last() == blocks@[i as int]@);
                    }
                    if has_type(&blocks[i], "thinking") {
                        if let Some(t) = blocks[i].text_at("thinking") {
                            parts.push(t);
                        }
                    } else if has_type(&blocks[i], "reasoning") {
                        if let Some(t) = blocks[i].text_at("reasoning") {
                            parts.push(t);
                        }
                    }
                }
                assert(all.take(all.len() as int) =~= all);
                text_or_none(text::joined(&parts, "\n\n"))
            },
            _ => None,
        }
    }
}

/// One chunk of a streamed reply.
#[derive(Debug, Clone)]
pub struct StreamChunkResponse {
    pub choices: Vec<StreamChoice>,
    pub usage: Option<Usage>,
}

/// One of the answers in a chunk.
#[derive(Debug, Clone)]
pub struct StreamChoice {
    pub delta: Option<StreamDelta>,
    pub finish_reason: Option<String>,
}

/// What a chunk adds to an answer.
#[derive(Debug, Clone)]
pub struct StreamDelta {
    pub content: Option<String>,
    pub role: Option<String>,
    pub reasoning: Option<String>,
    /// The name that some providers use in place of `reasoning`.
    pub reasoning_content: Option<String>,
    /// Pieces of tool calls; the arguments come as fragments.
    pub tool_calls: Option<Vec<StreamToolCallDelta>>,
}

/// A piece of the tool call at `index`.
#[derive(Debug, Clone)]
pub struct StreamToolCallDelta {
    pub index: usize,
    pub id: Option<String>,
    pub function: Option<StreamFunctionDelta>,
}

/// A piece of the name and the arguments of a call.
#[derive(Debug, Clone)]
pub struct StreamFunctionDelta {
    pub name: Option<String>,
    pub arguments: Option<String>,
}

impl StreamDelta {
    /// The thinking text of a chunk: `reasoning`, or else `reasoning_content`.
    pub open spec fn thinking(self) -> Option<Seq<char>> {
        match self.reasoning {
            Some(t) => Some(t@),
            None => text_view(self.reasoning_content),
        }
    }

    /// The thinking text of the chunk, under either name.
    pub fn thinking_delta(&self) -> (r: Option<&str>)
        ensures
            match r {
                Some(t) => self.thinking() == Some(t@),
                None => self.thinking() is None,
            },
    {
        match &self.reasoning {
            Some(t) => Some(t.as_str()),
            None => match &self.reasoning_content {
                Some(t) => Some(t.as_str()),
                None => None,
            },
        }
    }
}

} // verus!
