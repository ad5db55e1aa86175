//! How models are chosen and called.

use crate::json::JsonV;
use crate::laws::calling::{has_member, members_are_found_by_name, says};
use crate::laws::noting::notes;
use crate::llm::cheap_model::{cheap_hints, hinted, is_cheapest, ranked, ModelCache, ModelEntry};
use crate::llm::client::{
    bearer, call_to, is_mock, local_model, local_prefixes, mock_text, ollama_url, ollama_vector,
    target, CallKind, ChatPlan, EmbeddingPlan, LLMClient, OllamaEmbedResponse, TargetV,
};
use crate::llm::orchestrator::{after, Launch, StartStep};
use crate::llm::schema::{param_schema, properties, schema_of, KindV, ParamV};
use crate::llm::types::{
    block_text, block_thought, content_text, message_views, picked, tool_views,
    ChatCompletionResponse, EmbeddingProvider, LLMConfigV, LLMSettings, Message, MessageV,
    ToolDefinition, ToolV,
};
use crate::startup::{merged, poll_interval};
use crate::text;
use vstd::prelude::*;

verus! {

// ---------------------------------------------------------------------------
// Choosing
// ---------------------------------------------------------------------------

/// A model runs locally if its name has a colon or one of seven beginnings, in capitals
/// or not.
pub proof fn local_models_are_told_by_name(model: Seq<char>)
    ensures
        ({
            let m = text::lower(model);
            local_model(model) <==> text::occurs(m, ":"@) || text::begins(m, "llama"@)
                || text::begins(m, "mistral"@) || text::begins(m, "phi"@) || text::begins(
                m,
                "qwen"@,
            ) || text::begins(m, "deepseek"@) || text::begins(m, "codellama"@) || text::begins(
                m,
                "solar"@,
            )
        }),
{
    let p = local_prefixes();
    assert(p.len() == 7 && p[0] == "llama"@ && p[1] == "mistral"@ && p[2] == "phi"@ && p[3]
        == "qwen"@ && p[4] == "deepseek"@ && p[5] == "codellama"@ && p[6] == "solar"@);
}

/// A local model is called at the local server, any other one at the provider with the
/// model that is set up there.
pub proof fn models_are_called_where_they_run(
    c: LLMConfigV,
    model: Option<Seq<char>>,
    ollama: Seq<char>,
    host: Option<Seq<char>>,
    port: Option<Seq<char>>,
)
    ensures
        model matches Some(m) ==> local_model(m) ==> (target(c, model, ollama) matches Some(t)
            && t.model == m && t.base_url == ollama && t.api_key.len() == 0),
        (model is None || !local_model(model->0)) && !text::blank(c.api_key) ==> (target(
            c,
            model,
            ollama,
        ) matches Some(t) && t.model == c.model && t.base_url == c.base_url && t.api_key
            == c.api_key),
        (model is None || !local_model(model->0)) && text::blank(c.api_key) ==> target(
            c,
            model,
            ollama,
        ) is None,
        host matches Some(h) ==> (port matches Some(p) ==> ollama_url(host, port) == "http://"@ + h
            + ":"@ + p + "/v1"@),
        ollama_url(None, None) == "http://127.0.0.1:11434/v1"@,
{
    reveal_strlit("http://");
    reveal_strlit("127.0.0.1");
    reveal_strlit(":");
    reveal_strlit("11434");
    reveal_strlit("/v1");
    reveal_strlit("http://127.0.0.1:11434/v1");
    assert(ollama_url(None, None) =~= "http://127.0.0.1:11434/v1"@);
}

/// The hints at cheap models, the cheapest first.
pub proof fn hints_come_in_order()
    ensures
        cheap_hints() == seq![
            "nova-fast"@,
            "openai-fast"@,
            "haiku"@,
            "nano"@,
            "mini"@,
            "flash-lite"@,
            "flash"@,
            "small"@,
            "fast"@,
            "turbo"@,
            "8b"@,
            "7b"@,
            "3b"@,
        ],
{
}

/// The cheapest model is the first one that has the earliest hint that any model has.
pub proof fn the_earliest_hint_decides(entries: Seq<ModelEntry>, r: Option<Seq<char>>, i: int, k: int)
    requires
        ranked(entries, r),
        0 <= i < entries.len(),
        0 <= k < cheap_hints().len(),
        text::occurs(text::lower(entries[i].id@), cheap_hints()[k]),
        forall|j: int, h: int|
            0 <= j < entries.len() && 0 <= h < k ==> !text::occurs(
                text::lower((#[trigger] entries[j]).id@),
                #[trigger] cheap_hints()[h],
            ),
        forall|j: int|
            0 <= j < i ==> !text::occurs(
                text::lower((#[trigger] entries[j]).id@),
                cheap_hints()[k],
            ),
    ensures
        r == Some(entries[i].id@),
{
    assert(hinted(entries, i, cheap_hints()[k]));
    let id = r->0;
    let (a, b) = choose|a: int, b: int| #[trigger]
        is_cheapest(entries, a, b) && id == entries[a].id@;
    if b < k {
        assert(!text::occurs(text::lower(entries[a].id@), cheap_hints()[b]));
    } else if k < b {
        assert(!hinted(entries, i, cheap_hints()[k]));
    } else if a < i {
        assert(!text::occurs(text::lower(entries[a].id@), cheap_hints()[k]));
    } else if i < a {
        assert(!hinted(entries, i, cheap_hints()[k]));
    }
}

/// A choice is remembered for an hour.
pub proof fn choices_last_an_hour(c: ModelCache, key: Seq<char>, now: u64)
    requires
        c.picks@.contains_key(key),
        c.picks@[key].at_ms <= now,
    ensures
        c.fresh(key, now) <==> now - c.picks@[key].at_ms < 60 * 60 * 1000,
{
}

// ---------------------------------------------------------------------------
// Calling
// ---------------------------------------------------------------------------

/// A call goes to the chat endpoint of its target, with the key as a bearer where there
/// is one, and carries all messages and tools.
pub proof fn calls_carry_everything(
    kind: CallKind,
    t: TargetV,
    c: LLMConfigV,
    messages: Seq<MessageV>,
    tools: Option<Seq<ToolV>>,
    stream: bool,
    user: Option<Seq<char>>,
    secs: Option<u64>,
)
    ensures
        ({
            let r = call_to(kind, t, c, messages, tools, stream, user, secs);
            &&& r.url == t.base_url + "/chat/completions"@
            &&& t.api_key.len() > 0 ==> r.authorization == Some("Bearer "@ + t.api_key)
            &&& t.api_key.len() == 0 ==> r.authorization is None
            &&& r.request.model == t.model
            &&& r.request.messages == messages
            &&& r.request.tools == tools
            &&& r.request.max_tokens == Some(c.max_tokens)
            &&& r.request.temperature == Some(c.temperature)
            &&& r.request.stream == Some(stream)
            &&& r.request.user == user
            &&& r.timeout_secs == secs
        }),
{
}

/// A chat with a key calls the provider with all messages; without one it is simulated
/// and repeats what the user said.
pub proof fn chats_call_the_provider<H>(
    client: &LLMClient<H>,
    messages: Vec<Message>,
    tools: Vec<ToolDefinition>,
    p: ChatPlan,
    q: ChatPlan,
)
    ensures
        call_ensures(LLMClient::<H>::chat, (client, messages), p) ==> (!text::blank(
            client.config.api_key@,
        ) ==> (p matches ChatPlan::Call(c) && c@.request.messages == message_views(messages@)
            && c@.request.tools is None && c@.request.stream == Some(false) && c@.request.model
            == client.config.model@ && c@.url == client.config.base_url@ + "/chat/completions"@
            && c@.timeout_secs == Some(120u64))) && (text::blank(client.config.api_key@) ==> p is Mock),
        call_ensures(LLMClient::<H>::chat_with_tools, (client, messages, tools), q) ==> (
        !text::blank(client.config.api_key@) ==> (q matches ChatPlan::Call(c) && c@.request.messages
            == message_views(messages@) && c@.request.tools == Some(tool_views(tools@)))),
{
}

/// A text that stands in for a reply repeats the first five hundred characters of what
/// the user said last.
pub proof fn the_placeholder_repeats_the_user(
    r: ChatCompletionResponse,
    messages: Seq<MessageV>,
    tools: bool,
    said: Seq<char>,
)
    requires
        is_mock(r, messages, tools),
        crate::llm::client::last_user(messages) == Some(said),
    ensures
        r.choices@.len() == 1,
        text::ends(
            mock_text(messages, tools),
            if said.len() <= 500 {
                said
            } else {
                said.take(500)
            },
        ),
        crate::llm::types::json_view(r.choices@[0].message.content) == Some(
            JsonV::Text(mock_text(messages, tools)),
        ),
        r.choices@[0].message.role@ == "assistant"@,
        r.choices@[0].message.tool_calls is None,
{
    let t = mock_text(messages, tools);
    let s = if said.len() <= 500 {
        said
    } else {
        said.take(500)
    };
    assert(t.subrange(t.len() - s.len(), t.len() as int) =~= s);
}

/// A text is embedded as it is, by the model that is set up for that.
pub proof fn texts_are_embedded_as_they_are<H>(client: &LLMClient<H>, t: &str, r: EmbeddingPlan)
    requires
        call_ensures(LLMClient::<H>::get_embedding, (client, t), r),
    ensures
        client.config.embedding_provider == EmbeddingProvider::Mock ==> r is Mock,
        client.config.embedding_provider == EmbeddingProvider::OpenAiCompatible && !text::blank(
            client.config.embedding_api_key@,
        ) ==> (r matches EmbeddingPlan::Remote { url, authorization, request } && url@
            == client.config.embedding_base_url@ + "/embeddings"@ && authorization@ == "Bearer "@
            + client.config.embedding_api_key@ && request.input@ == t@ && request.model@
            == client.config.embedding_model@),
        client.config.embedding_provider == EmbeddingProvider::Ollama ==> (
        r matches EmbeddingPlan::Local { input, model, .. } && input@ == t@ && model@
            == client.config.embedding_model@),
{
}

/// Of what a local server answers, the first vector counts that is not empty.
pub proof fn the_first_vector_counts<T>(p: OllamaEmbedResponse<T>)
    ensures
        p.embeddings@.len() > 0 && p.embeddings@[0]@.len() > 0 ==> ollama_vector(p) == Some(
            p.embeddings@[0],
        ),
        (p.embeddings@.len() == 0 || p.embeddings@[0]@.len() == 0) && p.embedding@.len() > 0
            ==> ollama_vector(p) == Some(p.embedding),
        (p.embeddings@.len() == 0 || p.embeddings@[0]@.len() == 0) && p.embedding@.len() == 0
            ==> ollama_vector(p) is None,
{
}

// ---------------------------------------------------------------------------
// Replies
// ---------------------------------------------------------------------------

proof fn picked_up_to(
    a: Seq<JsonV>,
    b: Seq<JsonV>,
    pick: spec_fn(JsonV) -> Option<Seq<char>>,
)
    ensures
        picked(a + b, pick) == picked(a, pick) + picked(b, pick),
    decreases b.len(),
{
    if b.len() == 0 {
        assert(a + b =~= a);
        assert(picked(a, pick) + picked(b, pick) =~= picked(a, pick));
    } else {
        picked_up_to(a, b.drop_last(), pick);
        assert((a + b).drop_last() =~= a + b.drop_last());
        assert(picked(a + b, pick) =~= picked(a, pick) + picked(b, pick));
    }
}

/// The text of a reply is its text, or what its blocks of text say one behind the other;
/// what it thinks stands in its blocks of thinking.
pub proof fn blocks_of_text_are_read(s: Seq<char>, a: Seq<JsonV>, b: Seq<JsonV>, block: JsonV)
    ensures
        s.len() > 0 ==> content_text(Some(JsonV::Text(s))) == Some(s),
        s.len() == 0 ==> content_text(Some(JsonV::Text(s))) is None,
        content_text(None) is None,
        picked(a + b, |x: JsonV| block_text(x)) == picked(a, |x: JsonV| block_text(x)) + picked(
            b,
            |x: JsonV| block_text(x),
        ),
        says(block, "type"@, "text"@) && says(block, "text"@, s) ==> picked(
            seq![block],
            |x: JsonV| block_text(x),
        ) == seq![s] && block_thought(block) is None,
        says(block, "type"@, "thinking"@) && says(block, "thinking"@, s) ==> block_thought(block)
            == Some(s) && picked(seq![block], |x: JsonV| block_text(x)).len() == 0,
        says(block, "type"@, "reasoning"@) && says(block, "reasoning"@, s) ==> block_thought(block)
            == Some(s),
        content_text(Some(JsonV::List(a))) == (if text::join(
            picked(a, |x: JsonV| block_text(x)),
            ""@,
        ).len() == 0 {
            None
        } else {
            Some(text::join(picked(a, |x: JsonV| block_text(x)), ""@))
        }),
{
    let f = |x: JsonV| block_text(x);
    picked_up_to(a, b, f);
    reveal_strlit("text");
    reveal_strlit("thinking");
    reveal_strlit("reasoning");
    assert("text"@.len() == 4 && "thinking"@.len() == 8 && "reasoning"@.len() == 9);
    members_are_found_by_name(block, "type"@);
    members_are_found_by_name(block, "text"@);
    members_are_found_by_name(block, "thinking"@);
    members_are_found_by_name(block, "reasoning"@);
    reveal_with_fuel(picked, 2);
    assert(seq![block].drop_last() =~= Seq::empty());
    if says(block, "type"@, "text"@) {
        assert(has_member(block, "type"@, JsonV::Text("text"@)));
        if says(block, "text"@, s) {
            assert(has_member(block, "text"@, JsonV::Text(s)));
            assert(picked(seq![block], f) =~= seq![s]);
        }
    }
    if says(block, "type"@, "thinking"@) {
        assert(has_member(block, "type"@, JsonV::Text("thinking"@)));
        if says(block, "thinking"@, s) {
            assert(has_member(block, "thinking"@, JsonV::Text(s)));
        }
    }
    if says(block, "type"@, "reasoning"@) {
        assert(has_member(block, "type"@, JsonV::Text("reasoning"@)));
        if says(block, "reasoning"@, s) {
            assert(has_member(block, "reasoning"@, JsonV::Text(s)));
        }
    }
}

// ---------------------------------------------------------------------------
// Settings
// ---------------------------------------------------------------------------

/// A setting counts where it is there, and where it is not there is a default.
pub proof fn settings_count(s: LLMSettings)
    ensures
        ({
            let c = LLMConfigV::of_settings(s);
            &&& s.base_url matches Some(v) ==> c.base_url == v@
            &&& s.base_url is None ==> c.base_url == "https://api.openai.com/v1"@
            &&& s.api_key matches Some(v) ==> c.api_key == v@
            &&& s.api_key is None ==> c.api_key.len() == 0
            &&& s.model matches Some(v) ==> c.model == v@
            &&& s.model is None ==> c.model == "openai-fast"@
            &&& s.max_tokens is None ==> c.max_tokens == 8192
            &&& s.temperature matches Some(t) ==> c.temperature == t
            &&& s.embedding_model matches Some(v) ==> c.embedding_model == v@
            &&& s.embedding_base_url matches Some(v) ==> c.embedding_base_url == v@
            &&& s.embedding_api_key matches Some(v) ==> c.embedding_api_key == v@
            &&& s.embedding_api_key is None ==> c.embedding_api_key == c.api_key
            &&& s.embedding_provider is None ==> c.embedding_provider == EmbeddingProvider::Mock
            &&& c.embedding_provider == EmbeddingProvider::Ollama && s.embedding_base_url is None
                ==> c.embedding_base_url == "http://127.0.0.1:11434"@
            &&& c.embedding_provider != EmbeddingProvider::Ollama && s.embedding_base_url is None
                ==> c.embedding_base_url == c.base_url
        }),
{
}

/// A provider of vectors is told by its name, in capitals or not and with space around
/// it.
pub proof fn providers_are_named(v: Seq<char>)
    ensures
        ({
            let n = text::lower(text::trim(v));
            &&& n == "mock"@ ==> EmbeddingProvider::named(v) == EmbeddingProvider::Mock
            &&& n == "openai"@ || n == "openai-compatible"@ || n == "openai_compatible"@ || n
                == "remote"@ ==> EmbeddingProvider::named(v) == EmbeddingProvider::OpenAiCompatible
            &&& n == "ollama"@ ==> EmbeddingProvider::named(v) == EmbeddingProvider::Ollama
        }),
{
    reveal_strlit("mock");
    reveal_strlit("openai");
    reveal_strlit("openai-compatible");
    reveal_strlit("openai_compatible");
    reveal_strlit("remote");
    reveal_strlit("ollama");
    assert("mock"@.len() == 4 && "openai"@.len() == 6 && "openai-compatible"@.len() == 17
        && "openai_compatible"@.len() == 17 && "remote"@.len() == 6 && "ollama"@.len() == 6);
    assert("openai"@[1] == 'p' && "remote"@[1] == 'e' && "ollama"@[1] == 'l');
}

/// What was saved counts over the environment where it says something; the window in
/// front is looked at every so often.
pub proof fn what_was_saved_counts(c: LLMConfigV, s: LLMConfigV)
    ensures
        merged(c, None) == c,
        ({
            let m = merged(c, Some(s));
            &&& text::blank(s.api_key) ==> m.api_key == c.api_key
            &&& !text::blank(s.api_key) ==> m.api_key == s.api_key
            &&& text::blank(s.base_url) ==> m.base_url == c.base_url
            &&& !text::blank(s.base_url) ==> m.base_url == s.base_url
            &&& text::blank(s.model) ==> m.model == c.model
            &&& !text::blank(s.model) ==> m.model == s.model
            &&& text::blank(s.embedding_api_key) ==> m.embedding_api_key == c.embedding_api_key
            &&& !text::blank(s.embedding_api_key) ==> m.embedding_api_key == s.embedding_api_key
            &&& m.max_tokens == c.max_tokens && m.temperature == c.temperature
        }),
        poll_interval(None) == crate::startup::DEFAULT_POLL_SECS,
{
}

// ---------------------------------------------------------------------------
// Schemas
// ---------------------------------------------------------------------------

/// A parameter is described with its type and its remark, and with the values that it
/// may have.
pub proof fn parameters_are_described(p: ParamV)
    ensures
        p.kind matches KindV::Plain(t) ==> notes(param_schema(p), "type"@, JsonV::Text(t)),
        p.kind matches KindV::OneOf(l) ==> notes(param_schema(p), "type"@, JsonV::Text("string"@))
            && notes(
            param_schema(p),
            "enum"@,
            JsonV::List(l.map_values(|t: Seq<char>| JsonV::Text(t))),
        ),
        p.kind is ListOf ==> notes(param_schema(p), "type"@, JsonV::Text("array"@)),
        p.about.len() > 0 ==> notes(param_schema(p), "description"@, JsonV::Text(p.about)),
{
    let m = param_schema(p)->Object_0;
    assert(m.contains(m[0]));
    if !(p.kind is Plain) {
        assert(m.contains(m[1]));
    }
    if p.about.len() > 0 {
        assert(m.contains(m[m.len() - 1]));
    }
}

/// A tool is described as an object with every parameter by its name, and with those
/// that it needs.
pub proof fn every_parameter_is_described(params: Seq<ParamV>, required: Seq<Seq<char>>, i: int)
    ensures
        notes(schema_of(params, required), "type"@, JsonV::Text("object"@)),
        notes(schema_of(params, required), "properties"@, JsonV::Object(properties(params))),
        0 <= i < params.len() ==> notes(
            JsonV::Object(properties(params)),
            params[i].name,
            param_schema(params[i]),
        ),
        required.len() > 0 ==> notes(
            schema_of(params, required),
            "required"@,
            JsonV::List(required.map_values(|t: Seq<char>| JsonV::Text(t))),
        ),
{
    let m = schema_of(params, required)->Object_0;
    assert(m.contains(m[0]) && m.contains(m[1]));
    if required.len() > 0 {
        assert(m.contains(m[2]));
    }
    if 0 <= i < params.len() {
        let p = properties(params);
        assert(p[i] == (params[i].name, param_schema(params[i])));
        assert(p.contains(p[i]));
    }
}

// ---------------------------------------------------------------------------
// The local server
// ---------------------------------------------------------------------------

/// The local server is tried twelve times, with a pause of two and a half seconds after
/// each try that fails; once it answers the start is over.
pub proof fn the_server_is_tried_twelve_times(attempts: u8, connected: bool)
    ensures
        connected ==> after(attempts, connected) == (StartStep::Done { launch: Launch::Up }),
        !connected && attempts < 12 ==> after(attempts, connected) == (StartStep::Retry {
            attempt: (attempts + 1) as u8,
            pause_ms: 2500,
        }),
        !connected && attempts >= 12 ==> after(attempts, connected) == (StartStep::GiveUp {
            pause_ms: 2500,
            launch: Launch::TimedOut,
        }),
{
}

} // verus!
