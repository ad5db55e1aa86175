//! The course of a chat, from the request to the mode that answers it.

use crate::ipc::guards::{sanitize_chat_message, sanitized};
use crate::ipc::handlers::chat::context::{
    self, active_plugins, context_curated, ids_among, local_server_problem, looked_up,
    packet_view, pairs, related_pairs, retrieved_ids, usable, user_facts_loaded, RegisteredPlugin,
};
use crate::ipc::handlers::chat::prompt::{
    self, asks_for_plugins, compose_prompt, conversation_history, effective_config, first_title,
    index_hint, is_too_short, needs_local_server, route_chat, turns, ActivePlugin, ChatRoute,
    PromptParts, Turn,
};
use crate::ipc::protocol::{is_error, IPCRequest, IPCResponse};
use crate::json::{json_views, Json, JsonV};
use crate::links::{Link, RELATES_STRENGTH, RELATES_TO};
use crate::llm::types::{message_views, text_view, FloatBits, LLMConfig, Message};
use crate::outside;
use crate::text;
use vstd::prelude::*;

verus! {

/// How many things are looked at for a message, and how many are hinted at.
pub const POOL: usize = 24;

pub const MOST: usize = 5;

/// What the user asks for.
#[derive(Debug)]
pub struct ChatAsk {
    pub id: String,
    pub conversation_id: Option<String>,
    pub message: String,
    pub agent_mode: Option<String>,
    pub model: Option<String>,
    pub system_prompt: Option<String>,
    pub temperature: Option<FloatBits>,
    pub max_tokens: Option<u32>,
}

/// Something that was looked up.
#[derive(Debug)]
pub struct Hit {
    pub node_type: String,
    pub title: String,
    /// All that is told of it.
    pub node: Json,
}

/// What a chat waits for.
#[derive(Clone, Copy, Debug, PartialEq, Eq, Structural)]
pub enum Stage {
    Turns,
    Kept,
    Hits,
    ContextTold,
    Facts,
    FactsTold,
    Plugins,
    Linked,
    Local,
    Config,
    Over,
}

/// A chat before the model is called.
#[derive(Debug)]
pub struct Course {
    pub stage: Stage,
    pub ask: ChatAsk,
    pub conv_id: String,
    pub instructions: Option<String>,
    pub history: Vec<Message>,
    /// The hint at what is known.
    pub hint: Option<String>,
    /// What was looked up.
    pub packet: Option<Json>,
    pub facts: Vec<(String, String)>,
    pub messages: Vec<Message>,
    pub warnings: Vec<String>,
}

/// What happened.
#[derive(Debug)]
#[allow(inconsistent_fields)]
pub enum ChatEvent {
    /// All turns of the conversation, the oldest first; nothing where they could
    /// not be had. The last two, from the end, are asked for besides.
    Turns { stored: Option<Vec<Turn>>, latest: Vec<Turn> },
    /// What was to be done is done.
    Done,
    /// What was looked up, or why nothing could be.
    Hits { found: Result<Vec<Hit>, String> },
    /// The facts about the user, by their names.
    Facts { facts: Vec<(String, String)> },
    /// The plugins with a server, those that are registered, and those that fit
    /// the message.
    Plugins {
        servers: Vec<ActivePlugin>,
        registered: Vec<RegisteredPlugin>,
        fitting: Vec<ActivePlugin>,
    },
    /// Whether the local server runs; false where there is too little memory.
    Local { outcome: Result<bool, String> },
    /// The configuration in force.
    Config { config: LLMConfig },
}

/// How the model is called.
#[derive(Debug)]
pub struct ChatStart {
    pub route: ChatRoute,
    pub mode: String,
    pub config: LLMConfig,
    pub messages: Vec<Message>,
    pub warnings: Vec<String>,
    pub packet: Option<Json>,
}

/// What is done next.
#[derive(Debug)]
#[allow(inconsistent_fields)]
pub enum ChatAction {
    /// The turns of the conversation are loaded: all of them, the oldest first,
    /// and the last two from the end.
    LoadTurns { conv_id: String },
    /// The message is kept, under a title where the conversation is new.
    Keep { conv_id: String, title: String, message: String },
    /// It is looked up what is known, from so many things and at most so many.
    LookUp { query: String, pool: usize, most: usize },
    /// The user interface is told something.
    Tell { response: IPCResponse },
    /// The facts about the user are loaded.
    LoadFacts,
    /// The plugins are loaded, and those that fit the message where that is said.
    LoadPlugins { fitting: bool },
    /// Nodes are noted as used, and pairs of them linked, beside the chat.
    Link { ids: Vec<String>, pairs: Vec<(usize, usize)>, link: Link },
    /// The local server is started.
    StartLocal,
    /// The configuration is loaded.
    LoadConfig,
    /// The model is called.
    Run { start: ChatStart },
    /// The request is answered.
    Answer { response: IPCResponse },
    /// The request fails.
    Fail { problem: String },
}

/// The kinds and titles of what was looked up.
pub open spec fn hit_titles(hits: Seq<Hit>) -> Seq<(Seq<char>, Seq<char>)> {
    hits.map_values(|h: Hit| (h.node_type@, h.title@))
}

/// What was looked up, as it is handed on.
pub open spec fn hit_packet(hits: Seq<Hit>) -> JsonV {
    JsonV::Object(seq![("memory"@, JsonV::List(hits.map_values(|h: Hit| h.node@)))])
}

/// The mode that is asked for.
pub open spec fn mode_of(ask: ChatAsk) -> Seq<char> {
    match ask.agent_mode {
        Some(m) => m@,
        None => "Chat"@,
    }
}

/// The local server is needed for the model that is asked for.
pub open spec fn needs_local(ask: ChatAsk) -> bool {
    match ask.model {
        Some(m) => text::occurs(m@, ":"@) || text::begins_any(
            text::lower(m@),
            prompt::served_prefixes(),
        ),
        None => false,
    }
}

impl Course {
    /// The plugins are loaded for a message that may be sent.
    pub open spec fn wf(&self) -> bool {
        self.stage == Stage::Plugins ==> sanitized(self.ask.message@) is Ok
    }
}

/// The event is the one that a stage waits for.
pub open spec fn expects(stage: Stage, event: ChatEvent) -> bool {
    match stage {
        Stage::Turns => event matches ChatEvent::Turns { stored, .. } && (stored matches Some(all)
            ==> prompt::digestible(turns(all@))),
        Stage::Hits => event is Hits,
        Stage::Facts => event is Facts,
        Stage::Plugins => event is Plugins,
        Stage::Local => event is Local,
        Stage::Config => event is Config,
        Stage::Over => false,
        _ => event is Done,
    }
}

/// The place of a stage in the course of a chat.
pub open spec fn rank(stage: Stage) -> nat {
    match stage {
        Stage::Turns => 0,
        Stage::Kept => 1,
        Stage::Hits => 2,
        Stage::ContextTold => 3,
        Stage::Facts => 4,
        Stage::FactsTold => 5,
        Stage::Plugins => 6,
        Stage::Linked => 7,
        Stage::Local => 8,
        Stage::Config => 9,
        Stage::Over => 10,
    }
}

/// What tells the user interface what was looked up.
pub open spec fn tells_context(c: Course, packet: Option<JsonV>, a: ChatAction) -> bool {
    a matches ChatAction::Tell { response } && (response matches IPCResponse::ContextCurated {
        id,
        conversation_id,
        nodes,
    } && id@ == c.ask.id@ && conversation_id@ == c.conv_id@ && nodes@ == (match packet {
        Some(p) => match p.get("memory"@) {
            Some(v) => v,
            None => JsonV::List(Seq::empty()),
        },
        None => JsonV::List(Seq::empty()),
    }))
}

/// What tells the user interface the facts about the user.
pub open spec fn tells_facts(c: Course, facts: Seq<(String, String)>, a: ChatAction) -> bool {
    a matches ChatAction::Tell { response } && (response matches IPCResponse::UserFactsLoaded {
        id,
        conversation_id,
        facts: f,
    } && id@ == c.ask.id@ && conversation_id@ == c.conv_id@ && json_views(f@) == turns(
        facts,
    ).map_values(|t: (Seq<char>, Seq<char>)| context::fact_json(t)))
}

/// What a prompt is put together from.
pub open spec fn parts_of(
    c: Course,
    active: Vec<ActivePlugin>,
    fitting: Vec<ActivePlugin>,
) -> PromptParts {
    PromptParts {
        curated_context: c.hint,
        history: c.history,
        project_instructions: c.instructions,
        system_prompt: c.ask.system_prompt,
        active_plugins: active,
        fitting_plugins: fitting,
        user_facts: c.facts,
    }
}

/// The course has the prompt for its message.
pub open spec fn is_composed(
    c: Course,
    servers: Seq<ActivePlugin>,
    registered: Seq<RegisteredPlugin>,
    fitting: Vec<ActivePlugin>,
    n: Course,
) -> bool {
    &&& sanitized(c.ask.message@) is Ok
    &&& text::views(n.warnings@) == sanitized(c.ask.message@)->Ok_0.warnings
    &&& exists|active: Vec<ActivePlugin>|
        active@ == servers + usable(registered) && message_views(n.messages@)
            == prompt::whole_prompt(
            sanitized(c.ask.message@)->Ok_0,
            #[trigger] parts_of(c, active, fitting),
        )
}

/// What follows once the prompt is there and what was used is noted: the local
/// server where it is needed, and else the configuration.
pub open spec fn goes_on(c: Course, n: Course, a: ChatAction) -> bool {
    if needs_local(c.ask) {
        n.stage == Stage::Local && a is StartLocal
    } else {
        n.stage == Stage::Config && a is LoadConfig
    }
}

/// The chat is called as it was asked for, with the configuration in force.
pub open spec fn runs(c: Course, base: LLMConfig, a: ChatAction) -> bool {
    a matches ChatAction::Run { start } && {
        &&& start.route == prompt::routed(mode_of(c.ask), c.ask.message@)
        &&& start.mode@ == mode_of(c.ask)
        &&& start.config == (LLMConfig {
            max_tokens: prompt::token_cap(mode_of(c.ask), c.ask.max_tokens),
            temperature: match c.ask.temperature {
                Some(t) => t,
                None => base.temperature,
            },
            ..base
        })
        &&& start.messages == c.messages
        &&& start.warnings == c.warnings
        &&& start.packet == c.packet
    }
}

/// What follows on an event: the course `n`, and what is done next.
pub open spec fn follows(c: Course, event: ChatEvent, n: Course, a: ChatAction) -> bool {
    match (c.stage, event) {
        (Stage::Turns, ChatEvent::Turns { stored, latest }) => {
            &&& n.stage == Stage::Kept
            &&& message_views(n.history@) == prompt::history(
                match stored {
                    Some(all) => Some(turns(all@)),
                    None => None,
                },
                turns(latest@),
            )
            &&& n == (Course { stage: n.stage, history: n.history, ..c })
            &&& a matches ChatAction::Keep { conv_id, title, message } && conv_id@ == c.conv_id@
                && title@ == text::head(c.ask.message@, 80) && message@ == c.ask.message@
        },
        (Stage::Kept, ChatEvent::Done) => if prompt::too_short(c.ask.message@) {
            &&& n == (Course { stage: Stage::ContextTold, ..c })
            &&& tells_context(c, packet_view(c.packet), a)
        } else {
            &&& n == (Course { stage: Stage::Hits, ..c })
            &&& a matches ChatAction::LookUp { query, pool, most } && query@ == c.ask.message@
                && pool == POOL && most == MOST
        },
        (Stage::Hits, ChatEvent::Hits { found }) => {
            let some = found is Ok && found->Ok_0@.len() > 0;
            &&& n.stage == Stage::ContextTold
            &&& n == (Course { stage: n.stage, hint: n.hint, packet: n.packet, ..c })
            &&& text_view(n.hint) == (if some {
                prompt::index_text(hit_titles(found->Ok_0@))
            } else {
                None
            })
            &&& packet_view(n.packet) == (if some {
                Some(hit_packet(found->Ok_0@))
            } else {
                None
            })
            &&& tells_context(c, packet_view(n.packet), a)
        },
        (Stage::ContextTold, ChatEvent::Done) => {
            &&& n == (Course { stage: Stage::Facts, ..c })
            &&& a is LoadFacts
        },
        (Stage::Facts, ChatEvent::Facts { facts }) => {
            &&& n == (Course { stage: Stage::FactsTold, facts, ..c })
            &&& tells_facts(c, facts@, a)
        },
        (Stage::FactsTold, ChatEvent::Done) => match sanitized(c.ask.message@) {
            Ok(_) => {
                &&& n == (Course { stage: Stage::Plugins, ..c })
                &&& a matches ChatAction::LoadPlugins { fitting } && fitting == text::occurs_any(
                    outside::lowercase_text(c.ask.message@),
                    prompt::plugin_words(),
                )
            },
            Err(e) => {
                &&& n == (Course { stage: Stage::Over, ..c })
                &&& a matches ChatAction::Fail { problem } && problem@ == e
            },
        },
        (Stage::Plugins, ChatEvent::Plugins { servers, registered, fitting }) => {
            let items = looked_up(packet_view(c.packet));
            let ids = ids_among(items, items.len());
            &&& n.ask.message == c.ask.message && n.ask.id == c.ask.id && n.ask.model
                == c.ask.model && n.ask.agent_mode == c.ask.agent_mode && n.ask.max_tokens
                == c.ask.max_tokens && n.ask.temperature == c.ask.temperature
            &&& n.conv_id == c.conv_id
            &&& n.packet == c.packet
            &&& is_composed(c, servers@, registered@, fitting, n)
            &&& if ids.len() > 0 {
                n.stage == Stage::Linked && (a matches ChatAction::Link { ids: i, pairs: p, link }
                    && text::views(i@) == ids && p@ == pairs(ids.len(), 0, 1) && link.is_link(
                    RELATES_TO@,
                    RELATES_STRENGTH,
                ))
            } else {
                goes_on(c, n, a)
            }
        },
        (Stage::Linked, ChatEvent::Done) => {
            &&& n == (Course { stage: n.stage, ..c })
            &&& goes_on(c, n, a)
        },
        (Stage::Local, ChatEvent::Local { outcome }) => {
            &&& n == (Course { stage: n.stage, ..c })
            &&& match outcome {
                Ok(true) => n.stage == Stage::Config && a is LoadConfig,
                Ok(false) => n.stage == Stage::Over && (a matches ChatAction::Answer { response }
                    && is_error(
                    response,
                    c.ask.id@,
                    "Not enough free RAM to start Ollama. Free at least 6 GiB and try again."@,
                )),
                Err(e) => n.stage == Stage::Over && (a matches ChatAction::Answer { response }
                    && is_error(response, c.ask.id@, "Failed to start Ollama: "@ + e@)),
            }
        },
        (Stage::Config, ChatEvent::Config { config }) => n.stage == Stage::Over && runs(
            c,
            config,
            a,
        ),
        _ => false,
    }
}

/// Begins a chat, in a new conversation where none is named.
pub fn handle_chat(ask: ChatAsk, instructions: Option<String>) -> (r: (Course, ChatAction))
    ensures
        r.0.wf(),
        r.0.stage == Stage::Turns,
        r.0.ask == ask,
        r.0.instructions == instructions,
        match ask.conversation_id {
            Some(c) => r.0.conv_id@ == c@,
            None => outside::is_uuid(r.0.conv_id@),
        },
        r.0.hint is None,
        r.0.packet is None,
        r.1 matches ChatAction::LoadTurns { conv_id } && conv_id@ == r.0.conv_id@,
{
    let conv_id = match &ask.conversation_id {
        Some(c) => c.clone(),
        None => IPCRequest::generate_id(),
    };
    let action = ChatAction::LoadTurns { conv_id: conv_id.clone() };
    let course = Course {
        stage: Stage::Turns,
        ask,
        conv_id,
        instructions,
        history: Vec::new(),
        hint: None,
        packet: None,
        facts: Vec::new(),
        messages: Vec::new(),
        warnings: Vec::new(),
    };
    (course, action)
}

fn packet_of(hits: &Vec<Hit>) -> (r: Json)
    ensures
        r@ == hit_packet(hits@),
{
    let ghost want = hits@.map_values(|h: Hit| h.node@);
    let mut nodes: Vec<Json> = Vec::new();
    assert(json_views(nodes@) =~= want.take(0));
    for i in 0..hits.len()
        invariant
            want == hits@.map_values(|h: Hit| h.node@),
            json_views(nodes@) == want.take(i as int),
    {
        let ghost before = nodes@;
        let j = hits[i].node.copy();
        nodes.push(j);
        assert(json_views(nodes@) =~= json_views(before).push(j@));
        assert(want.take(i + 1) =~= want.take(i as int).push(j@));
    }
    assert(want.take(want.len() as int) =~= want);
    let list = Json::List(nodes);
    assert(list@ == JsonV::List(want)) by {
        reveal_with_fuel(Json::model, 2);
        assert(list@->List_0 =~= want);
    }
    let r = Json::Object(vec![("memory".to_owned(), list)]);
    assert(r@ == hit_packet(hits@)) by {
        reveal_with_fuel(Json::model, 2);
        assert(r@->Object_0 =~= hit_packet(hits@)->Object_0);
    }
    r
}

fn titles_of(hits: &Vec<Hit>) -> (r: Vec<(String, String)>)
    ensures
        turns(r@) == hit_titles(hits@),
{
    let mut out: Vec<(String, String)> = Vec::new();
    for i in 0..hits.len()
        invariant
            out@.len() == i,
            forall|j: int|
                0 <= j < i ==> (#[trigger] out@[j]).0@ == hits@[j].node_type@ && out@[j].1@
                    == hits@[j].title@,
    {
        out.push((hits[i].node_type.clone(), hits[i].title.clone()));
    }
    assert(turns(out@) =~= hit_titles(hits@));
    out
}

impl Course {
    fn go_on(&mut self) -> (r: ChatAction)
        ensures
            goes_on(*old(self), *final(self), r),
            *final(self) == (Course { stage: final(self).stage, ..*old(self) }),
    {
        let model: Option<&str> = match &self.ask.model {
            Some(m) => Some(m.as_str()),
            None => None,
        };
        if needs_local_server(model) {
            self.stage = Stage::Local;
            ChatAction::StartLocal
        } else {
            self.stage = Stage::Config;
            ChatAction::LoadConfig
        }
    }

    fn tell_context(&mut self) -> (r: ChatAction)
        ensures
            tells_context(*old(self), packet_view(old(self).packet), r),
            *final(self) == (Course { stage: Stage::ContextTold, ..*old(self) }),
    {
        self.stage = Stage::ContextTold;
        ChatAction::Tell {
            response: context_curated(&self.ask.id, &self.conv_id, &self.packet),
        }
    }

    fn on_hits(&mut self, found: Result<Vec<Hit>, String>) -> (r: ChatAction)
        requires
            old(self).stage == Stage::Hits,
        ensures
            follows(*old(self), (ChatEvent::Hits { found }), *final(self), r),
    {
        self.hint = None;
        self.packet = None;
        if let Ok(hits) = &found {
            if hits.len() > 0 {
                let titles = titles_of(hits);
                self.hint = index_hint(&titles);
                self.packet = Some(packet_of(hits));
            }
        }
        self.tell_context()
    }

    fn on_plugins(
        &mut self,
        servers: Vec<ActivePlugin>,
        registered: Vec<RegisteredPlugin>,
        fitting: Vec<ActivePlugin>,
    ) -> (r: ChatAction)
        requires
            old(self).stage == Stage::Plugins,
            old(self).wf(),
        ensures
            follows(
                *old(self),
                (ChatEvent::Plugins { servers, registered, fitting }),
                *final(self),
                r,
            ),
    {
        let active = active_plugins(servers, registered);
        let mut parts = PromptParts {
            curated_context: None,
            history: Vec::new(),
            project_instructions: None,
            system_prompt: None,
            active_plugins: active,
            fitting_plugins: fitting,
            user_facts: Vec::new(),
        };
        core::mem::swap(&mut parts.curated_context, &mut self.hint);
        core::mem::swap(&mut parts.history, &mut self.history);
        core::mem::swap(&mut parts.project_instructions, &mut self.instructions);
        core::mem::swap(&mut parts.system_prompt, &mut self.ask.system_prompt);
        core::mem::swap(&mut parts.user_facts, &mut self.facts);
        assert(parts == parts_of(*old(self), active, fitting));
        match compose_prompt(&self.ask.message, parts) {
            Ok((messages, warnings)) => {
                self.messages = messages;
                self.warnings = warnings;
            },
            Err(_) => {},
        }
        let ids = retrieved_ids(&self.packet);
        assert(text::views(ids@).len() == ids@.len());
        if ids.len() > 0 {
            let pairs = related_pairs(ids.len());
            self.stage = Stage::Linked;
            ChatAction::Link { ids, pairs, link: Link::relates_to() }
        } else {
            self.go_on()
        }
    }

    fn on_config(&mut self, config: LLMConfig) -> (r: ChatAction)
        requires
            old(self).stage == Stage::Config,
        ensures
            follows(*old(self), (ChatEvent::Config { config }), *final(self), r),
    {
        let mode = match &self.ask.agent_mode {
            Some(m) => m.clone(),
            None => "Chat".to_owned(),
        };
        let route = route_chat(Some(mode.as_str()), &self.ask.message);
        let config = effective_config(config, &mode, self.ask.max_tokens, self.ask.temperature);
        let mut messages: Vec<Message> = Vec::new();
        let mut warnings: Vec<String> = Vec::new();
        let mut packet: Option<Json> = None;
        core::mem::swap(&mut messages, &mut self.messages);
        core::mem::swap(&mut warnings, &mut self.warnings);
        core::mem::swap(&mut packet, &mut self.packet);
        self.stage = Stage::Over;
        ChatAction::Run { start: ChatStart { route, mode, config, messages, warnings, packet } }
    }

    /// Takes in what happened, and gives what is done next.
    pub fn step(&mut self, event: ChatEvent) -> (r: ChatAction)
        requires
            old(self).wf(),
            expects(old(self).stage, event),
        ensures
            final(self).wf(),
            follows(*old(self), event, *final(self), r),
    {
        match event {
            ChatEvent::Turns { stored, latest } => {
                self.history = conversation_history(stored, latest);
                self.stage = Stage::Kept;
                ChatAction::Keep {
                    conv_id: self.conv_id.clone(),
                    title: first_title(&self.ask.message),
                    message: self.ask.message.clone(),
                }
            },
            ChatEvent::Done => match self.stage {
                Stage::Kept => if is_too_short(&self.ask.message) {
                    self.tell_context()
                } else {
                    self.stage = Stage::Hits;
                    ChatAction::LookUp { query: self.ask.message.clone(), pool: POOL, most: MOST }
                },
                Stage::ContextTold => {
                    self.stage = Stage::Facts;
                    ChatAction::LoadFacts
                },
                Stage::FactsTold => match sanitize_chat_message(&self.ask.message) {
                    Ok(_) => {
                        self.stage = Stage::Plugins;
                        ChatAction::LoadPlugins { fitting: asks_for_plugins(&self.ask.message) }
                    },
                    Err(problem) => {
                        self.stage = Stage::Over;
                        ChatAction::Fail { problem }
                    },
                },
                _ => self.go_on(),
            },
            ChatEvent::Hits { found } => self.on_hits(found),
            ChatEvent::Facts { facts } => {
                self.stage = Stage::FactsTold;
                self.facts = facts;
                ChatAction::Tell {
                    response: user_facts_loaded(&self.ask.id, &self.conv_id, &self.facts),
                }
            },
            ChatEvent::Plugins { servers, registered, fitting } => self.on_plugins(
                servers,
                registered,
                fitting,
            ),
            ChatEvent::Local { outcome } => match local_server_problem(&self.ask.id, &outcome) {
                Some(response) => {
                    self.stage = Stage::Over;
                    ChatAction::Answer { response }
                },
                None => {
                    self.stage = Stage::Config;
                    ChatAction::LoadConfig
                },
            },
            ChatEvent::Config { config } => self.on_config(config),
        }
    }
}

/// Plugins are loaded, nodes are linked and the model is called only for a message
/// that may be sent: another fails before, whatever is known.
pub proof fn a_refused_message_fails_first(c: Course, event: ChatEvent, n: Course, a: ChatAction)
    requires
        c.wf(),
        expects(c.stage, event),
        follows(c, event, n, a),
        sanitized(c.ask.message@) is Err,
    ensures
        rank(c.stage) <= rank(Stage::FactsTold) ==> !(a is LoadPlugins) && (a is Fail <==> c.stage
            == Stage::FactsTold) && (c.stage == Stage::FactsTold ==> n.stage == Stage::Over),
        rank(c.stage) < rank(Stage::FactsTold) ==> rank(n.stage) <= rank(Stage::FactsTold),
        c.stage != Stage::Plugins,
{
}

/// Every event brings a chat further, it is told what was looked up before the
/// facts about the user are loaded, and the model is called last of all: so the
/// user interface knows of the context before the first token.
pub proof fn context_is_told_first(c: Course, event: ChatEvent, n: Course, a: ChatAction)
    requires
        expects(c.stage, event),
        follows(c, event, n, a),
    ensures
        rank(c.stage) < rank(n.stage),
        rank(c.stage) < rank(Stage::ContextTold) <= rank(n.stage) ==> tells_context(
            c,
            packet_view(n.packet),
            a,
        ),
        a is Run ==> c.stage == Stage::Config,
        rank(c.stage) < rank(Stage::ContextTold) ==> rank(n.stage) <= rank(Stage::ContextTold),
{
}

} // verus!
