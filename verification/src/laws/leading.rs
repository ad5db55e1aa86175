//! What the machines of the library do with what they are told.

use crate::computer_use::context::{
    get, put_last_tree, record as record_action, recent, ActionLog, ActionLogs, ActionRecord,
};
use crate::error_log::{preview_messages, record, PromptPreviewEntry};
use crate::indexer::file_indexer::{FileEntry, FileIndexer, EventStep, FileEvent};
use crate::indexer::indexing::{IndexAction, IndexEvent, IndexRun};
use crate::indexer::notes::FileFacts;
use crate::ipc::guards::sanitized;
use crate::ipc::handlers::chat::answers::{ui_click, ui_focus_window, ui_type};
use crate::ipc::handlers::chat::coder::{coder_ends, handle_coder_mode, CoderDone, CoderTurn};
use crate::ipc::handlers::chat::context::{ids_among, looked_up, packet_view, usable, RegisteredPlugin};
use crate::ipc::handlers::chat::course::{
    follows, handle_chat, ChatAction, ChatAsk, ChatEvent, Course, Stage,
};
use crate::ipc::handlers::chat::modes::{coder_prompt, coding_tools, known_context, team_top};
use crate::ipc::handlers::chat::prompt::{whole_prompt, ActivePlugin, PromptParts};
use crate::ipc::handlers::chat::stream::{
    events, grown, noted, out_views, sent, taken_whole, unfinished, CallTable, Reply, SseBuffer,
    StreamOut,
};
use crate::ipc::handlers::chat::team::{
    handle_team_mode, team_goes, TeamEvent, TeamNext, TeamTurn,
};
use crate::ipc::handlers::chat::team_tools::team_tools;
use crate::ipc::handlers::chat::turns::{
    goes, handle_chat_mode, handle_streaming_fallback, Manner, Turn, TurnEvent, TurnStep,
};
use crate::ipc::handlers::tools::{
    approved_edit, describe_edit, decides, edit_result, finish_approval,
    handle_approve_pending_tools, is_step, plan_step, Approval, FileOutcome, PendingTools, Step,
};
use crate::ipc::protocol::{IPCRequest, IPCResponse, PendingEditDiff};
use crate::ipc::server::{handle_connection, takes_in, Cancellations, LineAction, RateLimiter};
use crate::json::{json_views, Json};
use crate::llm::cheap_model::{ranked, CheapestStep, ModelCache, ModelEntry};
use crate::llm::client::{local_model, target, ChatCall, ChatPlan, LLMClient};
use crate::llm::types::{
    message_views, text_view, tool_views, ChatCompletionResponse, Message, MessageV,
    StreamChunkResponse, StreamToolCallDelta, ToolDefinition,
};
use crate::outside;
use crate::text;
use vstd::prelude::*;

verus! {

// ---------------------------------------------------------------------------
// Chats
// ---------------------------------------------------------------------------

/// A chat goes its course: in the conversation that is named, or in a new one.
pub proof fn a_chat_goes_its_course(
    ask: ChatAsk,
    instructions: Option<String>,
    r: (Course, ChatAction),
    c: &mut Course,
    event: ChatEvent,
    a: ChatAction,
)
    ensures
        call_ensures(handle_chat, (ask, instructions), r) ==> r.0.ask == ask && r.0.instructions
            == instructions && r.0.stage == Stage::Turns && (ask.conversation_id matches Some(x)
            ==> r.0.conv_id@ == x@) && (ask.conversation_id is None ==> outside::is_uuid(
            r.0.conv_id@,
        )) && (r.1 matches ChatAction::LoadTurns { conv_id } && conv_id@ == r.0.conv_id@),
        call_ensures(Course::step, (c, event), a) ==> follows(*old(c), event, *final(c), a),
{
}

/// The prompt of a chat holds what was said before, what was looked up, what is known of
/// the user, what the project asks for and the plugins that are in use.
pub proof fn a_prompt_holds_everything(
    c: Course,
    servers: Vec<ActivePlugin>,
    registered: Vec<RegisteredPlugin>,
    fitting: Vec<ActivePlugin>,
    n: Course,
    a: ChatAction,
)
    requires
        c.stage == Stage::Plugins,
        follows(c, (ChatEvent::Plugins { servers, registered, fitting }), n, a),
    ensures
        exists|p: PromptParts|
            #![trigger whole_prompt(sanitized(c.ask.message@)->Ok_0, p)]
            message_views(n.messages@) == whole_prompt(sanitized(c.ask.message@)->Ok_0, p)
                && p.curated_context == c.hint && p.history == c.history && p.project_instructions
                == c.instructions && p.system_prompt == c.ask.system_prompt && p.user_facts
                == c.facts && p.fitting_plugins == fitting && p.active_plugins@ == servers@
                + usable(registered@),
        text::views(n.warnings@) == sanitized(c.ask.message@)->Ok_0.warnings,
        ({
            let items = looked_up(packet_view(c.packet));
            let ids = ids_among(items, items.len());
            ids.len() > 0 ==> (a matches ChatAction::Link { ids: i, link, .. } && text::views(i@)
                == ids && link.relationship@ == "relates_to"@ && link.strength
                == 0x3fd3_3333_3333_3333)
        }),
{
    let active = choose|active: Vec<ActivePlugin>|
        active@ == servers@ + usable(registered@) && message_views(n.messages@) == whole_prompt(
            sanitized(c.ask.message@)->Ok_0,
            #[trigger] crate::ipc::handlers::chat::course::parts_of(c, active, fitting),
        );
    let p = crate::ipc::handlers::chat::course::parts_of(c, active, fitting);
    assert(message_views(n.messages@) == whole_prompt(sanitized(c.ask.message@)->Ok_0, p));
}

/// A plain chat and a mode without rules get what was said behind their rules.
pub proof fn turns_begin_with_rules(
    id: &str,
    conv: &str,
    messages: Vec<Message>,
    warnings: Vec<String>,
    packet: Option<Json>,
    mode: &str,
    r: Turn,
)
    ensures
        call_ensures(handle_chat_mode, (id, conv, messages, warnings), r) ==> r.manner
            == Manner::Chat && r.id@ == id@ && r.conv_id@ == conv@ && r.warnings == warnings
            && message_views(r.messages@).skip(1) == message_views(messages@) && message_views(
            r.messages@,
        )[0].role == "system"@,
        call_ensures(
            handle_streaming_fallback,
            (id, conv, messages, warnings, packet, mode),
            r,
        ) ==> r.manner == Manner::Other && r.packet == packet && r.warnings == warnings
            && message_views(r.messages@).skip(1) == message_views(messages@) && message_views(
            r.messages@,
        )[0] == MessageV::plain("system"@, "Agent mode: "@ + mode@),
{
    let all = message_views(messages@);
    if call_ensures(handle_chat_mode, (id, conv, messages, warnings), r) {
        assert(message_views(r.messages@).skip(1) =~= all);
    }
    if call_ensures(handle_streaming_fallback, (id, conv, messages, warnings, packet, mode), r) {
        assert(message_views(r.messages@).skip(1) =~= all);
    }
}

/// Turns, coding agents and teams go on as the laws on them say.
pub proof fn turns_go_on(
    t: &mut Turn,
    event: TurnEvent,
    r: (Vec<StreamOut>, TurnStep),
    team: &mut TeamTurn,
    happens: TeamEvent,
    n: (Vec<StreamOut>, TeamNext),
    coder: CoderTurn,
    reply: &ChatCompletionResponse,
    args: &Vec<Json>,
    diffs: &Vec<String>,
    d: CoderDone,
)
    ensures
        call_ensures(Turn::on_event, (t, event), r) ==> goes(
            *old(t),
            event,
            final(t).reply@,
            out_views(r.0@),
            r.1,
        ),
        call_ensures(TeamTurn::on_event, (team, happens), n) ==> team_goes(
            *old(team),
            happens,
            *final(team),
            out_views(n.0@),
            n.1,
        ),
        call_ensures(CoderTurn::on_reply, (coder, reply, args, diffs), d) ==> coder_ends(
            coder,
            *reply,
            json_views(args@),
            text::views(diffs@),
            d,
        ),
{
}

/// A coding agent begins with what the user said last, and gets its rules and its tools.
pub proof fn a_coder_begins(
    id: &str,
    conv: &str,
    messages: Vec<Message>,
    warnings: Vec<String>,
    packet: Option<Json>,
    r: (CoderTurn, String),
    c: &mut CoderTurn,
    files: &Vec<String>,
    p: (Vec<Message>, Vec<ToolDefinition>),
)
    ensures
        call_ensures(handle_coder_mode, (id, conv, messages, warnings, packet), r) ==> r.0.id@
            == id@ && r.0.conv_id@ == conv@ && r.0.messages == messages && r.0.packet == packet && (
        messages@.len() > 0 ==> r.1@ == messages@.last().content@),
        call_ensures(CoderTurn::on_files, (c, files), p) ==> message_views(p.0@) == coder_prompt(
            message_views(old(c).messages@),
            text::views(files@),
        ) && tool_views(p.1@) == coding_tools(),
{
    if call_ensures(handle_coder_mode, (id, conv, messages, warnings, packet), r) {
        if messages@.len() > 0 {
            let all = message_views(messages@);
            assert(all.last() == messages@.last()@);
        }
    }
}

/// A team begins with all its tools unless its model cannot call any, and is told where
/// it works and what is known.
pub proof fn a_team_begins(
    id: &str,
    conv: &str,
    messages: Vec<Message>,
    warnings: Vec<String>,
    packet: Option<&Json>,
    cwd: &str,
    model: Option<&str>,
    configured: &str,
    disabled: Option<&str>,
    r: (TeamTurn, Option<StreamOut>),
)
    requires
        call_ensures(
            handle_team_mode,
            (id, conv, messages, warnings, packet, cwd, model, configured, disabled),
            r,
        ),
    ensures
        r.0.id@ == id@,
        r.0.conv_id@ == conv@,
        model matches Some(m) ==> r.0.model@ == text::lower(m@),
        model is None ==> r.0.model@ == text::lower(configured@),
        !text::occurs(r.0.model@, "bard"@) && disabled is None ==> tool_views(r.0.team.tools@)
            == team_tools() && r.1 is None,
        text::occurs(r.0.model@, "bard"@) ==> r.0.team.tools@.len() == 0 && r.1 is Some,
        r.0.team.iteration == 0,
        ({
            let top = team_top(
                known_context(
                    match packet {
                        Some(p) => Some(p@),
                        None => None,
                    },
                ),
                cwd@,
            );
            message_views(r.0.team.messages@) == top + message_views(messages@)
        }),
{
    assert(tool_views(r.0.team.tools@).len() == r.0.team.tools@.len());
}

// ---------------------------------------------------------------------------
// Streams
// ---------------------------------------------------------------------------

/// A stream is read piece by piece as the laws on streams say.
pub proof fn streams_are_read(
    b: &mut SseBuffer,
    more: &str,
    lines: Vec<String>,
    r: &mut Reply,
    chunk: &StreamChunkResponse,
    outs: Vec<StreamOut>,
    whole: &ChatCompletionResponse,
    t: &mut CallTable,
    d: &StreamToolCallDelta,
)
    ensures
        call_ensures(SseBuffer::feed, (b, more), lines) ==> text::views(lines@) == events(
            old(b).buffer@ + more@,
        ) && final(b).buffer@ == unfinished(old(b).buffer@ + more@),
        call_ensures(Reply::apply_chunk, (r, chunk), outs) ==> final(r)@ == grown(old(r)@, *chunk)
            && out_views(outs@) == sent(old(r)@, *chunk),
        call_ensures(Reply::take_whole, (r, whole), ()) ==> final(r)@ == taken_whole(old(r)@, *whole),
        call_ensures(CallTable::note, (t, d), ()) ==> final(t).slot(d.index) == noted(
            old(t).slot(d.index),
            *d,
        ),
{
}

// ---------------------------------------------------------------------------
// Connections and approvals
// ---------------------------------------------------------------------------

/// A line of a connection is dealt with in turn: a blank one is passed over, one too many
/// is refused, one that cannot be read is answered, and a request is taken in.
pub proof fn lines_are_dealt_with(
    limiter: &mut RateLimiter,
    running: &mut Cancellations,
    line: &str,
    now: u64,
    parsed: Result<IPCRequest, String>,
    r: LineAction,
)
    requires
        call_ensures(handle_connection, (limiter, running, line, now, parsed), r),
    ensures
        text::blank(line@) ==> r is Nothing && *final(running) == *old(running),
        !text::blank(line@) && !old(limiter).lets_in(now) ==> r is Send && *final(running)
            == *old(running),
        !text::blank(line@) && old(limiter).lets_in(now) ==> (parsed matches Ok(q) ==> (
        r matches LineAction::Take { step } && takes_in(*old(running), q, *final(running), step)))
            && (parsed is Err ==> r is Send),
        !text::blank(line@) ==> final(limiter).recent@ == old(limiter).counted(now),
{
}

/// A request that is done is forgotten, and answered with what came of it.
pub proof fn done_requests_are_forgotten(
    c: &mut Cancellations,
    id: &str,
    outcome: Result<IPCResponse, String>,
    r: IPCResponse,
)
    requires
        call_ensures(Cancellations::on_done, (c, id, outcome), r),
    ensures
        !final(c).tokens@.contains_key(id@),
        outcome matches Ok(a) ==> r == a,
        outcome matches Err(e) ==> (r matches IPCResponse::Error { id: i, message } && i@ == id@
            && message@ == e@),
{
}

/// Proposals are decided on and carried out as the laws on them say.
pub proof fn proposals_are_carried_out(
    p: &mut PendingTools,
    id: &str,
    conv: &str,
    approved: bool,
    a: Approval,
    call: &PendingEditDiff,
    step: Step,
    original: &str,
    t: String,
    outcome: &FileOutcome,
    results: &Vec<String>,
    r: IPCResponse,
)
    ensures
        call_ensures(handle_approve_pending_tools, (p, id, conv, approved), a) ==> decides(
            *old(p),
            id@,
            conv@,
            approved,
            *final(p),
            a,
        ),
        call_ensures(plan_step, (call,), step) ==> is_step(*call, step),
        call_ensures(approved_edit, (call, original), t)
            ==> crate::ipc::handlers::chat::modes::simulates(original@, call.args@, t@),
        call_ensures(describe_edit, (call, outcome), t) ==> t@ == edit_result(
            crate::ipc::handlers::chat::modes::arg(call.args@, "action"@),
            crate::ipc::handlers::chat::modes::arg(call.args@, "path"@),
            *outcome,
        ),
        call_ensures(finish_approval, (id, conv, results), r) ==> (r matches IPCResponse::Chat {
            id: i,
            conversation_id,
            content,
            ..
        } && i@ == id@ && conversation_id@ == conv@ && content@ == text::join(
            text::views(results@),
            "\n"@,
        )),
{
}

// ---------------------------------------------------------------------------
// Actions and errors
// ---------------------------------------------------------------------------

/// What is done on the desktop is recorded in its conversation, with its target and
/// whether it worked, and told.
pub proof fn actions_are_recorded(
    logs: &mut ActionLogs,
    conv: &str,
    at: i64,
    target: &str,
    typed: &str,
    done: &Result<(), String>,
    r: String,
)
    ensures
        call_ensures(ui_click, (logs, conv, at, target, done), r) ==> (*done is Ok ==> r@
            == "clicked "@ + target@) && (*done matches Err(e) ==> r@ == "ui_click failed: "@ + e@)
            && final(logs).log(conv@).actions.len() > 0 && ({
            let a = final(logs).log(conv@).actions.last();
            a.kind@ == "click"@ && a.target@ == target@ && a.ok == (*done is Ok) && a.at == at
        }),
        call_ensures(ui_type, (logs, conv, at, target, typed, done), r) ==> (*done is Ok ==> r@
            == "typed into "@ + target@) && final(logs).log(conv@).actions.len() > 0 && ({
            let a = final(logs).log(conv@).actions.last();
            a.kind@ == "type"@ && a.target@ == target@ && a.ok == (*done is Ok) && (
            a.value matches Some(v) && v@ == (if typed@.len() <= 60 {
                typed@
            } else {
                typed@.take(60)
            }))
        }),
        call_ensures(ui_focus_window, (logs, conv, at, target, done), r) ==> (*done is Ok ==> r@
            == "focused "@ + target@) && final(logs).log(conv@).actions.len() > 0 && ({
            let a = final(logs).log(conv@).actions.last();
            a.kind@ == "focus"@ && a.target@ == target@ && a.ok == (*done is Ok)
        }),
{
}

/// A record is the last one of its conversation, and no other conversation has it.
pub proof fn records_are_kept_apart(
    logs: &mut ActionLogs,
    conv: &str,
    rec: ActionRecord,
    other: Seq<char>,
    tree: &str,
    hash: u64,
    l: ActionLog,
)
    ensures
        call_ensures(record_action, (logs, conv, rec), ()) ==> final(logs).log(conv@).actions
            == recent(old(logs).log(conv@).actions.push(rec)) && (other != conv@ ==> final(logs).log(
            other,
        ) == old(logs).log(other)),
        call_ensures(put_last_tree, (logs, conv, tree, hash), ()) ==> final(logs).log(
            conv@,
        ).last_tree_hash == Some(hash) && final(logs).log(conv@).actions == old(logs).log(
            conv@,
        ).actions && (text::byte_count(tree@) <= 65_536 ==> final(logs).log(conv@).last_tree_json
            == Some(tree@)),
{
}

/// Every message of a prompt is previewed, up to its first two hundred characters.
pub proof fn every_message_is_previewed(
    messages: &[Message],
    r: Vec<PromptPreviewEntry>,
    i: int,
)
    requires
        call_ensures(preview_messages, (messages,), r),
        0 <= i < messages@.len(),
    ensures
        r@.len() == messages@.len(),
        r@[i].role@ == messages@[i].role@,
        r@[i].chars == text::byte_count(messages@[i].content@),
        text::begins(messages@[i].content@, r@[i].head@),
{
    let c = messages@[i].content@;
    assert(crate::error_log::previews(r@[i], messages@[i]));
    assert(c.subrange(0, r@[i].head@.len() as int) =~= r@[i].head@);
}

// ---------------------------------------------------------------------------
// Files and models
// ---------------------------------------------------------------------------

/// A file is taken in step by step as the laws on files say, and only where it changed.
pub proof fn files_are_taken_in_steps(
    run: &mut IndexRun,
    event: IndexEvent,
    a: IndexAction,
    f: &mut FileIndexer<(), ()>,
    facts: &FileFacts,
    bytes: Vec<u8>,
    e: Option<FileEntry>,
    kind: FileEvent,
    path: &str,
    is_file: bool,
    s: EventStep,
)
    ensures
        call_ensures(IndexRun::step, (run, event), a) ==> final(run).stage == old(run).next_stage(
            event,
        ) && final(run).node@ == old(run).next_node(event) && final(run).part@ == old(run).next_part(event) && (!(event is Failed) ==> final(run).asks(a)),
        call_ensures(FileIndexer::<(), ()>::index_file, (f, facts, bytes), e) ==> (e is None <==> old(f).known_hash(facts.path@) == Some(crate::indexer::file_indexer::hash_of(bytes@))) && final(f).known_hash(facts.path@) == Some(crate::indexer::file_indexer::hash_of(bytes@)),
        call_ensures(FileIndexer::<(), ()>::on_event, (f, kind, path, is_file), s) ==> (is_file && (
        kind == FileEvent::Created || kind == FileEvent::Modified) ==> s == EventStep::Reindex) && (
        is_file && kind == FileEvent::Removed ==> s == EventStep::Pending && final(f).known_hash(
            path@,
        ) is None) && (!is_file ==> s == EventStep::Nothing),
{
}

/// Streams and whole replies are asked of the model that the request names, or of the
/// configured one.
pub proof fn models_are_asked<H>(
    c: &LLMClient<H>,
    messages: Vec<Message>,
    tools: Vec<ToolDefinition>,
    model: &str,
    ollama: &str,
    s: Option<ChatCall>,
    p: ChatPlan,
)
    ensures
        call_ensures(
            LLMClient::<H>::chat_stream_for_model,
            (c, messages, Some(model), ollama),
            s,
        ) ==> (local_model(model@) ==> (s matches Some(x) && x@.request.model == model@ && x@.url
            == ollama@ + "/chat/completions"@ && x@.authorization is None && x@.request.messages
            == message_views(messages@) && x@.request.stream == Some(true))) && (!local_model(
            model@,
        ) && text::blank(c.config.api_key@) ==> s is None) && (!local_model(model@) && !text::blank(
            c.config.api_key@,
        ) ==> (s matches Some(x) && x@.request.model == c.config.model@ && x@.request.messages
            == message_views(messages@))),
        call_ensures(
            LLMClient::<H>::chat_stream_with_tools_for_model,
            (c, messages, tools, Some(model), ollama),
            s,
        ) ==> (s matches Some(x) ==> x@.request.messages == message_views(messages@) && (tools@.len()
            > 0 ==> x@.request.tools == Some(tool_views(tools@))) && (tools@.len() == 0
            ==> x@.request.tools is None) && x@.request.stream == Some(true)),
        call_ensures(
            LLMClient::<H>::chat_with_tools_for_model,
            (c, messages, tools, Some(model), ollama),
            p,
        ) ==> (p matches ChatPlan::Call(x) ==> x@.request.messages == message_views(messages@)
            && x@.request.tools == Some(tool_views(tools@)) && x@.request.stream == Some(false)),
        call_ensures(
            LLMClient::<H>::chat_for_model,
            (c, messages, Some(model), ollama),
            p,
        ) ==> (local_model(model@) ==> (p matches ChatPlan::Call(x) && x@.request.model == model@
            && x@.url == ollama@ + "/chat/completions"@ && x@.authorization is None)),
{
}

/// A cheap model is asked for once, and what was listed is remembered.
pub proof fn cheap_models_are_remembered(
    m: &mut ModelCache,
    key: String,
    listed: Option<&[ModelEntry]>,
    now: u64,
    r: Option<String>,
    url: &str,
    api_key: &str,
    s: CheapestStep,
)
    ensures
        call_ensures(ModelCache::note_reply, (m, key, listed, now), r) ==> final(m).picks@.contains_key(key@) && final(m).picks@[key@].at_ms == now && text_view(
            final(m).picks@[key@].model,
        ) == text_view(r) && (listed matches Some(l) ==> ranked(l@, text_view(r))) && (listed is None
            ==> r is None),
        call_ensures(ModelCache::cheapest_model, (final(m), url, api_key, now), s) ==> (
        s matches CheapestStep::Ask { url: u, bearer, timeout_secs, .. } ==> u@ == text::strip_end(
            url@,
            '/',
        ) + "/models"@ && timeout_secs == 5 && (!text::blank(api_key@) ==> (bearer matches Some(b)
            && b@ == "Bearer "@ + api_key@))),
{
}

} // verus!
