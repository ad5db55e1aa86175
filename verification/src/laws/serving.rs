//! How requests are let in and handed on, and how files are taken in.

use crate::indexer::indexing::{IndexAction, IndexEvent, IndexRun, IndexStage, VectorKind};
use crate::indexer::file_indexer::file_among;
use crate::ipc::handlers::chat::session::{todo_json, Sessions};
use crate::ipc::protocol::{IPCRequest, IPCResponse};
use crate::ipc::server::{
    app_stats, directory_indexed, dispatches, load_project_instructions, memory_capabilities,
    on_unreadable, raw_type, request_id, stats_windows, takes_in, Cancellations, Dispatch,
    RateLimiter, RequestStep, StatsCounts, TaskStatus,
};
use crate::json::{Json, JsonV};
use crate::laws::calling::{has_member, members_are_found_by_name, says};
use crate::llm::types::LLMConfig;
use crate::text;
use vstd::prelude::*;

verus! {

// ---------------------------------------------------------------------------
// Lines
// ---------------------------------------------------------------------------

/// A line is let in unless the sixtieth before it came less than a second ago; one that
/// is not let in does not count.
pub proof fn sixty_lines_are_let_in(limiter: RateLimiter, now: u64)
    ensures
        limiter.recent@.len() < 60 ==> limiter.lets_in(now),
        limiter.recent@.len() >= 60 ==> (limiter.lets_in(now) <==> now
            - limiter.recent@[limiter.recent@.len() - 60] >= 1000),
        !limiter.lets_in(now) ==> limiter.counted(now) == limiter.recent@,
        limiter.lets_in(now) && limiter.recent@.len() < 60 ==> limiter.counted(now)
            == limiter.recent@.push(now),
        limiter.lets_in(now) ==> limiter.counted(now).last() == now,
        limiter.recent@.len() <= 60 ==> limiter.counted(now).len() <= 60,
{
}

/// A line that cannot be read is answered with why; the kind of a line is told where it
/// has one.
pub proof fn unreadable_lines_are_answered(
    problem: &str,
    r: IPCResponse,
    value: Option<&Json>,
    k: String,
)
    ensures
        call_ensures(on_unreadable, (problem,), r) ==> (r matches IPCResponse::Error { message, .. }
            && message@ == "Invalid JSON: "@ + problem@),
        call_ensures(raw_type, (value,), k) ==> forall|t: Seq<char>|
            value is Some && #[trigger] says((*value->0)@, "type"@, t) ==> k@ == t,
{
    if call_ensures(raw_type, (value,), k) {
        assert forall|t: Seq<char>|
            value is Some && #[trigger] says((*value->0)@, "type"@, t) implies k@ == t by {
            members_are_found_by_name((*value->0)@, "type"@);
            assert(has_member((*value->0)@, "type"@, JsonV::Text(t)));
        }
    }
}

// ---------------------------------------------------------------------------
// Requests
// ---------------------------------------------------------------------------

/// A request starts under its own id with a token of its own; a cancellation gives the
/// token of its target, if it runs, and nothing else changes.
pub proof fn requests_start_and_are_cancelled(
    c: Cancellations,
    request: IPCRequest,
    n: Cancellations,
    r: RequestStep,
)
    requires
        takes_in(c, request, n, r),
    ensures
        request matches IPCRequest::CancelRequest { id, target_id } ==> (
        r matches RequestStep::Cancel { token, answer } && (c.tokens@.contains_key(target_id@)
            ==> token == Some(c.tokens@[target_id@])) && (!c.tokens@.contains_key(target_id@)
            ==> token is None) && !n.tokens@.contains_key(target_id@) && (
        answer matches IPCResponse::Cancelled { target_id: t, .. } && t@ == target_id@)),
        !(request is CancelRequest) ==> (r matches RequestStep::Start { id, token, request: q } && q
            == request && id@ == request_id(request) && n.tokens@.contains_key(id@)
            && n.tokens@[id@] == token && n.next > c.next),
        forall|other: Seq<char>|
            c.tokens@.contains_key(other) && other != request_id(request) && !(
            request matches IPCRequest::CancelRequest { target_id, .. } && target_id@ == other)
                ==> #[trigger] n.tokens@.contains_key(other) && n.tokens@[other]
                == c.tokens@[other],
{
}

/// Requests go to the handler of their kind as they are; those that the service answers
/// by itself are answered, and what is left out of others is filled in.
pub proof fn requests_are_handed_on(
    request: IPCRequest,
    config: LLMConfig,
    sessions: Sessions,
    d: Dispatch,
)
    requires
        dispatches(request, config, sessions, d),
    ensures
        request is Chat || request is CreateNode || request is QueryMemory || request is ReadFile
            || request is WriteFile || request is WebSearch || request is GetConversations
            || request is ImportMemory || request is ExportMemory || request is InstallPlugin
            || request is UpdateConfig || request is LaunchGemma || request is IndexDirectory
            || request is ApprovePendingTools || request is DeleteConversation
            || request is RegenerateLastMessage || request is CreateScheduledTask
            || request is SetUserFact || request is GetAppStats ==> d == Dispatch::Handler(request),
        request matches IPCRequest::HealthCheck { id } ==> (d matches Dispatch::Reply(
            IPCResponse::HealthCheck { id: i, status, mock_mode, model },
        ) && i@ == id@ && status@ == "ok"@ && (mock_mode <==> text::blank(config.api_key@))
            && model@ == config.model@),
        request matches IPCRequest::GitLog { n, .. } ==> (d matches Dispatch::GitLog { n: m, .. }
            && (n is None ==> m == 10) && (n matches Some(k) ==> m == k)),
        request matches IPCRequest::Screenshot { full, .. } ==> (d matches Dispatch::Screenshot {
            full: f,
            ..
        } && (full is None ==> f) && (full matches Some(b) ==> f == b)),
        request matches IPCRequest::ApproveScheduledTask { task_id, .. } ==> (
        d matches Dispatch::SetTaskStatus { task_id: t, status, action, .. } && t@ == task_id@
            && status == TaskStatus::Active && action@ == "approve"@),
        request matches IPCRequest::CancelScheduledTask { task_id, .. } ==> (
        d matches Dispatch::SetTaskStatus { task_id: t, status, action, .. } && t@ == task_id@
            && status == TaskStatus::Archived && action@ == "cancel"@),
        request matches IPCRequest::PauseScheduledTask { task_id, .. } ==> (
        d matches Dispatch::SetTaskStatus { task_id: t, status, action, .. } && t@ == task_id@
            && status == TaskStatus::Paused && action@ == "pause"@),
        request matches IPCRequest::ResumeScheduledTask { task_id, .. } ==> (
        d matches Dispatch::SetTaskStatus { task_id: t, status, action, .. } && t@ == task_id@
            && status == TaskStatus::Active && action@ == "resume"@),
        request matches IPCRequest::GetSessionTodos { conversation_id, .. } ==> (
        d matches Dispatch::Reply(IPCResponse::SessionTodos { todos, .. }) && todos@.len()
            == sessions.todos(conversation_id@).len() && forall|k: int|
            0 <= k < todos@.len() ==> (#[trigger] todos@[k])@ == todo_json(
                sessions.todos(conversation_id@)[k],
            )),
{
}

/// The instructions of a project are those of the first file that says something.
pub proof fn the_first_instructions_count(
    candidates: Vec<Option<String>>,
    r: Option<String>,
    i: int,
)
    requires
        call_ensures(load_project_instructions, (candidates,), r),
        0 <= i < candidates@.len(),
        candidates@[i] matches Some(t) && !text::blank(t@),
        forall|j: int| 0 <= j < i ==> (#[trigger] candidates@[j] matches Some(u) ==> text::blank(u@)),
    ensures
        r == candidates@[i],
{
    if let Some(t) = r {
        let k = choose|k: int|
            0 <= k < candidates@.len() && #[trigger] candidates@[k] == Some(t) && !text::blank(t@)
                && forall|j: int|
                0 <= j < k ==> (#[trigger] candidates@[j] matches Some(u) ==> text::blank(u@));
        if k < i {
            assert(candidates@[k] matches Some(u) ==> text::blank(u@));
        }
        if i < k {
            assert(candidates@[i] matches Some(u) ==> text::blank(u@));
        }
    }
}

/// Numbers are told as they were counted, and what could not be counted is zero.
pub proof fn numbers_are_told_as_counted(
    id: &str,
    now: i64,
    counts: &Option<StatsCounts>,
    a: IPCResponse,
    gnn: bool,
    trained: Option<i64>,
    stats: Option<(i64, i64, i64)>,
    w: (i64, i64),
    path: &str,
    is_directory: bool,
    outcome: &Result<usize, String>,
)
    ensures
        call_ensures(app_stats, (id, now, counts), a) ==> (*counts matches Some(c) ==> (
        a matches IPCResponse::AppStats {
            conversation_count,
            message_count,
            user_message_count,
            conversations_today,
            messages_today,
            conversations_this_week,
            memory_node_count,
            memory_edge_count,
            embedding_count,
            plugin_installed_count,
            plugin_enabled_count,
            tool_calls_count,
            db_size_bytes,
            started_at,
            ..
        } && (c.conversation_count matches Some(n) ==> conversation_count == n) && (
        c.message_count matches Some(n) ==> message_count == n) && (
        c.user_message_count matches Some(n) ==> user_message_count == n) && (
        c.conversations_today matches Some(n) ==> conversations_today == n) && (
        c.messages_today matches Some(n) ==> messages_today == n) && (
        c.conversations_this_week matches Some(n) ==> conversations_this_week == n) && (
        c.memory_node_count matches Some(n) ==> memory_node_count == n) && (
        c.memory_edge_count matches Some(n) ==> memory_edge_count == n) && (
        c.embedding_count matches Some(n) ==> embedding_count == n) && (
        c.plugin_installed_count matches Some(n) ==> plugin_installed_count == n) && (
        c.plugin_enabled_count matches Some(n) ==> plugin_enabled_count == n) && (
        c.tool_calls_count matches Some(n) ==> tool_calls_count == n) && (
        c.db_size_bytes matches Some(n) ==> db_size_bytes == n) && (c.first_message_at matches Some(
            t,
        ) ==> started_at == t) && (c.first_message_at is None ==> started_at == now) && (
        c.message_count is None ==> message_count == 0))) && (*counts is None ==> a is Error),
        call_ensures(memory_capabilities, (id, gnn, trained, stats), a) ==> (
        a matches IPCResponse::MemoryCapabilities {
            gnn_available,
            last_trained_at,
            node_count,
            edge_count,
            embedding_count,
            ..
        } && gnn_available == gnn && last_trained_at == trained && (stats matches Some((x, y, z))
            ==> node_count == x && edge_count == y && embedding_count == z)),
        call_ensures(stats_windows, (now,), w) && now >= i64::MIN + 7 * 86_400 ==> w.0 == now - 24
            * 3600 && w.1 == now - 7 * 24 * 3600,
        call_ensures(directory_indexed, (id, path, is_directory, outcome), a) ==> (is_directory ==> (
        a matches IPCResponse::DirectoryIndexed { path: p, files_indexed, .. } && p@ == path@ && (
        *outcome matches Ok(n) ==> files_indexed == n))) && (!is_directory ==> a is Error),
{
}

// ---------------------------------------------------------------------------
// Files
// ---------------------------------------------------------------------------

/// A file that is known is updated and not created again, and everything that is kept of
/// it goes to its own node.
pub proof fn a_known_file_is_updated(run: IndexRun, event: IndexEvent)
    requires
        run.stage is Finding,
        event is Found,
    ensures
        file_among(event->nodes@, run.path@) is Some ==> run.next_stage(event) is Updating
            && run.next_node(event) == file_among(event->nodes@, run.path@)->0,
        file_among(event->nodes@, run.path@) is None ==> run.next_stage(event) is Creating,
{
}

/// What is kept of a file is kept whole: its details, its vectors, its chunks and what
/// it takes in, each in turn.
pub proof fn a_file_is_kept_whole(run: IndexRun, a: IndexAction)
    requires
        run.wf(),
        run.asks(a),
    ensures
        run.stage is Details ==> (a matches IndexAction::PutDetails { id, details } && id@
            == run.node@ && details.summary@ == run.entry.summary@ && text::views(
            details.key_facts@,
        ) == text::views(run.entry.key_facts@) && text::views(details.todos@) == text::views(
            run.entry.todos@,
        ) && text::views(details.tags@) == text::views(run.entry.tags@) && details.structure@
            == run.entry.structure@ && details.code_signatures@ == run.entry.code_signatures@
            && details.content_hash@ == run.entry.hash@),
        run.stage is Summary ==> (a matches IndexAction::PutVector { id, kind, text } && id@
            == run.node@ && kind == VectorKind::Summary && text@ == run.entry.summary_text@),
        run.stage is Excerpt ==> (a matches IndexAction::PutVector { id, kind, text } && id@
            == run.node@ && kind == VectorKind::Content && text@ == run.entry.excerpt->0@),
        run.stage matches IndexStage::Fact(i) ==> (a matches IndexAction::PutVector {
            id,
            kind,
            text,
        } && id@ == run.node@ && kind == VectorKind::Fact && text@
            == run.entry.fact_texts@[i as int]@),
        run.stage matches IndexStage::ChunkDetails(i) ==> (
        a matches IndexAction::PutChunkDetails { id, summary, fact } && id@ == run.part@ && summary@
            == run.entry.chunks@[i as int].content@ && fact@
            == run.entry.chunks@[i as int].summary@),
        run.stage matches IndexStage::ChunkVector(i) ==> (a matches IndexAction::PutVector {
            id,
            kind,
            text,
        } && id@ == run.part@ && kind == VectorKind::Content && text@
            == run.entry.chunks@[i as int].embed_text@),
        run.stage is ChunkLink ==> (a matches IndexAction::LinkChunk { file, chunk, link } && file@
            == run.node@ && chunk@ == run.part@ && link.relationship@ == "contains"@ && link.strength
            == 0x3ff0_0000_0000_0000),
        run.stage is Linking ==> (a matches IndexAction::LinkImport { file, dependency, link, .. }
            && file@ == run.node@ && dependency@ == run.part@ && link.relationship@ == "imports"@
            && link.strength == 0x3fe7_0a3d_70a3_d70a),
        run.stage is Noting ==> (a matches IndexAction::NoteIndexed { path, hash, size } && path@
            == run.path@ && hash@ == run.entry.hash@ && size == run.size),
{
}

/// No chunk, no text and no dependency of a file is passed over: behind each comes the
/// next one, up to the last.
pub proof fn nothing_of_a_file_is_passed_over(run: IndexRun, event: IndexEvent)
    requires
        run.wf(),
        !(event is Failed),
    ensures
        run.stage is Excerpt && run.entry.fact_texts@.len() > 0 ==> run.next_stage(event)
            == IndexStage::Fact(0),
        run.stage matches IndexStage::Fact(i) ==> i + 1 < run.entry.fact_texts@.len()
            ==> run.next_stage(event) == IndexStage::Fact((i + 1) as usize),
        run.stage is ClearingChunks && run.entry.chunks@.len() > 0 ==> run.next_stage(event)
            == IndexStage::Chunk(0),
        run.stage matches IndexStage::Chunk(i) ==> run.next_stage(event) == IndexStage::ChunkLink(
            i,
        ),
        run.stage matches IndexStage::ChunkVector(i) ==> i + 1 < run.entry.chunks@.len()
            ==> run.next_stage(event) == IndexStage::Chunk((i + 1) as usize),
        run.stage matches IndexStage::ChunkVector(i) ==> i + 1 == run.entry.chunks@.len()
            && run.entry.dependencies@.len() > 0 ==> run.next_stage(event)
            == IndexStage::Dependency(0),
        run.stage matches IndexStage::Linking(i) ==> i + 1 < run.entry.dependencies@.len()
            ==> run.next_stage(event) == IndexStage::Dependency((i + 1) as usize),
        run.stage matches IndexStage::Linking(i) ==> i + 1 == run.entry.dependencies@.len()
            ==> run.next_stage(event) == IndexStage::Noting,
        run.stage matches IndexStage::Counting(i) ==> (event matches IndexEvent::Counted { count }
            ==> count == 0 ==> run.next_stage(event) == IndexStage::Linking(i)),
        run.stage is Summary && run.entry.excerpt is Some ==> run.next_stage(event) is Excerpt,
        run.stage is Summary && run.entry.excerpt is None ==> run.next_stage(event) is Noting,
        run.stage is Updating || run.stage is Creating ==> run.next_stage(event) is Details,
        run.stage is Details ==> run.next_stage(event) is Clearing,
        run.stage is Clearing ==> run.next_stage(event) is Summary,
        run.stage is Noting ==> run.next_stage(event) is Ended,
{
}

} // verus!
