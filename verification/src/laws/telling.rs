//! What is announced, answered and told on the way.

use crate::ipc::handlers::admin::{audit_out, handle_export_memory, Exported};
use crate::ipc::handlers::chat::edits::{directory_of, finish_undo, Place};
use crate::ipc::handlers::chat::modes::{call_mark, cancelled_result, said_last};
use crate::ipc::handlers::chat::session::{pop_snapshot, session_todos, Sessions, TodoItem};
use crate::ipc::handlers::chat::stream::OutV;
use crate::ipc::handlers::chat::team::{
    next_stop, started, team_goes, writes_list, TeamEvent, TeamNext, TeamTurn,
};
use crate::ipc::handlers::conversations::{conversation_row, found_row, message_row};
use crate::ipc::handlers::plugins::repo_of;
use crate::ipc::handlers::scheduler::handle_set_status;
use crate::ipc::handlers::tools::{handle_execute_skill, preview_file};
use crate::ipc::protocol::IPCResponse;
use crate::json::{json_views, Json, JsonV, Number};
use crate::laws::noting::notes;
use crate::llm::client::{
    failed_call, first_embedding, get_ollama_embedding, install_id, CallFailure, CallKind,
    EmbeddingStep, LocalOutcome,
};
use crate::llm::types::{call_views, EmbeddingResponse, Message, ToolCallV};
use crate::outside;
use crate::text;
use vstd::prelude::*;

verus! {

// ---------------------------------------------------------------------------
// Calls
// ---------------------------------------------------------------------------

proof fn the_next_writer_stops(calls: Seq<ToolCallV>, from: int)
    requires
        0 <= from <= calls.len(),
    ensures
        ({
            let to = next_stop(calls, from);
            &&& from <= to <= calls.len()
            &&& forall|i: int| from <= i < to - 1 ==> !writes_list(#[trigger] calls[i])
            &&& to < calls.len() ==> from < to && writes_list(calls[to - 1])
        }),
    decreases calls.len() - from,
{
    if from < calls.len() && !writes_list(calls[from]) {
        the_next_writer_stops(calls, from + 1);
    }
}

/// The calls of a reply are announced one by one and in order, each with its name and its
/// arguments, up to the first that writes the list of things to do, and with it.
pub proof fn every_call_is_announced(
    t: TeamTurn,
    event: TeamEvent,
    n: TeamTurn,
    outs: Seq<OutV>,
    next: TeamNext,
    i: int,
)
    requires
        event is Ended || event is Whole,
        team_goes(t, event, n, outs, next),
        n.calls@.len() > 0,
        0 <= i < n.at,
    ensures
        ({
            let calls = call_views(n.calls@);
            &&& n.at <= calls.len()
            &&& outs.len() >= n.at
            &&& outs[outs.len() - n.at + i] == OutV::Token(
                call_mark(calls[i].name, calls[i].arguments),
            )
            &&& i < n.at - 1 ==> calls[i].name != "todo_write"@
            &&& n.at < calls.len() ==> calls[n.at - 1].name == "todo_write"@
        }),
{
    let calls = call_views(n.calls@);
    assert(calls.len() == n.calls@.len());
    the_next_writer_stops(calls, 0);
    let marks = started(calls, 0);
    assert(marks.len() == n.at);
    assert(marks[i] == call_mark(calls[i].name, calls[i].arguments));
}

/// Behind a list that was written the next calls are announced, from the one behind its
/// call on, and what was announced is kept.
pub proof fn announcing_goes_on_behind_a_list(
    t: TeamTurn,
    result: String,
    n: TeamTurn,
    outs: Seq<OutV>,
    next: TeamNext,
    i: int,
)
    requires
        t.wf(),
        team_goes(t, (TeamEvent::ListWritten { result }), n, outs, next),
        t.at <= i < n.at,
    ensures
        n.calls == t.calls,
        outs.len() == n.at - t.at,
        outs[i - t.at] == OutV::Token(
            call_mark(call_views(t.calls@)[i].name, call_views(t.calls@)[i].arguments),
        ),
        text::views(n.written@) == text::views(t.written@).push(result@),
{
    let calls = call_views(t.calls@);
    the_next_writer_stops(calls, t.at as int);
    let marks = started(calls, t.at as int);
    assert(marks[i - t.at] == call_mark(calls[i].name, calls[i].arguments));
}

// ---------------------------------------------------------------------------
// Models
// ---------------------------------------------------------------------------

/// A call that was refused is told with its status and its body, and one that failed in
/// itself with its error.
pub proof fn failed_calls_are_told(
    kind: CallKind,
    status: String,
    body: String,
    error: String,
    r: String,
)
    ensures
        call_ensures(failed_call, (kind, CallFailure::Refused { status, body }), r) ==> text::ends(
            r@,
            " returned "@ + status@ + ": "@ + body@,
        ) && (kind == CallKind::Local ==> text::begins(r@, "Ollama"@)) && (kind
            == CallKind::Override ==> text::begins(r@, "LLM override"@)) && (kind == CallKind::Chat
            || kind == CallKind::Stream || kind == CallKind::StreamTools ==> text::begins(
            r@,
            "LLM API"@,
        )) && (kind == CallKind::Tools ==> text::begins(r@, "LLM returned "@)),
        call_ensures(failed_call, (kind, CallFailure::Unsent { error }), r) ==> (kind
            == CallKind::Chat || kind == CallKind::Override ==> r@ == error@) && (kind
            == CallKind::Local ==> r@ == "Ollama request failed"@) && (kind == CallKind::Stream
            ==> r@ == "stream request"@) && (kind == CallKind::StreamTools ==> r@
            == "stream+tools request"@) && (kind == CallKind::Tools ==> r@
            == "chat_with_tools request"@),
        call_ensures(failed_call, (kind, CallFailure::Unread { error }), r) ==> (kind
            == CallKind::Chat ==> r@ == error@) && (kind == CallKind::Local ==> r@
            == "Ollama JSON parse"@) && (kind == CallKind::Override ==> r@
            == "override JSON parse"@) && (kind == CallKind::Tools ==> r@
            == "chat_with_tools JSON parse"@),
{
    if call_ensures(failed_call, (kind, CallFailure::Refused { status, body }), r) {
        let who = crate::llm::client::who(kind);
        let tail = " returned "@ + status@ + ": "@ + body@;
        assert(r@ =~= who + tail);
        assert(r@.subrange(who.len() as int, r@.len() as int) =~= tail);
        assert(r@.subrange(0, who.len() as int) =~= who);
        if kind == CallKind::Tools {
            reveal_strlit("LLM");
            reveal_strlit(" returned ");
            reveal_strlit("LLM returned ");
            assert(r@.subrange(0, 13) =~= "LLM returned "@);
        }
    }
}

/// An installation is known to the provider by the start of the hash of its key, and not
/// at all without one.
pub proof fn installations_are_told_apart(key: Seq<char>)
    ensures
        text::blank(key) ==> install_id(key) is None,
        !text::blank(key) ==> install_id(key) == Some(
            "rook-"@ + text::hex(outside::sha256_of(vstd::utf8::encode_utf8(key)).take(8)),
        ),
{
}

/// The vector of a reply is its first one; a local server that fails is asked once more
/// elsewhere, and then a vector is computed.
pub proof fn vectors_are_taken<T>(
    reply: EmbeddingResponse<T>,
    v: Result<Vec<T>, String>,
    again: bool,
    outcome: LocalOutcome<T>,
    s: EmbeddingStep<T>,
)
    ensures
        call_ensures(first_embedding::<T>, (reply,), v) ==> (reply.data@.len() > 0 ==> v == Ok::<
            Vec<T>,
            String,
        >(reply.data@[0].embedding)) && (reply.data@.len() == 0 ==> v is Err),
        call_ensures(get_ollama_embedding::<T>, (again, outcome), s) ==> (!again
            && outcome is Unreachable ==> s is AskFallback) && (again && outcome is Unreachable
            ==> s is Compute) && (outcome matches LocalOutcome::Answered { success, payload } ==> (
        success || again) ==> (payload matches Some(p) ==> p.embeddings@.len() > 0
            && p.embeddings@[0]@.len() > 0 ==> s == (EmbeddingStep::Take {
            vector: p.embeddings@[0],
        }))),
{
}

// ---------------------------------------------------------------------------
// Rows
// ---------------------------------------------------------------------------

/// What the database holds is told as the laws on rows say.
pub proof fn rows_are_made(
    id: String,
    title: Option<String>,
    role: String,
    content: String,
    created: i64,
    updated: i64,
    pinned: i64,
    r: Json,
)
    requires
        created >= 0,
        updated >= 0,
    ensures
        call_ensures(conversation_row, (id, title, created, updated, pinned), r) ==> notes(
            r@,
            "id"@,
            JsonV::Text(id@),
        ) && (title matches Some(t) ==> notes(r@, "title"@, JsonV::Text(t@))) && notes(
            r@,
            "pinned"@,
            JsonV::Bool(pinned != 0),
        ) && notes(r@, "updated_at"@, JsonV::Num(Number::Unsigned(updated as u64))),
        call_ensures(found_row, (id, title, updated), r) ==> notes(r@, "id"@, JsonV::Text(id@)) && (
        title matches Some(t) ==> notes(r@, "title"@, JsonV::Text(t@))),
        call_ensures(message_row, (id, role, content, created), r) ==> notes(
            r@,
            "id"@,
            JsonV::Text(id@),
        ) && notes(r@, "role"@, JsonV::Text(role@)) && notes(r@, "content"@, JsonV::Text(content@)),
{
    let m = r@->Object_0;
    if call_ensures(conversation_row, (id, title, created, updated, pinned), r) {
        assert(m.contains(m[0]) && m.contains(m[1]) && m.contains(m[3]) && m.contains(m[4]));
    }
    if call_ensures(found_row, (id, title, updated), r) {
        assert(m.contains(m[0]) && m.contains(m[1]));
    }
    if call_ensures(message_row, (id, role, content, created), r) {
        assert(m.contains(m[0]) && m.contains(m[1]) && m.contains(m[2]));
    }
}

/// An entry of the audit is told with the tool, what it was called with and what came of
/// it.
pub proof fn audits_are_told(
    id: Seq<char>,
    at: i64,
    tool: Seq<char>,
    args: Seq<char>,
    result: Seq<char>,
    conv: Seq<char>,
)
    requires
        at >= 0,
    ensures
        ({
            let r = audit_out(id, at, tool, Some(args), Some(result), Some(conv));
            &&& notes(r, "id"@, JsonV::Text(id))
            &&& notes(r, "timestamp"@, JsonV::Num(Number::Unsigned(at as u64)))
            &&& notes(r, "tool_name"@, JsonV::Text(tool))
            &&& notes(r, "args_json"@, JsonV::Text(args))
            &&& notes(r, "result_summary"@, JsonV::Text(result))
            &&& notes(r, "conversation_id"@, JsonV::Text(conv))
        }),
{
    let m = audit_out(id, at, tool, Some(args), Some(result), Some(conv))->Object_0;
    assert(m.contains(m[0]) && m.contains(m[1]) && m.contains(m[2]) && m.contains(m[3])
        && m.contains(m[4]) && m.contains(m[5]));
}

/// An export is answered with all nodes, objects and links, in order.
pub proof fn an_export_is_answered(id: &str, now: i64, all: Option<Exported>, r: IPCResponse)
    requires
        call_ensures(handle_export_memory, (id, now, all), r),
    ensures
        all is None ==> r is Error,
        all matches Some(a) ==> (r matches IPCResponse::MemoryExport { id: i, data } && i@ == id@
            && notes(data@, "nodes"@, JsonV::List(json_views(a.nodes@))) && notes(
            data@,
            "object_memories"@,
            JsonV::List(json_views(a.objects@)),
        ) && notes(data@, "edges"@, JsonV::List(json_views(a.edges@)))),
{
    if all is Some {
        if let IPCResponse::MemoryExport { data, .. } = r {
            let m = data@->Object_0;
            assert(m.contains(m[2]) && m.contains(m[3]) && m.contains(m[4]));
        }
    }
}

// ---------------------------------------------------------------------------
// Others
// ---------------------------------------------------------------------------

/// A change of a task is told with whether it worked; a plugin is of the repository that
/// is said, or of that in its id; a preview is a page.
pub proof fn other_requests_are_answered(
    id: &str,
    task: &str,
    action: &str,
    outcome: &Result<(), String>,
    a: IPCResponse,
    owner: &Option<String>,
    repo: &Option<String>,
    two: (String, String),
    file: String,
    skill: Result<Json, String>,
    s: Result<IPCResponse, String>,
)
    ensures
        call_ensures(handle_set_status, (id, task, action, outcome), a) ==> (
        a matches IPCResponse::ScheduledTaskAction { id: i, task_id, action: x, success, message }
            && i@ == id@ && task_id@ == task@ && x@ == action@ && success == (*outcome is Ok) && (
        *outcome matches Err(e) ==> message@ == e@)),
        call_ensures(repo_of, (task, owner, repo), two) ==> (*owner matches Some(o) ==> o@.len() > 0
            ==> two.0@ == o@) && (*repo matches Some(o) ==> o@.len() > 0 ==> two.1@ == o@) && (
        *owner is None ==> two.0@ == crate::ipc::handlers::plugins::id_owner(task@)) && (
        *repo is None ==> two.1@ == crate::ipc::handlers::plugins::id_repo(task@)),
        call_ensures(preview_file, (task,), file) ==> file@ == task@ + ".html"@,
        call_ensures(handle_execute_skill, (id, skill), s) ==> (skill matches Ok(x) ==> (
        s matches Ok(y) && y matches IPCResponse::SkillExecuted { id: i, result } && i@ == id@
            && result == x)),
{
}

/// What is kept of a conversation is handed out as it is, and what is taken back is the
/// last version of a file.
pub proof fn what_is_kept_is_handed_out(
    s: &mut Sessions,
    conv: &str,
    path: &str,
    v: Option<String>,
    todos: Vec<TodoItem>,
    place: Place,
    d: Result<String, String>,
    messages: &Vec<Message>,
    r: String,
)
    ensures
        call_ensures(pop_snapshot, (s, conv, path), v) ==> ({
            let h = old(s).history(conv@, path@);
            &&& h.len() > 0 ==> (v matches Some(c) && c@ == h.last()) && final(s).history(
                conv@,
                path@,
            ) == h.drop_last()
            &&& h.len() == 0 ==> v is None
        }),
        call_ensures(session_todos, (final(s), conv), todos) ==> todos@ == final(s).todos(conv@),
        call_ensures(directory_of, (path, place), d) ==> (place matches Place::Directory { path: p }
            ==> (d matches Ok(x) && x@ == p@)) && (!(place is Directory) ==> d is Err),
        call_ensures(said_last, (messages,), r) ==> forall|i: int|
            0 <= i < messages@.len() && (#[trigger] messages@[i]).role@ == "user"@ && (forall|j: int|
                i < j < messages@.len() ==> (#[trigger] messages@[j]).role@ != "user"@) ==> r@
                == messages@[i].content@,
        call_ensures(cancelled_result, (path,), r) ==> r@ == "Error: tool '"@ + path@
            + "' cancelled"@,
{
    if call_ensures(said_last, (messages,), r) {
        let all = crate::llm::types::message_views(messages@);
        assert forall|i: int|
            0 <= i < messages@.len() && (#[trigger] messages@[i]).role@ == "user"@ && (forall|j: int|
                i < j < messages@.len() ==> (#[trigger] messages@[j]).role@
                    != "user"@) implies r@ == messages@[i].content@ by {
            assert(all[i] == messages@[i]@);
            assert forall|j: int| i < j < all.len() implies (#[trigger] all[j]).role != "user"@ by {
                assert(all[j] == messages@[j]@);
            }
            crate::laws::working::the_last_word_of_the_user(all, i);
        }
    }
}

/// An undoing is answered with how many more can be made.
pub proof fn an_undoing_is_answered(
    s: &Sessions,
    conv: &str,
    key: &str,
    path: &str,
    restored: &str,
    r: String,
)
    requires
        call_ensures(finish_undo, (s, conv, key, path, restored, &Ok::<(), String>(())), r),
    ensures
        text::begins(
            r@,
            "Restored "@ + path@ + " ("@ + text::decimal(text::byte_count(restored@))
                + " bytes). "@ + text::decimal(s.history(conv@, key@).len()),
        ),
{
    let head = "Restored "@ + path@ + " ("@ + text::decimal(text::byte_count(restored@))
        + " bytes). "@ + text::decimal(s.history(conv@, key@).len());
    assert(r@.subrange(0, head.len() as int) =~= head);
}

} // verus!
