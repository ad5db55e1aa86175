//! What requests are answered.

use crate::indexer::browser_indexer::{BrowserIndexer, PageEntry};
use crate::indexer::ui_indexer::{UiIndexer, WindowEntry};
use crate::ipc::handlers::admin::{
    audit_limit, audit_text, edge_out, handle_get_memory_health, handle_get_tool_audit_log,
    handle_get_user_fact, handle_graceful_shutdown, handle_set_node_pinned, import_replaces,
    memory_out, node_out, object_out, tally, MemoryCounts, NodeRowV,
};
use crate::ipc::handlers::conversations::{
    bare, conversation_out, first_bare, found_out, handle_get_conversation_messages,
    handle_get_conversations, handle_pin_conversation, handle_regenerate_last_message,
    handle_rename_conversation, handle_search_conversations, last_place, message_out,
    search_pattern, title_in, title_request, title_without, wants_title,
};
use crate::ipc::handlers::git::{
    handle_git_branch, handle_git_commit, handle_git_diff, handle_git_log, handle_git_status,
};
use crate::ipc::handlers::memory::{
    handle_create_node, handle_get_connected_nodes, handle_get_node, handle_query_memory,
    handle_search_embeddings, handle_submit_memory_feedback, search_size, semantic_text,
};
use crate::ipc::handlers::plugins::{
    changed, found_infos, handle_install_plugin, handle_launch_gemma, handle_set_plugin_enabled,
    handle_start_mcp, handle_uninstall_plugin, id_owner, id_repo, info, listed_infos, on_detected,
    Install, Offer, Plugin, StartMcp,
};
use crate::ipc::handlers::scheduler::{
    handle_create_scheduled_task, handle_list_scheduled_tasks, task_channel, task_refused,
    TaskOutcome,
};
use crate::ipc::handlers::tools::{
    decides, edit_result, handle_browser_debugging_url, handle_cdp_click, handle_cdp_evaluate,
    handle_cdp_navigate, handle_cdp_type, handle_create_preview, handle_list_skills,
    handle_read_file, handle_screenshot, handle_spawn_browser, handle_spawn_cdp_browser,
    handle_web_search, handle_write_file, is_step, read_note, web_note, web_notes_of, Approval,
    FileOutcome, PendingTools, Step,
};
use crate::ipc::protocol::{IPCResponse, PendingEditDiff};
use crate::json::{Json, JsonV, Number};
use crate::laws::calling::{has_member, members_are_found_by_name, says};
use crate::laws::noting::notes;
use crate::llm::orchestrator::Launch;
use crate::llm::types::LLMConfigV;
use crate::text;
use vstd::prelude::*;

verus! {

// ---------------------------------------------------------------------------
// Git, files, the browser
// ---------------------------------------------------------------------------

/// The request fails with a problem.
pub open spec fn fails(r: Result<IPCResponse, String>, outcome: Result<String, String>) -> bool {
    outcome matches Err(e) ==> r == Err::<IPCResponse, String>(e)
}

/// What git prints is answered as it is, under the id of the request.
pub open spec fn prints(id: &str, outcome: Result<String, String>, r: Result<IPCResponse, String>) -> bool {
    &&& fails(r, outcome)
    &&& outcome matches Ok(t) ==> (r matches Ok(a) && a matches IPCResponse::GitResult { id: i, output }
        && i@ == id@ && output@ == t@)
}

/// What git prints is answered, whatever it was asked for.
pub proof fn git_is_quoted(
    id: &str,
    outcome: Result<String, String>,
    r: Result<IPCResponse, String>,
)
    ensures
        call_ensures(handle_git_status, (id, outcome), r) ==> prints(id, outcome, r),
        call_ensures(handle_git_log, (id, outcome), r) ==> prints(id, outcome, r),
        call_ensures(handle_git_diff, (id, outcome), r) ==> prints(id, outcome, r),
        call_ensures(handle_git_branch, (id, outcome), r) ==> prints(id, outcome, r),
        call_ensures(handle_git_commit, (id, outcome), r) ==> prints(id, outcome, r),
{
}

/// A file that is read is answered with its path and all that it holds, and one that is
/// written with its path.
pub proof fn files_are_answered(
    id: &str,
    path: &str,
    read: Result<String, String>,
    written: Result<(), String>,
    r: Result<IPCResponse, String>,
)
    ensures
        call_ensures(handle_read_file, (id, path, read), r) ==> fails(r, read) && (read matches Ok(c)
            ==> (r matches Ok(a) && a matches IPCResponse::FileContent { id: i, path: p, content }
            && i@ == id@ && p@ == path@ && content@ == c@)),
        call_ensures(handle_write_file, (id, path, written), r) ==> (written is Ok ==> (
        r matches Ok(a) && a matches IPCResponse::FileWritten { id: i, path: p, success } && i@
            == id@ && p@ == path@ && success)) && (written matches Err(e) ==> r == Err::<
            IPCResponse,
            String,
        >(e)),
        call_ensures(handle_create_preview, (id, path, read), r) ==> fails(r, read) && (
        read matches Ok(c) ==> (r matches Ok(a) && a matches IPCResponse::PreviewCreated {
            id: i,
            name,
            path: p,
        } && i@ == id@ && name@ == path@ && p@ == c@)),
{
}

/// What the browser and the web give is answered as it is.
pub proof fn the_browser_is_quoted(
    id: &str,
    outcome: Result<String, String>,
    done: Result<(), String>,
    r: Result<IPCResponse, String>,
    a: IPCResponse,
)
    ensures
        call_ensures(handle_spawn_browser, (id, outcome), r) ==> fails(r, outcome) && (
        outcome matches Ok(u) ==> (r matches Ok(x) && x matches IPCResponse::SpawnBrowserResult {
            id: i,
            debugging_url,
        } && i@ == id@ && debugging_url@ == u@)),
        call_ensures(handle_spawn_cdp_browser, (id, outcome), r) ==> fails(r, outcome) && (
        outcome matches Ok(u) ==> (r matches Ok(x) && x matches IPCResponse::SpawnCdpBrowserResult {
            id: i,
            debugging_url,
        } && i@ == id@ && debugging_url@ == u@)),
        call_ensures(handle_cdp_navigate, (id, outcome), r) ==> fails(r, outcome) && (
        outcome matches Ok(c) ==> (r matches Ok(x) && x matches IPCResponse::CdpNavigateResult {
            id: i,
            content,
        } && i@ == id@ && content@ == c@)),
        call_ensures(handle_cdp_click, (id, done), a) || call_ensures(
            handle_cdp_type,
            (id, done),
            a,
        ) ==> (a matches IPCResponse::CdpActionResult { id: i, success, details } && i@ == id@
            && success == (done is Ok) && (done matches Err(e) ==> (details matches Some(d) && d@
            == JsonV::Text(e@)))),
        call_ensures(handle_cdp_evaluate, (id, outcome), a) ==> (
        a matches IPCResponse::CdpActionResult { id: i, success, details } && i@ == id@ && success
            == (outcome is Ok) && (outcome matches Ok(t) ==> (details matches Some(d) && d@
            == JsonV::Text(t@)))),
        call_ensures(handle_screenshot, (id, outcome), a) ==> (outcome matches Ok(b) ==> (
        a matches IPCResponse::ScreenshotResult { image_base64, .. } && image_base64@ == b@)) && (
        outcome is Err ==> a is Error),
{
}

/// The address of the driven browser comes before that of the other one.
pub proof fn the_driven_browser_comes_first(
    id: &str,
    driven: Option<String>,
    other: Option<String>,
    r: IPCResponse,
)
    requires
        call_ensures(handle_browser_debugging_url, (id, driven, other), r),
    ensures
        r matches IPCResponse::BrowserDebuggingUrl { id: i, url } && i@ == id@ && (driven is Some
            ==> url == driven) && (driven is None ==> url == other),
{
}

/// Lists are answered whole and in order.
pub proof fn lists_are_answered_whole(
    id: &str,
    items: Vec<Json>,
    found: Result<Vec<Json>, String>,
    r: Result<IPCResponse, String>,
    a: IPCResponse,
)
    ensures
        call_ensures(handle_web_search, (id, found), r) ==> (found matches Ok(l) ==> (
        r matches Ok(x) && x matches IPCResponse::WebSearchResults { id: i, results } && i@ == id@
            && results@ == l@)),
        call_ensures(handle_list_skills, (id, items), a) ==> (a matches IPCResponse::SkillsList {
            id: i,
            skills,
        } && i@ == id@ && skills@ == items@),
        call_ensures(handle_get_conversations, (id, items), a) || call_ensures(
            handle_search_conversations,
            (id, items),
            a,
        ) ==> (a matches IPCResponse::ConversationList { id: i, conversations } && i@ == id@
            && conversations@ == items@),
        call_ensures(handle_get_tool_audit_log, (id, items), a) ==> (
        a matches IPCResponse::ToolAuditLog { id: i, entries } && i@ == id@ && entries@ == items@),
        call_ensures(handle_search_embeddings, (id, found), r) ==> (found matches Ok(l) ==> (
        r matches Ok(x) && x matches IPCResponse::EmbeddingResults { id: i, results } && i@ == id@
            && results@ == l@)),
        call_ensures(handle_list_scheduled_tasks, (id, found), a) ==> (
        a matches IPCResponse::ScheduledTaskList { id: i, tasks } && i@ == id@ && (
        found matches Ok(l) ==> tasks@ == l@) && (found is Err ==> tasks@.len() == 0)),
{
}

// ---------------------------------------------------------------------------
// The memory
// ---------------------------------------------------------------------------

/// What is known is answered up to the limit, or the first twenty things, in order.
pub proof fn the_first_things_are_answered(
    id: &str,
    limit: Option<usize>,
    found: Vec<Json>,
    r: Result<IPCResponse, String>,
)
    requires
        call_ensures(handle_query_memory, (id, limit, Ok::<Vec<Json>, String>(found)), r),
    ensures
        r matches Ok(a) && a matches IPCResponse::MemoryResults { id: i, nodes } && i@ == id@ && ({
            let most = match limit {
                Some(n) => n as int,
                None => 20,
            };
            &&& nodes@.len() == (if found@.len() < most {
                found@.len() as int
            } else {
                most
            })
            &&& forall|k: int| 0 <= k < nodes@.len() ==> #[trigger] nodes@[k] == found@[k]
        }),
{
}

/// A node is answered with what is kept of it, or told not to be there.
pub proof fn a_node_is_answered_whole(
    id: &str,
    node_id: &str,
    found: Result<Option<(Json, Option<Json>)>, String>,
    created: Result<Json, String>,
    linked: Result<(Vec<Json>, Vec<Json>), String>,
    r: Result<IPCResponse, String>,
)
    ensures
        call_ensures(handle_get_node, (id, node_id, found), r) ==> (found matches Ok(Some((n, o)))
            ==> (r matches Ok(a) && a matches IPCResponse::NodeDetails {
            id: i,
            node,
            object_memory,
        } && i@ == id@ && node == n && object_memory == o)) && (found matches Ok(None) ==> (
        r matches Ok(a) && a matches IPCResponse::Error { id: i, message } && i@ == id@ && message@
            == "Node not found: "@ + node_id@)),
        call_ensures(handle_create_node, (id, created), r) ==> (created matches Ok(n) ==> (
        r matches Ok(a) && a matches IPCResponse::NodeCreated { id: i, node } && i@ == id@ && node
            == n)),
        call_ensures(handle_submit_memory_feedback, (id, created), r) ==> (created matches Ok(n)
            ==> (r matches Ok(a) && a matches IPCResponse::FeedbackRecorded {
            id: i,
            success,
            details,
        } && i@ == id@ && success && details == n)),
        call_ensures(handle_get_connected_nodes, (id, linked), r) ==> (linked matches Ok((n, e))
            ==> (r matches Ok(a) && a matches IPCResponse::ConnectedNodes { id: i, nodes, edges }
            && i@ == id@ && nodes@ == n@ && edges@ == e@)),
{
}

/// Ten things are searched for where nothing else is asked, out of eight times as many;
/// a node is found by its title and what is noted of it.
pub proof fn a_search_has_a_pool(
    limit: Option<usize>,
    r: (usize, usize),
    title: &str,
    metadata: &Option<String>,
    t: String,
)
    ensures
        call_ensures(search_size, (limit,), r) ==> (limit matches Some(n) ==> r.1 == n) && (
        limit is None ==> r.1 == 10) && (8 * r.1 <= usize::MAX ==> r.0 == 8 * r.1),
        call_ensures(semantic_text, (title, metadata), t) ==> (*metadata is None ==> t@ == title@)
            && (*metadata matches Some(m) ==> t@ == title@ + "\n"@ + m@),
{
}

/// An export holds everything with its fields by name, and its version is one.
pub proof fn an_export_is_whole(
    n: NodeRowV,
    now: i64,
    nodes: Seq<JsonV>,
    objects: Seq<JsonV>,
    edges: Seq<JsonV>,
    t: Option<Seq<char>>,
    strength: u64,
)
    ensures
        notes(node_out(n), "id"@, JsonV::Text(n.id)),
        notes(node_out(n), "node_type"@, JsonV::Text(n.node_type)),
        notes(node_out(n), "title"@, JsonV::Text(n.title)),
        n.created_at >= 0 ==> notes(
            node_out(n),
            "created_at"@,
            JsonV::Num(Number::Unsigned(n.created_at as u64)),
        ),
        n.metadata_json matches Some(m) ==> notes(node_out(n), "metadata_json"@, JsonV::Text(m)),
        notes(memory_out(now, nodes, objects, edges), "version"@, JsonV::Num(Number::Unsigned(1))),
        notes(memory_out(now, nodes, objects, edges), "nodes"@, JsonV::List(nodes)),
        notes(memory_out(now, nodes, objects, edges), "object_memories"@, JsonV::List(objects)),
        notes(memory_out(now, nodes, objects, edges), "edges"@, JsonV::List(edges)),
        notes(object_out(n.id, t, t, t), "node_id"@, JsonV::Text(n.id)),
        t matches Some(x) ==> notes(object_out(n.id, t, None, None), "summary"@, JsonV::Text(x))
            && notes(object_out(n.id, None, t, None), "key_facts_json"@, JsonV::Text(x)) && notes(
            object_out(n.id, None, None, t),
            "tags_json"@,
            JsonV::Text(x),
        ),
        notes(
            edge_out(n.id, n.title, n.node_type, n.title, strength),
            "source_id"@,
            JsonV::Text(n.title),
        ),
        notes(
            edge_out(n.id, n.title, n.node_type, n.title, strength),
            "target_id"@,
            JsonV::Text(n.node_type),
        ),
        notes(
            edge_out(n.id, n.title, n.node_type, n.title, strength),
            "strength"@,
            JsonV::Num(Number::Fraction(strength)),
        ),
{
    let a = node_out(n)->Object_0;
    assert(a.contains(a[0]) && a.contains(a[1]) && a.contains(a[2]) && a.contains(a[3])
        && a.contains(a[4]) && a.contains(a[5]));
    let b = memory_out(now, nodes, objects, edges)->Object_0;
    assert(b.contains(b[0]) && b.contains(b[1]) && b.contains(b[2]) && b.contains(b[3])
        && b.contains(b[4]));
    let c = object_out(n.id, t, t, t)->Object_0;
    assert(c.contains(c[0]));
    let d = object_out(n.id, t, None, None)->Object_0;
    assert(d.contains(d[1]));
    let e = object_out(n.id, None, t, None)->Object_0;
    assert(e.contains(e[2]));
    let f = object_out(n.id, None, None, t)->Object_0;
    assert(f.contains(f[3]));
    let g = edge_out(n.id, n.title, n.node_type, n.title, strength)->Object_0;
    assert(g.contains(g[1]) && g.contains(g[2]) && g.contains(g[4]));
}

proof fn tally_is_counted(outcomes: Seq<Option<usize>>, n: nat)
    requires
        n <= outcomes.len(),
    ensures
        ({
            let part = outcomes.take(n as int);
            let t = tally(outcomes, n);
            &&& t.0 == part.filter(|o: Option<usize>| o is Some && o->0 > 0).len()
            &&& t.1 == part.filter(|o: Option<usize>| o == Some(0usize)).len()
            &&& t.2 == part.filter(|o: Option<usize>| o is None).len()
        }),
    decreases n,
{
    reveal(Seq::filter);
    let part = outcomes.take(n as int);
    if n > 0 {
        tally_is_counted(outcomes, (n - 1) as nat);
        assert(part.drop_last() =~= outcomes.take(n - 1));
    }
}

/// Of an import the nodes that were written, those that were there already and those
/// that failed are counted.
pub proof fn an_import_is_counted(outcomes: Seq<Option<usize>>)
    ensures
        ({
            let t = tally(outcomes, outcomes.len());
            &&& t.0 == outcomes.filter(|o: Option<usize>| o is Some && o->0 > 0).len()
            &&& t.1 == outcomes.filter(|o: Option<usize>| o == Some(0usize)).len()
            &&& t.2 == outcomes.filter(|o: Option<usize>| o is None).len()
        }),
{
    tally_is_counted(outcomes, outcomes.len());
    assert(outcomes.take(outcomes.len() as int) =~= outcomes);
}

/// The health of the memory is told as it was counted; what could not be counted is
/// zero.
pub proof fn health_is_told(
    id: &str,
    counts: &Option<MemoryCounts>,
    gnn: bool,
    r: IPCResponse,
)
    requires
        call_ensures(handle_get_memory_health, (id, counts, gnn), r),
    ensures
        *counts is None ==> r is Error,
        *counts matches Some(c) ==> (r matches IPCResponse::MemoryHealth {
            node_count,
            edge_count,
            embedding_count,
            pinned_count,
            db_size_bytes,
            gnn_available,
            last_trained_at,
            avg_confidence,
            ..
        } && (c.nodes matches Some(n) ==> node_count == n) && (c.edges matches Some(n) ==> edge_count
            == n) && (c.embeddings matches Some(n) ==> embedding_count == n) && (
        c.pinned matches Some(n) ==> pinned_count == n) && (c.bytes matches Some(n)
            ==> db_size_bytes == n) && (c.rating matches Some(n) ==> avg_confidence == n)
            && gnn_available == gnn && last_trained_at == c.last_trained_at && (c.nodes is None
            ==> node_count == 0)),
{
}

/// A program that has written everything ends sooner; a node is pinned by a fact with
/// its id; an import replaces only where that is said.
pub proof fn smaller_requests(
    id: &str,
    written: bool,
    a: (IPCResponse, u64),
    pinned: bool,
    p: (IPCResponse, String, String),
    conflict: &str,
    replaces: bool,
    value: Option<String>,
    f: IPCResponse,
)
    ensures
        call_ensures(handle_graceful_shutdown, (id, written), a) ==> a.0 is Acknowledged && (written
            ==> a.1 == 300) && (!written ==> a.1 == 1500),
        call_ensures(handle_set_node_pinned, (id, conflict, pinned), p) ==> p.1@ == "node_pinned:"@
            + conflict@ && (p.2@ == "true"@ <==> pinned),
        call_ensures(import_replaces, (conflict,), replaces) ==> (replaces <==> conflict@
            == "overwrite"@),
        call_ensures(handle_get_user_fact, (id, conflict, value), f) ==> (
        f matches IPCResponse::UserFact { id: i, key, value: v } && i@ == id@ && key@ == conflict@
            && v == value),
{
    reveal_strlit("true");
    reveal_strlit("false");
    assert("true"@.len() == 4 && "false"@.len() == 5);
}

/// What a tool was called with is kept up to five hundred bytes, and fifty entries are
/// told where nothing else is asked.
pub proof fn audits_are_kept(s: Seq<char>, limit: Option<usize>, r: i64)
    ensures
        text::byte_count(s) <= 500 ==> audit_text(s) == Some(s),
        text::byte_count(s) > 500 ==> (audit_text(s) matches Some(t) ==> text::begins(s, t)
            && text::byte_count(t) == 500),
        call_ensures(audit_limit, (limit,), r) ==> (limit is None ==> r == 50) && (
        limit matches Some(n) ==> n <= i64::MAX ==> r == n),
{
    text::byte_cut_is_prefix(s, 500);
    if text::byte_count(s) > 500 {
        if let Some(t) = text::byte_cut(s, 500) {
            assert(s.subrange(0, t.len() as int) =~= t);
        }
    }
}

// ---------------------------------------------------------------------------
// Conversations
// ---------------------------------------------------------------------------

/// Conversations and messages are told with their fields by name.
pub proof fn rows_are_told(
    id: Seq<char>,
    title: Seq<char>,
    content: Seq<char>,
    created: i64,
    updated: i64,
    pinned: i64,
)
    requires
        created >= 0,
        updated >= 0,
    ensures
        ({
            let c = conversation_out(id, Some(title), created, updated, pinned);
            let f = found_out(id, Some(title), updated);
            let m = message_out(id, title, content, created);
            &&& notes(c, "id"@, JsonV::Text(id))
            &&& notes(c, "title"@, JsonV::Text(title))
            &&& notes(c, "created_at"@, JsonV::Num(Number::Unsigned(created as u64)))
            &&& notes(c, "updated_at"@, JsonV::Num(Number::Unsigned(updated as u64)))
            &&& notes(c, "pinned"@, JsonV::Bool(pinned != 0))
            &&& notes(f, "id"@, JsonV::Text(id))
            &&& notes(f, "title"@, JsonV::Text(title))
            &&& notes(f, "updated_at"@, JsonV::Num(Number::Unsigned(updated as u64)))
            &&& notes(m, "id"@, JsonV::Text(id))
            &&& notes(m, "role"@, JsonV::Text(title))
            &&& notes(m, "content"@, JsonV::Text(content))
            &&& notes(m, "created_at"@, JsonV::Num(Number::Unsigned(created as u64)))
        }),
{
    let c = conversation_out(id, Some(title), created, updated, pinned)->Object_0;
    let f = found_out(id, Some(title), updated)->Object_0;
    let m = message_out(id, title, content, created)->Object_0;
    assert(c.contains(c[0]) && c.contains(c[1]) && c.contains(c[2]) && c.contains(c[3])
        && c.contains(c[4]));
    assert(f.contains(f[0]) && f.contains(f[1]) && f.contains(f[2]));
    assert(m.contains(m[0]) && m.contains(m[1]) && m.contains(m[2]) && m.contains(m[3]));
}

/// Conversations are searched for anywhere in their texts, renamed and pinned as asked,
/// and a message is asked again word for word.
pub proof fn conversations_change_as_asked(
    id: &str,
    conv: &str,
    title: &str,
    pinned: bool,
    last: Option<String>,
    p: String,
    a: IPCResponse,
    again: Result<String, IPCResponse>,
    messages: Vec<Json>,
)
    ensures
        call_ensures(search_pattern, (title,), p) ==> p@ == "%"@ + title@ + "%"@,
        call_ensures(handle_rename_conversation, (id, conv, title), a) ==> (
        a matches IPCResponse::ConversationRenamed { conversation_id, title: t, .. }
            && conversation_id@ == conv@ && t@ == title@),
        call_ensures(handle_pin_conversation, (id, conv, pinned), a) ==> (
        a matches IPCResponse::ConversationPinned { conversation_id, pinned: q, .. }
            && conversation_id@ == conv@ && q == pinned),
        call_ensures(handle_regenerate_last_message, (id, last), again) ==> (last matches Some(m)
            ==> again == Ok::<String, IPCResponse>(m)) && (last is None ==> again is Err),
        call_ensures(handle_get_conversation_messages, (id, conv, messages), a) ==> (
        a matches IPCResponse::ConversationMessages { conversation_id, messages: m, .. }
            && conversation_id@ == conv@ && m@ == messages@),
{
}

/// A conversation gets a title at the second message of the user, and later as long as
/// it has none or one of sixty characters or more.
pub proof fn titles_are_made_when_due(n: i64, title: Option<Seq<char>>)
    ensures
        n < 2 ==> !wants_title(n, title),
        n == 2 ==> wants_title(n, title),
        n > 2 && title is None ==> wants_title(n, title),
        n > 2 ==> (title matches Some(t) ==> (wants_title(n, title) <==> t.len() == 0 || t.len()
            >= 60)),
{
}

proof fn last_place_is_last(s: Seq<char>, pat: Seq<char>, from: int)
    ensures
        ({
            let i = last_place(s, pat, from);
            &&& i >= 0 ==> text::match_at(s, pat, i) && i <= from
            &&& forall|j: int| i < j <= from && 0 <= j ==> !text::match_at(s, pat, j)
        }),
    decreases from + 1,
{
    if from >= 0 && !text::match_at(s, pat, from) {
        last_place_is_last(s, pat, from - 1);
    }
}

/// The title in a reply stands behind the last mark for it, on the first line that says
/// something, without quotes and up to sixty characters.
pub proof fn the_title_is_found(front: Seq<char>, shown: Seq<char>, title: Seq<char>)
    requires
        0 < title.len() <= 60,
        !text::is_space(title[0]),
        !text::is_space(title.last()),
        title[0] != '"',
        title.last() != '"',
        forall|i: int| 0 <= i < title.len() ==> #[trigger] title[i] != '\n' && title[i] != '\r',
        shown == title || shown == seq!['"'] + title + seq!['"'],
        forall|j: int|
            front.len() < j ==> !text::match_at(front + "Title: "@ + shown, "Title:"@, j),
    ensures
        title_in(front + "Title: "@ + shown) == title,
{
    reveal_strlit("Title: ");
    reveal_strlit("Title:");
    let raw = front + "Title: "@ + shown;
    let n = front.len() as int;
    assert(raw.subrange(n, n + 6) =~= "Title:"@);
    assert(text::match_at(raw, "Title:"@, n));
    last_place_is_last(raw, "Title:"@, raw.len() as int);
    assert(last_place(raw, "Title:"@, raw.len() as int) == n);
    let line = seq![' '] + shown;
    assert(raw.skip(n + 6) =~= line);
    text::index_of_bounds(line, '\n');
    assert forall|i: int| 0 <= i < line.len() implies #[trigger] line[i] != '\n' by {
        if i > 0 {
            assert(line[i] == shown[i - 1]);
            if shown != title {
                assert(shown[0] == '"');
                if 1 < i < line.len() - 1 {
                    assert(shown[i - 1] == title[i - 2]);
                }
            }
        }
    }
    assert(text::lines(line) =~= seq![line]);
    assert(text::is_space(' '));
    assert(line.skip(1) =~= shown);
    assert(!text::is_space('"'));
    assert(shown.len() > 0 && !text::is_space(shown[0]) && !text::is_space(shown.last()));
    assert(text::trim_start(shown) == shown);
    assert(text::trim_start(line) == shown);
    assert(text::trim(line) == shown);
    if shown == title {
        assert(text::strip_end(title, '"') == title);
        assert(text::strip_start(title, '"') == title);
    } else {
        let half = seq!['"'] + title;
        assert(shown.drop_last() =~= half);
        assert(half.last() == title.last());
        reveal_with_fuel(text::strip_end, 2);
        assert(text::strip_end(shown, '"') == half);
        assert(half.skip(1) =~= title);
        reveal_with_fuel(text::strip_start, 2);
        assert(text::strip_start(half, '"') == title);
    }
    assert(text::trim(title) == title);
    assert(bare(line) == title);
    assert(seq![line][0] == line);
    assert(first_bare(seq![line]) == title);
}

/// Without a reply the title is the first forty characters of what the user said first.
pub proof fn the_first_word_of_the_user_is_the_title(l: Seq<(Seq<char>, Seq<char>)>, i: int)
    requires
        0 <= i < l.len(),
        l[i].0 == "user"@,
        forall|j: int| 0 <= j < i ==> (#[trigger] l[j]).0 != "user"@,
    ensures
        title_without(l) == (if l[i].1.len() <= 40 {
            l[i].1
        } else {
            l[i].1.take(40)
        }),
    decreases l.len(),
{
    if i > 0 {
        assert(l[0].0 != "user"@);
        assert forall|j: int| 0 <= j < i - 1 implies (#[trigger] l.skip(1)[j]).0 != "user"@ by {
            assert(l.skip(1)[j] == l[j + 1]);
        }
        the_first_word_of_the_user_is_the_title(l.skip(1), i - 1);
    }
}

/// A title is asked for with everything that was said first, up to 120 characters each.
pub proof fn a_title_is_asked_for(l: Seq<(Seq<char>, Seq<char>)>, i: int)
    requires
        0 <= i < l.len(),
    ensures
        text::occurs(
            title_request(l),
            l[i].0 + ": "@ + (if l[i].1.len() <= 120 {
                l[i].1
            } else {
                l[i].1.take(120)
            }),
        ),
        text::ends(title_request(l), "\n\nTitle:"@),
{
    let parts = l.map_values(
        |m: (Seq<char>, Seq<char>)| crate::ipc::handlers::conversations::title_line(m),
    );
    crate::laws::parts::joined_parts_occur(parts, "\n"@, i);
    let head = "Summarise this conversation in ≤6 words (title case, no punctuation):\n\n"@;
    crate::laws::parts::occurs_within(head, text::join(parts, "\n"@), "\n\nTitle:"@, parts[i]);
    let t = title_request(l);
    let tail = "\n\nTitle:"@;
    assert(t.subrange(t.len() - tail.len(), t.len() as int) =~= tail);
}

// ---------------------------------------------------------------------------
// Plugins, tasks, the local model
// ---------------------------------------------------------------------------

/// A plugin is told with all that is known of it; one that was found on the web and is
/// known is told as it is known, and one is told to run if it does.
pub proof fn plugins_are_told(
    found: Seq<Plugin>,
    known: Seq<Option<Plugin>>,
    running: Seq<Seq<char>>,
    i: int,
)
    requires
        0 <= i < found.len() == known.len(),
    ensures
        found_infos(found, known).len() == found.len(),
        known[i] matches Some(p) ==> found_infos(found, known)[i].id == p.id && found_infos(
            found,
            known,
        )[i].status == p.status && found_infos(found, known)[i].enabled == p.enabled,
        known[i] is None ==> found_infos(found, known)[i].id == found[i].id && found_infos(
            found,
            known,
        )[i].name == found[i].name && found_infos(found, known)[i].status == found[i].status,
        listed_infos(found, running).len() == found.len(),
        ({
            let p = found[i];
            let f = listed_infos(found, running)[i];
            &&& f.id == p.id && f.name == p.name && f.description == p.description && f.plugin_type
                == p.plugin_type && f.repo_url == p.repo_url && f.owner == p.owner && f.repo
                == p.repo && f.stars == p.stars && f.entry_point == p.entry_point && f.install_path
                == p.install_path && f.status == p.status && f.enabled == p.enabled
            &&& f.running <==> running.contains(p.id@)
        }),
{
}

/// The owner and the name of a repository are the two halves of the id of a plugin.
pub proof fn an_id_has_two_halves(owner: Seq<char>, repo: Seq<char>)
    requires
        forall|i: int| 0 <= i < owner.len() ==> #[trigger] owner[i] != '/',
    ensures
        id_owner(owner.push('/') + repo) == owner,
        id_repo(owner.push('/') + repo) == repo,
        id_owner(owner) == owner,
        id_repo(owner).len() == 0,
{
    let id = owner.push('/') + repo;
    text::index_of_bounds(id, '/');
    text::index_of_bounds(owner, '/');
    let n = text::index_of(id, '/') as int;
    assert(id[owner.len() as int] == '/');
    if n < owner.len() {
        assert(id[n] == owner[n]);
    }
    assert(n == owner.len());
    assert(id.take(n) =~= owner);
    assert(id.skip(n + 1) =~= repo);
    let m = text::index_of(owner, '/') as int;
    assert(m == owner.len());
    assert(owner.take(m) =~= owner);
}

/// A plugin that is not known can be installed if it is offered with a name and an
/// address; a known one is installed as it is.
pub proof fn offered_plugins_are_installed(
    id: &str,
    plugin_id: &str,
    known: Option<Plugin>,
    offer: Offer,
    available: &str,
    r: Install,
)
    requires
        call_ensures(handle_install_plugin, (id, plugin_id, known, offer, available), r),
    ensures
        r.plugin is Some <==> known is Some || (offer.repo_url is Some && offer.name is Some),
        r.register <==> known is None && offer.repo_url is Some && offer.name is Some,
        known matches Some(k) ==> r.plugin == Some(k),
        known is None ==> (r.plugin matches Some(p) ==> p.id@ == plugin_id@ && p.name@
            == offer.name->0@ && p.repo_url@ == offer.repo_url->0@ && p.description
            == offer.description && p.status@ == available@ && !p.enabled && (offer.plugin_type is None
            ==> p.plugin_type@ == "mcp"@) && (offer.plugin_type matches Some(t) ==> p.plugin_type@
            == t@) && (offer.stars matches Some(n) ==> p.stars == n)),
        r.response matches IPCResponse::PluginAction { success, plugin_id: i, .. } && i@
            == plugin_id@ && (success <==> r.plugin is Some),
{
}

/// A server is started where it is known how; where it is not, it is found out first.
pub proof fn servers_are_started(
    id: &str,
    plugin_id: &str,
    known: &Option<Plugin>,
    r: StartMcp,
    path: &str,
    detected: &Option<String>,
    config: &Option<String>,
    s: StartMcp,
)
    ensures
        call_ensures(handle_start_mcp, (id, plugin_id, known), r) ==> (*known matches Some(p) ==> (
        p.install_path matches Some(d) ==> (p.entry_point matches Some(e) ==> (
        r matches StartMcp::Start { install_path, entry_point, config_json } && install_path == d
            && entry_point == e && config_json == p.config_json)) && (p.entry_point is None ==> (
        r matches StartMcp::Detect { install_path } && install_path == d))) && (p.install_path is None
            ==> r is Answer)) && (*known is None ==> r is Answer),
        call_ensures(on_detected, (id, plugin_id, path, detected, config), s) ==> (
        *detected matches Some(e) ==> (s matches StartMcp::Start {
            install_path,
            entry_point,
            config_json,
        } && install_path@ == path@ && entry_point == e && config_json == *config)) && (
        *detected is None ==> s is Answer),
{
}

/// Plugins are switched and removed only where they are known.
pub proof fn only_known_plugins_change(
    id: &str,
    plugin_id: &str,
    known: bool,
    enabled: bool,
    name: &Option<String>,
    a: IPCResponse,
)
    ensures
        call_ensures(handle_set_plugin_enabled, (id, plugin_id, known, enabled), a) ==> (
        a matches IPCResponse::PluginAction { success, message, plugin_id: p, .. } && p@
            == plugin_id@ && success == known && (known && enabled ==> message@ == "Plugin enabled"@)
            && (known && !enabled ==> message@ == "Plugin disabled"@)),
        call_ensures(handle_uninstall_plugin, (id, plugin_id, name), a) ==> (
        a matches IPCResponse::PluginAction { success, plugin_id: p, .. } && p@ == plugin_id@
            && success == (*name is Some)),
{
    reveal_strlit("Plugin ");
    reveal_strlit("enabled");
    reveal_strlit("disabled");
    reveal_strlit("Plugin enabled");
    reveal_strlit("Plugin disabled");
    assert("Plugin "@ + "enabled"@ =~= "Plugin enabled"@);
    assert("Plugin "@ + "disabled"@ =~= "Plugin disabled"@);
}

/// The local model is told to be up only where it answers, with the model in use or
/// with what went wrong.
pub proof fn a_launch_succeeds_only_where_the_model_is_up(
    id: &str,
    model: &str,
    outcome: &Result<Launch, String>,
    r: IPCResponse,
)
    requires
        call_ensures(handle_launch_gemma, (id, model, outcome), r),
    ensures
        r matches IPCResponse::GemmaLaunched { id: i, success, message } && i@ == id@ && (success
            <==> *outcome == Ok::<Launch, String>(Launch::Up)) && (success ==> text::ends(
            message@,
            model@,
        )) && (*outcome matches Err(e) ==> text::ends(message@, e@)),
{
    if let IPCResponse::GemmaLaunched { message, .. } = r {
        let m = message@;
        if *outcome == Ok::<Launch, String>(Launch::Up) {
            assert(m.subrange(m.len() - model@.len(), m.len() as int) =~= model@);
        }
        if let Err(e) = *outcome {
            assert(m.subrange(m.len() - e@.len(), m.len() as int) =~= e@);
        }
    }
}

/// Of the settings what is asked for is changed, and what is left blank stays; a new
/// key serves for embeddings too where these have none.
pub proof fn only_what_is_asked_changes(
    c: LLMConfigV,
    base_url: Seq<char>,
    api_key: Seq<char>,
    model: Seq<char>,
)
    ensures
        ({
            let n = changed(c, base_url, api_key, model);
            &&& text::blank(base_url) ==> n.base_url == c.base_url
            &&& !text::blank(base_url) ==> n.base_url == base_url
            &&& text::blank(api_key) ==> n.api_key == c.api_key && n.embedding_api_key
                == c.embedding_api_key
            &&& !text::blank(api_key) ==> n.api_key == api_key
            &&& !text::blank(api_key) && text::blank(c.embedding_api_key) ==> n.embedding_api_key
                == api_key
            &&& !text::blank(c.embedding_api_key) ==> n.embedding_api_key == c.embedding_api_key
            &&& text::blank(model) ==> n.model == c.model
            &&& !text::blank(model) ==> n.model == model
            &&& n.max_tokens == c.max_tokens && n.temperature == c.temperature
                && n.embedding_base_url == c.embedding_base_url && n.embedding_model
                == c.embedding_model && n.embedding_provider == c.embedding_provider
        }),
{
}

/// A task is kept for later only where it has a name, a time and a prompt; it is told
/// when it runs, or why not.
pub proof fn tasks_need_a_name_a_time_and_a_prompt(
    id: &str,
    name: &str,
    cadence: &str,
    prompt: &str,
    outcome: &TaskOutcome,
    r: IPCResponse,
    refused: Option<IPCResponse>,
    channel: &Option<String>,
    c: String,
)
    ensures
        call_ensures(handle_create_scheduled_task, (id, name, cadence, prompt, outcome), r) ==> ({
            let said = !text::blank(name@) && !text::blank(cadence@) && !text::blank(prompt@);
            r matches IPCResponse::ScheduledTaskAction { success, task_id, message, .. } && (success
                <==> said && *outcome is Kept) && (said ==> (*outcome matches TaskOutcome::Kept {
                task_id: t,
                next_run,
            } ==> task_id@ == t@ && message@ == "scheduled '"@ + name@ + "' - next run at "@
                + next_run@))
        }),
        call_ensures(task_refused, (id, name, cadence, prompt), refused) ==> (refused is Some
            <==> text::blank(name@) || text::blank(cadence@) || text::blank(prompt@)),
        call_ensures(task_channel, (channel,), c) ==> (*channel matches Some(x) ==> c@ == x@) && (
        *channel is None ==> c@ == "notification"@),
{
}

// ---------------------------------------------------------------------------
// Proposals
// ---------------------------------------------------------------------------

/// Proposed calls are carried out only where the user approves of them, and all of them.
pub proof fn nothing_is_done_without_approval(
    before: PendingTools,
    id: Seq<char>,
    conv: Seq<char>,
    approved: bool,
    after: PendingTools,
    r: Approval,
)
    requires
        decides(before, id, conv, approved, after, r),
    ensures
        !approved ==> r is Answer,
        approved && before.calls@.contains_key(conv) ==> (r matches Approval::Carry { calls } && calls
            == before.calls@[conv]),
        approved && !before.calls@.contains_key(conv) ==> r is Answer,
        !after.calls@.contains_key(conv),
        forall|c: Seq<char>|
            c != conv && before.calls@.contains_key(c) ==> #[trigger] after.calls@.contains_key(c)
                && after.calls@[c] == before.calls@[c],
{
}

/// An approved call does what its arguments say, and to the file that they name.
pub proof fn approved_calls_do_what_they_say(
    call: PendingEditDiff,
    step: Step,
    path: Seq<char>,
    content: Seq<char>,
    command: Seq<char>,
)
    requires
        is_step(call, step),
        says(call.args@, "path"@, path),
        says(call.args@, "content"@, content),
        says(call.args@, "command"@, command),
    ensures
        call.tool_name@ == "code_edit"@ && (says(call.args@, "action"@, "search_replace"@) || says(
            call.args@,
            "action"@,
            "append"@,
        )) ==> (step matches Step::Rewrite { path: p } && p@ == path),
        call.tool_name@ == "code_edit"@ && says(call.args@, "action"@, "create"@) ==> (
        step matches Step::Create { path: p, content: c } && p@ == path && c@ == content),
        call.tool_name@ == "terminal_execute"@ || call.tool_name@ == "execute_command"@ ==> (
        step matches Step::Run { command: c } && c@ == command),
        call.tool_name@ != "code_edit"@ && call.tool_name@ != "terminal_execute"@ && call.tool_name@
            != "execute_command"@ ==> step is Nothing,
{
    let a = call.args@;
    members_are_found_by_name(a, "path"@);
    members_are_found_by_name(a, "content"@);
    members_are_found_by_name(a, "command"@);
    members_are_found_by_name(a, "action"@);
    assert(has_member(a, "path"@, JsonV::Text(path)));
    assert(has_member(a, "content"@, JsonV::Text(content)));
    assert(has_member(a, "command"@, JsonV::Text(command)));
    reveal_strlit("search_replace");
    reveal_strlit("append");
    reveal_strlit("create");
    reveal_strlit("code_edit");
    reveal_strlit("terminal_execute");
    reveal_strlit("execute_command");
    assert("search_replace"@.len() == 14 && "append"@.len() == 6 && "create"@.len() == 6);
    assert("append"@[0] == 'a' && "create"@[0] == 'c');
    assert("code_edit"@.len() == 9 && "terminal_execute"@.len() == 16 && "execute_command"@.len()
        == 15);
    if says(a, "action"@, "search_replace"@) {
        assert(has_member(a, "action"@, JsonV::Text("search_replace"@)));
    }
    if says(a, "action"@, "append"@) {
        assert(has_member(a, "action"@, JsonV::Text("append"@)));
    }
    if says(a, "action"@, "create"@) {
        assert(has_member(a, "action"@, JsonV::Text("create"@)));
    }
}

/// What came of an approved edit is told with its path.
pub proof fn approved_edits_are_told(path: Seq<char>, e: String)
    ensures
        edit_result("search_replace"@, path, FileOutcome::Written) == "Applied edit to "@ + path,
        edit_result("append"@, path, FileOutcome::Written) == "Appended to "@ + path,
        edit_result("create"@, path, FileOutcome::Written) == "Created "@ + path,
        edit_result("append"@, path, (FileOutcome::NotRead { error: e })) == "Error reading "@ + path
            + ": "@ + e@,
        edit_result("append"@, path, (FileOutcome::NotWritten { error: e })) == "Error writing "@
            + path + ": "@ + e@,
        edit_result("create"@, path, (FileOutcome::NotWritten { error: e })) == "Error creating "@
            + path + ": "@ + e@,
{
    reveal_strlit("search_replace");
    reveal_strlit("append");
    reveal_strlit("create");
    assert("search_replace"@.len() == 14 && "append"@.len() == 6 && "create"@.len() == 6);
    assert("append"@[0] == 'a' && "create"@[0] == 'c');
}

proof fn notes_up_to(results: Seq<JsonV>, query: Seq<char>, conv: Option<Seq<char>>, n: nat)
    requires
        n <= results.len(),
    ensures
        forall|i: int|
            0 <= i < n && web_note(#[trigger] results[i], query, conv).title.len() > 0
                ==> web_notes_of(results, query, conv, n).contains(
                web_note(results[i], query, conv),
            ),
        web_notes_of(results, query, conv, n).len() <= n,
    decreases n,
{
    if n > 0 {
        let m = (n - 1) as nat;
        notes_up_to(results, query, conv, m);
        let a = web_notes_of(results, query, conv, m);
        let b = web_notes_of(results, query, conv, n);
        assert forall|i: int|
            0 <= i < n && web_note(#[trigger] results[i], query, conv).title.len() > 0 implies b.contains(
        web_note(results[i], query, conv)) by {
            let x = web_note(results[i], query, conv);
            if i < m {
                assert(a.contains(x));
                let k = choose|k: int| 0 <= k < a.len() && a[k] == x;
                assert(b[k] == x);
            } else {
                assert(b[b.len() - 1] == x);
            }
        }
    }
}

/// The first results of a search of the web with a title are remembered, with their
/// address and the first two hundred characters of what they say.
pub proof fn web_results_are_remembered(
    results: Seq<JsonV>,
    query: Seq<char>,
    conv: Option<Seq<char>>,
    n: nat,
    i: int,
    title: Seq<char>,
    url: Seq<char>,
    snippet: Seq<char>,
)
    requires
        0 <= i < n <= results.len(),
        says(results[i], "title"@, title),
        says(results[i], "url"@, url),
        says(results[i], "snippet"@, snippet),
        title.len() > 0,
    ensures
        ({
            let w = web_note(results[i], query, conv);
            &&& web_notes_of(results, query, conv, n).contains(w)
            &&& w.title == title
            &&& w.summary == (if snippet.len() <= 200 {
                snippet
            } else {
                snippet.take(200)
            })
            &&& notes(w.meta, "url"@, JsonV::Text(url))
            &&& notes(w.meta, "source"@, JsonV::Text("web_search"@))
            &&& conv matches Some(c) ==> notes(w.meta, "conversation_id"@, JsonV::Text(c))
        }),
{
    members_are_found_by_name(results[i], "title"@);
    members_are_found_by_name(results[i], "url"@);
    members_are_found_by_name(results[i], "snippet"@);
    assert(has_member(results[i], "title"@, JsonV::Text(title)));
    assert(has_member(results[i], "url"@, JsonV::Text(url)));
    assert(has_member(results[i], "snippet"@, JsonV::Text(snippet)));
    notes_up_to(results, query, conv, n);
    let m = web_note(results[i], query, conv).meta->Object_0;
    assert(m.contains(m[0]) && m.contains(m[1]));
    if conv is Some {
        assert(m.contains(m[2]));
    }
}

/// A file that the user reads is remembered with the first two hundred characters of it.
pub proof fn a_read_file_is_remembered(
    content: &str,
    conv: &Option<String>,
    r: (Json, String),
)
    requires
        call_ensures(read_note, (content, conv), r),
    ensures
        r.1@ == (if content@.len() <= 200 {
            content@
        } else {
            content@.take(200)
        }),
        notes(r.0@, "source"@, JsonV::Text("file_read"@)),
        *conv matches Some(c) ==> notes(r.0@, "conversation_id"@, JsonV::Text(c@)),
{
    let m = r.0@->Object_0;
    assert(m[0] == ("source"@, JsonV::Text("file_read"@)));
    assert(m.contains(m[0]));
    if *conv is Some {
        assert(m.contains(m[1]));
    }
}

// ---------------------------------------------------------------------------
// Pages and windows
// ---------------------------------------------------------------------------

/// A page is kept with its address, its title, its first lines and its first twelve
/// hundred characters.
pub proof fn a_page_is_kept(url: &str, title: &str, content: &str, r: PageEntry)
    requires
        call_ensures(BrowserIndexer::<()>::index_url, (url, title, content), r),
    ensures
        notes(r.metadata@, "url"@, JsonV::Text(url@)),
        r.structure@ == "URL: "@ + url@ + "\nTitle: "@ + title@,
        r.summary_text@ == url@ + " "@ + title@ + " "@ + r.summary@,
        text::views(r.tags@) == seq!["web"@, "browser"@],
        content@.len() > 0 ==> (r.excerpt matches Some(e) && e@ == (if content@.len() <= 1200 {
            content@
        } else {
            content@.take(1200)
        })),
        content@.len() == 0 ==> r.excerpt is None,
{
    let m = r.metadata@->Object_0;
    assert(m.contains(m[0]));
}

/// A window is kept with its title and what was told of it.
pub proof fn a_window_is_kept(title: &str, told: &str, r: WindowEntry)
    requires
        call_ensures(UiIndexer::<()>::index_ui_state, (title, told), r),
    ensures
        notes(r.metadata@, "window_title"@, JsonV::Text(title@)),
        notes(r.snapshot@, "title"@, JsonV::Text(title@)),
        notes(r.snapshot@, "info"@, JsonV::Text(told@)),
        text::ends(r.summary@, title@),
{
    let m = r.metadata@->Object_0;
    let s = r.snapshot@->Object_0;
    assert(m.contains(m[0]));
    assert(s.contains(s[0]) && s.contains(s[1]));
    assert(r.summary@.subrange(r.summary@.len() - title@.len(), r.summary@.len() as int)
        =~= title@);
}

} // verus!
