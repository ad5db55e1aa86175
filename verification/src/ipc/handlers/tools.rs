//! Requests on files, the web and the browser, and the approval of proposed
//! calls.

use crate::ipc::handlers::chat::execute::{arg_or, arg_text_or};
use crate::ipc::handlers::chat::modes::{arg, arg_text, simulate_edit, simulates};
use crate::ipc::protocol::{error, is_error, IPCResponse, PendingEditDiff};
use crate::json::{json_views, Json, JsonV};
use crate::llm::types::text_view;
use crate::strmap::StrMap;
use crate::text;
use vstd::prelude::*;

verus! {

// ---------------------------------------------------------------------------
// Files and the web
// ---------------------------------------------------------------------------

/// How many characters of what was read are kept as its summary.
pub const SUMMARY_CHARS: usize = 200;

/// How many results of a search of the web are remembered.
pub const WEB_NOTES: usize = 3;

/// The answer to a reading of a file.
pub fn handle_read_file(id: &str, path: &str, outcome: Result<String, String>) -> (r: Result<
    IPCResponse,
    String,
>)
    ensures
        match outcome {
            Ok(content) => r matches Ok(a) && (a matches IPCResponse::FileContent {
                id: i,
                path: p,
                content: c,
            } && i@ == id@ && p@ == path@ && c == content),
            Err(e) => r == Err::<IPCResponse, String>(e),
        },
{
    match outcome {
        Ok(content) => Ok(
            IPCResponse::FileContent { id: id.to_owned(), path: path.to_owned(), content },
        ),
        Err(e) => Err(e),
    }
}

/// What is noted of something that was read: the given members, and the
/// conversation it was read in.
pub open spec fn source_meta(
    members: Seq<(Seq<char>, JsonV)>,
    conversation_id: Option<Seq<char>>,
) -> JsonV {
    JsonV::Object(
        match conversation_id {
            Some(c) => members.push(("conversation_id"@, JsonV::Text(c))),
            None => members,
        },
    )
}

fn add_conversation(meta: &mut Vec<(String, Json)>, conversation_id: &Option<String>)
    ensures
        Json::Object(*final(meta))@ == source_meta(
            Json::Object(*old(meta))@->Object_0,
            text_view(*conversation_id),
        ),
{
    proof {
        reveal_with_fuel(Json::model, 3);
    }
    if let Some(c) = conversation_id {
        meta.push(("conversation_id".to_owned(), Json::Text(c.clone())));
    }
    assert(Json::Object(*meta)@->Object_0 =~= source_meta(
        Json::Object(*old(meta))@->Object_0,
        text_view(*conversation_id),
    )->Object_0);
}

/// How a file that was read is remembered: what is noted of it, and the start
/// of it as a summary.
pub fn read_note(content: &str, conversation_id: &Option<String>) -> (r: (Json, String))
    ensures
        r.0@ == source_meta(
            seq![("source"@, JsonV::Text("file_read"@))],
            text_view(*conversation_id),
        ),
        r.1@ == text::head(content@, SUMMARY_CHARS as nat),
{
    let mut meta = vec![("source".to_owned(), Json::Text("file_read".to_owned()))];
    proof {
        reveal_with_fuel(Json::model, 3);
        assert(Json::Object(meta)@->Object_0 =~= seq![("source"@, JsonV::Text("file_read"@))]);
    }
    add_conversation(&mut meta, conversation_id);
    (Json::Object(meta), text::take_chars(content, SUMMARY_CHARS))
}

/// The answer to a writing of a file.
pub fn handle_write_file(id: &str, path: &str, outcome: Result<(), String>) -> (r: Result<
    IPCResponse,
    String,
>)
    ensures
        match outcome {
            Ok(_) => r matches Ok(a) && (a matches IPCResponse::FileWritten {
                id: i,
                path: p,
                success: s,
            } && i@ == id@ && p@ == path@ && s),
            Err(e) => r == Err::<IPCResponse, String>(e),
        },
{
    match outcome {
        Ok(_) => Ok(
            IPCResponse::FileWritten { id: id.to_owned(), path: path.to_owned(), success: true },
        ),
        Err(e) => Err(e),
    }
}

/// The answer to a search of the web.
pub fn handle_web_search(id: &str, outcome: Result<Vec<Json>, String>) -> (r: Result<
    IPCResponse,
    String,
>)
    ensures
        match outcome {
            Ok(results) => r matches Ok(a) && (
                a matches IPCResponse::WebSearchResults { id: i, results: res }
                    && i@ == id@ && res == results),
            Err(e) => r == Err::<IPCResponse, String>(e),
        },
{
    match outcome {
        Ok(results) => Ok(IPCResponse::WebSearchResults { id: id.to_owned(), results }),
        Err(e) => Err(e),
    }
}

/// A page that is remembered.
#[derive(Debug)]
pub struct WebNote {
    pub title: String,
    pub meta: Json,
    pub summary: String,
}

/// The model of a page that is remembered.
#[verifier::ext_equal]
pub struct WebNoteV {
    pub title: Seq<char>,
    pub meta: JsonV,
    pub summary: Seq<char>,
}

impl View for WebNote {
    type V = WebNoteV;

    open spec fn view(&self) -> WebNoteV {
        WebNoteV { title: self.title@, meta: self.meta@, summary: self.summary@ }
    }
}

/// The models of a list of pages.
pub open spec fn note_views(l: Seq<WebNote>) -> Seq<WebNoteV> {
    l.map_values(|n: WebNote| n@)
}

/// The page that a result of a search stands for.
pub open spec fn web_note(
    result: JsonV,
    query: Seq<char>,
    conversation_id: Option<Seq<char>>,
) -> WebNoteV {
    WebNoteV {
        title: arg_or(result, "title"@, query),
        meta: source_meta(
            seq![
                ("url"@, JsonV::Text(arg(result, "url"@))),
                ("source"@, JsonV::Text("web_search"@)),
            ],
            conversation_id,
        ),
        summary: text::head(arg(result, "snippet"@), SUMMARY_CHARS as nat),
    }
}

/// The pages among the first `n` results that are remembered: those with a
/// title.
pub open spec fn web_notes_of(
    results: Seq<JsonV>,
    query: Seq<char>,
    conversation_id: Option<Seq<char>>,
    n: nat,
) -> Seq<WebNoteV>
    decreases n,
{
    if n == 0 {
        Seq::empty()
    } else {
        let before = web_notes_of(results, query, conversation_id, (n - 1) as nat);
        let note = web_note(results[n - 1], query, conversation_id);
        if note.title.len() == 0 {
            before
        } else {
            before.push(note)
        }
    }
}

fn make_web_note(result: &Json, query: &str, conversation_id: &Option<String>) -> (r: WebNote)
    ensures
        r@ == web_note(result@, query@, text_view(*conversation_id)),
{
    let title = arg_text_or(result, "title", query);
    let url = arg_text(result, "url");
    let mut meta = vec![
        ("url".to_owned(), Json::Text(url)),
        ("source".to_owned(), Json::Text("web_search".to_owned())),
    ];
    proof {
        reveal_with_fuel(Json::model, 3);
        assert(Json::Object(meta)@->Object_0 =~= seq![
            ("url"@, JsonV::Text(arg(result@, "url"@))),
            ("source"@, JsonV::Text("web_search"@)),
        ]);
    }
    add_conversation(&mut meta, conversation_id);
    WebNote {
        title,
        meta: Json::Object(meta),
        summary: text::take_chars(&arg_text(result, "snippet"), SUMMARY_CHARS),
    }
}

/// The pages that are remembered of a search: the first three results, without
/// those that have no title.
pub fn web_notes(results: &Vec<Json>, query: &str, conversation_id: &Option<String>) -> (r: Vec<
    WebNote,
>)
    ensures
        note_views(r@) == web_notes_of(
            json_views(results@),
            query@,
            text_view(*conversation_id),
            if results@.len() < WEB_NOTES {
                results@.len()
            } else {
                WEB_NOTES as nat
            },
        ),
{
    let n: usize = if results.len() < WEB_NOTES {
        results.len()
    } else {
        WEB_NOTES
    };
    let ghost all = json_views(results@);
    let ghost conv = text_view(*conversation_id);
    let mut out: Vec<WebNote> = Vec::new();
    assert(note_views(out@) =~= Seq::empty());
    for i in 0..n
        invariant
            n <= results@.len(),
            all == json_views(results@),
            conv == text_view(*conversation_id),
            note_views(out@) == web_notes_of(all, query@, conv, i as nat),
    {
        assert(all[i as int] == results@[i as int]@);
        let note = make_web_note(&results[i], query, conversation_id);
        if !note.title.as_str().is_empty() {
            let ghost before = out@;
            out.push(note);
            assert(note_views(out@) =~= note_views(before).push(note@));
        }
    }
    out
}

// ---------------------------------------------------------------------------
// The browser
// ---------------------------------------------------------------------------

/// The answer to a start of the browser.
pub fn handle_spawn_browser(id: &str, outcome: Result<String, String>) -> (r: Result<
    IPCResponse,
    String,
>)
    ensures
        match outcome {
            Ok(debugging_url) => r matches Ok(a) && (
                a matches IPCResponse::SpawnBrowserResult { id: i, debugging_url: du }
                    && i@ == id@ && du == debugging_url),
            Err(e) => r == Err::<IPCResponse, String>(e),
        },
{
    match outcome {
        Ok(debugging_url) => Ok(IPCResponse::SpawnBrowserResult { id: id.to_owned(), debugging_url }),
        Err(e) => Err(e),
    }
}

/// The answer to a start of the browser that is driven.
pub fn handle_spawn_cdp_browser(id: &str, outcome: Result<String, String>) -> (r: Result<
    IPCResponse,
    String,
>)
    ensures
        match outcome {
            Ok(debugging_url) => r matches Ok(a) && (
                a matches IPCResponse::SpawnCdpBrowserResult { id: i, debugging_url: du }
                    && i@ == id@ && du == debugging_url),
            Err(e) => r == Err::<IPCResponse, String>(e),
        },
{
    match outcome {
        Ok(debugging_url) => Ok(
            IPCResponse::SpawnCdpBrowserResult { id: id.to_owned(), debugging_url },
        ),
        Err(e) => Err(e),
    }
}

/// The answer to a move to a page.
pub fn handle_cdp_navigate(id: &str, outcome: Result<String, String>) -> (r: Result<
    IPCResponse,
    String,
>)
    ensures
        match outcome {
            Ok(content) => r matches Ok(a) && (
                a matches IPCResponse::CdpNavigateResult { id: i, content: c }
                    && i@ == id@ && c == content),
            Err(e) => r == Err::<IPCResponse, String>(e),
        },
{
    match outcome {
        Ok(content) => Ok(IPCResponse::CdpNavigateResult { id: id.to_owned(), content }),
        Err(e) => Err(e),
    }
}

/// The answer to something that was done in the browser: whether it worked, and
/// a text with it.
pub open spec fn is_browser_action(
    r: IPCResponse,
    id: Seq<char>,
    success: bool,
    details: Option<Seq<char>>,
) -> bool {
    r matches IPCResponse::CdpActionResult { id: i, success: s, details: d } && i@ == id && s
        == success && (match details {
        Some(t) => d matches Some(j) && j@ == JsonV::Text(t),
        None => d is None,
    })
}

fn browser_action(id: &str, success: bool, details: Option<String>) -> (r: IPCResponse)
    ensures
        is_browser_action(r, id@, success, text_view(details)),
{
    proof {
        reveal_with_fuel(Json::model, 2);
    }
    IPCResponse::CdpActionResult {
        id: id.to_owned(),
        success,
        details: match details {
            Some(t) => Some(Json::Text(t)),
            None => None,
        },
    }
}

/// The answer to a click in the browser.
pub fn handle_cdp_click(id: &str, outcome: Result<(), String>) -> (r: IPCResponse)
    ensures
        match outcome {
            Ok(_) => is_browser_action(r, id@, true, None),
            Err(e) => is_browser_action(r, id@, false, Some(e@)),
        },
{
    match outcome {
        Ok(_) => browser_action(id, true, None),
        Err(e) => browser_action(id, false, Some(e)),
    }
}

/// The answer to a typing in the browser.
pub fn handle_cdp_type(id: &str, outcome: Result<(), String>) -> (r: IPCResponse)
    ensures
        match outcome {
            Ok(_) => is_browser_action(r, id@, true, None),
            Err(e) => is_browser_action(r, id@, false, Some(e@)),
        },
{
    match outcome {
        Ok(_) => browser_action(id, true, None),
        Err(e) => browser_action(id, false, Some(e)),
    }
}

/// The answer to a script in the browser: what it gave, or why it failed.
pub fn handle_cdp_evaluate(id: &str, outcome: Result<String, String>) -> (r: IPCResponse)
    ensures
        match outcome {
            Ok(t) => is_browser_action(r, id@, true, Some(t@)),
            Err(e) => is_browser_action(r, id@, false, Some(e@)),
        },
{
    match outcome {
        Ok(t) => browser_action(id, true, Some(t)),
        Err(e) => browser_action(id, false, Some(e)),
    }
}

/// The answer to a picture of the browser.
pub fn handle_screenshot(id: &str, outcome: Result<String, String>) -> (r: IPCResponse)
    ensures
        match outcome {
            Ok(b) => r matches IPCResponse::ScreenshotResult { id: i, image_base64: p } && i@
                == id@ && p == b,
            Err(e) => is_error(r, id@, e@),
        },
{
    match outcome {
        Ok(image_base64) => IPCResponse::ScreenshotResult { id: id.to_owned(), image_base64 },
        Err(e) => error(id, e),
    }
}

/// The answer to an end of the browser, whatever became of it.
pub fn handle_kill_browser(id: &str) -> (r: IPCResponse)
    ensures
        is_browser_action(r, id@, true, None),
{
    browser_action(id, true, None)
}

/// The answer to a question for where the browser can be reached: the one that
/// is driven, or else the other.
pub fn handle_browser_debugging_url(
    id: &str,
    driven: Option<String>,
    other: Option<String>,
) -> (r: IPCResponse)
    ensures
        r matches IPCResponse::BrowserDebuggingUrl { id: i, url: u } && i@ == id@ && u == (
        if driven is Some {
            driven
        } else {
            other
        }),
{
    let url = if driven.is_some() {
        driven
    } else {
        other
    };
    IPCResponse::BrowserDebuggingUrl { id: id.to_owned(), url }
}

// ---------------------------------------------------------------------------
// Skills and previews
// ---------------------------------------------------------------------------

/// The answer to a skill that was carried out.
pub fn handle_execute_skill(id: &str, outcome: Result<Json, String>) -> (r: Result<
    IPCResponse,
    String,
>)
    ensures
        match outcome {
            Ok(result) => r matches Ok(a) && (
                a matches IPCResponse::SkillExecuted { id: i, result: res }
                    && i@ == id@ && res == result),
            Err(e) => r == Err::<IPCResponse, String>(e),
        },
{
    match outcome {
        Ok(result) => Ok(IPCResponse::SkillExecuted { id: id.to_owned(), result }),
        Err(e) => Err(e),
    }
}

/// The answer to a question for the skills.
pub fn handle_list_skills(id: &str, skills: Vec<Json>) -> (r: IPCResponse)
    ensures
        r matches IPCResponse::SkillsList { id: i, skills: s }
            && i@ == id@ && s == skills,
{
    IPCResponse::SkillsList { id: id.to_owned(), skills }
}

/// The answer to a question for the previews: there are none.
pub fn handle_get_previews(id: &str) -> (r: IPCResponse)
    ensures
        r matches IPCResponse::Previews { id: i, previews: p }
            && i@ == id@ && p@.len() == 0,
{
    IPCResponse::Previews { id: id.to_owned(), previews: Vec::new() }
}

/// The name of the file that holds a preview.
pub fn preview_file(name: &str) -> (r: String)
    ensures
        r@ == name@ + ".html"@,
{
    let mut f = name.to_owned();
    f.append(".html");
    f
}

/// The answer to a new preview, with the path of its file.
pub fn handle_create_preview(id: &str, name: &str, outcome: Result<String, String>) -> (r: Result<
    IPCResponse,
    String,
>)
    ensures
        match outcome {
            Ok(path) => r matches Ok(a) && (a matches IPCResponse::PreviewCreated {
                id: i,
                name: n,
                path: p,
            } && i@ == id@ && n@ == name@ && p == path),
            Err(e) => r == Err::<IPCResponse, String>(e),
        },
{
    match outcome {
        Ok(path) => Ok(
            IPCResponse::PreviewCreated { id: id.to_owned(), name: name.to_owned(), path },
        ),
        Err(e) => Err(e),
    }
}

// ---------------------------------------------------------------------------
// Approval
// ---------------------------------------------------------------------------

/// The proposed calls that wait for approval, by conversation.
#[derive(Debug)]
pub struct PendingTools {
    pub calls: StrMap<Vec<PendingEditDiff>>,
}

/// A whole reply without calls, a context or a usage.
pub open spec fn is_reply(
    r: IPCResponse,
    id: Seq<char>,
    conversation_id: Seq<char>,
    content: Seq<char>,
) -> bool {
    r matches IPCResponse::Chat {
        id: i,
        conversation_id: c,
        content: t,
        tool_calls,
        context_packet,
        usage,
    } && i@ == id && c@ == conversation_id && t@ == content && tool_calls is None
        && context_packet is None && usage is None
}

fn reply(id: &str, conversation_id: &str, content: String) -> (r: IPCResponse)
    ensures
        is_reply(r, id@, conversation_id@, content@),
{
    IPCResponse::Chat {
        id: id.to_owned(),
        conversation_id: conversation_id.to_owned(),
        content,
        tool_calls: None,
        context_packet: None,
        usage: None,
    }
}

/// What follows from a decision on the proposed calls of a conversation.
#[derive(Debug)]
pub enum Approval {
    /// The answer is known.
    Answer { response: IPCResponse },
    /// The calls are carried out, one after the other.
    Carry { calls: Vec<PendingEditDiff> },
}

/// A decision on the proposed calls of a conversation: they wait no longer, and
/// are carried out if it approves of them.
pub open spec fn decides(
    before: PendingTools,
    id: Seq<char>,
    conversation_id: Seq<char>,
    approved: bool,
    after: PendingTools,
    r: Approval,
) -> bool {
    &&& after.calls@ == before.calls@.remove(conversation_id)
    &&& if !approved {
        r matches Approval::Answer { response } && is_reply(
            response,
            id,
            conversation_id,
            "Changes rejected."@,
        )
    } else if before.calls@.contains_key(conversation_id) {
        r matches Approval::Carry { calls } && calls == before.calls@[conversation_id]
    } else {
        r matches Approval::Answer { response } && is_reply(
            response,
            id,
            conversation_id,
            "No pending changes found for this conversation."@,
        )
    }
}

/// Decides on the proposed calls of a conversation, which then wait no longer.
pub fn handle_approve_pending_tools(
    pending: &mut PendingTools,
    id: &str,
    conversation_id: &str,
    approved: bool,
) -> (r: Approval)
    ensures
        decides(*old(pending), id@, conversation_id@, approved, *final(pending), r),
{
    let waiting = pending.calls.remove(conversation_id);
    if !approved {
        return Approval::Answer {
            response: reply(id, conversation_id, "Changes rejected.".to_owned()),
        };
    }
    match waiting {
        Some(calls) => Approval::Carry { calls },
        None => Approval::Answer {
            response: reply(
                id,
                conversation_id,
                "No pending changes found for this conversation.".to_owned(),
            ),
        },
    }
}

/// What an approved call does.
#[derive(Debug)]
pub enum Step {
    /// A file is read, edited and written.
    Rewrite { path: String },
    /// A file is written, and its directory made where it is missing.
    Create { path: String, content: String },
    /// A command is run.
    Run { command: String },
    /// Nothing; the result is known.
    Nothing { result: String },
}

/// The call edits a file that is there.
pub open spec fn rewrites(call: PendingEditDiff) -> bool {
    let action = arg(call.args@, "action"@);
    call.tool_name@ == "code_edit"@ && (action == "search_replace"@ || action == "append"@)
}

/// What an approved call does.
pub open spec fn is_step(call: PendingEditDiff, step: Step) -> bool {
    let args = call.args@;
    let action = arg(args, "action"@);
    if call.tool_name@ == "code_edit"@ {
        if action == "search_replace"@ || action == "append"@ {
            step matches Step::Rewrite { path } && path@ == arg(args, "path"@)
        } else if action == "create"@ {
            step matches Step::Create { path, content } && path@ == arg(args, "path"@) && content@
                == arg(args, "content"@)
        } else {
            step matches Step::Nothing { result } && result@ == "Unknown code_edit action '"@
                + action + "' on "@ + arg(args, "path"@)
        }
    } else if call.tool_name@ == "terminal_execute"@ || call.tool_name@ == "execute_command"@ {
        step matches Step::Run { command } && command@ == arg(args, "command"@)
    } else {
        step matches Step::Nothing { result } && result@ == "Unsupported tool '"@ + call.tool_name@
            + "' in approval flow"@
    }
}

/// What an approved call does.
pub fn plan_step(call: &PendingEditDiff) -> (r: Step)
    ensures
        is_step(*call, r),
{
    if text::same(&call.tool_name, "code_edit") {
        let path = arg_text(&call.args, "path");
        let action = arg_text(&call.args, "action");
        if text::same(&action, "search_replace") || text::same(&action, "append") {
            return Step::Rewrite { path };
        }
        if text::same(&action, "create") {
            return Step::Create { path, content: arg_text(&call.args, "content") };
        }
        let mut result = "Unknown code_edit action '".to_owned();
        result.append(&action);
        result.append("' on ");
        result.append(&path);
        return Step::Nothing { result };
    }
    if text::same(&call.tool_name, "terminal_execute") || text::same(
        &call.tool_name,
        "execute_command",
    ) {
        return Step::Run { command: arg_text(&call.args, "command") };
    }
    let mut result = "Unsupported tool '".to_owned();
    result.append(&call.tool_name);
    result.append("' in approval flow");
    Step::Nothing { result }
}

/// What an approved edit makes of a file: what was shown when it was proposed.
pub fn approved_edit(call: &PendingEditDiff, original: &str) -> (r: String)
    requires
        rewrites(*call),
    ensures
        simulates(original@, call.args@, r@),
{
    simulate_edit(original, &call.args)
}

/// What came of the files of an approved edit.
#[derive(Debug)]
pub enum FileOutcome {
    NotRead { error: String },
    NotWritten { error: String },
    Written,
}

/// The result of an edit of a file.
pub open spec fn edit_result(
    action: Seq<char>,
    path: Seq<char>,
    outcome: FileOutcome,
) -> Seq<char> {
    match outcome {
        FileOutcome::NotRead { error } => "Error reading "@ + path + ": "@ + error@,
        FileOutcome::NotWritten { error } => (if action == "create"@ {
            "Error creating "@
        } else {
            "Error writing "@
        }) + path + ": "@ + error@,
        FileOutcome::Written => if action == "search_replace"@ {
            "Applied edit to "@ + path
        } else if action == "append"@ {
            "Appended to "@ + path
        } else {
            "Created "@ + path
        },
    }
}

/// The result of an approved edit of a file.
pub fn describe_edit(call: &PendingEditDiff, outcome: &FileOutcome) -> (r: String)
    ensures
        r@ == edit_result(arg(call.args@, "action"@), arg(call.args@, "path"@), *outcome),
{
    let action = arg_text(&call.args, "action");
    let path = arg_text(&call.args, "path");
    match outcome {
        FileOutcome::NotRead { error } => {
            let mut t = "Error reading ".to_owned();
            t.append(&path);
            t.append(": ");
            t.append(error);
            t
        },
        FileOutcome::NotWritten { error } => {
            let mut t = (if text::same(&action, "create") {
                "Error creating "
            } else {
                "Error writing "
            }).to_owned();
            t.append(&path);
            t.append(": ");
            t.append(error);
            t
        },
        FileOutcome::Written => {
            let mut t = (if text::same(&action, "search_replace") {
                "Applied edit to "
            } else if text::same(&action, "append") {
                "Appended to "
            } else {
                "Created "
            }).to_owned();
            t.append(&path);
            t
        },
    }
}

/// The answer to approved calls: their results, one on each line. It is also
/// what is kept of them in the conversation.
pub fn finish_approval(id: &str, conversation_id: &str, results: &Vec<String>) -> (r: IPCResponse)
    ensures
        is_reply(r, id@, conversation_id@, text::join(text::views(results@), "\n"@)),
{
    reply(id, conversation_id, text::joined(results, "\n"))
}

/// A decision on the proposed calls of a conversation can be made once: whatever
/// is decided next, nothing is carried out any more. What waits elsewhere is as it
/// was.
pub proof fn a_decision_is_final(
    before: PendingTools,
    first_id: Seq<char>,
    conversation_id: Seq<char>,
    first: bool,
    between: PendingTools,
    first_result: Approval,
    second_id: Seq<char>,
    second: bool,
    after: PendingTools,
    second_result: Approval,
)
    requires
        decides(before, first_id, conversation_id, first, between, first_result),
        decides(between, second_id, conversation_id, second, after, second_result),
    ensures
        first_result is Carry ==> first,
        second_result is Answer,
        after.calls@ == between.calls@,
        forall|other: Seq<char>|
            other != conversation_id ==> #[trigger] after.calls@.contains_key(other)
                == before.calls@.contains_key(other),
        forall|other: Seq<char>|
            other != conversation_id && before.calls@.contains_key(other)
                ==> #[trigger] after.calls@[other] == before.calls@[other],
{
    assert(after.calls@ =~= between.calls@);
}

} // verus!
