//! What the tools answer that do not work on files.

use crate::computer_use::context;
use crate::computer_use::context::{ActionLogV, ActionLogs, ActionRecord};
use crate::ipc::handlers::chat::edits::{done_answer, done_text, done_view};
use crate::ipc::handlers::chat::files;
use crate::ipc::protocol::IPCResponse;
use crate::json::{Json, JsonV, Number};
use crate::llm::types::text_view;
use crate::outside;
use crate::text;
use vstd::prelude::*;

verus! {

/// How many bytes of a memory its title holds.
pub const TITLE_BYTES: usize = 120;

/// How many actions are told with a description of a window.
pub const RECENT_ACTIONS: usize = 8;

/// How many characters of a typed text are kept.
pub const TYPED_CHARS: usize = 60;

// ---------------------------------------------------------------------------
// Shells
// ---------------------------------------------------------------------------

/// How a command is run.
#[derive(Debug, PartialEq, Eq, Structural)]
pub enum RunMode {
    Background,
    /// With each line shown as it comes.
    Streaming,
    Waiting,
}

/// How a command is run: in the background where that is asked for, else with
/// its lines shown where there is someone to show them to.
pub fn run_mode(background: bool, listener: bool) -> (r: RunMode)
    ensures
        r == (if background {
            RunMode::Background
        } else if listener {
            RunMode::Streaming
        } else {
            RunMode::Waiting
        }),
{
    if background {
        RunMode::Background
    } else if listener {
        RunMode::Streaming
    } else {
        RunMode::Waiting
    }
}

/// The command that takes a shell to a directory.
pub fn enter_command(cwd: &str) -> (r: String)
    ensures
        r@ == "cd \""@ + cwd@ + "\""@,
{
    files::three("cd \"", cwd, "\"")
}

/// What shows a line of a command as it comes.
pub fn live_line(id: &str, shell: &str, line: &str) -> (r: IPCResponse)
    ensures
        r matches IPCResponse::ChatChunk { id: i, token } && i@ == id@ && token@
            == "\n```sh ["@ + shell@ + "]\n"@ + line@ + "\n```"@,
{
    let mut token = files::three("\n```sh [", shell, "]\n");
    token.append(line);
    token.append("\n```");
    IPCResponse::ChatChunk { id: id.to_owned(), token }
}

/// The answer of a language server, or its error.
pub fn lsp_answer(outcome: Result<String, String>) -> (r: String)
    ensures
        r@ == (match outcome {
            Ok(t) => t@,
            Err(e) => "LSP error: "@ + e@,
        }),
{
    match outcome {
        Ok(t) => t,
        Err(e) => {
            let mut t = "LSP error: ".to_owned();
            t.append(&e);
            t
        },
    }
}

/// Why a way of editing is not known.
pub fn unknown_edit(action: &str) -> (r: String)
    ensures
        r@ == "Unknown code_edit action: "@ + action@,
{
    let mut t = "Unknown code_edit action: ".to_owned();
    t.append(action);
    t
}

/// The answer to a picture that the browser took.
pub fn screenshot_answer(picture: &Result<String, String>) -> (r: String)
    ensures
        r@ == (match *picture {
            Ok(p) => "[screenshot: "@ + text::decimal(text::byte_count(p@)) + " bytes base64]"@,
            Err(e) => "Error: "@ + e@,
        }),
{
    match picture {
        Ok(p) => files::three(
            "[screenshot: ",
            &text::number(text::byte_len(p) as u64),
            " bytes base64]",
        ),
        Err(e) => {
            let mut t = "Error: ".to_owned();
            t.append(e);
            t
        },
    }
}

// ---------------------------------------------------------------------------
// Memory
// ---------------------------------------------------------------------------

/// The answer to a look into the memory that found nothing.
pub fn nothing_found(query: &str) -> (r: String)
    ensures
        r@ == "search_memory: no results for query '"@ + query@ + "'"@,
{
    files::three("search_memory: no results for query '", query, "'")
}

/// What is told of something that was looked up.
pub open spec fn hit_json(
    title: Seq<char>,
    summary: Option<Seq<char>>,
    confidence: Number,
    node_id: Seq<char>,
) -> JsonV {
    JsonV::Object(
        seq![
            ("title"@, JsonV::Text(title)),
            (
                "summary"@,
                JsonV::Text(
                    match summary {
                        Some(s) => s,
                        None => Seq::empty(),
                    },
                ),
            ),
            ("confidence"@, JsonV::Num(confidence)),
            ("node_id"@, JsonV::Text(node_id)),
        ],
    )
}

/// What is told of something that was looked up: its title, its summary if it has
/// one, how far it fits, and its node.
pub fn memory_hit(
    title: &str,
    summary: Option<String>,
    confidence: Number,
    node_id: &str,
) -> (r: Json)
    ensures
        r@ == hit_json(title@, text_view(summary), confidence, node_id@),
{
    let ghost want = hit_json(title@, text_view(summary), confidence, node_id@);
    let summary = match summary {
        Some(s) => s,
        None => String::new(),
    };
    assert(text_view(Some(summary))->0 =~= want->Object_0[1].1->Text_0);
    let r = Json::Object(
        vec![
            ("title".to_owned(), Json::Text(title.to_owned())),
            ("summary".to_owned(), Json::Text(summary)),
            ("confidence".to_owned(), Json::Num(confidence)),
            ("node_id".to_owned(), Json::Text(node_id.to_owned())),
        ],
    );
    proof {
        reveal_with_fuel(Json::model, 3);
        assert(r@->Object_0 =~= want->Object_0);
    }
    r
}

/// The answer to a look into the memory: what was found, as it is printed, or that
/// nothing was, also where the memory could not be asked.
pub fn memory_answer(query: &str, found: &Result<Vec<Json>, String>, printed: String) -> (r: String)
    ensures
        r@ == (if *found is Ok && found->Ok_0@.len() > 0 {
            printed@
        } else {
            "search_memory: no results for query '"@ + query@ + "'"@
        }),
{
    match found {
        Ok(hits) => if hits.len() > 0 {
            printed
        } else {
            nothing_found(query)
        },
        Err(_) => nothing_found(query),
    }
}

/// What is kept of a memory that the model stores.
#[derive(Debug)]
pub struct MemoryNote {
    /// What is noted of its node.
    pub metadata: Json,
    pub summary: String,
    pub key_facts: Vec<String>,
    pub tags: Vec<String>,
    /// The text that it is found by.
    pub embed_text: String,
}

/// What is noted of the node of a memory.
pub open spec fn memory_metadata(category: Seq<char>) -> JsonV {
    JsonV::Object(
        seq![("category"@, JsonV::Text(category)), ("source"@, JsonV::Text("llm_tool"@))],
    )
}

/// What is kept of a memory that the model stores: its text, as its summary and its
/// only fact, with its category as its tag.
pub fn memory_note(content: &str, category: &str) -> (r: MemoryNote)
    ensures
        r.metadata@ == memory_metadata(category@),
        r.summary@ == content@,
        text::views(r.key_facts@) == seq![content@],
        text::views(r.tags@) == seq![category@],
        r.embed_text@ == content@,
{
    let metadata = Json::Object(
        vec![
            ("category".to_owned(), Json::Text(category.to_owned())),
            ("source".to_owned(), Json::Text("llm_tool".to_owned())),
        ],
    );
    proof {
        reveal_with_fuel(Json::model, 3);
        assert(metadata@->Object_0 =~= memory_metadata(category@)->Object_0);
    }
    let key_facts: Vec<String> = vec![content.to_owned()];
    let tags: Vec<String> = vec![category.to_owned()];
    assert(text::views(key_facts@) =~= seq![content@]);
    assert(text::views(tags@) =~= seq![category@]);
    MemoryNote {
        metadata,
        summary: content.to_owned(),
        key_facts,
        tags,
        embed_text: content.to_owned(),
    }
}

/// The answer for a file that is to be searched or outlined and cannot be read.
pub fn unreadable(path: &str, error: &str) -> (r: String)
    ensures
        r@ == "Error reading '"@ + path@ + "': "@ + error@,
{
    let mut t = files::three("Error reading '", path, "': ");
    t.append(error);
    t
}

/// The answer to a search for an element: what was found, as it is printed.
pub fn found_elements(found: Result<String, String>) -> (r: String)
    ensures
        r@ == (match found {
            Ok(t) => t@,
            Err(e) => "ui_find failed: "@ + e@,
        }),
{
    match found {
        Ok(t) => t,
        Err(e) => {
            let mut t = "ui_find failed: ".to_owned();
            t.append(&e);
            t
        },
    }
}

/// The answer to a question for the tasks for later: the tasks, as they are
/// printed.
pub fn listed_schedules(listed: Result<String, String>) -> (r: String)
    ensures
        r@ == (match listed {
            Ok(t) => t@,
            Err(e) => "list_schedules failed: "@ + e@,
        }),
{
    match listed {
        Ok(t) => t,
        Err(e) => {
            let mut t = "list_schedules failed: ".to_owned();
            t.append(&e);
            t
        },
    }
}

/// The title of a memory: its text, cut where it is long. None where the cut
/// falls inside a character.
pub open spec fn memory_title_text(content: Seq<char>) -> Option<Seq<char>> {
    if text::byte_count(content) > TITLE_BYTES {
        match text::byte_cut(content, TITLE_BYTES as int) {
            Some(t) => Some(t + "\u{2026}"@),
            None => None,
        }
    } else {
        Some(content)
    }
}

/// The title of a memory.
pub fn memory_title(content: &str) -> (r: Option<String>)
    ensures
        match r {
            Some(t) => memory_title_text(content@) == Some(t@),
            None => memory_title_text(content@) is None,
        },
{
    if text::byte_len(content) > TITLE_BYTES {
        match text::cut_at_byte(content, TITLE_BYTES) {
            Some(t) => {
                let mut title = t;
                title.append("\u{2026}");
                Some(title)
            },
            None => None,
        }
    } else {
        Some(content.to_owned())
    }
}

/// The answer to a storing of a memory.
pub fn stored_memory(title: &str, done: &Result<(), String>) -> (r: String)
    ensures
        r@ == done_text(
            done_view(*done),
            "Stored memory: "@ + title@,
            "Error storing memory: "@,
        ),
{
    let mut t = "Stored memory: ".to_owned();
    t.append(title);
    done_answer(done, t, "Error storing memory: ")
}

/// The answer to a storing of a fact about the user.
pub fn stored_fact(key: &str, value: &str, done: &Result<(), String>) -> (r: String)
    ensures
        r@ == done_text(
            done_view(*done),
            "Stored user fact: "@ + key@ + " = "@ + value@,
            "Error storing user fact: "@,
        ),
{
    let mut t = files::three("Stored user fact: ", key, " = ");
    t.append(value);
    done_answer(done, t, "Error storing user fact: ")
}

// ---------------------------------------------------------------------------
// Windows
// ---------------------------------------------------------------------------

/// The error of an outcome, if it has one.
pub open spec fn error_of(done: Result<(), String>) -> Option<Seq<char>> {
    match done {
        Ok(_) => None,
        Err(e) => Some(e@),
    }
}

/// A record of an action.
pub open spec fn is_record(
    a: ActionRecord,
    at: i64,
    kind: Seq<char>,
    target: Seq<char>,
    value: Option<Seq<char>>,
    error: Option<Seq<char>>,
) -> bool {
    &&& a.at == at
    &&& a.kind@ == kind
    &&& a.target@ == target
    &&& crate::llm::types::text_view(a.value) == value
    &&& a.ok == (error is None)
    &&& crate::llm::types::text_view(a.error) == error
}

/// The logs after an action was recorded, which is the last of its
/// conversation.
pub open spec fn recorded(
    before: ActionLogs,
    after: ActionLogs,
    conv: Seq<char>,
    at: i64,
    kind: Seq<char>,
    target: Seq<char>,
    value: Option<Seq<char>>,
    error: Option<Seq<char>>,
) -> bool {
    exists|a: ActionRecord|
        #[trigger] is_record(a, at, kind, target, value, error) && before.updated(
            after,
            conv,
            ActionLogV {
                actions: context::recent(before.log(conv).actions.push(a)),
                ..before.log(conv)
            },
        )
}

fn note_action(
    logs: &mut ActionLogs,
    conv_id: &str,
    at: i64,
    kind: &str,
    target: &str,
    value: Option<String>,
    done: &Result<(), String>,
)
    ensures
        recorded(
            *old(logs),
            *final(logs),
            conv_id@,
            at,
            kind@,
            target@,
            crate::llm::types::text_view(value),
            error_of(*done),
        ),
{
    let error = match done {
        Ok(_) => None,
        Err(e) => Some(e.clone()),
    };
    let a = ActionRecord {
        at,
        kind: kind.to_owned(),
        target: target.to_owned(),
        value,
        ok: done.is_ok(),
        error,
    };
    let ghost g = a;
    context::record(logs, conv_id, a);
    assert(is_record(
        g,
        at,
        kind@,
        target@,
        crate::llm::types::text_view(value),
        error_of(*done),
    ));
}

/// Records a click, and answers it.
pub fn ui_click(
    logs: &mut ActionLogs,
    conv_id: &str,
    at: i64,
    target: &str,
    done: &Result<(), String>,
) -> (r: String)
    ensures
        r@ == done_text(done_view(*done), "clicked "@ + target@, "ui_click failed: "@),
        recorded(
            *old(logs),
            *final(logs),
            conv_id@,
            at,
            "click"@,
            target@,
            None,
            error_of(*done),
        ),
{
    note_action(logs, conv_id, at, "click", target, None, done);
    let mut t = "clicked ".to_owned();
    t.append(target);
    done_answer(done, t, "ui_click failed: ")
}

/// Records that a text was typed, with its first sixty characters, and answers
/// it.
pub fn ui_type(
    logs: &mut ActionLogs,
    conv_id: &str,
    at: i64,
    target: &str,
    typed: &str,
    done: &Result<(), String>,
) -> (r: String)
    ensures
        r@ == done_text(done_view(*done), "typed into "@ + target@, "ui_type failed: "@),
        recorded(
            *old(logs),
            *final(logs),
            conv_id@,
            at,
            "type"@,
            target@,
            Some(text::head(typed@, TYPED_CHARS as nat)),
            error_of(*done),
        ),
{
    note_action(
        logs,
        conv_id,
        at,
        "type",
        target,
        Some(text::take_chars(typed, TYPED_CHARS)),
        done,
    );
    let mut t = "typed into ".to_owned();
    t.append(target);
    done_answer(done, t, "ui_type failed: ")
}

/// Records that a window was brought to the front, and answers it.
pub fn ui_focus_window(
    logs: &mut ActionLogs,
    conv_id: &str,
    at: i64,
    title: &str,
    done: &Result<(), String>,
) -> (r: String)
    ensures
        r@ == done_text(done_view(*done), "focused "@ + title@, "ui_focus_window failed: "@),
        recorded(
            *old(logs),
            *final(logs),
            conv_id@,
            at,
            "focus"@,
            title@,
            None,
            error_of(*done),
        ),
{
    note_action(logs, conv_id, at, "focus", title, None, done);
    let mut t = "focused ".to_owned();
    t.append(title);
    done_answer(done, t, "ui_focus_window failed: ")
}

/// What a description of a window is about.
pub open spec fn described(window: Seq<char>) -> Seq<char> {
    if window.len() == 0 {
        "<foreground>"@
    } else {
        window
    }
}

/// The window that is to be described.
#[derive(Debug, PartialEq, Eq, Structural)]
pub enum Described {
    /// The one in front.
    Foreground,
    /// One by its title.
    Titled,
}

/// Which window is to be described: without a title, the one in front.
pub fn window_to_describe(window: &str) -> (r: Described)
    ensures
        r == (if text::blank(window@) {
            Described::Foreground
        } else {
            Described::Titled
        }),
{
    if text::is_blank(window) {
        Described::Foreground
    } else {
        Described::Titled
    }
}

/// The text for a window, and the error where there is none.
pub open spec fn snapshot_body(tree: Result<Seq<char>, Seq<char>>) -> Seq<char> {
    match tree {
        Ok(t) => t,
        Err(e) => "ui_snapshot failed: "@ + e,
    }
}

/// The answer to a description of a window.
pub open spec fn snapshot_text(body: Seq<char>, history: Seq<char>) -> Seq<char> {
    if history.len() == 0 {
        body
    } else {
        body + "\n\n# Recent actions\n"@ + history
    }
}

/// Records a description of a window, keeps it as the last one of the
/// conversation where it was made, and answers with it and the last actions.
pub fn ui_snapshot(
    logs: &mut ActionLogs,
    conv_id: &str,
    at: i64,
    window: &str,
    tree: &Result<String, String>,
) -> (r: String)
    ensures
        r@ == snapshot_text(
            snapshot_body(files::outcome_view(*tree)),
            context::summary(final(logs).log(conv_id@).actions, RECENT_ACTIONS as nat),
        ),
        ({
            let body = snapshot_body(files::outcome_view(*tree));
            let before = old(logs).log(conv_id@);
            let after = final(logs).log(conv_id@);
            &&& exists|a: ActionRecord|
                after.actions == #[trigger] context::recent(before.actions.push(a)) && is_record(
                    a,
                    at,
                    "snapshot"@,
                    described(window@),
                    None,
                    if *tree is Ok {
                        None
                    } else {
                        Some(body)
                    },
                )
            &&& *tree is Ok ==> after.last_tree_hash == Some(outside::hash_of_text(body))
                && after.last_tree_json == Some(
                text::byte_head(body, context::MAX_TREE_BYTES as nat),
            )
            &&& *tree is Err ==> after.last_tree_hash == before.last_tree_hash
                && after.last_tree_json == before.last_tree_json
        }),
        forall|c: Seq<char>| c != conv_id@ ==> #[trigger] final(logs).log(c) == old(logs).log(c),
{
    let target = if window.is_empty() {
        "<foreground>".to_owned()
    } else {
        window.to_owned()
    };
    let (body, error) = match tree {
        Ok(t) => {
            context::set_last_tree(logs, conv_id, t);
            (t.clone(), None)
        },
        Err(e) => {
            let mut b = "ui_snapshot failed: ".to_owned();
            b.append(e);
            (b.clone(), Some(b))
        },
    };
    let a = ActionRecord {
        at,
        kind: "snapshot".to_owned(),
        target,
        value: None,
        ok: error.is_none(),
        error,
    };
    let ghost g = a;
    context::record(logs, conv_id, a);
    proof {
        let b = snapshot_body(files::outcome_view(*tree));
        assert(is_record(
            g,
            at,
            "snapshot"@,
            described(window@),
            None,
            if *tree is Ok {
                None
            } else {
                Some(b)
            },
        ));
        assert(logs.log(conv_id@).actions == context::recent(
            old(logs).log(conv_id@).actions.push(g),
        ));
    }
    let history = context::compact_summary(logs, conv_id, RECENT_ACTIONS);
    if history.as_str().is_empty() {
        body
    } else {
        files::three(&body, "\n\n# Recent actions\n", &history)
    }
}

// ---------------------------------------------------------------------------
// Tasks for later
// ---------------------------------------------------------------------------

/// The answer to a task for later that was stored.
pub fn scheduled(
    name: &str,
    task_id: &str,
    status: &str,
    next_run: &str,
    done: &Result<(), String>,
) -> (r: String)
    ensures
        r@ == done_text(
            done_view(*done),
            "scheduled task '"@ + name@ + "' ("@ + task_id@ + ") status="@ + status@
                + " next_run="@ + next_run@,
            "schedule_task insert failed: "@,
        ),
{
    let mut t = files::three("scheduled task '", name, "' (");
    t.append(task_id);
    t.append(") status=");
    t.append(status);
    t.append(" next_run=");
    t.append(next_run);
    done_answer(done, t, "schedule_task insert failed: ")
}

/// The answer where it cannot be read when a task is to run.
pub fn unread_cadence(error: &str) -> (r: String)
    ensures
        r@ == "schedule_task: invalid cadence - "@ + error@,
{
    let mut t = "schedule_task: invalid cadence - ".to_owned();
    t.append(error);
    t
}

/// The answer to a task for later that was given up.
pub fn cancelled_schedule(task_id: &str, done: &Result<(), String>) -> (r: String)
    ensures
        r@ == done_text(
            done_view(*done),
            "cancelled schedule "@ + task_id@,
            "cancel_schedule failed: "@,
        ),
{
    let mut t = "cancelled schedule ".to_owned();
    t.append(task_id);
    done_answer(done, t, "cancel_schedule failed: ")
}

} // verus!
