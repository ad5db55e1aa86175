//! The tools that a team of agents may use.

use crate::llm::schema::{
    bare, bare_of, list_of, list_of_these, make_schema, make_todo_schema, one_of, one_of_these,
    param_views, plain, plain_of, schema_of, todo_schema, KindV, Param, ParamV,
};
use crate::llm::types::{tool_views, tool_views_push, FunctionDefinition, ToolDefinition, ToolV};
use crate::text;
use vstd::prelude::*;

verus! {

/// A tool with a name, a description, its parameters, and which of these must be
/// given.
pub open spec fn tool_of(
    name: Seq<char>,
    description: Seq<char>,
    params: Seq<ParamV>,
    required: Seq<Seq<char>>,
) -> ToolV {
    ToolV {
        tool_type: "function"@,
        name,
        description,
        parameters: schema_of(params, required),
    }
}

/// A tool with a name, a description, its parameters, and which of these must be
/// given.
pub(crate) fn tool(
    name: &str,
    description: &str,
    params: &Vec<Param>,
    required: &Vec<&'static str>,
) -> (r: ToolDefinition)
    ensures
        r@ == tool_of(name@, description@, param_views(params@), text::slice_views(required@)),
{
    ToolDefinition {
        tool_type: "function".to_owned(),
        function: FunctionDefinition {
            name: name.to_owned(),
            description: description.to_owned(),
            parameters: make_schema(params, required),
        },
    }
}

// ---------------------------------------------------------------------------
// The memory, and the use of the desktop
// ---------------------------------------------------------------------------

pub const SEARCH_MEMORY_TOOL: &'static str =
    "Search the long-term memory graph for relevant facts, decisions, files, or conversations. Use this BEFORE asking the user to repeat themselves or when you need context from earlier sessions. Returns top-N ranked memory nodes with title, summary, and confidence. Far cheaper than loading the full context packet.";

/// What `search_memory` takes.
pub open spec fn search_memory_params() -> Seq<ParamV> {
    seq![
        plain_of("limit"@, "integer"@, "Max nodes to return. Default 5."@),
        plain_of(
            "query"@,
            "string"@,
            "Natural-language query describing what you need to recall."@,
        ),
    ]
}

/// The tool `search_memory`.
pub open spec fn search_memory_tool() -> ToolV {
    tool_of("search_memory"@, SEARCH_MEMORY_TOOL@, search_memory_params(), seq!["query"@])
}

fn search_memory() -> (r: ToolDefinition)
    ensures
        r@ == search_memory_tool(),
{
    let params: Vec<Param> = vec![
        plain("limit", "integer", "Max nodes to return. Default 5."),
        plain("query", "string", "Natural-language query describing what you need to recall."),
    ];
    let required: Vec<&'static str> = vec!["query"];
    assert(param_views(params@) =~= search_memory_params());
    assert(text::slice_views(required@) =~= seq!["query"@]);
    tool("search_memory", SEARCH_MEMORY_TOOL, &params, &required)
}

pub const UI_SNAPSHOT_TOOL: &'static str =
    "Snapshot the accessibility tree of the foreground window (or a named one). Returns a JSON tree with stable element ids you can pass to ui_click / ui_type. Call this BEFORE every click so your ids match the current screen. Response also includes your last 8 UI actions so you remember what you already did.";

/// What `ui_snapshot` takes.
pub open spec fn ui_snapshot_params() -> Seq<ParamV> {
    seq![
        plain_of(
            "include_offscreen"@,
            "boolean"@,
            "Include elements scrolled off screen. Default false to keep tokens low."@,
        ),
        plain_of(
            "window"@,
            "string"@,
            "Optional substring of a window title (e.g. 'Notepad'). Omit to snapshot the foreground window."@,
        ),
    ]
}

/// The tool `ui_snapshot`.
pub open spec fn ui_snapshot_tool() -> ToolV {
    tool_of("ui_snapshot"@, UI_SNAPSHOT_TOOL@, ui_snapshot_params(), Seq::empty())
}

fn ui_snapshot() -> (r: ToolDefinition)
    ensures
        r@ == ui_snapshot_tool(),
{
    let params: Vec<Param> = vec![
        plain(
            "include_offscreen",
            "boolean",
            "Include elements scrolled off screen. Default false to keep tokens low.",
        ),
        plain(
            "window",
            "string",
            "Optional substring of a window title (e.g. 'Notepad'). Omit to snapshot the foreground window.",
        ),
    ];
    let required: Vec<&'static str> = Vec::new();
    assert(param_views(params@) =~= ui_snapshot_params());
    assert(text::slice_views(required@) =~= Seq::<Seq<char>>::empty());
    tool("ui_snapshot", UI_SNAPSHOT_TOOL, &params, &required)
}

pub const UI_CLICK_TOOL: &'static str =
    "Click an element by id from the most recent ui_snapshot. Uses UIA's Invoke pattern when available (more reliable than synthetic mouse).";

/// What `ui_click` takes.
pub open spec fn ui_click_params() -> Seq<ParamV> {
    seq![
        plain_of("element_id"@, "string"@, "ID from the most recent ui_snapshot (e.g. 'e42')."@),
    ]
}

/// The tool `ui_click`.
pub open spec fn ui_click_tool() -> ToolV {
    tool_of("ui_click"@, UI_CLICK_TOOL@, ui_click_params(), seq!["element_id"@])
}

fn ui_click() -> (r: ToolDefinition)
    ensures
        r@ == ui_click_tool(),
{
    let params: Vec<Param> = vec![
        plain("element_id", "string", "ID from the most recent ui_snapshot (e.g. 'e42')."),
    ];
    let required: Vec<&'static str> = vec!["element_id"];
    assert(param_views(params@) =~= ui_click_params());
    assert(text::slice_views(required@) =~= seq!["element_id"@]);
    tool("ui_click", UI_CLICK_TOOL, &params, &required)
}

pub const UI_TYPE_TOOL: &'static str =
    "Type text into an element by id (typically an edit/value control). Prefers the Value pattern, falls back to keyboard simulation with focus.";

/// What `ui_type` takes.
pub open spec fn ui_type_params() -> Seq<ParamV> {
    seq![
        bare_of("element_id"@, "string"@),
        bare_of("text"@, "string"@),
    ]
}

/// The tool `ui_type`.
pub open spec fn ui_type_tool() -> ToolV {
    tool_of("ui_type"@, UI_TYPE_TOOL@, ui_type_params(), seq!["element_id"@, "text"@])
}

fn ui_type() -> (r: ToolDefinition)
    ensures
        r@ == ui_type_tool(),
{
    let params: Vec<Param> = vec![
        bare("element_id", "string"),
        bare("text", "string"),
    ];
    let required: Vec<&'static str> = vec!["element_id", "text"];
    assert(param_views(params@) =~= ui_type_params());
    assert(text::slice_views(required@) =~= seq!["element_id"@, "text"@]);
    tool("ui_type", UI_TYPE_TOOL, &params, &required)
}

pub const UI_FOCUS_WINDOW_TOOL: &'static str =
    "Bring a window to the foreground by title substring. Snapshot again after focusing to get a fresh tree.";

/// What `ui_focus_window` takes.
pub open spec fn ui_focus_window_params() -> Seq<ParamV> {
    seq![
        plain_of("title"@, "string"@, "Substring match on window title."@),
    ]
}

/// The tool `ui_focus_window`.
pub open spec fn ui_focus_window_tool() -> ToolV {
    tool_of("ui_focus_window"@, UI_FOCUS_WINDOW_TOOL@, ui_focus_window_params(), seq!["title"@])
}

fn ui_focus_window() -> (r: ToolDefinition)
    ensures
        r@ == ui_focus_window_tool(),
{
    let params: Vec<Param> = vec![
        plain("title", "string", "Substring match on window title."),
    ];
    let required: Vec<&'static str> = vec!["title"];
    assert(param_views(params@) =~= ui_focus_window_params());
    assert(text::slice_views(required@) =~= seq!["title"@]);
    tool("ui_focus_window", UI_FOCUS_WINDOW_TOOL, &params, &required)
}

pub const UI_FIND_TOOL: &'static str =
    "Search the most recent snapshot's registry for elements whose name contains the query. Useful when you want to click 'the OK button' without knowing the id.";

/// What `ui_find` takes.
pub open spec fn ui_find_params() -> Seq<ParamV> {
    seq![
        bare_of("query"@, "string"@),
    ]
}

/// The tool `ui_find`.
pub open spec fn ui_find_tool() -> ToolV {
    tool_of("ui_find"@, UI_FIND_TOOL@, ui_find_params(), seq!["query"@])
}

fn ui_find() -> (r: ToolDefinition)
    ensures
        r@ == ui_find_tool(),
{
    let params: Vec<Param> = vec![
        bare("query", "string"),
    ];
    let required: Vec<&'static str> = vec!["query"];
    assert(param_views(params@) =~= ui_find_params());
    assert(text::slice_views(required@) =~= seq!["query"@]);
    tool("ui_find", UI_FIND_TOOL, &params, &required)
}

pub const PROPOSE_SCHEDULE_TOOL: &'static str =
    "Propose a scheduled task for the user to approve. Use when you think Rook should wake up later and do something (e.g. 'every monday summarize PRs'). Cadence grammar: 'once YYYY-MM-DD HH:MM', 'in 2h', 'daily 09:00', 'weekly mon 09:00', 'every 15m', 'cron 0 9 * * 1'. Status starts as 'proposed' - user must approve before it fires.";

/// What `propose_schedule` takes.
pub open spec fn propose_schedule_params() -> Seq<ParamV> {
    seq![
        plain_of("cadence"@, "string"@, "Cadence spec - see tool description."@),
        plain_of("name"@, "string"@, "Short human-readable name."@),
        one_of_these(
            "output_channel"@,
            seq!["notification"@, "silent"@],
            "How to deliver the result. Default notification."@,
        ),
        plain_of("prompt"@, "string"@, "What Rook should do when the task fires."@),
        plain_of(
            "why"@,
            "string"@,
            "Short reason the task is useful. Shown to the user when they approve."@,
        ),
    ]
}

/// The tool `propose_schedule`.
pub open spec fn propose_schedule_tool() -> ToolV {
    tool_of(
        "propose_schedule"@,
        PROPOSE_SCHEDULE_TOOL@,
        propose_schedule_params(),
        seq!["name"@, "cadence"@, "prompt"@],
    )
}

fn propose_schedule() -> (r: ToolDefinition)
    ensures
        r@ == propose_schedule_tool(),
{
    let params: Vec<Param> = vec![
        plain("cadence", "string", "Cadence spec - see tool description."),
        plain("name", "string", "Short human-readable name."),
        one_of(
            "output_channel",
            vec!["notification", "silent"],
            "How to deliver the result. Default notification.",
        ),
        plain("prompt", "string", "What Rook should do when the task fires."),
        plain(
            "why",
            "string",
            "Short reason the task is useful. Shown to the user when they approve.",
        ),
    ];
    let required: Vec<&'static str> = vec!["name", "cadence", "prompt"];
    assert(params@[2]@.kind =~= KindV::OneOf(seq!["notification"@, "silent"@]));
    assert(param_views(params@) =~= propose_schedule_params());
    assert(text::slice_views(required@) =~= seq!["name"@, "cadence"@, "prompt"@]);
    tool("propose_schedule", PROPOSE_SCHEDULE_TOOL, &params, &required)
}

pub const LIST_SCHEDULES_TOOL: &'static str =
    "List all non-archived scheduled tasks. Returns JSON array with id, name, cadence, next_run_at, status.";

/// The tool `list_schedules`.
pub open spec fn list_schedules_tool() -> ToolV {
    tool_of("list_schedules"@, LIST_SCHEDULES_TOOL@, Seq::empty(), Seq::empty())
}

fn list_schedules() -> (r: ToolDefinition)
    ensures
        r@ == list_schedules_tool(),
{
    let params: Vec<Param> = Vec::new();
    let required: Vec<&'static str> = Vec::new();
    assert(param_views(params@) =~= Seq::<ParamV>::empty());
    assert(text::slice_views(required@) =~= Seq::<Seq<char>>::empty());
    tool("list_schedules", LIST_SCHEDULES_TOOL, &params, &required)
}

/// The memory, and the use of the desktop.
pub open spec fn desktop_tools() -> Seq<ToolV> {
    seq![
        search_memory_tool(),
        ui_snapshot_tool(),
        ui_click_tool(),
        ui_type_tool(),
        ui_focus_window_tool(),
        ui_find_tool(),
        propose_schedule_tool(),
        list_schedules_tool(),
    ]
}

fn add_desktop_tools(out: &mut Vec<ToolDefinition>)
    ensures
        tool_views(final(out)@) == tool_views(old(out)@) + desktop_tools(),
{
    broadcast use tool_views_push;

    out.push(search_memory());
    out.push(ui_snapshot());
    out.push(ui_click());
    out.push(ui_type());
    out.push(ui_focus_window());
    out.push(ui_find());
    out.push(propose_schedule());
    out.push(list_schedules());
    assert(tool_views(out@) =~= tool_views(old(out)@) + desktop_tools());
}

// ---------------------------------------------------------------------------
// Schedules, and finding one's way among files
// ---------------------------------------------------------------------------

pub const CANCEL_SCHEDULE_TOOL: &'static str =
    "Archive a scheduled task by id so it stops firing.";

/// What `cancel_schedule` takes.
pub open spec fn cancel_schedule_params() -> Seq<ParamV> {
    seq![
        bare_of("id"@, "string"@),
    ]
}

/// The tool `cancel_schedule`.
pub open spec fn cancel_schedule_tool() -> ToolV {
    tool_of("cancel_schedule"@, CANCEL_SCHEDULE_TOOL@, cancel_schedule_params(), seq!["id"@])
}

fn cancel_schedule() -> (r: ToolDefinition)
    ensures
        r@ == cancel_schedule_tool(),
{
    let params: Vec<Param> = vec![
        bare("id", "string"),
    ];
    let required: Vec<&'static str> = vec!["id"];
    assert(param_views(params@) =~= cancel_schedule_params());
    assert(text::slice_views(required@) =~= seq!["id"@]);
    tool("cancel_schedule", CANCEL_SCHEDULE_TOOL, &params, &required)
}

pub const FILE_READ_TOOL: &'static str =
    "Read the contents of a file. Returns content with line numbers in 'NNNN\\tcontent' format so you can reference exact lines in edits. Defaults to first 2000 lines; use offset/limit for windows of larger files.";

/// What `file_read` takes.
pub open spec fn file_read_params() -> Seq<ParamV> {
    seq![
        plain_of("limit"@, "integer"@, "Max lines to return (default 2000)"@),
        plain_of("offset"@, "integer"@, "0-based line number to start at"@),
        plain_of("path"@, "string"@, "Absolute or relative file path"@),
    ]
}

/// The tool `file_read`.
pub open spec fn file_read_tool() -> ToolV {
    tool_of("file_read"@, FILE_READ_TOOL@, file_read_params(), seq!["path"@])
}

fn file_read() -> (r: ToolDefinition)
    ensures
        r@ == file_read_tool(),
{
    let params: Vec<Param> = vec![
        plain("limit", "integer", "Max lines to return (default 2000)"),
        plain("offset", "integer", "0-based line number to start at"),
        plain("path", "string", "Absolute or relative file path"),
    ];
    let required: Vec<&'static str> = vec!["path"];
    assert(param_views(params@) =~= file_read_params());
    assert(text::slice_views(required@) =~= seq!["path"@]);
    tool("file_read", FILE_READ_TOOL, &params, &required)
}

pub const LIST_FILES_TOOL: &'static str =
    "List files and directories in a directory. Returns a JSON-like listing with name, type (file|dir), and size. Use this before reading files so you know what exists. Defaults to current working directory.";

/// What `list_files` takes.
pub open spec fn list_files_params() -> Seq<ParamV> {
    seq![
        plain_of("path"@, "string"@, "Directory to list. Defaults to '.'"@),
        plain_of("pattern"@, "string"@, "Optional glob-like substring filter on entry names"@),
        plain_of("recursive"@, "boolean"@, "Walk subdirectories (max depth 3). Default false."@),
    ]
}

/// The tool `list_files`.
pub open spec fn list_files_tool() -> ToolV {
    tool_of("list_files"@, LIST_FILES_TOOL@, list_files_params(), Seq::empty())
}

fn list_files() -> (r: ToolDefinition)
    ensures
        r@ == list_files_tool(),
{
    let params: Vec<Param> = vec![
        plain("path", "string", "Directory to list. Defaults to '.'"),
        plain("pattern", "string", "Optional glob-like substring filter on entry names"),
        plain("recursive", "boolean", "Walk subdirectories (max depth 3). Default false."),
    ];
    let required: Vec<&'static str> = Vec::new();
    assert(param_views(params@) =~= list_files_params());
    assert(text::slice_views(required@) =~= Seq::<Seq<char>>::empty());
    tool("list_files", LIST_FILES_TOOL, &params, &required)
}

pub const CHANGE_DIR_TOOL: &'static str =
    "Change the working directory. Affects subsequent terminal_execute, file_read, file_write, and list_files calls that use relative paths. Returns the new absolute cwd.";

/// What `change_dir` takes.
pub open spec fn change_dir_params() -> Seq<ParamV> {
    seq![
        plain_of("path"@, "string"@, "Target directory (absolute or relative)"@),
    ]
}

/// The tool `change_dir`.
pub open spec fn change_dir_tool() -> ToolV {
    tool_of("change_dir"@, CHANGE_DIR_TOOL@, change_dir_params(), seq!["path"@])
}

fn change_dir() -> (r: ToolDefinition)
    ensures
        r@ == change_dir_tool(),
{
    let params: Vec<Param> = vec![
        plain("path", "string", "Target directory (absolute or relative)"),
    ];
    let required: Vec<&'static str> = vec!["path"];
    assert(param_views(params@) =~= change_dir_params());
    assert(text::slice_views(required@) =~= seq!["path"@]);
    tool("change_dir", CHANGE_DIR_TOOL, &params, &required)
}

pub const GET_CWD_TOOL: &'static str =
    "Return the current working directory as an absolute path.";

/// The tool `get_cwd`.
pub open spec fn get_cwd_tool() -> ToolV {
    tool_of("get_cwd"@, GET_CWD_TOOL@, Seq::empty(), Seq::empty())
}

fn get_cwd() -> (r: ToolDefinition)
    ensures
        r@ == get_cwd_tool(),
{
    let params: Vec<Param> = Vec::new();
    let required: Vec<&'static str> = Vec::new();
    assert(param_views(params@) =~= Seq::<ParamV>::empty());
    assert(text::slice_views(required@) =~= Seq::<Seq<char>>::empty());
    tool("get_cwd", GET_CWD_TOOL, &params, &required)
}

pub const GLOB_TOOL: &'static str =
    "Find files by glob pattern (e.g. 'src/**/*.rs', '**/*.toml'). Returns matching file paths sorted by modification time. Faster than list_files for finding specific file types in large trees.";

/// What `glob` takes.
pub open spec fn glob_params() -> Seq<ParamV> {
    seq![
        plain_of("path"@, "string"@, "Optional base directory (default: cwd)"@),
        plain_of("pattern"@, "string"@, "Glob pattern, e.g. 'src/**/*.ts'"@),
    ]
}

/// The tool `glob`.
pub open spec fn glob_tool() -> ToolV {
    tool_of("glob"@, GLOB_TOOL@, glob_params(), seq!["pattern"@])
}

fn glob() -> (r: ToolDefinition)
    ensures
        r@ == glob_tool(),
{
    let params: Vec<Param> = vec![
        plain("path", "string", "Optional base directory (default: cwd)"),
        plain("pattern", "string", "Glob pattern, e.g. 'src/**/*.ts'"),
    ];
    let required: Vec<&'static str> = vec!["pattern"];
    assert(param_views(params@) =~= glob_params());
    assert(text::slice_views(required@) =~= seq!["pattern"@]);
    tool("glob", GLOB_TOOL, &params, &required)
}

pub const GREP_TOOL: &'static str =
    "Search file contents using ripgrep semantics. Use this BEFORE file_read to locate the relevant lines. Returns matching files (default) or matching lines with file:line:content.";

/// What `grep` takes.
pub open spec fn grep_params() -> Seq<ParamV> {
    seq![
        bare_of("case_insensitive"@, "boolean"@),
        plain_of("glob"@, "string"@, "Optional glob filter, e.g. '*.rs'"@),
        plain_of("max_results"@, "integer"@, "Cap results (default 200)"@),
        one_of_these(
            "output"@,
            seq!["files"@, "content"@, "count"@],
            "files=just paths (default), content=matching lines, count=match counts per file"@,
        ),
        plain_of("path"@, "string"@, "Directory or file to search (default: cwd)"@),
        plain_of("pattern"@, "string"@, "Regex pattern"@),
    ]
}

/// The tool `grep`.
pub open spec fn grep_tool() -> ToolV {
    tool_of("grep"@, GREP_TOOL@, grep_params(), seq!["pattern"@])
}

fn grep() -> (r: ToolDefinition)
    ensures
        r@ == grep_tool(),
{
    let params: Vec<Param> = vec![
        bare("case_insensitive", "boolean"),
        plain("glob", "string", "Optional glob filter, e.g. '*.rs'"),
        plain("max_results", "integer", "Cap results (default 200)"),
        one_of(
            "output",
            vec!["files", "content", "count"],
            "files=just paths (default), content=matching lines, count=match counts per file",
        ),
        plain("path", "string", "Directory or file to search (default: cwd)"),
        plain("pattern", "string", "Regex pattern"),
    ];
    let required: Vec<&'static str> = vec!["pattern"];
    assert(params@[3]@.kind =~= KindV::OneOf(seq!["files"@, "content"@, "count"@]));
    assert(param_views(params@) =~= grep_params());
    assert(text::slice_views(required@) =~= seq!["pattern"@]);
    tool("grep", GREP_TOOL, &params, &required)
}

pub const TODO_WRITE_TOOL: &'static str =
    "Create or update the task list. Use ONLY for complex tasks with 3+ distinct steps - NOT for simple or single-step work. Pass the COMPLETE list each time (replaces previous). Each item: { content (imperative), activeForm (present continuous), status (pending|in_progress|completed) }. Keep exactly ONE task in_progress. Mark completed IMMEDIATELY after finishing.";

pub const TODO_CONTENT: &'static str = "Imperative form, e.g. 'Run tests'";

pub const TODO_ACTIVE: &'static str = "Present continuous, e.g. 'Running tests'";

/// The tool `todo_write`.
pub open spec fn todo_write_tool() -> ToolV {
    ToolV {
        tool_type: "function"@,
        name: "todo_write"@,
        description: TODO_WRITE_TOOL@,
        parameters: todo_schema(TODO_CONTENT@, TODO_ACTIVE@),
    }
}

fn todo_write() -> (r: ToolDefinition)
    ensures
        r@ == todo_write_tool(),
{
    ToolDefinition {
        tool_type: "function".to_owned(),
        function: FunctionDefinition {
            name: "todo_write".to_owned(),
            description: TODO_WRITE_TOOL.to_owned(),
            parameters: make_todo_schema(TODO_CONTENT, TODO_ACTIVE),
        },
    }
}

/// Schedules, and finding one's way among files.
pub open spec fn file_tools() -> Seq<ToolV> {
    seq![
        cancel_schedule_tool(),
        file_read_tool(),
        list_files_tool(),
        change_dir_tool(),
        get_cwd_tool(),
        glob_tool(),
        grep_tool(),
        todo_write_tool(),
    ]
}

fn add_file_tools(out: &mut Vec<ToolDefinition>)
    ensures
        tool_views(final(out)@) == tool_views(old(out)@) + file_tools(),
{
    broadcast use tool_views_push;

    out.push(cancel_schedule());
    out.push(file_read());
    out.push(list_files());
    out.push(change_dir());
    out.push(get_cwd());
    out.push(glob());
    out.push(grep());
    out.push(todo_write());
    assert(tool_views(out@) =~= tool_views(old(out)@) + file_tools());
}

// ---------------------------------------------------------------------------
// Searching and editing
// ---------------------------------------------------------------------------

pub const FILE_WRITE_TOOL: &'static str =
    "Write content to a file, creating it if it doesn't exist.";

/// What `file_write` takes.
pub open spec fn file_write_params() -> Seq<ParamV> {
    seq![
        bare_of("content"@, "string"@),
        bare_of("path"@, "string"@),
    ]
}

/// The tool `file_write`.
pub open spec fn file_write_tool() -> ToolV {
    tool_of("file_write"@, FILE_WRITE_TOOL@, file_write_params(), seq!["path"@, "content"@])
}

fn file_write() -> (r: ToolDefinition)
    ensures
        r@ == file_write_tool(),
{
    let params: Vec<Param> = vec![
        bare("content", "string"),
        bare("path", "string"),
    ];
    let required: Vec<&'static str> = vec!["path", "content"];
    assert(param_views(params@) =~= file_write_params());
    assert(text::slice_views(required@) =~= seq!["path"@, "content"@]);
    tool("file_write", FILE_WRITE_TOOL, &params, &required)
}

pub const CODE_EDIT_TOOL: &'static str =
    "Edit a file. Actions: search_replace, insert_at_line, append.";

/// What `code_edit` takes.
pub open spec fn code_edit_params() -> Seq<ParamV> {
    seq![
        one_of_these("action"@, seq!["search_replace"@, "insert_at_line"@, "append"@], ""@),
        plain_of("content"@, "string"@, "Content for append or insert_at_line"@),
        plain_of("line"@, "integer"@, "Line number for insert_at_line"@),
        bare_of("path"@, "string"@),
        plain_of("replace"@, "string"@, "Replacement text for search_replace"@),
        plain_of("search"@, "string"@, "Text to find for search_replace"@),
    ]
}

/// The tool `code_edit`.
pub open spec fn code_edit_tool() -> ToolV {
    tool_of("code_edit"@, CODE_EDIT_TOOL@, code_edit_params(), seq!["action"@, "path"@])
}

fn code_edit() -> (r: ToolDefinition)
    ensures
        r@ == code_edit_tool(),
{
    let params: Vec<Param> = vec![
        one_of("action", vec!["search_replace", "insert_at_line", "append"], ""),
        plain("content", "string", "Content for append or insert_at_line"),
        plain("line", "integer", "Line number for insert_at_line"),
        bare("path", "string"),
        plain("replace", "string", "Replacement text for search_replace"),
        plain("search", "string", "Text to find for search_replace"),
    ];
    let required: Vec<&'static str> = vec!["action", "path"];
    assert(params@[0]@.kind =~= KindV::OneOf(seq!["search_replace"@, "insert_at_line"@, "append"@]));
    assert(param_views(params@) =~= code_edit_params());
    assert(text::slice_views(required@) =~= seq!["action"@, "path"@]);
    tool("code_edit", CODE_EDIT_TOOL, &params, &required)
}

pub const TERMINAL_EXECUTE_TOOL: &'static str =
    "Run a shell command and return stdout+stderr. Use for builds, tests, installs, etc.";

/// What `terminal_execute` takes.
pub open spec fn terminal_execute_params() -> Seq<ParamV> {
    seq![
        bare_of("command"@, "string"@),
    ]
}

/// The tool `terminal_execute`.
pub open spec fn terminal_execute_tool() -> ToolV {
    tool_of(
        "terminal_execute"@,
        TERMINAL_EXECUTE_TOOL@,
        terminal_execute_params(),
        seq!["command"@],
    )
}

fn terminal_execute() -> (r: ToolDefinition)
    ensures
        r@ == terminal_execute_tool(),
{
    let params: Vec<Param> = vec![
        bare("command", "string"),
    ];
    let required: Vec<&'static str> = vec!["command"];
    assert(param_views(params@) =~= terminal_execute_params());
    assert(text::slice_views(required@) =~= seq!["command"@]);
    tool("terminal_execute", TERMINAL_EXECUTE_TOOL, &params, &required)
}

pub const GIT_STATUS_TOOL: &'static str =
    "Show git status of the workspace.";

/// The tool `git_status`.
pub open spec fn git_status_tool() -> ToolV {
    tool_of("git_status"@, GIT_STATUS_TOOL@, Seq::empty(), Seq::empty())
}

fn git_status() -> (r: ToolDefinition)
    ensures
        r@ == git_status_tool(),
{
    let params: Vec<Param> = Vec::new();
    let required: Vec<&'static str> = Vec::new();
    assert(param_views(params@) =~= Seq::<ParamV>::empty());
    assert(text::slice_views(required@) =~= Seq::<Seq<char>>::empty());
    tool("git_status", GIT_STATUS_TOOL, &params, &required)
}

pub const GIT_DIFF_TOOL: &'static str =
    "Show git diff. Optionally for a specific file.";

/// What `git_diff` takes.
pub open spec fn git_diff_params() -> Seq<ParamV> {
    seq![
        plain_of("file"@, "string"@, "Optional file path"@),
    ]
}

/// The tool `git_diff`.
pub open spec fn git_diff_tool() -> ToolV {
    tool_of("git_diff"@, GIT_DIFF_TOOL@, git_diff_params(), Seq::empty())
}

fn git_diff() -> (r: ToolDefinition)
    ensures
        r@ == git_diff_tool(),
{
    let params: Vec<Param> = vec![
        plain("file", "string", "Optional file path"),
    ];
    let required: Vec<&'static str> = Vec::new();
    assert(param_views(params@) =~= git_diff_params());
    assert(text::slice_views(required@) =~= Seq::<Seq<char>>::empty());
    tool("git_diff", GIT_DIFF_TOOL, &params, &required)
}

pub const GIT_LOG_TOOL: &'static str =
    "Show recent git commits.";

/// What `git_log` takes.
pub open spec fn git_log_params() -> Seq<ParamV> {
    seq![
        plain_of("count"@, "integer"@, "Number of commits (default 10)"@),
    ]
}

/// The tool `git_log`.
pub open spec fn git_log_tool() -> ToolV {
    tool_of("git_log"@, GIT_LOG_TOOL@, git_log_params(), Seq::empty())
}

fn git_log() -> (r: ToolDefinition)
    ensures
        r@ == git_log_tool(),
{
    let params: Vec<Param> = vec![
        plain("count", "integer", "Number of commits (default 10)"),
    ];
    let required: Vec<&'static str> = Vec::new();
    assert(param_views(params@) =~= git_log_params());
    assert(text::slice_views(required@) =~= Seq::<Seq<char>>::empty());
    tool("git_log", GIT_LOG_TOOL, &params, &required)
}

pub const GIT_BRANCH_TOOL: &'static str =
    "List git branches and show current branch.";

/// The tool `git_branch`.
pub open spec fn git_branch_tool() -> ToolV {
    tool_of("git_branch"@, GIT_BRANCH_TOOL@, Seq::empty(), Seq::empty())
}

fn git_branch() -> (r: ToolDefinition)
    ensures
        r@ == git_branch_tool(),
{
    let params: Vec<Param> = Vec::new();
    let required: Vec<&'static str> = Vec::new();
    assert(param_views(params@) =~= Seq::<ParamV>::empty());
    assert(text::slice_views(required@) =~= Seq::<Seq<char>>::empty());
    tool("git_branch", GIT_BRANCH_TOOL, &params, &required)
}

pub const GIT_COMMIT_TOOL: &'static str =
    "Stage files and create a git commit. Only commit when the user asks. Provide a concise message describing the change.";

/// What `git_commit` takes.
pub open spec fn git_commit_params() -> Seq<ParamV> {
    seq![
        list_of_these(
            "files"@,
            "string"@,
            "Files to stage (relative or absolute paths). Use [\".\"] to stage all changes."@,
        ),
        plain_of("message"@, "string"@, "Commit message"@),
    ]
}

/// The tool `git_commit`.
pub open spec fn git_commit_tool() -> ToolV {
    tool_of("git_commit"@, GIT_COMMIT_TOOL@, git_commit_params(), seq!["message"@, "files"@])
}

fn git_commit() -> (r: ToolDefinition)
    ensures
        r@ == git_commit_tool(),
{
    let params: Vec<Param> = vec![
        list_of(
            "files",
            "string",
            "Files to stage (relative or absolute paths). Use [\".\"] to stage all changes.",
        ),
        plain("message", "string", "Commit message"),
    ];
    let required: Vec<&'static str> = vec!["message", "files"];
    assert(param_views(params@) =~= git_commit_params());
    assert(text::slice_views(required@) =~= seq!["message"@, "files"@]);
    tool("git_commit", GIT_COMMIT_TOOL, &params, &required)
}

/// Searching and editing.
pub open spec fn edit_tools() -> Seq<ToolV> {
    seq![
        file_write_tool(),
        code_edit_tool(),
        terminal_execute_tool(),
        git_status_tool(),
        git_diff_tool(),
        git_log_tool(),
        git_branch_tool(),
        git_commit_tool(),
    ]
}

fn add_edit_tools(out: &mut Vec<ToolDefinition>)
    ensures
        tool_views(final(out)@) == tool_views(old(out)@) + edit_tools(),
{
    broadcast use tool_views_push;

    out.push(file_write());
    out.push(code_edit());
    out.push(terminal_execute());
    out.push(git_status());
    out.push(git_diff());
    out.push(git_log());
    out.push(git_branch());
    out.push(git_commit());
    assert(tool_views(out@) =~= tool_views(old(out)@) + edit_tools());
}

// ---------------------------------------------------------------------------
// Commits and the web
// ---------------------------------------------------------------------------

pub const WEB_SEARCH_TOOL: &'static str =
    "Search the web using DuckDuckGo. Returns titles, URLs, and snippets.";

/// What `web_search` takes.
pub open spec fn web_search_params() -> Seq<ParamV> {
    seq![
        bare_of("query"@, "string"@),
    ]
}

/// The tool `web_search`.
pub open spec fn web_search_tool() -> ToolV {
    tool_of("web_search"@, WEB_SEARCH_TOOL@, web_search_params(), seq!["query"@])
}

fn web_search() -> (r: ToolDefinition)
    ensures
        r@ == web_search_tool(),
{
    let params: Vec<Param> = vec![
        bare("query", "string"),
    ];
    let required: Vec<&'static str> = vec!["query"];
    assert(param_views(params@) =~= web_search_params());
    assert(text::slice_views(required@) =~= seq!["query"@]);
    tool("web_search", WEB_SEARCH_TOOL, &params, &required)
}

pub const FETCH_URL_TOOL: &'static str =
    "Fetch and extract text content from a URL.";

/// What `fetch_url` takes.
pub open spec fn fetch_url_params() -> Seq<ParamV> {
    seq![
        bare_of("url"@, "string"@),
    ]
}

/// The tool `fetch_url`.
pub open spec fn fetch_url_tool() -> ToolV {
    tool_of("fetch_url"@, FETCH_URL_TOOL@, fetch_url_params(), seq!["url"@])
}

fn fetch_url() -> (r: ToolDefinition)
    ensures
        r@ == fetch_url_tool(),
{
    let params: Vec<Param> = vec![
        bare("url", "string"),
    ];
    let required: Vec<&'static str> = vec!["url"];
    assert(param_views(params@) =~= fetch_url_params());
    assert(text::slice_views(required@) =~= seq!["url"@]);
    tool("fetch_url", FETCH_URL_TOOL, &params, &required)
}

pub const BROWSER_NAVIGATE_TOOL: &'static str =
    "Open a URL in the headless browser and return page text.";

/// What `browser_navigate` takes.
pub open spec fn browser_navigate_params() -> Seq<ParamV> {
    seq![
        bare_of("url"@, "string"@),
    ]
}

/// The tool `browser_navigate`.
pub open spec fn browser_navigate_tool() -> ToolV {
    tool_of("browser_navigate"@, BROWSER_NAVIGATE_TOOL@, browser_navigate_params(), seq!["url"@])
}

fn browser_navigate() -> (r: ToolDefinition)
    ensures
        r@ == browser_navigate_tool(),
{
    let params: Vec<Param> = vec![
        bare("url", "string"),
    ];
    let required: Vec<&'static str> = vec!["url"];
    assert(param_views(params@) =~= browser_navigate_params());
    assert(text::slice_views(required@) =~= seq!["url"@]);
    tool("browser_navigate", BROWSER_NAVIGATE_TOOL, &params, &required)
}

pub const BROWSER_CLICK_TOOL: &'static str =
    "Click a CSS selector in the browser.";

/// What `browser_click` takes.
pub open spec fn browser_click_params() -> Seq<ParamV> {
    seq![
        bare_of("selector"@, "string"@),
    ]
}

/// The tool `browser_click`.
pub open spec fn browser_click_tool() -> ToolV {
    tool_of("browser_click"@, BROWSER_CLICK_TOOL@, browser_click_params(), seq!["selector"@])
}

fn browser_click() -> (r: ToolDefinition)
    ensures
        r@ == browser_click_tool(),
{
    let params: Vec<Param> = vec![
        bare("selector", "string"),
    ];
    let required: Vec<&'static str> = vec!["selector"];
    assert(param_views(params@) =~= browser_click_params());
    assert(text::slice_views(required@) =~= seq!["selector"@]);
    tool("browser_click", BROWSER_CLICK_TOOL, &params, &required)
}

pub const BROWSER_TYPE_TOOL: &'static str =
    "Type text into a form element matched by CSS selector.";

/// What `browser_type` takes.
pub open spec fn browser_type_params() -> Seq<ParamV> {
    seq![
        bare_of("selector"@, "string"@),
        bare_of("text"@, "string"@),
    ]
}

/// The tool `browser_type`.
pub open spec fn browser_type_tool() -> ToolV {
    tool_of("browser_type"@, BROWSER_TYPE_TOOL@, browser_type_params(), seq!["selector"@, "text"@])
}

fn browser_type() -> (r: ToolDefinition)
    ensures
        r@ == browser_type_tool(),
{
    let params: Vec<Param> = vec![
        bare("selector", "string"),
        bare("text", "string"),
    ];
    let required: Vec<&'static str> = vec!["selector", "text"];
    assert(param_views(params@) =~= browser_type_params());
    assert(text::slice_views(required@) =~= seq!["selector"@, "text"@]);
    tool("browser_type", BROWSER_TYPE_TOOL, &params, &required)
}

pub const BROWSER_EVALUATE_TOOL: &'static str =
    "Evaluate JavaScript in the browser and return the result.";

/// What `browser_evaluate` takes.
pub open spec fn browser_evaluate_params() -> Seq<ParamV> {
    seq![
        bare_of("js"@, "string"@),
    ]
}

/// The tool `browser_evaluate`.
pub open spec fn browser_evaluate_tool() -> ToolV {
    tool_of("browser_evaluate"@, BROWSER_EVALUATE_TOOL@, browser_evaluate_params(), seq!["js"@])
}

fn browser_evaluate() -> (r: ToolDefinition)
    ensures
        r@ == browser_evaluate_tool(),
{
    let params: Vec<Param> = vec![
        bare("js", "string"),
    ];
    let required: Vec<&'static str> = vec!["js"];
    assert(param_views(params@) =~= browser_evaluate_params());
    assert(text::slice_views(required@) =~= seq!["js"@]);
    tool("browser_evaluate", BROWSER_EVALUATE_TOOL, &params, &required)
}

pub const BROWSER_SCREENSHOT_TOOL: &'static str =
    "Take a screenshot of the current browser page. Returns base64 PNG.";

/// What `browser_screenshot` takes.
pub open spec fn browser_screenshot_params() -> Seq<ParamV> {
    seq![
        plain_of("full_page"@, "boolean"@, "Capture full scrollable page"@),
    ]
}

/// The tool `browser_screenshot`.
pub open spec fn browser_screenshot_tool() -> ToolV {
    tool_of(
        "browser_screenshot"@,
        BROWSER_SCREENSHOT_TOOL@,
        browser_screenshot_params(),
        Seq::empty(),
    )
}

fn browser_screenshot() -> (r: ToolDefinition)
    ensures
        r@ == browser_screenshot_tool(),
{
    let params: Vec<Param> = vec![
        plain("full_page", "boolean", "Capture full scrollable page"),
    ];
    let required: Vec<&'static str> = Vec::new();
    assert(param_views(params@) =~= browser_screenshot_params());
    assert(text::slice_views(required@) =~= Seq::<Seq<char>>::empty());
    tool("browser_screenshot", BROWSER_SCREENSHOT_TOOL, &params, &required)
}

pub const STORE_MEMORY_TOOL: &'static str =
    "Store a piece of information in long-term memory for future retrieval.";

/// What `store_memory` takes.
pub open spec fn store_memory_params() -> Seq<ParamV> {
    seq![
        plain_of(
            "category"@,
            "string"@,
            "Category tag (e.g. 'project', 'decision', 'architecture', 'bug', 'preference')"@,
        ),
        plain_of("content"@, "string"@, "The information to remember"@),
    ]
}

/// The tool `store_memory`.
pub open spec fn store_memory_tool() -> ToolV {
    tool_of("store_memory"@, STORE_MEMORY_TOOL@, store_memory_params(), seq!["content"@])
}

fn store_memory() -> (r: ToolDefinition)
    ensures
        r@ == store_memory_tool(),
{
    let params: Vec<Param> = vec![
        plain(
            "category",
            "string",
            "Category tag (e.g. 'project', 'decision', 'architecture', 'bug', 'preference')",
        ),
        plain("content", "string", "The information to remember"),
    ];
    let required: Vec<&'static str> = vec!["content"];
    assert(param_views(params@) =~= store_memory_params());
    assert(text::slice_views(required@) =~= seq!["content"@]);
    tool("store_memory", STORE_MEMORY_TOOL, &params, &required)
}

/// Commits and the web.
pub open spec fn web_tools() -> Seq<ToolV> {
    seq![
        web_search_tool(),
        fetch_url_tool(),
        browser_navigate_tool(),
        browser_click_tool(),
        browser_type_tool(),
        browser_evaluate_tool(),
        browser_screenshot_tool(),
        store_memory_tool(),
    ]
}

fn add_web_tools(out: &mut Vec<ToolDefinition>)
    ensures
        tool_views(final(out)@) == tool_views(old(out)@) + web_tools(),
{
    broadcast use tool_views_push;

    out.push(web_search());
    out.push(fetch_url());
    out.push(browser_navigate());
    out.push(browser_click());
    out.push(browser_type());
    out.push(browser_evaluate());
    out.push(browser_screenshot());
    out.push(store_memory());
    assert(tool_views(out@) =~= tool_views(old(out)@) + web_tools());
}

// ---------------------------------------------------------------------------
// The browser, the memory and shells
// ---------------------------------------------------------------------------

pub const STORE_USER_FACT_TOOL: &'static str =
    "Store or update a fact about the user in the global profile.";

/// What `store_user_fact` takes.
pub open spec fn store_user_fact_params() -> Seq<ParamV> {
    seq![
        plain_of(
            "key"@,
            "string"@,
            "Fact key (e.g. 'name', 'preferred_language', 'editor', 'timezone')"@,
        ),
        plain_of("value"@, "string"@, "Fact value"@),
    ]
}

/// The tool `store_user_fact`.
pub open spec fn store_user_fact_tool() -> ToolV {
    tool_of(
        "store_user_fact"@,
        STORE_USER_FACT_TOOL@,
        store_user_fact_params(),
        seq!["key"@, "value"@],
    )
}

fn store_user_fact() -> (r: ToolDefinition)
    ensures
        r@ == store_user_fact_tool(),
{
    let params: Vec<Param> = vec![
        plain(
            "key",
            "string",
            "Fact key (e.g. 'name', 'preferred_language', 'editor', 'timezone')",
        ),
        plain("value", "string", "Fact value"),
    ];
    let required: Vec<&'static str> = vec!["key", "value"];
    assert(param_views(params@) =~= store_user_fact_params());
    assert(text::slice_views(required@) =~= seq!["key"@, "value"@]);
    tool("store_user_fact", STORE_USER_FACT_TOOL, &params, &required)
}

pub const SHELL_SPAWN_TOOL: &'static str =
    "Create a new named persistent shell (e.g. 'shell2', 'build', 'server'). The shell keeps its own cwd and env across multiple shell_exec calls. If a shell with the same name already exists, returns an error - kill it first with shell_kill. Use this when you need a SECOND shell separate from the default (e.g. running a dev server in the background while you work in another shell).";

/// What `shell_spawn` takes.
pub open spec fn shell_spawn_params() -> Seq<ParamV> {
    seq![
        plain_of("name"@, "string"@, "Shell name, e.g. 'shell2'"@),
    ]
}

/// The tool `shell_spawn`.
pub open spec fn shell_spawn_tool() -> ToolV {
    tool_of("shell_spawn"@, SHELL_SPAWN_TOOL@, shell_spawn_params(), seq!["name"@])
}

fn shell_spawn() -> (r: ToolDefinition)
    ensures
        r@ == shell_spawn_tool(),
{
    let params: Vec<Param> = vec![
        plain("name", "string", "Shell name, e.g. 'shell2'"),
    ];
    let required: Vec<&'static str> = vec!["name"];
    assert(param_views(params@) =~= shell_spawn_params());
    assert(text::slice_views(required@) =~= seq!["name"@]);
    tool("shell_spawn", SHELL_SPAWN_TOOL, &params, &required)
}

pub const SHELL_EXEC_TOOL: &'static str =
    "Run a command in a specific named shell. cwd persists across calls. Set run_in_background=true for commands you want to keep running while you do other work (dev servers, log watchers, etc) - the tool returns immediately and you fetch output later with shell_read. Set timeout_secs for synchronous calls (default 45s).";

/// What `shell_exec` takes.
pub open spec fn shell_exec_params() -> Seq<ParamV> {
    seq![
        plain_of("command"@, "string"@, "Shell command to execute"@),
        plain_of(
            "run_in_background"@,
            "boolean"@,
            "Start command in background and return immediately"@,
        ),
        plain_of("shell"@, "string"@, "Shell name (default: 'default'). Auto-creates if missing."@),
        plain_of("timeout_secs"@, "integer"@, "Override default 45s timeout for sync calls"@),
    ]
}

/// The tool `shell_exec`.
pub open spec fn shell_exec_tool() -> ToolV {
    tool_of("shell_exec"@, SHELL_EXEC_TOOL@, shell_exec_params(), seq!["command"@])
}

fn shell_exec() -> (r: ToolDefinition)
    ensures
        r@ == shell_exec_tool(),
{
    let params: Vec<Param> = vec![
        plain("command", "string", "Shell command to execute"),
        plain("run_in_background", "boolean", "Start command in background and return immediately"),
        plain("shell", "string", "Shell name (default: 'default'). Auto-creates if missing."),
        plain("timeout_secs", "integer", "Override default 45s timeout for sync calls"),
    ];
    let required: Vec<&'static str> = vec!["command"];
    assert(param_views(params@) =~= shell_exec_params());
    assert(text::slice_views(required@) =~= seq!["command"@]);
    tool("shell_exec", SHELL_EXEC_TOOL, &params, &required)
}

pub const SHELL_READ_TOOL: &'static str =
    "Read accumulated output from a shell's background process + buffer. Use after starting a background command with shell_exec to check its progress.";

/// What `shell_read` takes.
pub open spec fn shell_read_params() -> Seq<ParamV> {
    seq![
        plain_of("clear"@, "boolean"@, "Clear the buffer after reading"@),
        plain_of("shell"@, "string"@, "Shell name (default: 'default')"@),
    ]
}

/// The tool `shell_read`.
pub open spec fn shell_read_tool() -> ToolV {
    tool_of("shell_read"@, SHELL_READ_TOOL@, shell_read_params(), Seq::empty())
}

fn shell_read() -> (r: ToolDefinition)
    ensures
        r@ == shell_read_tool(),
{
    let params: Vec<Param> = vec![
        plain("clear", "boolean", "Clear the buffer after reading"),
        plain("shell", "string", "Shell name (default: 'default')"),
    ];
    let required: Vec<&'static str> = Vec::new();
    assert(param_views(params@) =~= shell_read_params());
    assert(text::slice_views(required@) =~= Seq::<Seq<char>>::empty());
    tool("shell_read", SHELL_READ_TOOL, &params, &required)
}

pub const SHELL_KILL_TOOL: &'static str =
    "Terminate a named shell and its background process. Use when you're done with a dev server or want to reclaim a shell name.";

/// What `shell_kill` takes.
pub open spec fn shell_kill_params() -> Seq<ParamV> {
    seq![
        plain_of("name"@, "string"@, "Shell name to kill"@),
    ]
}

/// The tool `shell_kill`.
pub open spec fn shell_kill_tool() -> ToolV {
    tool_of("shell_kill"@, SHELL_KILL_TOOL@, shell_kill_params(), seq!["name"@])
}

fn shell_kill() -> (r: ToolDefinition)
    ensures
        r@ == shell_kill_tool(),
{
    let params: Vec<Param> = vec![
        plain("name", "string", "Shell name to kill"),
    ];
    let required: Vec<&'static str> = vec!["name"];
    assert(param_views(params@) =~= shell_kill_params());
    assert(text::slice_views(required@) =~= seq!["name"@]);
    tool("shell_kill", SHELL_KILL_TOOL, &params, &required)
}

pub const SHELL_LIST_TOOL: &'static str =
    "List all active shells with their cwd, background state, and buffer size.";

/// The tool `shell_list`.
pub open spec fn shell_list_tool() -> ToolV {
    tool_of("shell_list"@, SHELL_LIST_TOOL@, Seq::empty(), Seq::empty())
}

fn shell_list() -> (r: ToolDefinition)
    ensures
        r@ == shell_list_tool(),
{
    let params: Vec<Param> = Vec::new();
    let required: Vec<&'static str> = Vec::new();
    assert(param_views(params@) =~= Seq::<ParamV>::empty());
    assert(text::slice_views(required@) =~= Seq::<Seq<char>>::empty());
    tool("shell_list", SHELL_LIST_TOOL, &params, &required)
}

pub const OUTLINE_FILE_TOOL: &'static str =
    "Return a symbolic outline of a source file - function names, class names, imports - with their line numbers. Much cheaper than file_read when you only need to understand a file's structure for navigation. Supports Rust, JS, TS, Python, Go.";

/// What `outline_file` takes.
pub open spec fn outline_file_params() -> Seq<ParamV> {
    seq![
        plain_of("path"@, "string"@, "Path to source file"@),
    ]
}

/// The tool `outline_file`.
pub open spec fn outline_file_tool() -> ToolV {
    tool_of("outline_file"@, OUTLINE_FILE_TOOL@, outline_file_params(), seq!["path"@])
}

fn outline_file() -> (r: ToolDefinition)
    ensures
        r@ == outline_file_tool(),
{
    let params: Vec<Param> = vec![
        plain("path", "string", "Path to source file"),
    ];
    let required: Vec<&'static str> = vec!["path"];
    assert(param_views(params@) =~= outline_file_params());
    assert(text::slice_views(required@) =~= seq!["path"@]);
    tool("outline_file", OUTLINE_FILE_TOOL, &params, &required)
}

pub const SEARCH_IN_FILE_TOOL: &'static str =
    "Search for a regex pattern within a single file and return matching lines with surrounding context. Use this instead of grep when you already know which file to search.";

/// What `search_in_file` takes.
pub open spec fn search_in_file_params() -> Seq<ParamV> {
    seq![
        bare_of("case_insensitive"@, "boolean"@),
        plain_of("context"@, "integer"@, "Lines of context around each match (default 2)"@),
        plain_of("path"@, "string"@, "File to search"@),
        plain_of("pattern"@, "string"@, "Regex pattern"@),
    ]
}

/// The tool `search_in_file`.
pub open spec fn search_in_file_tool() -> ToolV {
    tool_of(
        "search_in_file"@,
        SEARCH_IN_FILE_TOOL@,
        search_in_file_params(),
        seq!["path"@, "pattern"@],
    )
}

fn search_in_file() -> (r: ToolDefinition)
    ensures
        r@ == search_in_file_tool(),
{
    let params: Vec<Param> = vec![
        bare("case_insensitive", "boolean"),
        plain("context", "integer", "Lines of context around each match (default 2)"),
        plain("path", "string", "File to search"),
        plain("pattern", "string", "Regex pattern"),
    ];
    let required: Vec<&'static str> = vec!["path", "pattern"];
    assert(param_views(params@) =~= search_in_file_params());
    assert(text::slice_views(required@) =~= seq!["path"@, "pattern"@]);
    tool("search_in_file", SEARCH_IN_FILE_TOOL, &params, &required)
}

/// The browser, the memory and shells.
pub open spec fn browser_tools() -> Seq<ToolV> {
    seq![
        store_user_fact_tool(),
        shell_spawn_tool(),
        shell_exec_tool(),
        shell_read_tool(),
        shell_kill_tool(),
        shell_list_tool(),
        outline_file_tool(),
        search_in_file_tool(),
    ]
}

fn add_browser_tools(out: &mut Vec<ToolDefinition>)
    ensures
        tool_views(final(out)@) == tool_views(old(out)@) + browser_tools(),
{
    broadcast use tool_views_push;

    out.push(store_user_fact());
    out.push(shell_spawn());
    out.push(shell_exec());
    out.push(shell_read());
    out.push(shell_kill());
    out.push(shell_list());
    out.push(outline_file());
    out.push(search_in_file());
    assert(tool_views(out@) =~= tool_views(old(out)@) + browser_tools());
}

// ---------------------------------------------------------------------------
// Shells, and reading and undoing code
// ---------------------------------------------------------------------------

pub const FILE_DIFF_TOOL: &'static str =
    "Show a unified diff of what's changed in a file since the first read/edit in THIS conversation. Use this to verify what your edits actually did.";

/// What `file_diff` takes.
pub open spec fn file_diff_params() -> Seq<ParamV> {
    seq![
        plain_of("path"@, "string"@, "File to diff"@),
    ]
}

/// The tool `file_diff`.
pub open spec fn file_diff_tool() -> ToolV {
    tool_of("file_diff"@, FILE_DIFF_TOOL@, file_diff_params(), seq!["path"@])
}

fn file_diff() -> (r: ToolDefinition)
    ensures
        r@ == file_diff_tool(),
{
    let params: Vec<Param> = vec![
        plain("path", "string", "File to diff"),
    ];
    let required: Vec<&'static str> = vec!["path"];
    assert(param_views(params@) =~= file_diff_params());
    assert(text::slice_views(required@) =~= seq!["path"@]);
    tool("file_diff", FILE_DIFF_TOOL, &params, &required)
}

pub const FILE_UNDO_TOOL: &'static str =
    "Restore a file to its state from the start of this conversation (from the snapshot taken on first read/edit). Use when an edit went wrong.";

/// What `file_undo` takes.
pub open spec fn file_undo_params() -> Seq<ParamV> {
    seq![
        plain_of("path"@, "string"@, "File to restore"@),
    ]
}

/// The tool `file_undo`.
pub open spec fn file_undo_tool() -> ToolV {
    tool_of("file_undo"@, FILE_UNDO_TOOL@, file_undo_params(), seq!["path"@])
}

fn file_undo() -> (r: ToolDefinition)
    ensures
        r@ == file_undo_tool(),
{
    let params: Vec<Param> = vec![
        plain("path", "string", "File to restore"),
    ];
    let required: Vec<&'static str> = vec!["path"];
    assert(param_views(params@) =~= file_undo_params());
    assert(text::slice_views(required@) =~= seq!["path"@]);
    tool("file_undo", FILE_UNDO_TOOL, &params, &required)
}

pub const LSP_DEFINITION_TOOL: &'static str =
    "Go to the definition of the symbol at a given line and column. Returns the file path and line number of the definition. Requires a language server (rust-analyzer, typescript-language-server, pylsp) on PATH.";

/// What `lsp_definition` takes.
pub open spec fn lsp_definition_params() -> Seq<ParamV> {
    seq![
        plain_of("character"@, "integer"@, "0-based column number"@),
        plain_of("line"@, "integer"@, "0-based line number"@),
        plain_of("path"@, "string"@, "Source file path"@),
    ]
}

/// The tool `lsp_definition`.
pub open spec fn lsp_definition_tool() -> ToolV {
    tool_of(
        "lsp_definition"@,
        LSP_DEFINITION_TOOL@,
        lsp_definition_params(),
        seq!["path"@, "line"@, "character"@],
    )
}

fn lsp_definition() -> (r: ToolDefinition)
    ensures
        r@ == lsp_definition_tool(),
{
    let params: Vec<Param> = vec![
        plain("character", "integer", "0-based column number"),
        plain("line", "integer", "0-based line number"),
        plain("path", "string", "Source file path"),
    ];
    let required: Vec<&'static str> = vec!["path", "line", "character"];
    assert(param_views(params@) =~= lsp_definition_params());
    assert(text::slice_views(required@) =~= seq!["path"@, "line"@, "character"@]);
    tool("lsp_definition", LSP_DEFINITION_TOOL, &params, &required)
}

pub const LSP_REFERENCES_TOOL: &'static str =
    "Find all references to the symbol at a given position. Returns file:line:col for each reference.";

/// What `lsp_references` takes.
pub open spec fn lsp_references_params() -> Seq<ParamV> {
    seq![
        plain_of("character"@, "integer"@, "0-based column number"@),
        plain_of("line"@, "integer"@, "0-based line number"@),
        plain_of("path"@, "string"@, "Source file path"@),
    ]
}

/// The tool `lsp_references`.
pub open spec fn lsp_references_tool() -> ToolV {
    tool_of(
        "lsp_references"@,
        LSP_REFERENCES_TOOL@,
        lsp_references_params(),
        seq!["path"@, "line"@, "character"@],
    )
}

fn lsp_references() -> (r: ToolDefinition)
    ensures
        r@ == lsp_references_tool(),
{
    let params: Vec<Param> = vec![
        plain("character", "integer", "0-based column number"),
        plain("line", "integer", "0-based line number"),
        plain("path", "string", "Source file path"),
    ];
    let required: Vec<&'static str> = vec!["path", "line", "character"];
    assert(param_views(params@) =~= lsp_references_params());
    assert(text::slice_views(required@) =~= seq!["path"@, "line"@, "character"@]);
    tool("lsp_references", LSP_REFERENCES_TOOL, &params, &required)
}

pub const LSP_HOVER_TOOL: &'static str =
    "Get type information and documentation for the symbol at a given position.";

/// What `lsp_hover` takes.
pub open spec fn lsp_hover_params() -> Seq<ParamV> {
    seq![
        plain_of("character"@, "integer"@, "0-based column number"@),
        plain_of("line"@, "integer"@, "0-based line number"@),
        plain_of("path"@, "string"@, "Source file path"@),
    ]
}

/// The tool `lsp_hover`.
pub open spec fn lsp_hover_tool() -> ToolV {
    tool_of("lsp_hover"@, LSP_HOVER_TOOL@, lsp_hover_params(), seq!["path"@, "line"@, "character"@])
}

fn lsp_hover() -> (r: ToolDefinition)
    ensures
        r@ == lsp_hover_tool(),
{
    let params: Vec<Param> = vec![
        plain("character", "integer", "0-based column number"),
        plain("line", "integer", "0-based line number"),
        plain("path", "string", "Source file path"),
    ];
    let required: Vec<&'static str> = vec!["path", "line", "character"];
    assert(param_views(params@) =~= lsp_hover_params());
    assert(text::slice_views(required@) =~= seq!["path"@, "line"@, "character"@]);
    tool("lsp_hover", LSP_HOVER_TOOL, &params, &required)
}

pub const APPLY_PATCH_TOOL: &'static str =
    "Apply a unified diff patch to a file. Pass the file path and the patch text in standard unified diff format (@@-hunk style). Snapshots the file first so file_undo still works. Use this instead of code_edit when you have a pre-computed diff.";

/// What `apply_patch` takes.
pub open spec fn apply_patch_params() -> Seq<ParamV> {
    seq![
        plain_of(
            "patch"@,
            "string"@,
            "Unified diff text (@@-hunk format, optionally with --- +++ header)"@,
        ),
        plain_of("path"@, "string"@, "File to patch"@),
    ]
}

/// The tool `apply_patch`.
pub open spec fn apply_patch_tool() -> ToolV {
    tool_of("apply_patch"@, APPLY_PATCH_TOOL@, apply_patch_params(), seq!["path"@, "patch"@])
}

fn apply_patch() -> (r: ToolDefinition)
    ensures
        r@ == apply_patch_tool(),
{
    let params: Vec<Param> = vec![
        plain(
            "patch",
            "string",
            "Unified diff text (@@-hunk format, optionally with --- +++ header)",
        ),
        plain("path", "string", "File to patch"),
    ];
    let required: Vec<&'static str> = vec!["path", "patch"];
    assert(param_views(params@) =~= apply_patch_params());
    assert(text::slice_views(required@) =~= seq!["path"@, "patch"@]);
    tool("apply_patch", APPLY_PATCH_TOOL, &params, &required)
}

/// Shells, and reading and undoing code.
pub open spec fn code_tools() -> Seq<ToolV> {
    seq![
        file_diff_tool(),
        file_undo_tool(),
        lsp_definition_tool(),
        lsp_references_tool(),
        lsp_hover_tool(),
        apply_patch_tool(),
    ]
}

fn add_code_tools(out: &mut Vec<ToolDefinition>)
    ensures
        tool_views(final(out)@) == tool_views(old(out)@) + code_tools(),
{
    broadcast use tool_views_push;

    out.push(file_diff());
    out.push(file_undo());
    out.push(lsp_definition());
    out.push(lsp_references());
    out.push(lsp_hover());
    out.push(apply_patch());
    assert(tool_views(out@) =~= tool_views(old(out)@) + code_tools());
}

/// All tools that a team may use.
pub open spec fn team_tools() -> Seq<ToolV> {
    desktop_tools() + file_tools() + edit_tools() + web_tools() + browser_tools() + code_tools()
}

/// All tools that a team may use.
pub fn build_all_tools() -> (r: Vec<ToolDefinition>)
    ensures
        tool_views(r@) == team_tools(),
{
    let mut out: Vec<ToolDefinition> = Vec::new();
    assert(tool_views(out@) =~= Seq::empty());
    add_desktop_tools(&mut out);
    add_file_tools(&mut out);
    add_edit_tools(&mut out);
    add_web_tools(&mut out);
    add_browser_tools(&mut out);
    add_code_tools(&mut out);
    assert(tool_views(out@) =~= team_tools());
    out
}

} // verus!
