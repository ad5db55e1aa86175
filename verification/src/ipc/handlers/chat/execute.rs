//! The tools at work: what a call of a tool asks for, and what is answered.

use crate::ipc::handlers::chat::modes::{arg, arg_text};
use crate::json::{Json, JsonV};
use crate::llm::types::text_view;
use crate::text;
use vstd::prelude::*;

verus! {

/// A text of the arguments, or a default.
pub open spec fn arg_or(args: JsonV, key: Seq<char>, default: Seq<char>) -> Seq<char> {
    match args.text_at(key) {
        Some(t) => t,
        None => default,
    }
}

/// A text of the arguments, or a default.
pub fn arg_text_or(args: &Json, key: &str, default: &str) -> (r: String)
    ensures
        r@ == arg_or(args@, key@, default@),
{
    match args.text_at(key) {
        Some(t) => t,
        None => default.to_owned(),
    }
}

/// A truth value of the arguments, or false.
pub open spec fn flag(args: JsonV, key: Seq<char>) -> bool {
    match args.bool_at(key) {
        Some(b) => b,
        None => false,
    }
}

fn arg_flag(args: &Json, key: &str) -> (r: bool)
    ensures
        r == flag(args@, key@),
{
    match args.bool_at(key) {
        Some(b) => b,
        None => false,
    }
}

/// A number of the arguments, or a default.
pub open spec fn number_or(args: JsonV, key: Seq<char>, default: u64) -> u64 {
    match args.unsigned_at(key) {
        Some(n) => n,
        None => default,
    }
}

fn arg_number_or(args: &Json, key: &str, default: u64) -> (r: u64)
    ensures
        r == number_or(args@, key@, default),
{
    match args.unsigned_at(key) {
        Some(n) => n,
        None => default,
    }
}

/// The lower half of a number.
pub open spec fn low_bits(n: u64) -> u32 {
    (n % 0x1_0000_0000) as u32
}

fn to_low_bits(n: u64) -> (r: u32)
    ensures
        r == low_bits(n),
{
    (n % 0x1_0000_0000) as u32
}

/// A directory, or the current one.
pub open spec fn dir_or_here(path: Seq<char>) -> Seq<char> {
    if path.len() == 0 {
        "."@
    } else {
        path
    }
}

fn here_if_empty(path: String) -> (r: String)
    ensures
        r@ == dir_or_here(path@),
{
    if path.as_str().is_empty() {
        ".".to_owned()
    } else {
        path
    }
}

/// The texts in a list of values.
pub open spec fn texts_in(items: Seq<JsonV>) -> Seq<Seq<char>>
    decreases items.len(),
{
    if items.len() == 0 {
        Seq::empty()
    } else {
        let before = texts_in(items.drop_last());
        match items.last().as_text() {
            Some(t) => before.push(t),
            None => before,
        }
    }
}

/// The files that a commit is to hold: those that are named, or all.
pub open spec fn commit_files(args: JsonV) -> Seq<Seq<char>> {
    match args.get("files"@) {
        Some(JsonV::List(items)) => texts_in(items),
        _ => seq!["."@],
    }
}

fn files_to_commit(args: &Json) -> (r: Vec<String>)
    ensures
        text::views(r@) == commit_files(args@),
{
    broadcast use text::views_push;

    let mut out: Vec<String> = Vec::new();
    match args.get("files") {
        Some(Json::List(items)) => {
            let ghost all = args@.get("files"@)->0->List_0;
            assert(all.take(0) =~= Seq::empty());
            for i in 0..items.len()
                invariant
                    all.len() == items@.len(),
                    forall|j: int| 0 <= j < all.len() ==> #[trigger] all[j] == items@[j]@,
                    text::views(out@) == texts_in(all.take(i as int)),
            {
                assert(all.take(i + 1).drop_last() =~= all.take(i as int));
                assert(all.take(i + 1).last() == items@[i as int]@);
                if let Some(t) = items[i].as_text() {
                    out.push(t.clone());
                }
            }
            assert(all.take(all.len() as int) =~= all);
        },
        _ => {
            out.push(".".to_owned());
            assert(text::views(out@) =~= seq!["."@]);
        },
    }
    out
}

/// How a file is edited.
#[derive(Debug)]
pub enum Edit {
    SearchReplace { search: String, replace: String },
    InsertAtLine { line: u64, content: String },
    Append { content: String },
    /// In a way that is not known.
    Unknown { action: String },
}

/// The edit that a call asks for.
pub open spec fn asks_edit(args: JsonV, e: Edit) -> bool {
    let action = arg(args, "action"@);
    if action == "search_replace"@ {
        e matches Edit::SearchReplace { search, replace } && search@ == arg(args, "search"@)
            && replace@ == arg(args, "replace"@)
    } else if action == "insert_at_line"@ {
        e matches Edit::InsertAtLine { line, content } && line == number_or(args, "line"@, 1)
            && content@ == arg(args, "content"@)
    } else if action == "append"@ {
        e matches Edit::Append { content } && content@ == arg(args, "content"@)
    } else {
        e matches Edit::Unknown { action: a } && a@ == action
    }
}

fn edit_asked(args: &Json) -> (r: Edit)
    ensures
        asks_edit(args@, r),
{
    let action = arg_text(args, "action");
    if text::same(&action, "search_replace") {
        Edit::SearchReplace {
            search: arg_text(args, "search"),
            replace: arg_text(args, "replace"),
        }
    } else if text::same(&action, "insert_at_line") {
        Edit::InsertAtLine {
            line: arg_number_or(args, "line", 1),
            content: arg_text(args, "content"),
        }
    } else if text::same(&action, "append") {
        Edit::Append { content: arg_text(args, "content") }
    } else {
        Edit::Unknown { action }
    }
}

/// What a call of a tool asks for.
#[derive(Debug)]
#[allow(inconsistent_fields)]
pub enum ToolPlan {
    /// The answer is known.
    Reply { answer: String },
    /// What is known on a query is looked up, at most `limit` things out of a pool.
    SearchMemory { query: String, limit: u64, pool: u64 },
    /// A file is edited.
    CodeEdit { path: String, edit: Edit },
    /// A file is read, from a line on and for so many lines.
    FileRead { path: String, offset: u64, limit: Option<u64> },
    /// A directory is listed.
    ListFiles { path: String, recursive: bool, pattern: String },
    /// The working directory changes.
    ChangeDir { path: String },
    /// The working directory is told.
    GetCwd,
    /// A file is written.
    FileWrite { path: String, content: String },
    /// A command is run in a shell, in the working directory.
    Terminal { shell: String, command: String, background: bool, timeout_secs: Option<u64> },
    /// The files that a glob stands for are listed.
    Glob { pattern: String, base: String },
    /// Files are searched.
    Grep {
        pattern: String,
        path: String,
        glob: String,
        output: String,
        case_insensitive: bool,
        max_results: u64,
    },
    /// One file is searched.
    SearchInFile { path: String, pattern: String, context: u64, case_insensitive: bool },
    /// A file is outlined.
    OutlineFile { path: String },
    /// What the conversation changed in a file is shown.
    FileDiff { path: String },
    /// The last edit of a file is undone.
    FileUndo { path: String },
    /// A diff is applied to a file.
    ApplyPatch { path: String, patch: String },
    /// A shell is started.
    ShellSpawn { name: String },
    /// A command is run in a shell.
    ShellExec { shell: String, command: String, background: bool, timeout_secs: Option<u64> },
    /// The output of a shell is read.
    ShellRead { shell: String, clear: bool },
    /// A shell is ended.
    ShellKill { name: String },
    /// The shells are listed.
    ShellList,
    /// The state of the working tree.
    GitStatus,
    /// What has changed, in one file or in all.
    GitDiff { file: Option<String> },
    /// The last commits.
    GitLog { count: u64 },
    /// The branches.
    GitBranch,
    /// Where a symbol is defined.
    LspDefinition { path: String, line: u32, character: u32 },
    /// Where a symbol is used.
    LspReferences { path: String, line: u32, character: u32 },
    /// What is known of a symbol.
    LspHover { path: String, line: u32, character: u32 },
    /// Files are committed.
    GitCommit { message: String, files: Vec<String> },
    /// The web is searched.
    WebSearch { query: String },
    /// A page is fetched.
    FetchUrl { url: String },
    /// The browser opens a page.
    BrowserNavigate { url: String },
    /// The browser clicks on an element.
    BrowserClick { selector: String },
    /// The browser types into an element.
    BrowserType { selector: String, text: String },
    /// The browser runs a script.
    BrowserEvaluate { js: String },
    /// The browser takes a picture.
    BrowserScreenshot { full_page: bool },
    /// Something is remembered.
    StoreMemory { content: String, category: String },
    /// A fact about the user is kept.
    StoreUserFact { key: String, value: String },
    /// A window is described.
    UiSnapshot { window: String, include_offscreen: bool },
    /// An element is clicked.
    UiClick { element_id: String },
    /// A text is typed into an element.
    UiType { element_id: String, text: String },
    /// A window is brought to the front.
    UiFocusWindow { title: String },
    /// An element is looked for.
    UiFind { query: String },
    /// A task is proposed for later.
    Schedule { name: String, cadence: String, prompt: String, channel: String, why: Option<String> },
    /// The tasks for later are listed.
    ListSchedules,
    /// A task for later is given up.
    CancelSchedule { id: String },
}

/// The answer is known.
pub open spec fn replies(p: ToolPlan, answer: Seq<char>) -> bool {
    p matches ToolPlan::Reply { answer: a } && a@ == answer
}

fn reply(answer: &str) -> (r: ToolPlan)
    ensures
        replies(r, answer@),
{
    ToolPlan::Reply { answer: answer.to_owned() }
}

/// How many things are looked up: as many as asked for, up to fifteen.
pub open spec fn most(limit: Option<u64>) -> u64 {
    match limit {
        Some(n) => if n < 15 {
            n
        } else {
            15
        },
        None => 5,
    }
}

/// From how many things those that are looked up are taken: four times as many.
pub fn search_pool(limit: u64) -> (r: u64)
    requires
        4 * limit <= u64::MAX,
    ensures
        r == 4 * limit,
{
    4 * limit
}

/// What a call of a tool by its name asks for.
pub open spec fn asks(name: Seq<char>, args: JsonV, p: ToolPlan) -> bool {
    if name == "search_memory"@ {
        if text::blank(arg(args, "query"@)) {
            replies(p, "search_memory: query is required"@)
        } else {
            p matches ToolPlan::SearchMemory { query, limit, pool } && query@ == arg(
                args,
                "query"@,
            ) && limit == most(args.unsigned_at("limit"@)) && pool == 4 * limit
        }
    } else if name == "code_edit"@ {
        p matches ToolPlan::CodeEdit { path, edit } && path@ == arg(args, "path"@) && asks_edit(
            args,
            edit,
        )
    } else if name == "file_read"@ {
        p matches ToolPlan::FileRead { path, offset, limit }
            && path@ == arg(args, "path"@) && offset == number_or(args, "offset"@, 0)
            && limit == args.unsigned_at("limit"@)
    } else if name == "list_files"@ {
        p matches ToolPlan::ListFiles { path, recursive, pattern }
            && path@ == dir_or_here(arg(args, "path"@)) && recursive == flag(args, "recursive"@)
            && pattern@ == arg(args, "pattern"@)
    } else if name == "change_dir"@ {
        if arg(args, "path"@).len() == 0 {
            replies(p, "Error: path is required"@)
        } else {
            p matches ToolPlan::ChangeDir { path } && path@ == arg(args, "path"@)
        }
    } else if name == "get_cwd"@ {
        p is GetCwd
    } else if name == "file_write"@ {
        p matches ToolPlan::FileWrite { path, content }
            && path@ == arg(args, "path"@) && content@ == arg(args, "content"@)
    } else if name == "terminal_execute"@ {
        if arg(args, "command"@).len() == 0 {
            replies(p, "Error: command is required"@)
        } else {
            p matches ToolPlan::Terminal { shell, command, background, timeout_secs }
                && shell@ == arg_or(args, "shell"@, "default"@) && command@ == arg(args, "command"@)
                && background == flag(args, "run_in_background"@)
                && timeout_secs == args.unsigned_at("timeout_secs"@)
        }
    } else if name == "glob"@ {
        if arg(args, "pattern"@).len() == 0 {
            replies(p, "Error: pattern is required"@)
        } else {
            p matches ToolPlan::Glob { pattern, base }
                && pattern@ == arg(args, "pattern"@) && base@ == arg_or(args, "path"@, "."@)
        }
    } else if name == "grep"@ {
        if arg(args, "pattern"@).len() == 0 {
            replies(p, "Error: pattern is required"@)
        } else {
            p matches ToolPlan::Grep { pattern, path, glob, output, case_insensitive, max_results }
                && pattern@ == arg(args, "pattern"@) && path@ == arg_or(args, "path"@, "."@)
                && glob@ == arg(args, "glob"@) && output@ == arg_or(args, "output"@, "files"@)
                && case_insensitive == flag(args, "case_insensitive"@)
                && max_results == number_or(args, "max_results"@, 200)
        }
    } else if name == "search_in_file"@ {
        if arg(args, "path"@).len() == 0 || arg(args, "pattern"@).len() == 0 {
            replies(p, "Error: path and pattern are required"@)
        } else {
            p matches ToolPlan::SearchInFile { path, pattern, context, case_insensitive }
                && path@ == arg(args, "path"@) && pattern@ == arg(args, "pattern"@)
                && context == number_or(args, "context"@, 2)
                && case_insensitive == flag(args, "case_insensitive"@)
        }
    } else if name == "outline_file"@ {
        if arg(args, "path"@).len() == 0 {
            replies(p, "Error: path is required"@)
        } else {
            p matches ToolPlan::OutlineFile { path } && path@ == arg(args, "path"@)
        }
    } else if name == "file_diff"@ {
        if arg(args, "path"@).len() == 0 {
            replies(p, "Error: path is required"@)
        } else {
            p matches ToolPlan::FileDiff { path } && path@ == arg(args, "path"@)
        }
    } else if name == "file_undo"@ {
        if arg(args, "path"@).len() == 0 {
            replies(p, "Error: path is required"@)
        } else {
            p matches ToolPlan::FileUndo { path } && path@ == arg(args, "path"@)
        }
    } else if name == "apply_patch"@ {
        if arg(args, "path"@).len() == 0 || arg(args, "patch"@).len() == 0 {
            replies(p, "Error: both path and patch are required"@)
        } else {
            p matches ToolPlan::ApplyPatch { path, patch }
                && path@ == arg(args, "path"@) && patch@ == arg(args, "patch"@)
        }
    } else if name == "shell_spawn"@ {
        p matches ToolPlan::ShellSpawn { name } && name@ == arg_or(args, "name"@, "shell1"@)
    } else if name == "shell_exec"@ {
        if arg(args, "command"@).len() == 0 {
            replies(p, "Error: command is required"@)
        } else {
            p matches ToolPlan::ShellExec { shell, command, background, timeout_secs }
                && shell@ == arg_or(args, "shell"@, "default"@) && command@ == arg(args, "command"@)
                && background == flag(args, "run_in_background"@)
                && timeout_secs == args.unsigned_at("timeout_secs"@)
        }
    } else if name == "shell_read"@ {
        p matches ToolPlan::ShellRead { shell, clear }
            && shell@ == arg_or(args, "shell"@, "default"@) && clear == flag(args, "clear"@)
    } else if name == "shell_kill"@ {
        p matches ToolPlan::ShellKill { name } && name@ == arg_or(args, "name"@, "default"@)
    } else if name == "shell_list"@ {
        p is ShellList
    } else if name == "git_status"@ {
        p is GitStatus
    } else if name == "git_diff"@ {
        p matches ToolPlan::GitDiff { file } && text_view(file) == args.text_at("file"@)
    } else if name == "git_log"@ {
        p matches ToolPlan::GitLog { count } && count == number_or(args, "count"@, 10)
    } else if name == "git_branch"@ {
        p is GitBranch
    } else if name == "lsp_definition"@ {
        if arg(args, "path"@).len() == 0 {
            replies(p, "Error: path is required"@)
        } else {
            p matches ToolPlan::LspDefinition { path, line, character }
                && path@ == arg(args, "path"@) && line == low_bits(number_or(args, "line"@, 0))
                && character == low_bits(number_or(args, "character"@, 0))
        }
    } else if name == "lsp_references"@ {
        if arg(args, "path"@).len() == 0 {
            replies(p, "Error: path is required"@)
        } else {
            p matches ToolPlan::LspReferences { path, line, character }
                && path@ == arg(args, "path"@) && line == low_bits(number_or(args, "line"@, 0))
                && character == low_bits(number_or(args, "character"@, 0))
        }
    } else if name == "lsp_hover"@ {
        if arg(args, "path"@).len() == 0 {
            replies(p, "Error: path is required"@)
        } else {
            p matches ToolPlan::LspHover { path, line, character }
                && path@ == arg(args, "path"@) && line == low_bits(number_or(args, "line"@, 0))
                && character == low_bits(number_or(args, "character"@, 0))
        }
    } else if name == "git_commit"@ {
        if arg(args, "message"@).len() == 0 {
            replies(p, "Error: message is required"@)
        } else {
            p matches ToolPlan::GitCommit { message, files }
                && message@ == arg(args, "message"@) && text::views(files@) == commit_files(args)
        }
    } else if name == "web_search"@ {
        p matches ToolPlan::WebSearch { query } && query@ == arg(args, "query"@)
    } else if name == "fetch_url"@ {
        p matches ToolPlan::FetchUrl { url } && url@ == arg(args, "url"@)
    } else if name == "browser_navigate"@ {
        p matches ToolPlan::BrowserNavigate { url } && url@ == arg(args, "url"@)
    } else if name == "browser_click"@ {
        p matches ToolPlan::BrowserClick { selector } && selector@ == arg(args, "selector"@)
    } else if name == "browser_type"@ {
        p matches ToolPlan::BrowserType { selector, text }
            && selector@ == arg(args, "selector"@) && text@ == arg(args, "text"@)
    } else if name == "browser_evaluate"@ {
        p matches ToolPlan::BrowserEvaluate { js } && js@ == arg(args, "js"@)
    } else if name == "browser_screenshot"@ {
        p matches ToolPlan::BrowserScreenshot { full_page } && full_page == flag(args, "full_page"@)
    } else if name == "store_memory"@ {
        if arg(args, "content"@).len() == 0 {
            replies(p, "Error: content is required"@)
        } else {
            p matches ToolPlan::StoreMemory { content, category }
                && content@ == arg(args, "content"@)
                && category@ == arg_or(args, "category"@, "general"@)
        }
    } else if name == "store_user_fact"@ {
        if arg(args, "key"@).len() == 0 || arg(args, "value"@).len() == 0 {
            replies(p, "Error: both key and value are required"@)
        } else {
            p matches ToolPlan::StoreUserFact { key, value }
                && key@ == arg(args, "key"@) && value@ == arg(args, "value"@)
        }
    } else if name == "ui_snapshot"@ {
        p matches ToolPlan::UiSnapshot { window, include_offscreen }
            && window@ == arg(args, "window"@)
            && include_offscreen == flag(args, "include_offscreen"@)
    } else if name == "ui_click"@ {
        p matches ToolPlan::UiClick { element_id } && element_id@ == arg(args, "element_id"@)
    } else if name == "ui_type"@ {
        p matches ToolPlan::UiType { element_id, text }
            && element_id@ == arg(args, "element_id"@) && text@ == arg(args, "text"@)
    } else if name == "ui_focus_window"@ {
        p matches ToolPlan::UiFocusWindow { title } && title@ == arg(args, "title"@)
    } else if name == "ui_find"@ {
        p matches ToolPlan::UiFind { query } && query@ == arg(args, "query"@)
    } else if name == "schedule_task"@ || name == "propose_schedule"@ {
        if arg(args, "name"@).len() == 0 || arg(args, "cadence"@).len() == 0
            || arg(args, "prompt"@).len() == 0 {
            replies(p, "schedule_task: name, cadence, and prompt are required"@)
        } else {
            p matches ToolPlan::Schedule { name, cadence, prompt, channel, why }
                && name@ == arg(args, "name"@) && cadence@ == arg(args, "cadence"@)
                && prompt@ == arg(args, "prompt"@)
                && channel@ == arg_or(args, "output_channel"@, "notification"@)
                && text_view(why) == args.text_at("why"@)
        }
    } else if name == "list_schedules"@ {
        p is ListSchedules
    } else if name == "cancel_schedule"@ {
        p matches ToolPlan::CancelSchedule { id } && id@ == arg(args, "id"@)
    } else {
        replies(p, "Unknown tool: "@ + name)
    }
}

fn empty_arg(args: &Json, key: &str) -> (r: bool)
    ensures
        r == (arg(args@, key@).len() == 0),
{
    arg_text(args, key).as_str().is_empty()
}

/// What a call of a tool asks for, with a default for what it leaves out; or
/// the answer where it leaves out what is needed, or names no known tool.
pub fn execute_tool(name: &str, args: &Json) -> (r: ToolPlan)
    ensures
        asks(name@, args@, r),
{
    if text::same(name, "search_memory") {
        let query = arg_text(args, "query");
        if text::is_blank(&query) {
            return reply("search_memory: query is required");
        }
        let limit: u64 = match args.unsigned_at("limit") {
            Some(n) => if n < 15 {
                n
            } else {
                15
            },
            None => 5,
        };
        return ToolPlan::SearchMemory { query, limit, pool: search_pool(limit) };
    }
    if text::same(name, "code_edit") {
        return ToolPlan::CodeEdit { path: arg_text(args, "path"), edit: edit_asked(args) };
    }
    if text::same(name, "file_read") {
        return ToolPlan::FileRead {
            path: arg_text(args, "path"),
            offset: arg_number_or(args, "offset", 0),
            limit: args.unsigned_at("limit"),
        };
    }
    if text::same(name, "list_files") {
        return ToolPlan::ListFiles {
            path: here_if_empty(arg_text(args, "path")),
            recursive: arg_flag(args, "recursive"),
            pattern: arg_text(args, "pattern"),
        };
    }
    if text::same(name, "change_dir") {
        if empty_arg(args, "path") {
            return reply("Error: path is required");
        }
        return ToolPlan::ChangeDir {
            path: arg_text(args, "path"),
        };
    }
    if text::same(name, "get_cwd") {
        return ToolPlan::GetCwd;
    }
    if text::same(name, "file_write") {
        return ToolPlan::FileWrite {
            path: arg_text(args, "path"),
            content: arg_text(args, "content"),
        };
    }
    if text::same(name, "terminal_execute") {
        if empty_arg(args, "command") {
            return reply("Error: command is required");
        }
        return ToolPlan::Terminal {
            shell: arg_text_or(args, "shell", "default"),
            command: arg_text(args, "command"),
            background: arg_flag(args, "run_in_background"),
            timeout_secs: args.unsigned_at("timeout_secs"),
        };
    }
    if text::same(name, "glob") {
        if empty_arg(args, "pattern") {
            return reply("Error: pattern is required");
        }
        return ToolPlan::Glob {
            pattern: arg_text(args, "pattern"),
            base: arg_text_or(args, "path", "."),
        };
    }
    if text::same(name, "grep") {
        if empty_arg(args, "pattern") {
            return reply("Error: pattern is required");
        }
        return ToolPlan::Grep {
            pattern: arg_text(args, "pattern"),
            path: arg_text_or(args, "path", "."),
            glob: arg_text(args, "glob"),
            output: arg_text_or(args, "output", "files"),
            case_insensitive: arg_flag(args, "case_insensitive"),
            max_results: arg_number_or(args, "max_results", 200),
        };
    }
    if text::same(name, "search_in_file") {
        if empty_arg(args, "path") || empty_arg(args, "pattern") {
            return reply("Error: path and pattern are required");
        }
        return ToolPlan::SearchInFile {
            path: arg_text(args, "path"),
            pattern: arg_text(args, "pattern"),
            context: arg_number_or(args, "context", 2),
            case_insensitive: arg_flag(args, "case_insensitive"),
        };
    }
    if text::same(name, "outline_file") {
        if empty_arg(args, "path") {
            return reply("Error: path is required");
        }
        return ToolPlan::OutlineFile {
            path: arg_text(args, "path"),
        };
    }
    if text::same(name, "file_diff") {
        if empty_arg(args, "path") {
            return reply("Error: path is required");
        }
        return ToolPlan::FileDiff {
            path: arg_text(args, "path"),
        };
    }
    if text::same(name, "file_undo") {
        if empty_arg(args, "path") {
            return reply("Error: path is required");
        }
        return ToolPlan::FileUndo {
            path: arg_text(args, "path"),
        };
    }
    if text::same(name, "apply_patch") {
        if empty_arg(args, "path") || empty_arg(args, "patch") {
            return reply("Error: both path and patch are required");
        }
        return ToolPlan::ApplyPatch {
            path: arg_text(args, "path"),
            patch: arg_text(args, "patch"),
        };
    }
    if text::same(name, "shell_spawn") {
        return ToolPlan::ShellSpawn {
            name: arg_text_or(args, "name", "shell1"),
        };
    }
    if text::same(name, "shell_exec") {
        if empty_arg(args, "command") {
            return reply("Error: command is required");
        }
        return ToolPlan::ShellExec {
            shell: arg_text_or(args, "shell", "default"),
            command: arg_text(args, "command"),
            background: arg_flag(args, "run_in_background"),
            timeout_secs: args.unsigned_at("timeout_secs"),
        };
    }
    if text::same(name, "shell_read") {
        return ToolPlan::ShellRead {
            shell: arg_text_or(args, "shell", "default"),
            clear: arg_flag(args, "clear"),
        };
    }
    if text::same(name, "shell_kill") {
        return ToolPlan::ShellKill {
            name: arg_text_or(args, "name", "default"),
        };
    }
    if text::same(name, "shell_list") {
        return ToolPlan::ShellList;
    }
    if text::same(name, "git_status") {
        return ToolPlan::GitStatus;
    }
    if text::same(name, "git_diff") {
        return ToolPlan::GitDiff {
            file: args.text_at("file"),
        };
    }
    if text::same(name, "git_log") {
        return ToolPlan::GitLog {
            count: arg_number_or(args, "count", 10),
        };
    }
    if text::same(name, "git_branch") {
        return ToolPlan::GitBranch;
    }
    if text::same(name, "lsp_definition") {
        if empty_arg(args, "path") {
            return reply("Error: path is required");
        }
        return ToolPlan::LspDefinition {
            path: arg_text(args, "path"),
            line: to_low_bits(arg_number_or(args, "line", 0)),
            character: to_low_bits(arg_number_or(args, "character", 0)),
        };
    }
    if text::same(name, "lsp_references") {
        if empty_arg(args, "path") {
            return reply("Error: path is required");
        }
        return ToolPlan::LspReferences {
            path: arg_text(args, "path"),
            line: to_low_bits(arg_number_or(args, "line", 0)),
            character: to_low_bits(arg_number_or(args, "character", 0)),
        };
    }
    if text::same(name, "lsp_hover") {
        if empty_arg(args, "path") {
            return reply("Error: path is required");
        }
        return ToolPlan::LspHover {
            path: arg_text(args, "path"),
            line: to_low_bits(arg_number_or(args, "line", 0)),
            character: to_low_bits(arg_number_or(args, "character", 0)),
        };
    }
    if text::same(name, "git_commit") {
        if empty_arg(args, "message") {
            return reply("Error: message is required");
        }
        return ToolPlan::GitCommit {
            message: arg_text(args, "message"),
            files: files_to_commit(args),
        };
    }
    if text::same(name, "web_search") {
        return ToolPlan::WebSearch {
            query: arg_text(args, "query"),
        };
    }
    if text::same(name, "fetch_url") {
        return ToolPlan::FetchUrl {
            url: arg_text(args, "url"),
        };
    }
    if text::same(name, "browser_navigate") {
        return ToolPlan::BrowserNavigate {
            url: arg_text(args, "url"),
        };
    }
    if text::same(name, "browser_click") {
        return ToolPlan::BrowserClick {
            selector: arg_text(args, "selector"),
        };
    }
    if text::same(name, "browser_type") {
        return ToolPlan::BrowserType {
            selector: arg_text(args, "selector"),
            text: arg_text(args, "text"),
        };
    }
    if text::same(name, "browser_evaluate") {
        return ToolPlan::BrowserEvaluate {
            js: arg_text(args, "js"),
        };
    }
    if text::same(name, "browser_screenshot") {
        return ToolPlan::BrowserScreenshot {
            full_page: arg_flag(args, "full_page"),
        };
    }
    if text::same(name, "store_memory") {
        if empty_arg(args, "content") {
            return reply("Error: content is required");
        }
        return ToolPlan::StoreMemory {
            content: arg_text(args, "content"),
            category: arg_text_or(args, "category", "general"),
        };
    }
    if text::same(name, "store_user_fact") {
        if empty_arg(args, "key") || empty_arg(args, "value") {
            return reply("Error: both key and value are required");
        }
        return ToolPlan::StoreUserFact {
            key: arg_text(args, "key"),
            value: arg_text(args, "value"),
        };
    }
    if text::same(name, "ui_snapshot") {
        return ToolPlan::UiSnapshot {
            window: arg_text(args, "window"),
            include_offscreen: arg_flag(args, "include_offscreen"),
        };
    }
    if text::same(name, "ui_click") {
        return ToolPlan::UiClick {
            element_id: arg_text(args, "element_id"),
        };
    }
    if text::same(name, "ui_type") {
        return ToolPlan::UiType {
            element_id: arg_text(args, "element_id"),
            text: arg_text(args, "text"),
        };
    }
    if text::same(name, "ui_focus_window") {
        return ToolPlan::UiFocusWindow {
            title: arg_text(args, "title"),
        };
    }
    if text::same(name, "ui_find") {
        return ToolPlan::UiFind {
            query: arg_text(args, "query"),
        };
    }
    if text::same(name, "schedule_task") || text::same(name, "propose_schedule") {
        if empty_arg(args, "name") || empty_arg(args, "cadence") || empty_arg(args, "prompt") {
            return reply("schedule_task: name, cadence, and prompt are required");
        }
        return ToolPlan::Schedule {
            name: arg_text(args, "name"),
            cadence: arg_text(args, "cadence"),
            prompt: arg_text(args, "prompt"),
            channel: arg_text_or(args, "output_channel", "notification"),
            why: args.text_at("why"),
        };
    }
    if text::same(name, "list_schedules") {
        return ToolPlan::ListSchedules;
    }
    if text::same(name, "cancel_schedule") {
        return ToolPlan::CancelSchedule {
            id: arg_text(args, "id"),
        };
    }
    let mut answer = "Unknown tool: ".to_owned();
    answer.append(name);
    ToolPlan::Reply { answer }
}

} // verus!
