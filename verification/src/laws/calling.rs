//! What a call of a tool asks for, by what its arguments hold.

use crate::ipc::handlers::chat::execute::{arg_or, asks, flag, number_or, texts_in, Edit, ToolPlan};
use crate::ipc::handlers::chat::modes::arg;
use crate::json::{JsonV, Number};
use crate::llm::types::text_view;
use crate::text;
use vstd::prelude::*;

verus! {

/// An object has a member with a value: the first one with its name.
pub open spec fn has_member(args: JsonV, key: Seq<char>, v: JsonV) -> bool {
    args matches JsonV::Object(m) && exists|i: int|
        0 <= i < m.len() && #[trigger] m[i] == (key, v) && forall|j: int|
            0 <= j < i ==> (#[trigger] m[j]).0 != key
}

/// An object has a member with a text.
pub open spec fn says(args: JsonV, key: Seq<char>, t: Seq<char>) -> bool {
    has_member(args, key, JsonV::Text(t))
}

/// An object has a member with a number.
pub open spec fn numbers(args: JsonV, key: Seq<char>, n: u64) -> bool {
    has_member(args, key, JsonV::Num(Number::Unsigned(n)))
}

/// An object has a member with a text that is not empty.
pub open spec fn says_something(args: JsonV, key: Seq<char>) -> bool {
    exists|t: Seq<char>| #[trigger] says(args, key, t) && t.len() > 0
}

/// The text is the one that the arguments hold, or the default where they hold none.
pub open spec fn is_text(args: JsonV, key: Seq<char>, default: Seq<char>, x: Seq<char>) -> bool {
    &&& forall|t: Seq<char>| #[trigger] says(args, key, t) ==> x == t
    &&& (forall|t: Seq<char>| !#[trigger] says(args, key, t)) ==> x == default
}

/// The text is the one that the arguments hold, if any.
pub open spec fn is_optional_text(args: JsonV, key: Seq<char>, x: Option<Seq<char>>) -> bool {
    &&& forall|t: Seq<char>| #[trigger] says(args, key, t) ==> x == Some(t)
    &&& (forall|t: Seq<char>| !#[trigger] says(args, key, t)) ==> x is None
}

/// The number is the one that the arguments hold, or the default where they hold none.
pub open spec fn is_number(args: JsonV, key: Seq<char>, default: int, x: int) -> bool {
    &&& forall|n: u64| #[trigger] numbers(args, key, n) ==> x == n
    &&& (forall|n: u64| !#[trigger] numbers(args, key, n)) ==> x == default
}

/// The number is the one that the arguments hold, if any.
pub open spec fn is_optional_number(args: JsonV, key: Seq<char>, x: Option<u64>) -> bool {
    &&& forall|n: u64| #[trigger] numbers(args, key, n) ==> x == Some(n)
    &&& (forall|n: u64| !#[trigger] numbers(args, key, n)) ==> x is None
}

/// The truth value is the one that the arguments hold, or false.
pub open spec fn is_flag(args: JsonV, key: Seq<char>, x: bool) -> bool {
    x <==> has_member(args, key, JsonV::Bool(true))
}

proof fn find_is_first(m: Seq<(Seq<char>, JsonV)>, key: Seq<char>)
    ensures
        JsonV::find(m, key) <= m.len(),
        JsonV::find(m, key) < m.len() ==> m[JsonV::find(m, key) as int].0 == key,
        forall|j: int| 0 <= j < JsonV::find(m, key) ==> (#[trigger] m[j]).0 != key,
    decreases m.len(),
{
    if m.len() > 0 && m[0].0 != key {
        find_is_first(m.skip(1), key);
        assert forall|j: int| 0 <= j < JsonV::find(m, key) implies (#[trigger] m[j]).0 != key by {
            if j > 0 {
                assert(m[j] == m.skip(1)[j - 1]);
            }
        }
    }
}

/// A member is found by its name: the first one with it, and none where there is
/// none.
pub proof fn members_are_found_by_name(args: JsonV, key: Seq<char>)
    ensures
        forall|v: JsonV| #[trigger] has_member(args, key, v) <==> args.get(key) == Some(v),
{
    if let JsonV::Object(m) = args {
        find_is_first(m, key);
        let f = JsonV::find(m, key) as int;
        assert forall|v: JsonV| #[trigger] has_member(args, key, v) implies args.get(key) == Some(
            v,
        ) by {
            let i = choose|i: int|
                0 <= i < m.len() && #[trigger] m[i] == (key, v) && forall|j: int|
                    0 <= j < i ==> (#[trigger] m[j]).0 != key;
            if i < f {
                assert(m[i].0 != key);
            }
            if f < i {
                assert(m[f].0 != key);
            }
        }
        assert forall|v: JsonV| args.get(key) == Some(v) implies #[trigger] has_member(
            args,
            key,
            v,
        ) by {
            assert(m[f] == (key, v));
        }
    }
}

proof fn is_read(args: JsonV, key: Seq<char>)
    ensures
        is_text(args, key, Seq::empty(), arg(args, key)),
        arg(args, key).len() > 0 <==> says_something(args, key),
        forall|d: Seq<char>| is_text(args, key, d, #[trigger] arg_or(args, key, d)),
        is_optional_text(args, key, args.text_at(key)),
        is_optional_number(args, key, args.unsigned_at(key)),
        forall|d: u64| is_number(args, key, d as int, #[trigger] number_or(args, key, d) as int),
        is_flag(args, key, flag(args, key)),
{
    members_are_found_by_name(args, key);
    match args.get(key) {
        Some(JsonV::Text(t)) => {
            assert(says(args, key, t));
        },
        Some(JsonV::Num(Number::Unsigned(n))) => {
            assert(numbers(args, key, n));
        },
        _ => {},
    }
}

/// The number is the lower half of the one that the arguments hold, or zero.
pub open spec fn is_low_number(args: JsonV, key: Seq<char>, x: int) -> bool {
    &&& forall|n: u64| #[trigger] numbers(args, key, n) ==> x == n as int % 0x1_0000_0000
    &&& (forall|n: u64| !#[trigger] numbers(args, key, n)) ==> x == 0
}

/// The texts of a list of values, in order, and nothing else.
pub open spec fn names_all(items: Seq<JsonV>, names: Seq<Seq<char>>) -> bool {
    &&& names == items.filter(|v: JsonV| v is Text).map_values(|v: JsonV| v->Text_0)
}

proof fn texts_are_named(items: Seq<JsonV>)
    ensures
        names_all(items, texts_in(items)),
    decreases items.len(),
{
    reveal(Seq::filter);
    let is_text = |v: JsonV| v is Text;
    if items.len() > 0 {
        texts_are_named(items.drop_last());
        assert(texts_in(items) =~= items.filter(is_text).map_values(|v: JsonV| v->Text_0));
    } else {
        assert(texts_in(items) =~= items.filter(is_text).map_values(|v: JsonV| v->Text_0));
    }
}

/// A tool that does not exist is told to be unknown.
pub proof fn an_unknown_tool_is_told(name: Seq<char>, args: JsonV, p: ToolPlan)
    requires
        asks(name, args, p),
        !known_tools().contains(name),
    ensures
        p matches ToolPlan::Reply { answer } && answer@ == "Unknown tool: "@ + name,
{
    let k = known_tools();
    assert(k[0] == "search_memory"@);
    assert(k[1] == "code_edit"@);
    assert(k[2] == "file_read"@);
    assert(k[3] == "list_files"@);
    assert(k[4] == "change_dir"@);
    assert(k[5] == "get_cwd"@);
    assert(k[6] == "file_write"@);
    assert(k[7] == "terminal_execute"@);
    assert(k[8] == "glob"@);
    assert(k[9] == "grep"@);
    assert(k[10] == "search_in_file"@);
    assert(k[11] == "outline_file"@);
    assert(k[12] == "file_diff"@);
    assert(k[13] == "file_undo"@);
    assert(k[14] == "apply_patch"@);
    assert(k[15] == "shell_spawn"@);
    assert(k[16] == "shell_exec"@);
    assert(k[17] == "shell_read"@);
    assert(k[18] == "shell_kill"@);
    assert(k[19] == "shell_list"@);
    assert(k[20] == "git_status"@);
    assert(k[21] == "git_diff"@);
    assert(k[22] == "git_log"@);
    assert(k[23] == "git_branch"@);
    assert(k[24] == "lsp_definition"@);
    assert(k[25] == "lsp_references"@);
    assert(k[26] == "lsp_hover"@);
    assert(k[27] == "git_commit"@);
    assert(k[28] == "web_search"@);
    assert(k[29] == "fetch_url"@);
    assert(k[30] == "browser_navigate"@);
    assert(k[31] == "browser_click"@);
    assert(k[32] == "browser_type"@);
    assert(k[33] == "browser_evaluate"@);
    assert(k[34] == "browser_screenshot"@);
    assert(k[35] == "store_memory"@);
    assert(k[36] == "store_user_fact"@);
    assert(k[37] == "ui_snapshot"@);
    assert(k[38] == "ui_click"@);
    assert(k[39] == "ui_type"@);
    assert(k[40] == "ui_focus_window"@);
    assert(k[41] == "ui_find"@);
    assert(k[42] == "schedule_task"@);
    assert(k[43] == "propose_schedule"@);
    assert(k[44] == "list_schedules"@);
    assert(k[45] == "cancel_schedule"@);
}

/// The tools that can be called.
pub open spec fn known_tools() -> Seq<Seq<char>> {
    seq![
        "search_memory"@,
        "code_edit"@,
        "file_read"@,
        "list_files"@,
        "change_dir"@,
        "get_cwd"@,
        "file_write"@,
        "terminal_execute"@,
        "glob"@,
        "grep"@,
        "search_in_file"@,
        "outline_file"@,
        "file_diff"@,
        "file_undo"@,
        "apply_patch"@,
        "shell_spawn"@,
        "shell_exec"@,
        "shell_read"@,
        "shell_kill"@,
        "shell_list"@,
        "git_status"@,
        "git_diff"@,
        "git_log"@,
        "git_branch"@,
        "lsp_definition"@,
        "lsp_references"@,
        "lsp_hover"@,
        "git_commit"@,
        "web_search"@,
        "fetch_url"@,
        "browser_navigate"@,
        "browser_click"@,
        "browser_type"@,
        "browser_evaluate"@,
        "browser_screenshot"@,
        "store_memory"@,
        "store_user_fact"@,
        "ui_snapshot"@,
        "ui_click"@,
        "ui_type"@,
        "ui_focus_window"@,
        "ui_find"@,
        "schedule_task"@,
        "propose_schedule"@,
        "list_schedules"@,
        "cancel_schedule"@,
    ]
}

/// What a call of `search_memory` asks for: what its arguments say.
pub proof fn a_search_of_the_memory(args: JsonV, p: ToolPlan)
    requires
        asks("search_memory"@, args, p),
    ensures
        text::blank(arg(args, "query"@)) ==> (p matches ToolPlan::Reply { answer } && answer@
            == "search_memory: query is required"@),
        !text::blank(arg(args, "query"@)) ==> (p matches ToolPlan::SearchMemory { query, limit, pool }
            && is_text(args, "query"@, Seq::empty(), query@) && pool == limit * 4 && (forall|n: u64|
            #[trigger] numbers(args, "limit"@, n) ==> limit == (if n <= 15 {
                n
            } else {
                15
            })) && ((forall|n: u64| !#[trigger] numbers(args, "limit"@, n)) ==> limit == 5)),
{
    reveal_strlit("search_memory");
    is_read(args, "limit"@);
    is_read(args, "query"@);
}

/// What a call of `code_edit` asks for: what its arguments say.
pub proof fn a_code_edit(args: JsonV, p: ToolPlan)
    requires
        asks("code_edit"@, args, p),
    ensures
        p matches ToolPlan::CodeEdit { path, .. } && is_text(args, "path"@, Seq::empty(), path@),
        says(args, "action"@, "insert_at_line"@) ==> (p->CodeEdit_edit matches Edit::InsertAtLine {
            line,
            content,
        } && is_number(args, "line"@, 1, line as int) && is_text(
            args,
            "content"@,
            Seq::empty(),
            content@,
        )),
        says(args, "action"@, "search_replace"@) ==> (p->CodeEdit_edit matches Edit::SearchReplace {
            search,
            replace,
        } && is_text(args, "search"@, Seq::empty(), search@) && is_text(
            args,
            "replace"@,
            Seq::empty(),
            replace@,
        )),
        says(args, "action"@, "append"@) ==> (p->CodeEdit_edit matches Edit::Append { content }
            && is_text(args, "content"@, Seq::empty(), content@)),
        forall|a: Seq<char>|
            #[trigger] says(args, "action"@, a) && a != "insert_at_line"@ && a != "search_replace"@
                && a != "append"@ ==> (p->CodeEdit_edit matches Edit::Unknown { action } && action@
                == a),
{
    reveal_strlit("code_edit");
    reveal_strlit("search_memory");
    assert("search_memory"@.len() != "code_edit"@.len());
    is_read(args, "action"@);
    is_read(args, "content"@);
    is_read(args, "line"@);
    is_read(args, "path"@);
    is_read(args, "replace"@);
    is_read(args, "search"@);
    reveal_strlit("insert_at_line");
    reveal_strlit("search_replace");
    reveal_strlit("append");
    assert("insert_at_line"@[0] != "search_replace"@[0]);
    assert("append"@.len() == 6);
    assert("insert_at_line"@.len() == 14 && "search_replace"@.len() == 14);
}

/// What a call of `file_read` asks for: what its arguments say.
pub proof fn file_read_call(args: JsonV, p: ToolPlan)
    requires
        asks("file_read"@, args, p),
    ensures
        p matches ToolPlan::FileRead { path, offset, limit, .. } && is_text(args, "path"@, Seq::empty(), path@)
            && is_number(args, "offset"@, 0, offset as int)
            && is_optional_number(args, "limit"@, limit),
{
    reveal_strlit("file_read");
    reveal_strlit("code_edit");
    reveal_strlit("search_memory");
    assert("search_memory"@.len() != "file_read"@.len());
    assert("code_edit"@[0] != "file_read"@[0]);
    is_read(args, "limit"@);
    is_read(args, "offset"@);
    is_read(args, "path"@);
}

/// What a call of `list_files` asks for: what its arguments say.
pub proof fn list_files_call(args: JsonV, p: ToolPlan)
    requires
        asks("list_files"@, args, p),
    ensures
        p matches ToolPlan::ListFiles { recursive, pattern, .. } && is_flag(args, "recursive"@, recursive)
            && is_text(args, "pattern"@, Seq::empty(), pattern@),
        p matches ToolPlan::ListFiles { path, .. } && (forall|t: Seq<char>|
            #[trigger] says(args, "path"@, t) && t.len() > 0 ==> path@ == t) && (!says_something(
            args,
            "path"@,
        ) ==> path@ == "."@),
{
    reveal_strlit("list_files");
    reveal_strlit("search_memory");
    assert("search_memory"@.len() != "list_files"@.len());
    reveal_strlit("code_edit");
    assert("code_edit"@.len() != "list_files"@.len());
    reveal_strlit("file_read");
    assert("file_read"@.len() != "list_files"@.len());
    is_read(args, "path"@);
    is_read(args, "pattern"@);
    is_read(args, "recursive"@);
}

/// What a call of `change_dir` asks for: what its arguments say.
pub proof fn change_dir_call(args: JsonV, p: ToolPlan)
    requires
        asks("change_dir"@, args, p),
    ensures
        says_something(args, "path"@) ==> (p matches ToolPlan::ChangeDir { path, .. } && is_text(args, "path"@, Seq::empty(), path@)),
        !(says_something(args, "path"@)) ==> (p matches ToolPlan::Reply { answer } && answer@ == "Error: path is required"@),
{
    reveal_strlit("change_dir");
    reveal_strlit("list_files");
    reveal_strlit("search_memory");
    assert("search_memory"@.len() != "change_dir"@.len());
    reveal_strlit("code_edit");
    assert("code_edit"@.len() != "change_dir"@.len());
    reveal_strlit("file_read");
    assert("file_read"@.len() != "change_dir"@.len());
    assert("list_files"@[0] != "change_dir"@[0]);
    is_read(args, "path"@);
}

/// What a call of `get_cwd` asks for: what its arguments say.
pub proof fn get_cwd_call(args: JsonV, p: ToolPlan)
    requires
        asks("get_cwd"@, args, p),
    ensures
        p is GetCwd,
{
    reveal_strlit("get_cwd");
    reveal_strlit("search_memory");
    assert("search_memory"@.len() != "get_cwd"@.len());
    reveal_strlit("code_edit");
    assert("code_edit"@.len() != "get_cwd"@.len());
    reveal_strlit("file_read");
    assert("file_read"@.len() != "get_cwd"@.len());
    reveal_strlit("list_files");
    assert("list_files"@.len() != "get_cwd"@.len());
    reveal_strlit("change_dir");
    assert("change_dir"@.len() != "get_cwd"@.len());
}

/// What a call of `file_write` asks for: what its arguments say.
pub proof fn file_write_call(args: JsonV, p: ToolPlan)
    requires
        asks("file_write"@, args, p),
    ensures
        p matches ToolPlan::FileWrite { path, content, .. } && is_text(args, "path"@, Seq::empty(), path@)
            && is_text(args, "content"@, Seq::empty(), content@),
{
    reveal_strlit("file_write");
    reveal_strlit("list_files");
    reveal_strlit("change_dir");
    reveal_strlit("search_memory");
    assert("search_memory"@.len() != "file_write"@.len());
    reveal_strlit("code_edit");
    assert("code_edit"@.len() != "file_write"@.len());
    reveal_strlit("file_read");
    assert("file_read"@.len() != "file_write"@.len());
    assert("list_files"@[0] != "file_write"@[0]);
    assert("change_dir"@[0] != "file_write"@[0]);
    reveal_strlit("get_cwd");
    assert("get_cwd"@.len() != "file_write"@.len());
    is_read(args, "content"@);
    is_read(args, "path"@);
}

/// What a call of `terminal_execute` asks for: what its arguments say.
pub proof fn terminal_execute_call(args: JsonV, p: ToolPlan)
    requires
        asks("terminal_execute"@, args, p),
    ensures
        says_something(args, "command"@) ==> (p matches ToolPlan::Terminal { shell, command, background, timeout_secs, .. } && is_text(args, "shell"@, "default"@, shell@)
            && is_text(args, "command"@, Seq::empty(), command@)
            && is_flag(args, "run_in_background"@, background)
            && is_optional_number(args, "timeout_secs"@, timeout_secs)),
        !(says_something(args, "command"@)) ==> (p matches ToolPlan::Reply { answer } && answer@ == "Error: command is required"@),
{
    reveal_strlit("terminal_execute");
    reveal_strlit("search_memory");
    assert("search_memory"@.len() != "terminal_execute"@.len());
    reveal_strlit("code_edit");
    assert("code_edit"@.len() != "terminal_execute"@.len());
    reveal_strlit("file_read");
    assert("file_read"@.len() != "terminal_execute"@.len());
    reveal_strlit("list_files");
    assert("list_files"@.len() != "terminal_execute"@.len());
    reveal_strlit("change_dir");
    assert("change_dir"@.len() != "terminal_execute"@.len());
    reveal_strlit("get_cwd");
    assert("get_cwd"@.len() != "terminal_execute"@.len());
    reveal_strlit("file_write");
    assert("file_write"@.len() != "terminal_execute"@.len());
    is_read(args, "command"@);
    is_read(args, "run_in_background"@);
    is_read(args, "shell"@);
    is_read(args, "timeout_secs"@);
}

/// What a call of `glob` asks for: what its arguments say.
pub proof fn glob_call(args: JsonV, p: ToolPlan)
    requires
        asks("glob"@, args, p),
    ensures
        says_something(args, "pattern"@) ==> (p matches ToolPlan::Glob { pattern, base, .. } && is_text(args, "pattern"@, Seq::empty(), pattern@)
            && is_text(args, "path"@, "."@, base@)),
        !(says_something(args, "pattern"@)) ==> (p matches ToolPlan::Reply { answer } && answer@ == "Error: pattern is required"@),
{
    reveal_strlit("glob");
    reveal_strlit("search_memory");
    assert("search_memory"@.len() != "glob"@.len());
    reveal_strlit("code_edit");
    assert("code_edit"@.len() != "glob"@.len());
    reveal_strlit("file_read");
    assert("file_read"@.len() != "glob"@.len());
    reveal_strlit("list_files");
    assert("list_files"@.len() != "glob"@.len());
    reveal_strlit("change_dir");
    assert("change_dir"@.len() != "glob"@.len());
    reveal_strlit("get_cwd");
    assert("get_cwd"@.len() != "glob"@.len());
    reveal_strlit("file_write");
    assert("file_write"@.len() != "glob"@.len());
    reveal_strlit("terminal_execute");
    assert("terminal_execute"@.len() != "glob"@.len());
    is_read(args, "path"@);
    is_read(args, "pattern"@);
}

/// What a call of `grep` asks for: what its arguments say.
pub proof fn grep_call(args: JsonV, p: ToolPlan)
    requires
        asks("grep"@, args, p),
    ensures
        says_something(args, "pattern"@) ==> (p matches ToolPlan::Grep { pattern, path, glob, output, case_insensitive, max_results, .. } && is_text(args, "pattern"@, Seq::empty(), pattern@)
            && is_text(args, "path"@, "."@, path@)
            && is_text(args, "glob"@, Seq::empty(), glob@)
            && is_text(args, "output"@, "files"@, output@)
            && is_flag(args, "case_insensitive"@, case_insensitive)
            && is_number(args, "max_results"@, 200, max_results as int)),
        !(says_something(args, "pattern"@)) ==> (p matches ToolPlan::Reply { answer } && answer@ == "Error: pattern is required"@),
{
    reveal_strlit("grep");
    reveal_strlit("glob");
    reveal_strlit("search_memory");
    assert("search_memory"@.len() != "grep"@.len());
    reveal_strlit("code_edit");
    assert("code_edit"@.len() != "grep"@.len());
    reveal_strlit("file_read");
    assert("file_read"@.len() != "grep"@.len());
    reveal_strlit("list_files");
    assert("list_files"@.len() != "grep"@.len());
    reveal_strlit("change_dir");
    assert("change_dir"@.len() != "grep"@.len());
    reveal_strlit("get_cwd");
    assert("get_cwd"@.len() != "grep"@.len());
    reveal_strlit("file_write");
    assert("file_write"@.len() != "grep"@.len());
    reveal_strlit("terminal_execute");
    assert("terminal_execute"@.len() != "grep"@.len());
    assert("glob"@[1] != "grep"@[1]);
    is_read(args, "case_insensitive"@);
    is_read(args, "glob"@);
    is_read(args, "max_results"@);
    is_read(args, "output"@);
    is_read(args, "path"@);
    is_read(args, "pattern"@);
}

/// What a call of `search_in_file` asks for: what its arguments say.
pub proof fn search_in_file_call(args: JsonV, p: ToolPlan)
    requires
        asks("search_in_file"@, args, p),
    ensures
        says_something(args, "path"@) && says_something(args, "pattern"@) ==> (p matches ToolPlan::SearchInFile { path, pattern, context, case_insensitive, .. } && is_text(args, "path"@, Seq::empty(), path@)
            && is_text(args, "pattern"@, Seq::empty(), pattern@)
            && is_number(args, "context"@, 2, context as int)
            && is_flag(args, "case_insensitive"@, case_insensitive)),
        !(says_something(args, "path"@) && says_something(args, "pattern"@)) ==> (p matches ToolPlan::Reply { answer } && answer@ == "Error: path and pattern are required"@),
{
    reveal_strlit("search_in_file");
    reveal_strlit("search_memory");
    assert("search_memory"@.len() != "search_in_file"@.len());
    reveal_strlit("code_edit");
    assert("code_edit"@.len() != "search_in_file"@.len());
    reveal_strlit("file_read");
    assert("file_read"@.len() != "search_in_file"@.len());
    reveal_strlit("list_files");
    assert("list_files"@.len() != "search_in_file"@.len());
    reveal_strlit("change_dir");
    assert("change_dir"@.len() != "search_in_file"@.len());
    reveal_strlit("get_cwd");
    assert("get_cwd"@.len() != "search_in_file"@.len());
    reveal_strlit("file_write");
    assert("file_write"@.len() != "search_in_file"@.len());
    reveal_strlit("terminal_execute");
    assert("terminal_execute"@.len() != "search_in_file"@.len());
    reveal_strlit("glob");
    assert("glob"@.len() != "search_in_file"@.len());
    reveal_strlit("grep");
    assert("grep"@.len() != "search_in_file"@.len());
    is_read(args, "case_insensitive"@);
    is_read(args, "context"@);
    is_read(args, "path"@);
    is_read(args, "pattern"@);
}

/// What a call of `outline_file` asks for: what its arguments say.
pub proof fn outline_file_call(args: JsonV, p: ToolPlan)
    requires
        asks("outline_file"@, args, p),
    ensures
        says_something(args, "path"@) ==> (p matches ToolPlan::OutlineFile { path, .. } && is_text(args, "path"@, Seq::empty(), path@)),
        !(says_something(args, "path"@)) ==> (p matches ToolPlan::Reply { answer } && answer@ == "Error: path is required"@),
{
    reveal_strlit("outline_file");
    reveal_strlit("search_memory");
    assert("search_memory"@.len() != "outline_file"@.len());
    reveal_strlit("code_edit");
    assert("code_edit"@.len() != "outline_file"@.len());
    reveal_strlit("file_read");
    assert("file_read"@.len() != "outline_file"@.len());
    reveal_strlit("list_files");
    assert("list_files"@.len() != "outline_file"@.len());
    reveal_strlit("change_dir");
    assert("change_dir"@.len() != "outline_file"@.len());
    reveal_strlit("get_cwd");
    assert("get_cwd"@.len() != "outline_file"@.len());
    reveal_strlit("file_write");
    assert("file_write"@.len() != "outline_file"@.len());
    reveal_strlit("terminal_execute");
    assert("terminal_execute"@.len() != "outline_file"@.len());
    reveal_strlit("glob");
    assert("glob"@.len() != "outline_file"@.len());
    reveal_strlit("grep");
    assert("grep"@.len() != "outline_file"@.len());
    reveal_strlit("search_in_file");
    assert("search_in_file"@.len() != "outline_file"@.len());
    is_read(args, "path"@);
}

/// What a call of `file_diff` asks for: what its arguments say.
pub proof fn file_diff_call(args: JsonV, p: ToolPlan)
    requires
        asks("file_diff"@, args, p),
    ensures
        says_something(args, "path"@) ==> (p matches ToolPlan::FileDiff { path, .. } && is_text(args, "path"@, Seq::empty(), path@)),
        !(says_something(args, "path"@)) ==> (p matches ToolPlan::Reply { answer } && answer@ == "Error: path is required"@),
{
    reveal_strlit("file_diff");
    reveal_strlit("code_edit");
    reveal_strlit("file_read");
    reveal_strlit("search_memory");
    assert("search_memory"@.len() != "file_diff"@.len());
    assert("code_edit"@[0] != "file_diff"@[0]);
    assert("file_read"@[5] != "file_diff"@[5]);
    reveal_strlit("list_files");
    assert("list_files"@.len() != "file_diff"@.len());
    reveal_strlit("change_dir");
    assert("change_dir"@.len() != "file_diff"@.len());
    reveal_strlit("get_cwd");
    assert("get_cwd"@.len() != "file_diff"@.len());
    reveal_strlit("file_write");
    assert("file_write"@.len() != "file_diff"@.len());
    reveal_strlit("terminal_execute");
    assert("terminal_execute"@.len() != "file_diff"@.len());
    reveal_strlit("glob");
    assert("glob"@.len() != "file_diff"@.len());
    reveal_strlit("grep");
    assert("grep"@.len() != "file_diff"@.len());
    reveal_strlit("search_in_file");
    assert("search_in_file"@.len() != "file_diff"@.len());
    reveal_strlit("outline_file");
    assert("outline_file"@.len() != "file_diff"@.len());
    is_read(args, "path"@);
}

/// What a call of `file_undo` asks for: what its arguments say.
pub proof fn file_undo_call(args: JsonV, p: ToolPlan)
    requires
        asks("file_undo"@, args, p),
    ensures
        says_something(args, "path"@) ==> (p matches ToolPlan::FileUndo { path, .. } && is_text(args, "path"@, Seq::empty(), path@)),
        !(says_something(args, "path"@)) ==> (p matches ToolPlan::Reply { answer } && answer@ == "Error: path is required"@),
{
    reveal_strlit("file_undo");
    reveal_strlit("code_edit");
    reveal_strlit("file_read");
    reveal_strlit("file_diff");
    reveal_strlit("search_memory");
    assert("search_memory"@.len() != "file_undo"@.len());
    assert("code_edit"@[0] != "file_undo"@[0]);
    assert("file_read"@[5] != "file_undo"@[5]);
    reveal_strlit("list_files");
    assert("list_files"@.len() != "file_undo"@.len());
    reveal_strlit("change_dir");
    assert("change_dir"@.len() != "file_undo"@.len());
    reveal_strlit("get_cwd");
    assert("get_cwd"@.len() != "file_undo"@.len());
    reveal_strlit("file_write");
    assert("file_write"@.len() != "file_undo"@.len());
    reveal_strlit("terminal_execute");
    assert("terminal_execute"@.len() != "file_undo"@.len());
    reveal_strlit("glob");
    assert("glob"@.len() != "file_undo"@.len());
    reveal_strlit("grep");
    assert("grep"@.len() != "file_undo"@.len());
    reveal_strlit("search_in_file");
    assert("search_in_file"@.len() != "file_undo"@.len());
    reveal_strlit("outline_file");
    assert("outline_file"@.len() != "file_undo"@.len());
    assert("file_diff"@[5] != "file_undo"@[5]);
    is_read(args, "path"@);
}

/// What a call of `apply_patch` asks for: what its arguments say.
pub proof fn apply_patch_call(args: JsonV, p: ToolPlan)
    requires
        asks("apply_patch"@, args, p),
    ensures
        says_something(args, "path"@) && says_something(args, "patch"@) ==> (p matches ToolPlan::ApplyPatch { path, patch, .. } && is_text(args, "path"@, Seq::empty(), path@)
            && is_text(args, "patch"@, Seq::empty(), patch@)),
        !(says_something(args, "path"@) && says_something(args, "patch"@)) ==> (p matches ToolPlan::Reply { answer } && answer@ == "Error: both path and patch are required"@),
{
    reveal_strlit("apply_patch");
    reveal_strlit("search_memory");
    assert("search_memory"@.len() != "apply_patch"@.len());
    reveal_strlit("code_edit");
    assert("code_edit"@.len() != "apply_patch"@.len());
    reveal_strlit("file_read");
    assert("file_read"@.len() != "apply_patch"@.len());
    reveal_strlit("list_files");
    assert("list_files"@.len() != "apply_patch"@.len());
    reveal_strlit("change_dir");
    assert("change_dir"@.len() != "apply_patch"@.len());
    reveal_strlit("get_cwd");
    assert("get_cwd"@.len() != "apply_patch"@.len());
    reveal_strlit("file_write");
    assert("file_write"@.len() != "apply_patch"@.len());
    reveal_strlit("terminal_execute");
    assert("terminal_execute"@.len() != "apply_patch"@.len());
    reveal_strlit("glob");
    assert("glob"@.len() != "apply_patch"@.len());
    reveal_strlit("grep");
    assert("grep"@.len() != "apply_patch"@.len());
    reveal_strlit("search_in_file");
    assert("search_in_file"@.len() != "apply_patch"@.len());
    reveal_strlit("outline_file");
    assert("outline_file"@.len() != "apply_patch"@.len());
    reveal_strlit("file_diff");
    assert("file_diff"@.len() != "apply_patch"@.len());
    reveal_strlit("file_undo");
    assert("file_undo"@.len() != "apply_patch"@.len());
    is_read(args, "patch"@);
    is_read(args, "path"@);
}

/// What a call of `shell_spawn` asks for: what its arguments say.
pub proof fn shell_spawn_call(args: JsonV, p: ToolPlan)
    requires
        asks("shell_spawn"@, args, p),
    ensures
        p matches ToolPlan::ShellSpawn { name, .. } && is_text(args, "name"@, "shell1"@, name@),
{
    reveal_strlit("shell_spawn");
    reveal_strlit("apply_patch");
    reveal_strlit("search_memory");
    assert("search_memory"@.len() != "shell_spawn"@.len());
    reveal_strlit("code_edit");
    assert("code_edit"@.len() != "shell_spawn"@.len());
    reveal_strlit("file_read");
    assert("file_read"@.len() != "shell_spawn"@.len());
    reveal_strlit("list_files");
    assert("list_files"@.len() != "shell_spawn"@.len());
    reveal_strlit("change_dir");
    assert("change_dir"@.len() != "shell_spawn"@.len());
    reveal_strlit("get_cwd");
    assert("get_cwd"@.len() != "shell_spawn"@.len());
    reveal_strlit("file_write");
    assert("file_write"@.len() != "shell_spawn"@.len());
    reveal_strlit("terminal_execute");
    assert("terminal_execute"@.len() != "shell_spawn"@.len());
    reveal_strlit("glob");
    assert("glob"@.len() != "shell_spawn"@.len());
    reveal_strlit("grep");
    assert("grep"@.len() != "shell_spawn"@.len());
    reveal_strlit("search_in_file");
    assert("search_in_file"@.len() != "shell_spawn"@.len());
    reveal_strlit("outline_file");
    assert("outline_file"@.len() != "shell_spawn"@.len());
    reveal_strlit("file_diff");
    assert("file_diff"@.len() != "shell_spawn"@.len());
    reveal_strlit("file_undo");
    assert("file_undo"@.len() != "shell_spawn"@.len());
    assert("apply_patch"@[0] != "shell_spawn"@[0]);
    is_read(args, "name"@);
}

/// What a call of `shell_exec` asks for: what its arguments say.
pub proof fn shell_exec_call(args: JsonV, p: ToolPlan)
    requires
        asks("shell_exec"@, args, p),
    ensures
        says_something(args, "command"@) ==> (p matches ToolPlan::ShellExec { shell, command, background, timeout_secs, .. } && is_text(args, "shell"@, "default"@, shell@)
            && is_text(args, "command"@, Seq::empty(), command@)
            && is_flag(args, "run_in_background"@, background)
            && is_optional_number(args, "timeout_secs"@, timeout_secs)),
        !(says_something(args, "command"@)) ==> (p matches ToolPlan::Reply { answer } && answer@ == "Error: command is required"@),
{
    reveal_strlit("shell_exec");
    reveal_strlit("list_files");
    reveal_strlit("change_dir");
    reveal_strlit("file_write");
    reveal_strlit("search_memory");
    assert("search_memory"@.len() != "shell_exec"@.len());
    reveal_strlit("code_edit");
    assert("code_edit"@.len() != "shell_exec"@.len());
    reveal_strlit("file_read");
    assert("file_read"@.len() != "shell_exec"@.len());
    assert("list_files"@[0] != "shell_exec"@[0]);
    assert("change_dir"@[0] != "shell_exec"@[0]);
    reveal_strlit("get_cwd");
    assert("get_cwd"@.len() != "shell_exec"@.len());
    assert("file_write"@[0] != "shell_exec"@[0]);
    reveal_strlit("terminal_execute");
    assert("terminal_execute"@.len() != "shell_exec"@.len());
    reveal_strlit("glob");
    assert("glob"@.len() != "shell_exec"@.len());
    reveal_strlit("grep");
    assert("grep"@.len() != "shell_exec"@.len());
    reveal_strlit("search_in_file");
    assert("search_in_file"@.len() != "shell_exec"@.len());
    reveal_strlit("outline_file");
    assert("outline_file"@.len() != "shell_exec"@.len());
    reveal_strlit("file_diff");
    assert("file_diff"@.len() != "shell_exec"@.len());
    reveal_strlit("file_undo");
    assert("file_undo"@.len() != "shell_exec"@.len());
    reveal_strlit("apply_patch");
    assert("apply_patch"@.len() != "shell_exec"@.len());
    reveal_strlit("shell_spawn");
    assert("shell_spawn"@.len() != "shell_exec"@.len());
    is_read(args, "command"@);
    is_read(args, "run_in_background"@);
    is_read(args, "shell"@);
    is_read(args, "timeout_secs"@);
}

/// What a call of `shell_read` asks for: what its arguments say.
pub proof fn shell_read_call(args: JsonV, p: ToolPlan)
    requires
        asks("shell_read"@, args, p),
    ensures
        p matches ToolPlan::ShellRead { shell, clear, .. } && is_text(args, "shell"@, "default"@, shell@)
            && is_flag(args, "clear"@, clear),
{
    reveal_strlit("shell_read");
    reveal_strlit("list_files");
    reveal_strlit("change_dir");
    reveal_strlit("file_write");
    reveal_strlit("shell_exec");
    reveal_strlit("search_memory");
    assert("search_memory"@.len() != "shell_read"@.len());
    reveal_strlit("code_edit");
    assert("code_edit"@.len() != "shell_read"@.len());
    reveal_strlit("file_read");
    assert("file_read"@.len() != "shell_read"@.len());
    assert("list_files"@[0] != "shell_read"@[0]);
    assert("change_dir"@[0] != "shell_read"@[0]);
    reveal_strlit("get_cwd");
    assert("get_cwd"@.len() != "shell_read"@.len());
    assert("file_write"@[0] != "shell_read"@[0]);
    reveal_strlit("terminal_execute");
    assert("terminal_execute"@.len() != "shell_read"@.len());
    reveal_strlit("glob");
    assert("glob"@.len() != "shell_read"@.len());
    reveal_strlit("grep");
    assert("grep"@.len() != "shell_read"@.len());
    reveal_strlit("search_in_file");
    assert("search_in_file"@.len() != "shell_read"@.len());
    reveal_strlit("outline_file");
    assert("outline_file"@.len() != "shell_read"@.len());
    reveal_strlit("file_diff");
    assert("file_diff"@.len() != "shell_read"@.len());
    reveal_strlit("file_undo");
    assert("file_undo"@.len() != "shell_read"@.len());
    reveal_strlit("apply_patch");
    assert("apply_patch"@.len() != "shell_read"@.len());
    reveal_strlit("shell_spawn");
    assert("shell_spawn"@.len() != "shell_read"@.len());
    assert("shell_exec"@[6] != "shell_read"@[6]);
    is_read(args, "clear"@);
    is_read(args, "shell"@);
}

/// What a call of `shell_kill` asks for: what its arguments say.
pub proof fn shell_kill_call(args: JsonV, p: ToolPlan)
    requires
        asks("shell_kill"@, args, p),
    ensures
        p matches ToolPlan::ShellKill { name, .. } && is_text(args, "name"@, "default"@, name@),
{
    reveal_strlit("shell_kill");
    reveal_strlit("list_files");
    reveal_strlit("change_dir");
    reveal_strlit("file_write");
    reveal_strlit("shell_exec");
    reveal_strlit("shell_read");
    reveal_strlit("search_memory");
    assert("search_memory"@.len() != "shell_kill"@.len());
    reveal_strlit("code_edit");
    assert("code_edit"@.len() != "shell_kill"@.len());
    reveal_strlit("file_read");
    assert("file_read"@.len() != "shell_kill"@.len());
    assert("list_files"@[0] != "shell_kill"@[0]);
    assert("change_dir"@[0] != "shell_kill"@[0]);
    reveal_strlit("get_cwd");
    assert("get_cwd"@.len() != "shell_kill"@.len());
    assert("file_write"@[0] != "shell_kill"@[0]);
    reveal_strlit("terminal_execute");
    assert("terminal_execute"@.len() != "shell_kill"@.len());
    reveal_strlit("glob");
    assert("glob"@.len() != "shell_kill"@.len());
    reveal_strlit("grep");
    assert("grep"@.len() != "shell_kill"@.len());
    reveal_strlit("search_in_file");
    assert("search_in_file"@.len() != "shell_kill"@.len());
    reveal_strlit("outline_file");
    assert("outline_file"@.len() != "shell_kill"@.len());
    reveal_strlit("file_diff");
    assert("file_diff"@.len() != "shell_kill"@.len());
    reveal_strlit("file_undo");
    assert("file_undo"@.len() != "shell_kill"@.len());
    reveal_strlit("apply_patch");
    assert("apply_patch"@.len() != "shell_kill"@.len());
    reveal_strlit("shell_spawn");
    assert("shell_spawn"@.len() != "shell_kill"@.len());
    assert("shell_exec"@[6] != "shell_kill"@[6]);
    assert("shell_read"@[6] != "shell_kill"@[6]);
    is_read(args, "name"@);
}

/// What a call of `shell_list` asks for: what its arguments say.
pub proof fn shell_list_call(args: JsonV, p: ToolPlan)
    requires
        asks("shell_list"@, args, p),
    ensures
        p is ShellList,
{
    reveal_strlit("shell_list");
    reveal_strlit("list_files");
    reveal_strlit("change_dir");
    reveal_strlit("file_write");
    reveal_strlit("shell_exec");
    reveal_strlit("shell_read");
    reveal_strlit("shell_kill");
    reveal_strlit("search_memory");
    assert("search_memory"@.len() != "shell_list"@.len());
    reveal_strlit("code_edit");
    assert("code_edit"@.len() != "shell_list"@.len());
    reveal_strlit("file_read");
    assert("file_read"@.len() != "shell_list"@.len());
    assert("list_files"@[0] != "shell_list"@[0]);
    assert("change_dir"@[0] != "shell_list"@[0]);
    reveal_strlit("get_cwd");
    assert("get_cwd"@.len() != "shell_list"@.len());
    assert("file_write"@[0] != "shell_list"@[0]);
    reveal_strlit("terminal_execute");
    assert("terminal_execute"@.len() != "shell_list"@.len());
    reveal_strlit("glob");
    assert("glob"@.len() != "shell_list"@.len());
    reveal_strlit("grep");
    assert("grep"@.len() != "shell_list"@.len());
    reveal_strlit("search_in_file");
    assert("search_in_file"@.len() != "shell_list"@.len());
    reveal_strlit("outline_file");
    assert("outline_file"@.len() != "shell_list"@.len());
    reveal_strlit("file_diff");
    assert("file_diff"@.len() != "shell_list"@.len());
    reveal_strlit("file_undo");
    assert("file_undo"@.len() != "shell_list"@.len());
    reveal_strlit("apply_patch");
    assert("apply_patch"@.len() != "shell_list"@.len());
    reveal_strlit("shell_spawn");
    assert("shell_spawn"@.len() != "shell_list"@.len());
    assert("shell_exec"@[6] != "shell_list"@[6]);
    assert("shell_read"@[6] != "shell_list"@[6]);
    assert("shell_kill"@[6] != "shell_list"@[6]);
}

/// What a call of `git_status` asks for: what its arguments say.
pub proof fn git_status_call(args: JsonV, p: ToolPlan)
    requires
        asks("git_status"@, args, p),
    ensures
        p is GitStatus,
{
    reveal_strlit("git_status");
    reveal_strlit("list_files");
    reveal_strlit("change_dir");
    reveal_strlit("file_write");
    reveal_strlit("shell_exec");
    reveal_strlit("shell_read");
    reveal_strlit("shell_kill");
    reveal_strlit("shell_list");
    reveal_strlit("search_memory");
    assert("search_memory"@.len() != "git_status"@.len());
    reveal_strlit("code_edit");
    assert("code_edit"@.len() != "git_status"@.len());
    reveal_strlit("file_read");
    assert("file_read"@.len() != "git_status"@.len());
    assert("list_files"@[0] != "git_status"@[0]);
    assert("change_dir"@[0] != "git_status"@[0]);
    reveal_strlit("get_cwd");
    assert("get_cwd"@.len() != "git_status"@.len());
    assert("file_write"@[0] != "git_status"@[0]);
    reveal_strlit("terminal_execute");
    assert("terminal_execute"@.len() != "git_status"@.len());
    reveal_strlit("glob");
    assert("glob"@.len() != "git_status"@.len());
    reveal_strlit("grep");
    assert("grep"@.len() != "git_status"@.len());
    reveal_strlit("search_in_file");
    assert("search_in_file"@.len() != "git_status"@.len());
    reveal_strlit("outline_file");
    assert("outline_file"@.len() != "git_status"@.len());
    reveal_strlit("file_diff");
    assert("file_diff"@.len() != "git_status"@.len());
    reveal_strlit("file_undo");
    assert("file_undo"@.len() != "git_status"@.len());
    reveal_strlit("apply_patch");
    assert("apply_patch"@.len() != "git_status"@.len());
    reveal_strlit("shell_spawn");
    assert("shell_spawn"@.len() != "git_status"@.len());
    assert("shell_exec"@[0] != "git_status"@[0]);
    assert("shell_read"@[0] != "git_status"@[0]);
    assert("shell_kill"@[0] != "git_status"@[0]);
    assert("shell_list"@[0] != "git_status"@[0]);
}

/// What a call of `git_diff` asks for: what its arguments say.
pub proof fn git_diff_call(args: JsonV, p: ToolPlan)
    requires
        asks("git_diff"@, args, p),
    ensures
        p matches ToolPlan::GitDiff { file, .. } && is_optional_text(args, "file"@, text_view(file)),
{
    reveal_strlit("git_diff");
    reveal_strlit("search_memory");
    assert("search_memory"@.len() != "git_diff"@.len());
    reveal_strlit("code_edit");
    assert("code_edit"@.len() != "git_diff"@.len());
    reveal_strlit("file_read");
    assert("file_read"@.len() != "git_diff"@.len());
    reveal_strlit("list_files");
    assert("list_files"@.len() != "git_diff"@.len());
    reveal_strlit("change_dir");
    assert("change_dir"@.len() != "git_diff"@.len());
    reveal_strlit("get_cwd");
    assert("get_cwd"@.len() != "git_diff"@.len());
    reveal_strlit("file_write");
    assert("file_write"@.len() != "git_diff"@.len());
    reveal_strlit("terminal_execute");
    assert("terminal_execute"@.len() != "git_diff"@.len());
    reveal_strlit("glob");
    assert("glob"@.len() != "git_diff"@.len());
    reveal_strlit("grep");
    assert("grep"@.len() != "git_diff"@.len());
    reveal_strlit("search_in_file");
    assert("search_in_file"@.len() != "git_diff"@.len());
    reveal_strlit("outline_file");
    assert("outline_file"@.len() != "git_diff"@.len());
    reveal_strlit("file_diff");
    assert("file_diff"@.len() != "git_diff"@.len());
    reveal_strlit("file_undo");
    assert("file_undo"@.len() != "git_diff"@.len());
    reveal_strlit("apply_patch");
    assert("apply_patch"@.len() != "git_diff"@.len());
    reveal_strlit("shell_spawn");
    assert("shell_spawn"@.len() != "git_diff"@.len());
    reveal_strlit("shell_exec");
    assert("shell_exec"@.len() != "git_diff"@.len());
    reveal_strlit("shell_read");
    assert("shell_read"@.len() != "git_diff"@.len());
    reveal_strlit("shell_kill");
    assert("shell_kill"@.len() != "git_diff"@.len());
    reveal_strlit("shell_list");
    assert("shell_list"@.len() != "git_diff"@.len());
    reveal_strlit("git_status");
    assert("git_status"@.len() != "git_diff"@.len());
    is_read(args, "file"@);
}

/// What a call of `git_log` asks for: what its arguments say.
pub proof fn git_log_call(args: JsonV, p: ToolPlan)
    requires
        asks("git_log"@, args, p),
    ensures
        p matches ToolPlan::GitLog { count, .. } && is_number(args, "count"@, 10, count as int),
{
    reveal_strlit("git_log");
    reveal_strlit("get_cwd");
    reveal_strlit("search_memory");
    assert("search_memory"@.len() != "git_log"@.len());
    reveal_strlit("code_edit");
    assert("code_edit"@.len() != "git_log"@.len());
    reveal_strlit("file_read");
    assert("file_read"@.len() != "git_log"@.len());
    reveal_strlit("list_files");
    assert("list_files"@.len() != "git_log"@.len());
    reveal_strlit("change_dir");
    assert("change_dir"@.len() != "git_log"@.len());
    assert("get_cwd"@[1] != "git_log"@[1]);
    reveal_strlit("file_write");
    assert("file_write"@.len() != "git_log"@.len());
    reveal_strlit("terminal_execute");
    assert("terminal_execute"@.len() != "git_log"@.len());
    reveal_strlit("glob");
    assert("glob"@.len() != "git_log"@.len());
    reveal_strlit("grep");
    assert("grep"@.len() != "git_log"@.len());
    reveal_strlit("search_in_file");
    assert("search_in_file"@.len() != "git_log"@.len());
    reveal_strlit("outline_file");
    assert("outline_file"@.len() != "git_log"@.len());
    reveal_strlit("file_diff");
    assert("file_diff"@.len() != "git_log"@.len());
    reveal_strlit("file_undo");
    assert("file_undo"@.len() != "git_log"@.len());
    reveal_strlit("apply_patch");
    assert("apply_patch"@.len() != "git_log"@.len());
    reveal_strlit("shell_spawn");
    assert("shell_spawn"@.len() != "git_log"@.len());
    reveal_strlit("shell_exec");
    assert("shell_exec"@.len() != "git_log"@.len());
    reveal_strlit("shell_read");
    assert("shell_read"@.len() != "git_log"@.len());
    reveal_strlit("shell_kill");
    assert("shell_kill"@.len() != "git_log"@.len());
    reveal_strlit("shell_list");
    assert("shell_list"@.len() != "git_log"@.len());
    reveal_strlit("git_status");
    assert("git_status"@.len() != "git_log"@.len());
    reveal_strlit("git_diff");
    assert("git_diff"@.len() != "git_log"@.len());
    is_read(args, "count"@);
}

/// What a call of `git_branch` asks for: what its arguments say.
pub proof fn git_branch_call(args: JsonV, p: ToolPlan)
    requires
        asks("git_branch"@, args, p),
    ensures
        p is GitBranch,
{
    reveal_strlit("git_branch");
    reveal_strlit("list_files");
    reveal_strlit("change_dir");
    reveal_strlit("file_write");
    reveal_strlit("shell_exec");
    reveal_strlit("shell_read");
    reveal_strlit("shell_kill");
    reveal_strlit("shell_list");
    reveal_strlit("git_status");
    reveal_strlit("search_memory");
    assert("search_memory"@.len() != "git_branch"@.len());
    reveal_strlit("code_edit");
    assert("code_edit"@.len() != "git_branch"@.len());
    reveal_strlit("file_read");
    assert("file_read"@.len() != "git_branch"@.len());
    assert("list_files"@[0] != "git_branch"@[0]);
    assert("change_dir"@[0] != "git_branch"@[0]);
    reveal_strlit("get_cwd");
    assert("get_cwd"@.len() != "git_branch"@.len());
    assert("file_write"@[0] != "git_branch"@[0]);
    reveal_strlit("terminal_execute");
    assert("terminal_execute"@.len() != "git_branch"@.len());
    reveal_strlit("glob");
    assert("glob"@.len() != "git_branch"@.len());
    reveal_strlit("grep");
    assert("grep"@.len() != "git_branch"@.len());
    reveal_strlit("search_in_file");
    assert("search_in_file"@.len() != "git_branch"@.len());
    reveal_strlit("outline_file");
    assert("outline_file"@.len() != "git_branch"@.len());
    reveal_strlit("file_diff");
    assert("file_diff"@.len() != "git_branch"@.len());
    reveal_strlit("file_undo");
    assert("file_undo"@.len() != "git_branch"@.len());
    reveal_strlit("apply_patch");
    assert("apply_patch"@.len() != "git_branch"@.len());
    reveal_strlit("shell_spawn");
    assert("shell_spawn"@.len() != "git_branch"@.len());
    assert("shell_exec"@[0] != "git_branch"@[0]);
    assert("shell_read"@[0] != "git_branch"@[0]);
    assert("shell_kill"@[0] != "git_branch"@[0]);
    assert("shell_list"@[0] != "git_branch"@[0]);
    assert("git_status"@[4] != "git_branch"@[4]);
    reveal_strlit("git_diff");
    assert("git_diff"@.len() != "git_branch"@.len());
    reveal_strlit("git_log");
    assert("git_log"@.len() != "git_branch"@.len());
}

/// What a call of `lsp_definition` asks for: what its arguments say.
pub proof fn lsp_definition_call(args: JsonV, p: ToolPlan)
    requires
        asks("lsp_definition"@, args, p),
    ensures
        says_something(args, "path"@) ==> (p matches ToolPlan::LspDefinition { path, line, character, .. } && is_text(args, "path"@, Seq::empty(), path@)
            && is_low_number(args, "line"@, line as int)
            && is_low_number(args, "character"@, character as int)),
        !(says_something(args, "path"@)) ==> (p matches ToolPlan::Reply { answer } && answer@ == "Error: path is required"@),
{
    reveal_strlit("lsp_definition");
    reveal_strlit("search_in_file");
    reveal_strlit("search_memory");
    assert("search_memory"@.len() != "lsp_definition"@.len());
    reveal_strlit("code_edit");
    assert("code_edit"@.len() != "lsp_definition"@.len());
    reveal_strlit("file_read");
    assert("file_read"@.len() != "lsp_definition"@.len());
    reveal_strlit("list_files");
    assert("list_files"@.len() != "lsp_definition"@.len());
    reveal_strlit("change_dir");
    assert("change_dir"@.len() != "lsp_definition"@.len());
    reveal_strlit("get_cwd");
    assert("get_cwd"@.len() != "lsp_definition"@.len());
    reveal_strlit("file_write");
    assert("file_write"@.len() != "lsp_definition"@.len());
    reveal_strlit("terminal_execute");
    assert("terminal_execute"@.len() != "lsp_definition"@.len());
    reveal_strlit("glob");
    assert("glob"@.len() != "lsp_definition"@.len());
    reveal_strlit("grep");
    assert("grep"@.len() != "lsp_definition"@.len());
    assert("search_in_file"@[0] != "lsp_definition"@[0]);
    reveal_strlit("outline_file");
    assert("outline_file"@.len() != "lsp_definition"@.len());
    reveal_strlit("file_diff");
    assert("file_diff"@.len() != "lsp_definition"@.len());
    reveal_strlit("file_undo");
    assert("file_undo"@.len() != "lsp_definition"@.len());
    reveal_strlit("apply_patch");
    assert("apply_patch"@.len() != "lsp_definition"@.len());
    reveal_strlit("shell_spawn");
    assert("shell_spawn"@.len() != "lsp_definition"@.len());
    reveal_strlit("shell_exec");
    assert("shell_exec"@.len() != "lsp_definition"@.len());
    reveal_strlit("shell_read");
    assert("shell_read"@.len() != "lsp_definition"@.len());
    reveal_strlit("shell_kill");
    assert("shell_kill"@.len() != "lsp_definition"@.len());
    reveal_strlit("shell_list");
    assert("shell_list"@.len() != "lsp_definition"@.len());
    reveal_strlit("git_status");
    assert("git_status"@.len() != "lsp_definition"@.len());
    reveal_strlit("git_diff");
    assert("git_diff"@.len() != "lsp_definition"@.len());
    reveal_strlit("git_log");
    assert("git_log"@.len() != "lsp_definition"@.len());
    reveal_strlit("git_branch");
    assert("git_branch"@.len() != "lsp_definition"@.len());
    is_read(args, "character"@);
    is_read(args, "line"@);
    is_read(args, "path"@);
}

/// What a call of `lsp_references` asks for: what its arguments say.
pub proof fn lsp_references_call(args: JsonV, p: ToolPlan)
    requires
        asks("lsp_references"@, args, p),
    ensures
        says_something(args, "path"@) ==> (p matches ToolPlan::LspReferences { path, line, character, .. } && is_text(args, "path"@, Seq::empty(), path@)
            && is_low_number(args, "line"@, line as int)
            && is_low_number(args, "character"@, character as int)),
        !(says_something(args, "path"@)) ==> (p matches ToolPlan::Reply { answer } && answer@ == "Error: path is required"@),
{
    reveal_strlit("lsp_references");
    reveal_strlit("search_in_file");
    reveal_strlit("lsp_definition");
    reveal_strlit("search_memory");
    assert("search_memory"@.len() != "lsp_references"@.len());
    reveal_strlit("code_edit");
    assert("code_edit"@.len() != "lsp_references"@.len());
    reveal_strlit("file_read");
    assert("file_read"@.len() != "lsp_references"@.len());
    reveal_strlit("list_files");
    assert("list_files"@.len() != "lsp_references"@.len());
    reveal_strlit("change_dir");
    assert("change_dir"@.len() != "lsp_references"@.len());
    reveal_strlit("get_cwd");
    assert("get_cwd"@.len() != "lsp_references"@.len());
    reveal_strlit("file_write");
    assert("file_write"@.len() != "lsp_references"@.len());
    reveal_strlit("terminal_execute");
    assert("terminal_execute"@.len() != "lsp_references"@.len());
    reveal_strlit("glob");
    assert("glob"@.len() != "lsp_references"@.len());
    reveal_strlit("grep");
    assert("grep"@.len() != "lsp_references"@.len());
    assert("search_in_file"@[0] != "lsp_references"@[0]);
    reveal_strlit("outline_file");
    assert("outline_file"@.len() != "lsp_references"@.len());
    reveal_strlit("file_diff");
    assert("file_diff"@.len() != "lsp_references"@.len());
    reveal_strlit("file_undo");
    assert("file_undo"@.len() != "lsp_references"@.len());
    reveal_strlit("apply_patch");
    assert("apply_patch"@.len() != "lsp_references"@.len());
    reveal_strlit("shell_spawn");
    assert("shell_spawn"@.len() != "lsp_references"@.len());
    reveal_strlit("shell_exec");
    assert("shell_exec"@.len() != "lsp_references"@.len());
    reveal_strlit("shell_read");
    assert("shell_read"@.len() != "lsp_references"@.len());
    reveal_strlit("shell_kill");
    assert("shell_kill"@.len() != "lsp_references"@.len());
    reveal_strlit("shell_list");
    assert("shell_list"@.len() != "lsp_references"@.len());
    reveal_strlit("git_status");
    assert("git_status"@.len() != "lsp_references"@.len());
    reveal_strlit("git_diff");
    assert("git_diff"@.len() != "lsp_references"@.len());
    reveal_strlit("git_log");
    assert("git_log"@.len() != "lsp_references"@.len());
    reveal_strlit("git_branch");
    assert("git_branch"@.len() != "lsp_references"@.len());
    assert("lsp_definition"@[4] != "lsp_references"@[4]);
    is_read(args, "character"@);
    is_read(args, "line"@);
    is_read(args, "path"@);
}

/// What a call of `lsp_hover` asks for: what its arguments say.
pub proof fn lsp_hover_call(args: JsonV, p: ToolPlan)
    requires
        asks("lsp_hover"@, args, p),
    ensures
        says_something(args, "path"@) ==> (p matches ToolPlan::LspHover { path, line, character, .. } && is_text(args, "path"@, Seq::empty(), path@)
            && is_low_number(args, "line"@, line as int)
            && is_low_number(args, "character"@, character as int)),
        !(says_something(args, "path"@)) ==> (p matches ToolPlan::Reply { answer } && answer@ == "Error: path is required"@),
{
    reveal_strlit("lsp_hover");
    reveal_strlit("code_edit");
    reveal_strlit("file_read");
    reveal_strlit("file_diff");
    reveal_strlit("file_undo");
    reveal_strlit("search_memory");
    assert("search_memory"@.len() != "lsp_hover"@.len());
    assert("code_edit"@[0] != "lsp_hover"@[0]);
    assert("file_read"@[0] != "lsp_hover"@[0]);
    reveal_strlit("list_files");
    assert("list_files"@.len() != "lsp_hover"@.len());
    reveal_strlit("change_dir");
    assert("change_dir"@.len() != "lsp_hover"@.len());
    reveal_strlit("get_cwd");
    assert("get_cwd"@.len() != "lsp_hover"@.len());
    reveal_strlit("file_write");
    assert("file_write"@.len() != "lsp_hover"@.len());
    reveal_strlit("terminal_execute");
    assert("terminal_execute"@.len() != "lsp_hover"@.len());
    reveal_strlit("glob");
    assert("glob"@.len() != "lsp_hover"@.len());
    reveal_strlit("grep");
    assert("grep"@.len() != "lsp_hover"@.len());
    reveal_strlit("search_in_file");
    assert("search_in_file"@.len() != "lsp_hover"@.len());
    reveal_strlit("outline_file");
    assert("outline_file"@.len() != "lsp_hover"@.len());
    assert("file_diff"@[0] != "lsp_hover"@[0]);
    assert("file_undo"@[0] != "lsp_hover"@[0]);
    reveal_strlit("apply_patch");
    assert("apply_patch"@.len() != "lsp_hover"@.len());
    reveal_strlit("shell_spawn");
    assert("shell_spawn"@.len() != "lsp_hover"@.len());
    reveal_strlit("shell_exec");
    assert("shell_exec"@.len() != "lsp_hover"@.len());
    reveal_strlit("shell_read");
    assert("shell_read"@.len() != "lsp_hover"@.len());
    reveal_strlit("shell_kill");
    assert("shell_kill"@.len() != "lsp_hover"@.len());
    reveal_strlit("shell_list");
    assert("shell_list"@.len() != "lsp_hover"@.len());
    reveal_strlit("git_status");
    assert("git_status"@.len() != "lsp_hover"@.len());
    reveal_strlit("git_diff");
    assert("git_diff"@.len() != "lsp_hover"@.len());
    reveal_strlit("git_log");
    assert("git_log"@.len() != "lsp_hover"@.len());
    reveal_strlit("git_branch");
    assert("git_branch"@.len() != "lsp_hover"@.len());
    reveal_strlit("lsp_definition");
    assert("lsp_definition"@.len() != "lsp_hover"@.len());
    reveal_strlit("lsp_references");
    assert("lsp_references"@.len() != "lsp_hover"@.len());
    is_read(args, "character"@);
    is_read(args, "line"@);
    is_read(args, "path"@);
}

/// What a call of `git_commit` asks for: what its arguments say.
pub proof fn git_commit_call(args: JsonV, p: ToolPlan)
    requires
        asks("git_commit"@, args, p),
    ensures
        says_something(args, "message"@) ==> (p matches ToolPlan::GitCommit { message, .. } && is_text(args, "message"@, Seq::empty(), message@)),
        !(says_something(args, "message"@)) ==> (p matches ToolPlan::Reply { answer } && answer@ == "Error: message is required"@),
        says_something(args, "message"@) ==> (p matches ToolPlan::GitCommit { files, .. } && (
        forall|items: Seq<JsonV>| #[trigger]
            has_member(args, "files"@, JsonV::List(items)) ==> names_all(items, text::views(files@)))
            && ((forall|items: Seq<JsonV>| !#[trigger] has_member(
            args,
            "files"@,
            JsonV::List(items),
        )) ==> text::views(files@) == seq!["."@])),
{
    reveal_strlit("git_commit");
    reveal_strlit("list_files");
    reveal_strlit("change_dir");
    reveal_strlit("file_write");
    reveal_strlit("shell_exec");
    reveal_strlit("shell_read");
    reveal_strlit("shell_kill");
    reveal_strlit("shell_list");
    reveal_strlit("git_status");
    reveal_strlit("git_branch");
    reveal_strlit("search_memory");
    assert("search_memory"@.len() != "git_commit"@.len());
    reveal_strlit("code_edit");
    assert("code_edit"@.len() != "git_commit"@.len());
    reveal_strlit("file_read");
    assert("file_read"@.len() != "git_commit"@.len());
    assert("list_files"@[0] != "git_commit"@[0]);
    assert("change_dir"@[0] != "git_commit"@[0]);
    reveal_strlit("get_cwd");
    assert("get_cwd"@.len() != "git_commit"@.len());
    assert("file_write"@[0] != "git_commit"@[0]);
    reveal_strlit("terminal_execute");
    assert("terminal_execute"@.len() != "git_commit"@.len());
    reveal_strlit("glob");
    assert("glob"@.len() != "git_commit"@.len());
    reveal_strlit("grep");
    assert("grep"@.len() != "git_commit"@.len());
    reveal_strlit("search_in_file");
    assert("search_in_file"@.len() != "git_commit"@.len());
    reveal_strlit("outline_file");
    assert("outline_file"@.len() != "git_commit"@.len());
    reveal_strlit("file_diff");
    assert("file_diff"@.len() != "git_commit"@.len());
    reveal_strlit("file_undo");
    assert("file_undo"@.len() != "git_commit"@.len());
    reveal_strlit("apply_patch");
    assert("apply_patch"@.len() != "git_commit"@.len());
    reveal_strlit("shell_spawn");
    assert("shell_spawn"@.len() != "git_commit"@.len());
    assert("shell_exec"@[0] != "git_commit"@[0]);
    assert("shell_read"@[0] != "git_commit"@[0]);
    assert("shell_kill"@[0] != "git_commit"@[0]);
    assert("shell_list"@[0] != "git_commit"@[0]);
    assert("git_status"@[4] != "git_commit"@[4]);
    reveal_strlit("git_diff");
    assert("git_diff"@.len() != "git_commit"@.len());
    reveal_strlit("git_log");
    assert("git_log"@.len() != "git_commit"@.len());
    assert("git_branch"@[4] != "git_commit"@[4]);
    reveal_strlit("lsp_definition");
    assert("lsp_definition"@.len() != "git_commit"@.len());
    reveal_strlit("lsp_references");
    assert("lsp_references"@.len() != "git_commit"@.len());
    reveal_strlit("lsp_hover");
    assert("lsp_hover"@.len() != "git_commit"@.len());
    is_read(args, "files"@);
    is_read(args, "message"@);
    members_are_found_by_name(args, "files"@);
    if let Some(JsonV::List(items)) = args.get("files"@) {
        texts_are_named(items);
        assert(has_member(args, "files"@, JsonV::List(items)));
    }
}

/// What a call of `web_search` asks for: what its arguments say.
pub proof fn web_search_call(args: JsonV, p: ToolPlan)
    requires
        asks("web_search"@, args, p),
    ensures
        p matches ToolPlan::WebSearch { query, .. } && is_text(args, "query"@, Seq::empty(), query@),
{
    reveal_strlit("web_search");
    reveal_strlit("list_files");
    reveal_strlit("change_dir");
    reveal_strlit("file_write");
    reveal_strlit("shell_exec");
    reveal_strlit("shell_read");
    reveal_strlit("shell_kill");
    reveal_strlit("shell_list");
    reveal_strlit("git_status");
    reveal_strlit("git_branch");
    reveal_strlit("git_commit");
    reveal_strlit("search_memory");
    assert("search_memory"@.len() != "web_search"@.len());
    reveal_strlit("code_edit");
    assert("code_edit"@.len() != "web_search"@.len());
    reveal_strlit("file_read");
    assert("file_read"@.len() != "web_search"@.len());
    assert("list_files"@[0] != "web_search"@[0]);
    assert("change_dir"@[0] != "web_search"@[0]);
    reveal_strlit("get_cwd");
    assert("get_cwd"@.len() != "web_search"@.len());
    assert("file_write"@[0] != "web_search"@[0]);
    reveal_strlit("terminal_execute");
    assert("terminal_execute"@.len() != "web_search"@.len());
    reveal_strlit("glob");
    assert("glob"@.len() != "web_search"@.len());
    reveal_strlit("grep");
    assert("grep"@.len() != "web_search"@.len());
    reveal_strlit("search_in_file");
    assert("search_in_file"@.len() != "web_search"@.len());
    reveal_strlit("outline_file");
    assert("outline_file"@.len() != "web_search"@.len());
    reveal_strlit("file_diff");
    assert("file_diff"@.len() != "web_search"@.len());
    reveal_strlit("file_undo");
    assert("file_undo"@.len() != "web_search"@.len());
    reveal_strlit("apply_patch");
    assert("apply_patch"@.len() != "web_search"@.len());
    reveal_strlit("shell_spawn");
    assert("shell_spawn"@.len() != "web_search"@.len());
    assert("shell_exec"@[0] != "web_search"@[0]);
    assert("shell_read"@[0] != "web_search"@[0]);
    assert("shell_kill"@[0] != "web_search"@[0]);
    assert("shell_list"@[0] != "web_search"@[0]);
    assert("git_status"@[0] != "web_search"@[0]);
    reveal_strlit("git_diff");
    assert("git_diff"@.len() != "web_search"@.len());
    reveal_strlit("git_log");
    assert("git_log"@.len() != "web_search"@.len());
    assert("git_branch"@[0] != "web_search"@[0]);
    reveal_strlit("lsp_definition");
    assert("lsp_definition"@.len() != "web_search"@.len());
    reveal_strlit("lsp_references");
    assert("lsp_references"@.len() != "web_search"@.len());
    reveal_strlit("lsp_hover");
    assert("lsp_hover"@.len() != "web_search"@.len());
    assert("git_commit"@[0] != "web_search"@[0]);
    is_read(args, "query"@);
}

/// What a call of `fetch_url` asks for: what its arguments say.
pub proof fn fetch_url_call(args: JsonV, p: ToolPlan)
    requires
        asks("fetch_url"@, args, p),
    ensures
        p matches ToolPlan::FetchUrl { url, .. } && is_text(args, "url"@, Seq::empty(), url@),
{
    reveal_strlit("fetch_url");
    reveal_strlit("code_edit");
    reveal_strlit("file_read");
    reveal_strlit("file_diff");
    reveal_strlit("file_undo");
    reveal_strlit("lsp_hover");
    reveal_strlit("search_memory");
    assert("search_memory"@.len() != "fetch_url"@.len());
    assert("code_edit"@[0] != "fetch_url"@[0]);
    assert("file_read"@[1] != "fetch_url"@[1]);
    reveal_strlit("list_files");
    assert("list_files"@.len() != "fetch_url"@.len());
    reveal_strlit("change_dir");
    assert("change_dir"@.len() != "fetch_url"@.len());
    reveal_strlit("get_cwd");
    assert("get_cwd"@.len() != "fetch_url"@.len());
    reveal_strlit("file_write");
    assert("file_write"@.len() != "fetch_url"@.len());
    reveal_strlit("terminal_execute");
    assert("terminal_execute"@.len() != "fetch_url"@.len());
    reveal_strlit("glob");
    assert("glob"@.len() != "fetch_url"@.len());
    reveal_strlit("grep");
    assert("grep"@.len() != "fetch_url"@.len());
    reveal_strlit("search_in_file");
    assert("search_in_file"@.len() != "fetch_url"@.len());
    reveal_strlit("outline_file");
    assert("outline_file"@.len() != "fetch_url"@.len());
    assert("file_diff"@[1] != "fetch_url"@[1]);
    assert("file_undo"@[1] != "fetch_url"@[1]);
    reveal_strlit("apply_patch");
    assert("apply_patch"@.len() != "fetch_url"@.len());
    reveal_strlit("shell_spawn");
    assert("shell_spawn"@.len() != "fetch_url"@.len());
    reveal_strlit("shell_exec");
    assert("shell_exec"@.len() != "fetch_url"@.len());
    reveal_strlit("shell_read");
    assert("shell_read"@.len() != "fetch_url"@.len());
    reveal_strlit("shell_kill");
    assert("shell_kill"@.len() != "fetch_url"@.len());
    reveal_strlit("shell_list");
    assert("shell_list"@.len() != "fetch_url"@.len());
    reveal_strlit("git_status");
    assert("git_status"@.len() != "fetch_url"@.len());
    reveal_strlit("git_diff");
    assert("git_diff"@.len() != "fetch_url"@.len());
    reveal_strlit("git_log");
    assert("git_log"@.len() != "fetch_url"@.len());
    reveal_strlit("git_branch");
    assert("git_branch"@.len() != "fetch_url"@.len());
    reveal_strlit("lsp_definition");
    assert("lsp_definition"@.len() != "fetch_url"@.len());
    reveal_strlit("lsp_references");
    assert("lsp_references"@.len() != "fetch_url"@.len());
    assert("lsp_hover"@[0] != "fetch_url"@[0]);
    reveal_strlit("git_commit");
    assert("git_commit"@.len() != "fetch_url"@.len());
    reveal_strlit("web_search");
    assert("web_search"@.len() != "fetch_url"@.len());
    is_read(args, "url"@);
}

/// What a call of `browser_navigate` asks for: what its arguments say.
pub proof fn browser_navigate_call(args: JsonV, p: ToolPlan)
    requires
        asks("browser_navigate"@, args, p),
    ensures
        p matches ToolPlan::BrowserNavigate { url, .. } && is_text(args, "url"@, Seq::empty(), url@),
{
    reveal_strlit("browser_navigate");
    reveal_strlit("terminal_execute");
    reveal_strlit("search_memory");
    assert("search_memory"@.len() != "browser_navigate"@.len());
    reveal_strlit("code_edit");
    assert("code_edit"@.len() != "browser_navigate"@.len());
    reveal_strlit("file_read");
    assert("file_read"@.len() != "browser_navigate"@.len());
    reveal_strlit("list_files");
    assert("list_files"@.len() != "browser_navigate"@.len());
    reveal_strlit("change_dir");
    assert("change_dir"@.len() != "browser_navigate"@.len());
    reveal_strlit("get_cwd");
    assert("get_cwd"@.len() != "browser_navigate"@.len());
    reveal_strlit("file_write");
    assert("file_write"@.len() != "browser_navigate"@.len());
    assert("terminal_execute"@[0] != "browser_navigate"@[0]);
    reveal_strlit("glob");
    assert("glob"@.len() != "browser_navigate"@.len());
    reveal_strlit("grep");
    assert("grep"@.len() != "browser_navigate"@.len());
    reveal_strlit("search_in_file");
    assert("search_in_file"@.len() != "browser_navigate"@.len());
    reveal_strlit("outline_file");
    assert("outline_file"@.len() != "browser_navigate"@.len());
    reveal_strlit("file_diff");
    assert("file_diff"@.len() != "browser_navigate"@.len());
    reveal_strlit("file_undo");
    assert("file_undo"@.len() != "browser_navigate"@.len());
    reveal_strlit("apply_patch");
    assert("apply_patch"@.len() != "browser_navigate"@.len());
    reveal_strlit("shell_spawn");
    assert("shell_spawn"@.len() != "browser_navigate"@.len());
    reveal_strlit("shell_exec");
    assert("shell_exec"@.len() != "browser_navigate"@.len());
    reveal_strlit("shell_read");
    assert("shell_read"@.len() != "browser_navigate"@.len());
    reveal_strlit("shell_kill");
    assert("shell_kill"@.len() != "browser_navigate"@.len());
    reveal_strlit("shell_list");
    assert("shell_list"@.len() != "browser_navigate"@.len());
    reveal_strlit("git_status");
    assert("git_status"@.len() != "browser_navigate"@.len());
    reveal_strlit("git_diff");
    assert("git_diff"@.len() != "browser_navigate"@.len());
    reveal_strlit("git_log");
    assert("git_log"@.len() != "browser_navigate"@.len());
    reveal_strlit("git_branch");
    assert("git_branch"@.len() != "browser_navigate"@.len());
    reveal_strlit("lsp_definition");
    assert("lsp_definition"@.len() != "browser_navigate"@.len());
    reveal_strlit("lsp_references");
    assert("lsp_references"@.len() != "browser_navigate"@.len());
    reveal_strlit("lsp_hover");
    assert("lsp_hover"@.len() != "browser_navigate"@.len());
    reveal_strlit("git_commit");
    assert("git_commit"@.len() != "browser_navigate"@.len());
    reveal_strlit("web_search");
    assert("web_search"@.len() != "browser_navigate"@.len());
    reveal_strlit("fetch_url");
    assert("fetch_url"@.len() != "browser_navigate"@.len());
    is_read(args, "url"@);
}

/// What a call of `browser_click` asks for: what its arguments say.
pub proof fn browser_click_call(args: JsonV, p: ToolPlan)
    requires
        asks("browser_click"@, args, p),
    ensures
        p matches ToolPlan::BrowserClick { selector, .. } && is_text(args, "selector"@, Seq::empty(), selector@),
{
    reveal_strlit("browser_click");
    reveal_strlit("search_memory");
    assert("search_memory"@[0] != "browser_click"@[0]);
    reveal_strlit("code_edit");
    assert("code_edit"@.len() != "browser_click"@.len());
    reveal_strlit("file_read");
    assert("file_read"@.len() != "browser_click"@.len());
    reveal_strlit("list_files");
    assert("list_files"@.len() != "browser_click"@.len());
    reveal_strlit("change_dir");
    assert("change_dir"@.len() != "browser_click"@.len());
    reveal_strlit("get_cwd");
    assert("get_cwd"@.len() != "browser_click"@.len());
    reveal_strlit("file_write");
    assert("file_write"@.len() != "browser_click"@.len());
    reveal_strlit("terminal_execute");
    assert("terminal_execute"@.len() != "browser_click"@.len());
    reveal_strlit("glob");
    assert("glob"@.len() != "browser_click"@.len());
    reveal_strlit("grep");
    assert("grep"@.len() != "browser_click"@.len());
    reveal_strlit("search_in_file");
    assert("search_in_file"@.len() != "browser_click"@.len());
    reveal_strlit("outline_file");
    assert("outline_file"@.len() != "browser_click"@.len());
    reveal_strlit("file_diff");
    assert("file_diff"@.len() != "browser_click"@.len());
    reveal_strlit("file_undo");
    assert("file_undo"@.len() != "browser_click"@.len());
    reveal_strlit("apply_patch");
    assert("apply_patch"@.len() != "browser_click"@.len());
    reveal_strlit("shell_spawn");
    assert("shell_spawn"@.len() != "browser_click"@.len());
    reveal_strlit("shell_exec");
    assert("shell_exec"@.len() != "browser_click"@.len());
    reveal_strlit("shell_read");
    assert("shell_read"@.len() != "browser_click"@.len());
    reveal_strlit("shell_kill");
    assert("shell_kill"@.len() != "browser_click"@.len());
    reveal_strlit("shell_list");
    assert("shell_list"@.len() != "browser_click"@.len());
    reveal_strlit("git_status");
    assert("git_status"@.len() != "browser_click"@.len());
    reveal_strlit("git_diff");
    assert("git_diff"@.len() != "browser_click"@.len());
    reveal_strlit("git_log");
    assert("git_log"@.len() != "browser_click"@.len());
    reveal_strlit("git_branch");
    assert("git_branch"@.len() != "browser_click"@.len());
    reveal_strlit("lsp_definition");
    assert("lsp_definition"@.len() != "browser_click"@.len());
    reveal_strlit("lsp_references");
    assert("lsp_references"@.len() != "browser_click"@.len());
    reveal_strlit("lsp_hover");
    assert("lsp_hover"@.len() != "browser_click"@.len());
    reveal_strlit("git_commit");
    assert("git_commit"@.len() != "browser_click"@.len());
    reveal_strlit("web_search");
    assert("web_search"@.len() != "browser_click"@.len());
    reveal_strlit("fetch_url");
    assert("fetch_url"@.len() != "browser_click"@.len());
    reveal_strlit("browser_navigate");
    assert("browser_navigate"@.len() != "browser_click"@.len());
    is_read(args, "selector"@);
}

/// What a call of `browser_type` asks for: what its arguments say.
pub proof fn browser_type_call(args: JsonV, p: ToolPlan)
    requires
        asks("browser_type"@, args, p),
    ensures
        p matches ToolPlan::BrowserType { selector, text, .. } && is_text(args, "selector"@, Seq::empty(), selector@)
            && is_text(args, "text"@, Seq::empty(), text@),
{
    reveal_strlit("browser_type");
    reveal_strlit("outline_file");
    reveal_strlit("search_memory");
    assert("search_memory"@.len() != "browser_type"@.len());
    reveal_strlit("code_edit");
    assert("code_edit"@.len() != "browser_type"@.len());
    reveal_strlit("file_read");
    assert("file_read"@.len() != "browser_type"@.len());
    reveal_strlit("list_files");
    assert("list_files"@.len() != "browser_type"@.len());
    reveal_strlit("change_dir");
    assert("change_dir"@.len() != "browser_type"@.len());
    reveal_strlit("get_cwd");
    assert("get_cwd"@.len() != "browser_type"@.len());
    reveal_strlit("file_write");
    assert("file_write"@.len() != "browser_type"@.len());
    reveal_strlit("terminal_execute");
    assert("terminal_execute"@.len() != "browser_type"@.len());
    reveal_strlit("glob");
    assert("glob"@.len() != "browser_type"@.len());
    reveal_strlit("grep");
    assert("grep"@.len() != "browser_type"@.len());
    reveal_strlit("search_in_file");
    assert("search_in_file"@.len() != "browser_type"@.len());
    assert("outline_file"@[0] != "browser_type"@[0]);
    reveal_strlit("file_diff");
    assert("file_diff"@.len() != "browser_type"@.len());
    reveal_strlit("file_undo");
    assert("file_undo"@.len() != "browser_type"@.len());
    reveal_strlit("apply_patch");
    assert("apply_patch"@.len() != "browser_type"@.len());
    reveal_strlit("shell_spawn");
    assert("shell_spawn"@.len() != "browser_type"@.len());
    reveal_strlit("shell_exec");
    assert("shell_exec"@.len() != "browser_type"@.len());
    reveal_strlit("shell_read");
    assert("shell_read"@.len() != "browser_type"@.len());
    reveal_strlit("shell_kill");
    assert("shell_kill"@.len() != "browser_type"@.len());
    reveal_strlit("shell_list");
    assert("shell_list"@.len() != "browser_type"@.len());
    reveal_strlit("git_status");
    assert("git_status"@.len() != "browser_type"@.len());
    reveal_strlit("git_diff");
    assert("git_diff"@.len() != "browser_type"@.len());
    reveal_strlit("git_log");
    assert("git_log"@.len() != "browser_type"@.len());
    reveal_strlit("git_branch");
    assert("git_branch"@.len() != "browser_type"@.len());
    reveal_strlit("lsp_definition");
    assert("lsp_definition"@.len() != "browser_type"@.len());
    reveal_strlit("lsp_references");
    assert("lsp_references"@.len() != "browser_type"@.len());
    reveal_strlit("lsp_hover");
    assert("lsp_hover"@.len() != "browser_type"@.len());
    reveal_strlit("git_commit");
    assert("git_commit"@.len() != "browser_type"@.len());
    reveal_strlit("web_search");
    assert("web_search"@.len() != "browser_type"@.len());
    reveal_strlit("fetch_url");
    assert("fetch_url"@.len() != "browser_type"@.len());
    reveal_strlit("browser_navigate");
    assert("browser_navigate"@.len() != "browser_type"@.len());
    reveal_strlit("browser_click");
    assert("browser_click"@.len() != "browser_type"@.len());
    is_read(args, "selector"@);
    is_read(args, "text"@);
}

/// What a call of `browser_evaluate` asks for: what its arguments say.
pub proof fn browser_evaluate_call(args: JsonV, p: ToolPlan)
    requires
        asks("browser_evaluate"@, args, p),
    ensures
        p matches ToolPlan::BrowserEvaluate { js, .. } && is_text(args, "js"@, Seq::empty(), js@),
{
    reveal_strlit("browser_evaluate");
    reveal_strlit("terminal_execute");
    reveal_strlit("browser_navigate");
    reveal_strlit("search_memory");
    assert("search_memory"@.len() != "browser_evaluate"@.len());
    reveal_strlit("code_edit");
    assert("code_edit"@.len() != "browser_evaluate"@.len());
    reveal_strlit("file_read");
    assert("file_read"@.len() != "browser_evaluate"@.len());
    reveal_strlit("list_files");
    assert("list_files"@.len() != "browser_evaluate"@.len());
    reveal_strlit("change_dir");
    assert("change_dir"@.len() != "browser_evaluate"@.len());
    reveal_strlit("get_cwd");
    assert("get_cwd"@.len() != "browser_evaluate"@.len());
    reveal_strlit("file_write");
    assert("file_write"@.len() != "browser_evaluate"@.len());
    assert("terminal_execute"@[0] != "browser_evaluate"@[0]);
    reveal_strlit("glob");
    assert("glob"@.len() != "browser_evaluate"@.len());
    reveal_strlit("grep");
    assert("grep"@.len() != "browser_evaluate"@.len());
    reveal_strlit("search_in_file");
    assert("search_in_file"@.len() != "browser_evaluate"@.len());
    reveal_strlit("outline_file");
    assert("outline_file"@.len() != "browser_evaluate"@.len());
    reveal_strlit("file_diff");
    assert("file_diff"@.len() != "browser_evaluate"@.len());
    reveal_strlit("file_undo");
    assert("file_undo"@.len() != "browser_evaluate"@.len());
    reveal_strlit("apply_patch");
    assert("apply_patch"@.len() != "browser_evaluate"@.len());
    reveal_strlit("shell_spawn");
    assert("shell_spawn"@.len() != "browser_evaluate"@.len());
    reveal_strlit("shell_exec");
    assert("shell_exec"@.len() != "browser_evaluate"@.len());
    reveal_strlit("shell_read");
    assert("shell_read"@.len() != "browser_evaluate"@.len());
    reveal_strlit("shell_kill");
    assert("shell_kill"@.len() != "browser_evaluate"@.len());
    reveal_strlit("shell_list");
    assert("shell_list"@.len() != "browser_evaluate"@.len());
    reveal_strlit("git_status");
    assert("git_status"@.len() != "browser_evaluate"@.len());
    reveal_strlit("git_diff");
    assert("git_diff"@.len() != "browser_evaluate"@.len());
    reveal_strlit("git_log");
    assert("git_log"@.len() != "browser_evaluate"@.len());
    reveal_strlit("git_branch");
    assert("git_branch"@.len() != "browser_evaluate"@.len());
    reveal_strlit("lsp_definition");
    assert("lsp_definition"@.len() != "browser_evaluate"@.len());
    reveal_strlit("lsp_references");
    assert("lsp_references"@.len() != "browser_evaluate"@.len());
    reveal_strlit("lsp_hover");
    assert("lsp_hover"@.len() != "browser_evaluate"@.len());
    reveal_strlit("git_commit");
    assert("git_commit"@.len() != "browser_evaluate"@.len());
    reveal_strlit("web_search");
    assert("web_search"@.len() != "browser_evaluate"@.len());
    reveal_strlit("fetch_url");
    assert("fetch_url"@.len() != "browser_evaluate"@.len());
    assert("browser_navigate"@[8] != "browser_evaluate"@[8]);
    reveal_strlit("browser_click");
    assert("browser_click"@.len() != "browser_evaluate"@.len());
    reveal_strlit("browser_type");
    assert("browser_type"@.len() != "browser_evaluate"@.len());
    is_read(args, "js"@);
}

/// What a call of `browser_screenshot` asks for: what its arguments say.
pub proof fn browser_screenshot_call(args: JsonV, p: ToolPlan)
    requires
        asks("browser_screenshot"@, args, p),
    ensures
        p matches ToolPlan::BrowserScreenshot { full_page, .. } && is_flag(args, "full_page"@, full_page),
{
    reveal_strlit("browser_screenshot");
    reveal_strlit("search_memory");
    assert("search_memory"@.len() != "browser_screenshot"@.len());
    reveal_strlit("code_edit");
    assert("code_edit"@.len() != "browser_screenshot"@.len());
    reveal_strlit("file_read");
    assert("file_read"@.len() != "browser_screenshot"@.len());
    reveal_strlit("list_files");
    assert("list_files"@.len() != "browser_screenshot"@.len());
    reveal_strlit("change_dir");
    assert("change_dir"@.len() != "browser_screenshot"@.len());
    reveal_strlit("get_cwd");
    assert("get_cwd"@.len() != "browser_screenshot"@.len());
    reveal_strlit("file_write");
    assert("file_write"@.len() != "browser_screenshot"@.len());
    reveal_strlit("terminal_execute");
    assert("terminal_execute"@.len() != "browser_screenshot"@.len());
    reveal_strlit("glob");
    assert("glob"@.len() != "browser_screenshot"@.len());
    reveal_strlit("grep");
    assert("grep"@.len() != "browser_screenshot"@.len());
    reveal_strlit("search_in_file");
    assert("search_in_file"@.len() != "browser_screenshot"@.len());
    reveal_strlit("outline_file");
    assert("outline_file"@.len() != "browser_screenshot"@.len());
    reveal_strlit("file_diff");
    assert("file_diff"@.len() != "browser_screenshot"@.len());
    reveal_strlit("file_undo");
    assert("file_undo"@.len() != "browser_screenshot"@.len());
    reveal_strlit("apply_patch");
    assert("apply_patch"@.len() != "browser_screenshot"@.len());
    reveal_strlit("shell_spawn");
    assert("shell_spawn"@.len() != "browser_screenshot"@.len());
    reveal_strlit("shell_exec");
    assert("shell_exec"@.len() != "browser_screenshot"@.len());
    reveal_strlit("shell_read");
    assert("shell_read"@.len() != "browser_screenshot"@.len());
    reveal_strlit("shell_kill");
    assert("shell_kill"@.len() != "browser_screenshot"@.len());
    reveal_strlit("shell_list");
    assert("shell_list"@.len() != "browser_screenshot"@.len());
    reveal_strlit("git_status");
    assert("git_status"@.len() != "browser_screenshot"@.len());
    reveal_strlit("git_diff");
    assert("git_diff"@.len() != "browser_screenshot"@.len());
    reveal_strlit("git_log");
    assert("git_log"@.len() != "browser_screenshot"@.len());
    reveal_strlit("git_branch");
    assert("git_branch"@.len() != "browser_screenshot"@.len());
    reveal_strlit("lsp_definition");
    assert("lsp_definition"@.len() != "browser_screenshot"@.len());
    reveal_strlit("lsp_references");
    assert("lsp_references"@.len() != "browser_screenshot"@.len());
    reveal_strlit("lsp_hover");
    assert("lsp_hover"@.len() != "browser_screenshot"@.len());
    reveal_strlit("git_commit");
    assert("git_commit"@.len() != "browser_screenshot"@.len());
    reveal_strlit("web_search");
    assert("web_search"@.len() != "browser_screenshot"@.len());
    reveal_strlit("fetch_url");
    assert("fetch_url"@.len() != "browser_screenshot"@.len());
    reveal_strlit("browser_navigate");
    assert("browser_navigate"@.len() != "browser_screenshot"@.len());
    reveal_strlit("browser_click");
    assert("browser_click"@.len() != "browser_screenshot"@.len());
    reveal_strlit("browser_type");
    assert("browser_type"@.len() != "browser_screenshot"@.len());
    reveal_strlit("browser_evaluate");
    assert("browser_evaluate"@.len() != "browser_screenshot"@.len());
    is_read(args, "full_page"@);
}

/// What a call of `store_memory` asks for: what its arguments say.
pub proof fn store_memory_call(args: JsonV, p: ToolPlan)
    requires
        asks("store_memory"@, args, p),
    ensures
        says_something(args, "content"@) ==> (p matches ToolPlan::StoreMemory { content, category, .. } && is_text(args, "content"@, Seq::empty(), content@)
            && is_text(args, "category"@, "general"@, category@)),
        !(says_something(args, "content"@)) ==> (p matches ToolPlan::Reply { answer } && answer@ == "Error: content is required"@),
{
    reveal_strlit("store_memory");
    reveal_strlit("outline_file");
    reveal_strlit("browser_type");
    reveal_strlit("search_memory");
    assert("search_memory"@.len() != "store_memory"@.len());
    reveal_strlit("code_edit");
    assert("code_edit"@.len() != "store_memory"@.len());
    reveal_strlit("file_read");
    assert("file_read"@.len() != "store_memory"@.len());
    reveal_strlit("list_files");
    assert("list_files"@.len() != "store_memory"@.len());
    reveal_strlit("change_dir");
    assert("change_dir"@.len() != "store_memory"@.len());
    reveal_strlit("get_cwd");
    assert("get_cwd"@.len() != "store_memory"@.len());
    reveal_strlit("file_write");
    assert("file_write"@.len() != "store_memory"@.len());
    reveal_strlit("terminal_execute");
    assert("terminal_execute"@.len() != "store_memory"@.len());
    reveal_strlit("glob");
    assert("glob"@.len() != "store_memory"@.len());
    reveal_strlit("grep");
    assert("grep"@.len() != "store_memory"@.len());
    reveal_strlit("search_in_file");
    assert("search_in_file"@.len() != "store_memory"@.len());
    assert("outline_file"@[0] != "store_memory"@[0]);
    reveal_strlit("file_diff");
    assert("file_diff"@.len() != "store_memory"@.len());
    reveal_strlit("file_undo");
    assert("file_undo"@.len() != "store_memory"@.len());
    reveal_strlit("apply_patch");
    assert("apply_patch"@.len() != "store_memory"@.len());
    reveal_strlit("shell_spawn");
    assert("shell_spawn"@.len() != "store_memory"@.len());
    reveal_strlit("shell_exec");
    assert("shell_exec"@.len() != "store_memory"@.len());
    reveal_strlit("shell_read");
    assert("shell_read"@.len() != "store_memory"@.len());
    reveal_strlit("shell_kill");
    assert("shell_kill"@.len() != "store_memory"@.len());
    reveal_strlit("shell_list");
    assert("shell_list"@.len() != "store_memory"@.len());
    reveal_strlit("git_status");
    assert("git_status"@.len() != "store_memory"@.len());
    reveal_strlit("git_diff");
    assert("git_diff"@.len() != "store_memory"@.len());
    reveal_strlit("git_log");
    assert("git_log"@.len() != "store_memory"@.len());
    reveal_strlit("git_branch");
    assert("git_branch"@.len() != "store_memory"@.len());
    reveal_strlit("lsp_definition");
    assert("lsp_definition"@.len() != "store_memory"@.len());
    reveal_strlit("lsp_references");
    assert("lsp_references"@.len() != "store_memory"@.len());
    reveal_strlit("lsp_hover");
    assert("lsp_hover"@.len() != "store_memory"@.len());
    reveal_strlit("git_commit");
    assert("git_commit"@.len() != "store_memory"@.len());
    reveal_strlit("web_search");
    assert("web_search"@.len() != "store_memory"@.len());
    reveal_strlit("fetch_url");
    assert("fetch_url"@.len() != "store_memory"@.len());
    reveal_strlit("browser_navigate");
    assert("browser_navigate"@.len() != "store_memory"@.len());
    reveal_strlit("browser_click");
    assert("browser_click"@.len() != "store_memory"@.len());
    assert("browser_type"@[0] != "store_memory"@[0]);
    reveal_strlit("browser_evaluate");
    assert("browser_evaluate"@.len() != "store_memory"@.len());
    reveal_strlit("browser_screenshot");
    assert("browser_screenshot"@.len() != "store_memory"@.len());
    is_read(args, "category"@);
    is_read(args, "content"@);
}

/// What a call of `store_user_fact` asks for: what its arguments say.
pub proof fn store_user_fact_call(args: JsonV, p: ToolPlan)
    requires
        asks("store_user_fact"@, args, p),
    ensures
        says_something(args, "key"@) && says_something(args, "value"@) ==> (p matches ToolPlan::StoreUserFact { key, value, .. } && is_text(args, "key"@, Seq::empty(), key@)
            && is_text(args, "value"@, Seq::empty(), value@)),
        !(says_something(args, "key"@) && says_something(args, "value"@)) ==> (p matches ToolPlan::Reply { answer } && answer@ == "Error: both key and value are required"@),
{
    reveal_strlit("store_user_fact");
    reveal_strlit("search_memory");
    assert("search_memory"@.len() != "store_user_fact"@.len());
    reveal_strlit("code_edit");
    assert("code_edit"@.len() != "store_user_fact"@.len());
    reveal_strlit("file_read");
    assert("file_read"@.len() != "store_user_fact"@.len());
    reveal_strlit("list_files");
    assert("list_files"@.len() != "store_user_fact"@.len());
    reveal_strlit("change_dir");
    assert("change_dir"@.len() != "store_user_fact"@.len());
    reveal_strlit("get_cwd");
    assert("get_cwd"@.len() != "store_user_fact"@.len());
    reveal_strlit("file_write");
    assert("file_write"@.len() != "store_user_fact"@.len());
    reveal_strlit("terminal_execute");
    assert("terminal_execute"@.len() != "store_user_fact"@.len());
    reveal_strlit("glob");
    assert("glob"@.len() != "store_user_fact"@.len());
    reveal_strlit("grep");
    assert("grep"@.len() != "store_user_fact"@.len());
    reveal_strlit("search_in_file");
    assert("search_in_file"@.len() != "store_user_fact"@.len());
    reveal_strlit("outline_file");
    assert("outline_file"@.len() != "store_user_fact"@.len());
    reveal_strlit("file_diff");
    assert("file_diff"@.len() != "store_user_fact"@.len());
    reveal_strlit("file_undo");
    assert("file_undo"@.len() != "store_user_fact"@.len());
    reveal_strlit("apply_patch");
    assert("apply_patch"@.len() != "store_user_fact"@.len());
    reveal_strlit("shell_spawn");
    assert("shell_spawn"@.len() != "store_user_fact"@.len());
    reveal_strlit("shell_exec");
    assert("shell_exec"@.len() != "store_user_fact"@.len());
    reveal_strlit("shell_read");
    assert("shell_read"@.len() != "store_user_fact"@.len());
    reveal_strlit("shell_kill");
    assert("shell_kill"@.len() != "store_user_fact"@.len());
    reveal_strlit("shell_list");
    assert("shell_list"@.len() != "store_user_fact"@.len());
    reveal_strlit("git_status");
    assert("git_status"@.len() != "store_user_fact"@.len());
    reveal_strlit("git_diff");
    assert("git_diff"@.len() != "store_user_fact"@.len());
    reveal_strlit("git_log");
    assert("git_log"@.len() != "store_user_fact"@.len());
    reveal_strlit("git_branch");
    assert("git_branch"@.len() != "store_user_fact"@.len());
    reveal_strlit("lsp_definition");
    assert("lsp_definition"@.len() != "store_user_fact"@.len());
    reveal_strlit("lsp_references");
    assert("lsp_references"@.len() != "store_user_fact"@.len());
    reveal_strlit("lsp_hover");
    assert("lsp_hover"@.len() != "store_user_fact"@.len());
    reveal_strlit("git_commit");
    assert("git_commit"@.len() != "store_user_fact"@.len());
    reveal_strlit("web_search");
    assert("web_search"@.len() != "store_user_fact"@.len());
    reveal_strlit("fetch_url");
    assert("fetch_url"@.len() != "store_user_fact"@.len());
    reveal_strlit("browser_navigate");
    assert("browser_navigate"@.len() != "store_user_fact"@.len());
    reveal_strlit("browser_click");
    assert("browser_click"@.len() != "store_user_fact"@.len());
    reveal_strlit("browser_type");
    assert("browser_type"@.len() != "store_user_fact"@.len());
    reveal_strlit("browser_evaluate");
    assert("browser_evaluate"@.len() != "store_user_fact"@.len());
    reveal_strlit("browser_screenshot");
    assert("browser_screenshot"@.len() != "store_user_fact"@.len());
    reveal_strlit("store_memory");
    assert("store_memory"@.len() != "store_user_fact"@.len());
    is_read(args, "key"@);
    is_read(args, "value"@);
}

/// What a call of `ui_snapshot` asks for: what its arguments say.
pub proof fn ui_snapshot_call(args: JsonV, p: ToolPlan)
    requires
        asks("ui_snapshot"@, args, p),
    ensures
        p matches ToolPlan::UiSnapshot { window, include_offscreen, .. } && is_text(args, "window"@, Seq::empty(), window@)
            && is_flag(args, "include_offscreen"@, include_offscreen),
{
    reveal_strlit("ui_snapshot");
    reveal_strlit("apply_patch");
    reveal_strlit("shell_spawn");
    reveal_strlit("search_memory");
    assert("search_memory"@.len() != "ui_snapshot"@.len());
    reveal_strlit("code_edit");
    assert("code_edit"@.len() != "ui_snapshot"@.len());
    reveal_strlit("file_read");
    assert("file_read"@.len() != "ui_snapshot"@.len());
    reveal_strlit("list_files");
    assert("list_files"@.len() != "ui_snapshot"@.len());
    reveal_strlit("change_dir");
    assert("change_dir"@.len() != "ui_snapshot"@.len());
    reveal_strlit("get_cwd");
    assert("get_cwd"@.len() != "ui_snapshot"@.len());
    reveal_strlit("file_write");
    assert("file_write"@.len() != "ui_snapshot"@.len());
    reveal_strlit("terminal_execute");
    assert("terminal_execute"@.len() != "ui_snapshot"@.len());
    reveal_strlit("glob");
    assert("glob"@.len() != "ui_snapshot"@.len());
    reveal_strlit("grep");
    assert("grep"@.len() != "ui_snapshot"@.len());
    reveal_strlit("search_in_file");
    assert("search_in_file"@.len() != "ui_snapshot"@.len());
    reveal_strlit("outline_file");
    assert("outline_file"@.len() != "ui_snapshot"@.len());
    reveal_strlit("file_diff");
    assert("file_diff"@.len() != "ui_snapshot"@.len());
    reveal_strlit("file_undo");
    assert("file_undo"@.len() != "ui_snapshot"@.len());
    assert("apply_patch"@[0] != "ui_snapshot"@[0]);
    assert("shell_spawn"@[0] != "ui_snapshot"@[0]);
    reveal_strlit("shell_exec");
    assert("shell_exec"@.len() != "ui_snapshot"@.len());
    reveal_strlit("shell_read");
    assert("shell_read"@.len() != "ui_snapshot"@.len());
    reveal_strlit("shell_kill");
    assert("shell_kill"@.len() != "ui_snapshot"@.len());
    reveal_strlit("shell_list");
    assert("shell_list"@.len() != "ui_snapshot"@.len());
    reveal_strlit("git_status");
    assert("git_status"@.len() != "ui_snapshot"@.len());
    reveal_strlit("git_diff");
    assert("git_diff"@.len() != "ui_snapshot"@.len());
    reveal_strlit("git_log");
    assert("git_log"@.len() != "ui_snapshot"@.len());
    reveal_strlit("git_branch");
    assert("git_branch"@.len() != "ui_snapshot"@.len());
    reveal_strlit("lsp_definition");
    assert("lsp_definition"@.len() != "ui_snapshot"@.len());
    reveal_strlit("lsp_references");
    assert("lsp_references"@.len() != "ui_snapshot"@.len());
    reveal_strlit("lsp_hover");
    assert("lsp_hover"@.len() != "ui_snapshot"@.len());
    reveal_strlit("git_commit");
    assert("git_commit"@.len() != "ui_snapshot"@.len());
    reveal_strlit("web_search");
    assert("web_search"@.len() != "ui_snapshot"@.len());
    reveal_strlit("fetch_url");
    assert("fetch_url"@.len() != "ui_snapshot"@.len());
    reveal_strlit("browser_navigate");
    assert("browser_navigate"@.len() != "ui_snapshot"@.len());
    reveal_strlit("browser_click");
    assert("browser_click"@.len() != "ui_snapshot"@.len());
    reveal_strlit("browser_type");
    assert("browser_type"@.len() != "ui_snapshot"@.len());
    reveal_strlit("browser_evaluate");
    assert("browser_evaluate"@.len() != "ui_snapshot"@.len());
    reveal_strlit("browser_screenshot");
    assert("browser_screenshot"@.len() != "ui_snapshot"@.len());
    reveal_strlit("store_memory");
    assert("store_memory"@.len() != "ui_snapshot"@.len());
    reveal_strlit("store_user_fact");
    assert("store_user_fact"@.len() != "ui_snapshot"@.len());
    is_read(args, "include_offscreen"@);
    is_read(args, "window"@);
}

/// What a call of `ui_click` asks for: what its arguments say.
pub proof fn ui_click_call(args: JsonV, p: ToolPlan)
    requires
        asks("ui_click"@, args, p),
    ensures
        p matches ToolPlan::UiClick { element_id, .. } && is_text(args, "element_id"@, Seq::empty(), element_id@),
{
    reveal_strlit("ui_click");
    reveal_strlit("git_diff");
    reveal_strlit("search_memory");
    assert("search_memory"@.len() != "ui_click"@.len());
    reveal_strlit("code_edit");
    assert("code_edit"@.len() != "ui_click"@.len());
    reveal_strlit("file_read");
    assert("file_read"@.len() != "ui_click"@.len());
    reveal_strlit("list_files");
    assert("list_files"@.len() != "ui_click"@.len());
    reveal_strlit("change_dir");
    assert("change_dir"@.len() != "ui_click"@.len());
    reveal_strlit("get_cwd");
    assert("get_cwd"@.len() != "ui_click"@.len());
    reveal_strlit("file_write");
    assert("file_write"@.len() != "ui_click"@.len());
    reveal_strlit("terminal_execute");
    assert("terminal_execute"@.len() != "ui_click"@.len());
    reveal_strlit("glob");
    assert("glob"@.len() != "ui_click"@.len());
    reveal_strlit("grep");
    assert("grep"@.len() != "ui_click"@.len());
    reveal_strlit("search_in_file");
    assert("search_in_file"@.len() != "ui_click"@.len());
    reveal_strlit("outline_file");
    assert("outline_file"@.len() != "ui_click"@.len());
    reveal_strlit("file_diff");
    assert("file_diff"@.len() != "ui_click"@.len());
    reveal_strlit("file_undo");
    assert("file_undo"@.len() != "ui_click"@.len());
    reveal_strlit("apply_patch");
    assert("apply_patch"@.len() != "ui_click"@.len());
    reveal_strlit("shell_spawn");
    assert("shell_spawn"@.len() != "ui_click"@.len());
    reveal_strlit("shell_exec");
    assert("shell_exec"@.len() != "ui_click"@.len());
    reveal_strlit("shell_read");
    assert("shell_read"@.len() != "ui_click"@.len());
    reveal_strlit("shell_kill");
    assert("shell_kill"@.len() != "ui_click"@.len());
    reveal_strlit("shell_list");
    assert("shell_list"@.len() != "ui_click"@.len());
    reveal_strlit("git_status");
    assert("git_status"@.len() != "ui_click"@.len());
    assert("git_diff"@[0] != "ui_click"@[0]);
    reveal_strlit("git_log");
    assert("git_log"@.len() != "ui_click"@.len());
    reveal_strlit("git_branch");
    assert("git_branch"@.len() != "ui_click"@.len());
    reveal_strlit("lsp_definition");
    assert("lsp_definition"@.len() != "ui_click"@.len());
    reveal_strlit("lsp_references");
    assert("lsp_references"@.len() != "ui_click"@.len());
    reveal_strlit("lsp_hover");
    assert("lsp_hover"@.len() != "ui_click"@.len());
    reveal_strlit("git_commit");
    assert("git_commit"@.len() != "ui_click"@.len());
    reveal_strlit("web_search");
    assert("web_search"@.len() != "ui_click"@.len());
    reveal_strlit("fetch_url");
    assert("fetch_url"@.len() != "ui_click"@.len());
    reveal_strlit("browser_navigate");
    assert("browser_navigate"@.len() != "ui_click"@.len());
    reveal_strlit("browser_click");
    assert("browser_click"@.len() != "ui_click"@.len());
    reveal_strlit("browser_type");
    assert("browser_type"@.len() != "ui_click"@.len());
    reveal_strlit("browser_evaluate");
    assert("browser_evaluate"@.len() != "ui_click"@.len());
    reveal_strlit("browser_screenshot");
    assert("browser_screenshot"@.len() != "ui_click"@.len());
    reveal_strlit("store_memory");
    assert("store_memory"@.len() != "ui_click"@.len());
    reveal_strlit("store_user_fact");
    assert("store_user_fact"@.len() != "ui_click"@.len());
    reveal_strlit("ui_snapshot");
    assert("ui_snapshot"@.len() != "ui_click"@.len());
    is_read(args, "element_id"@);
}

/// What a call of `ui_type` asks for: what its arguments say.
pub proof fn ui_type_call(args: JsonV, p: ToolPlan)
    requires
        asks("ui_type"@, args, p),
    ensures
        p matches ToolPlan::UiType { element_id, text, .. } && is_text(args, "element_id"@, Seq::empty(), element_id@)
            && is_text(args, "text"@, Seq::empty(), text@),
{
    reveal_strlit("ui_type");
    reveal_strlit("get_cwd");
    reveal_strlit("git_log");
    reveal_strlit("search_memory");
    assert("search_memory"@.len() != "ui_type"@.len());
    reveal_strlit("code_edit");
    assert("code_edit"@.len() != "ui_type"@.len());
    reveal_strlit("file_read");
    assert("file_read"@.len() != "ui_type"@.len());
    reveal_strlit("list_files");
    assert("list_files"@.len() != "ui_type"@.len());
    reveal_strlit("change_dir");
    assert("change_dir"@.len() != "ui_type"@.len());
    assert("get_cwd"@[0] != "ui_type"@[0]);
    reveal_strlit("file_write");
    assert("file_write"@.len() != "ui_type"@.len());
    reveal_strlit("terminal_execute");
    assert("terminal_execute"@.len() != "ui_type"@.len());
    reveal_strlit("glob");
    assert("glob"@.len() != "ui_type"@.len());
    reveal_strlit("grep");
    assert("grep"@.len() != "ui_type"@.len());
    reveal_strlit("search_in_file");
    assert("search_in_file"@.len() != "ui_type"@.len());
    reveal_strlit("outline_file");
    assert("outline_file"@.len() != "ui_type"@.len());
    reveal_strlit("file_diff");
    assert("file_diff"@.len() != "ui_type"@.len());
    reveal_strlit("file_undo");
    assert("file_undo"@.len() != "ui_type"@.len());
    reveal_strlit("apply_patch");
    assert("apply_patch"@.len() != "ui_type"@.len());
    reveal_strlit("shell_spawn");
    assert("shell_spawn"@.len() != "ui_type"@.len());
    reveal_strlit("shell_exec");
    assert("shell_exec"@.len() != "ui_type"@.len());
    reveal_strlit("shell_read");
    assert("shell_read"@.len() != "ui_type"@.len());
    reveal_strlit("shell_kill");
    assert("shell_kill"@.len() != "ui_type"@.len());
    reveal_strlit("shell_list");
    assert("shell_list"@.len() != "ui_type"@.len());
    reveal_strlit("git_status");
    assert("git_status"@.len() != "ui_type"@.len());
    reveal_strlit("git_diff");
    assert("git_diff"@.len() != "ui_type"@.len());
    assert("git_log"@[0] != "ui_type"@[0]);
    reveal_strlit("git_branch");
    assert("git_branch"@.len() != "ui_type"@.len());
    reveal_strlit("lsp_definition");
    assert("lsp_definition"@.len() != "ui_type"@.len());
    reveal_strlit("lsp_references");
    assert("lsp_references"@.len() != "ui_type"@.len());
    reveal_strlit("lsp_hover");
    assert("lsp_hover"@.len() != "ui_type"@.len());
    reveal_strlit("git_commit");
    assert("git_commit"@.len() != "ui_type"@.len());
    reveal_strlit("web_search");
    assert("web_search"@.len() != "ui_type"@.len());
    reveal_strlit("fetch_url");
    assert("fetch_url"@.len() != "ui_type"@.len());
    reveal_strlit("browser_navigate");
    assert("browser_navigate"@.len() != "ui_type"@.len());
    reveal_strlit("browser_click");
    assert("browser_click"@.len() != "ui_type"@.len());
    reveal_strlit("browser_type");
    assert("browser_type"@.len() != "ui_type"@.len());
    reveal_strlit("browser_evaluate");
    assert("browser_evaluate"@.len() != "ui_type"@.len());
    reveal_strlit("browser_screenshot");
    assert("browser_screenshot"@.len() != "ui_type"@.len());
    reveal_strlit("store_memory");
    assert("store_memory"@.len() != "ui_type"@.len());
    reveal_strlit("store_user_fact");
    assert("store_user_fact"@.len() != "ui_type"@.len());
    reveal_strlit("ui_snapshot");
    assert("ui_snapshot"@.len() != "ui_type"@.len());
    reveal_strlit("ui_click");
    assert("ui_click"@.len() != "ui_type"@.len());
    is_read(args, "element_id"@);
    is_read(args, "text"@);
}

/// What a call of `ui_focus_window` asks for: what its arguments say.
pub proof fn ui_focus_window_call(args: JsonV, p: ToolPlan)
    requires
        asks("ui_focus_window"@, args, p),
    ensures
        p matches ToolPlan::UiFocusWindow { title, .. } && is_text(args, "title"@, Seq::empty(), title@),
{
    reveal_strlit("ui_focus_window");
    reveal_strlit("store_user_fact");
    reveal_strlit("search_memory");
    assert("search_memory"@.len() != "ui_focus_window"@.len());
    reveal_strlit("code_edit");
    assert("code_edit"@.len() != "ui_focus_window"@.len());
    reveal_strlit("file_read");
    assert("file_read"@.len() != "ui_focus_window"@.len());
    reveal_strlit("list_files");
    assert("list_files"@.len() != "ui_focus_window"@.len());
    reveal_strlit("change_dir");
    assert("change_dir"@.len() != "ui_focus_window"@.len());
    reveal_strlit("get_cwd");
    assert("get_cwd"@.len() != "ui_focus_window"@.len());
    reveal_strlit("file_write");
    assert("file_write"@.len() != "ui_focus_window"@.len());
    reveal_strlit("terminal_execute");
    assert("terminal_execute"@.len() != "ui_focus_window"@.len());
    reveal_strlit("glob");
    assert("glob"@.len() != "ui_focus_window"@.len());
    reveal_strlit("grep");
    assert("grep"@.len() != "ui_focus_window"@.len());
    reveal_strlit("search_in_file");
    assert("search_in_file"@.len() != "ui_focus_window"@.len());
    reveal_strlit("outline_file");
    assert("outline_file"@.len() != "ui_focus_window"@.len());
    reveal_strlit("file_diff");
    assert("file_diff"@.len() != "ui_focus_window"@.len());
    reveal_strlit("file_undo");
    assert("file_undo"@.len() != "ui_focus_window"@.len());
    reveal_strlit("apply_patch");
    assert("apply_patch"@.len() != "ui_focus_window"@.len());
    reveal_strlit("shell_spawn");
    assert("shell_spawn"@.len() != "ui_focus_window"@.len());
    reveal_strlit("shell_exec");
    assert("shell_exec"@.len() != "ui_focus_window"@.len());
    reveal_strlit("shell_read");
    assert("shell_read"@.len() != "ui_focus_window"@.len());
    reveal_strlit("shell_kill");
    assert("shell_kill"@.len() != "ui_focus_window"@.len());
    reveal_strlit("shell_list");
    assert("shell_list"@.len() != "ui_focus_window"@.len());
    reveal_strlit("git_status");
    assert("git_status"@.len() != "ui_focus_window"@.len());
    reveal_strlit("git_diff");
    assert("git_diff"@.len() != "ui_focus_window"@.len());
    reveal_strlit("git_log");
    assert("git_log"@.len() != "ui_focus_window"@.len());
    reveal_strlit("git_branch");
    assert("git_branch"@.len() != "ui_focus_window"@.len());
    reveal_strlit("lsp_definition");
    assert("lsp_definition"@.len() != "ui_focus_window"@.len());
    reveal_strlit("lsp_references");
    assert("lsp_references"@.len() != "ui_focus_window"@.len());
    reveal_strlit("lsp_hover");
    assert("lsp_hover"@.len() != "ui_focus_window"@.len());
    reveal_strlit("git_commit");
    assert("git_commit"@.len() != "ui_focus_window"@.len());
    reveal_strlit("web_search");
    assert("web_search"@.len() != "ui_focus_window"@.len());
    reveal_strlit("fetch_url");
    assert("fetch_url"@.len() != "ui_focus_window"@.len());
    reveal_strlit("browser_navigate");
    assert("browser_navigate"@.len() != "ui_focus_window"@.len());
    reveal_strlit("browser_click");
    assert("browser_click"@.len() != "ui_focus_window"@.len());
    reveal_strlit("browser_type");
    assert("browser_type"@.len() != "ui_focus_window"@.len());
    reveal_strlit("browser_evaluate");
    assert("browser_evaluate"@.len() != "ui_focus_window"@.len());
    reveal_strlit("browser_screenshot");
    assert("browser_screenshot"@.len() != "ui_focus_window"@.len());
    reveal_strlit("store_memory");
    assert("store_memory"@.len() != "ui_focus_window"@.len());
    assert("store_user_fact"@[0] != "ui_focus_window"@[0]);
    reveal_strlit("ui_snapshot");
    assert("ui_snapshot"@.len() != "ui_focus_window"@.len());
    reveal_strlit("ui_click");
    assert("ui_click"@.len() != "ui_focus_window"@.len());
    reveal_strlit("ui_type");
    assert("ui_type"@.len() != "ui_focus_window"@.len());
    is_read(args, "title"@);
}

/// What a call of `ui_find` asks for: what its arguments say.
pub proof fn ui_find_call(args: JsonV, p: ToolPlan)
    requires
        asks("ui_find"@, args, p),
    ensures
        p matches ToolPlan::UiFind { query, .. } && is_text(args, "query"@, Seq::empty(), query@),
{
    reveal_strlit("ui_find");
    reveal_strlit("get_cwd");
    reveal_strlit("git_log");
    reveal_strlit("ui_type");
    reveal_strlit("search_memory");
    assert("search_memory"@.len() != "ui_find"@.len());
    reveal_strlit("code_edit");
    assert("code_edit"@.len() != "ui_find"@.len());
    reveal_strlit("file_read");
    assert("file_read"@.len() != "ui_find"@.len());
    reveal_strlit("list_files");
    assert("list_files"@.len() != "ui_find"@.len());
    reveal_strlit("change_dir");
    assert("change_dir"@.len() != "ui_find"@.len());
    assert("get_cwd"@[0] != "ui_find"@[0]);
    reveal_strlit("file_write");
    assert("file_write"@.len() != "ui_find"@.len());
    reveal_strlit("terminal_execute");
    assert("terminal_execute"@.len() != "ui_find"@.len());
    reveal_strlit("glob");
    assert("glob"@.len() != "ui_find"@.len());
    reveal_strlit("grep");
    assert("grep"@.len() != "ui_find"@.len());
    reveal_strlit("search_in_file");
    assert("search_in_file"@.len() != "ui_find"@.len());
    reveal_strlit("outline_file");
    assert("outline_file"@.len() != "ui_find"@.len());
    reveal_strlit("file_diff");
    assert("file_diff"@.len() != "ui_find"@.len());
    reveal_strlit("file_undo");
    assert("file_undo"@.len() != "ui_find"@.len());
    reveal_strlit("apply_patch");
    assert("apply_patch"@.len() != "ui_find"@.len());
    reveal_strlit("shell_spawn");
    assert("shell_spawn"@.len() != "ui_find"@.len());
    reveal_strlit("shell_exec");
    assert("shell_exec"@.len() != "ui_find"@.len());
    reveal_strlit("shell_read");
    assert("shell_read"@.len() != "ui_find"@.len());
    reveal_strlit("shell_kill");
    assert("shell_kill"@.len() != "ui_find"@.len());
    reveal_strlit("shell_list");
    assert("shell_list"@.len() != "ui_find"@.len());
    reveal_strlit("git_status");
    assert("git_status"@.len() != "ui_find"@.len());
    reveal_strlit("git_diff");
    assert("git_diff"@.len() != "ui_find"@.len());
    assert("git_log"@[0] != "ui_find"@[0]);
    reveal_strlit("git_branch");
    assert("git_branch"@.len() != "ui_find"@.len());
    reveal_strlit("lsp_definition");
    assert("lsp_definition"@.len() != "ui_find"@.len());
    reveal_strlit("lsp_references");
    assert("lsp_references"@.len() != "ui_find"@.len());
    reveal_strlit("lsp_hover");
    assert("lsp_hover"@.len() != "ui_find"@.len());
    reveal_strlit("git_commit");
    assert("git_commit"@.len() != "ui_find"@.len());
    reveal_strlit("web_search");
    assert("web_search"@.len() != "ui_find"@.len());
    reveal_strlit("fetch_url");
    assert("fetch_url"@.len() != "ui_find"@.len());
    reveal_strlit("browser_navigate");
    assert("browser_navigate"@.len() != "ui_find"@.len());
    reveal_strlit("browser_click");
    assert("browser_click"@.len() != "ui_find"@.len());
    reveal_strlit("browser_type");
    assert("browser_type"@.len() != "ui_find"@.len());
    reveal_strlit("browser_evaluate");
    assert("browser_evaluate"@.len() != "ui_find"@.len());
    reveal_strlit("browser_screenshot");
    assert("browser_screenshot"@.len() != "ui_find"@.len());
    reveal_strlit("store_memory");
    assert("store_memory"@.len() != "ui_find"@.len());
    reveal_strlit("store_user_fact");
    assert("store_user_fact"@.len() != "ui_find"@.len());
    reveal_strlit("ui_snapshot");
    assert("ui_snapshot"@.len() != "ui_find"@.len());
    reveal_strlit("ui_click");
    assert("ui_click"@.len() != "ui_find"@.len());
    assert("ui_type"@[3] != "ui_find"@[3]);
    reveal_strlit("ui_focus_window");
    assert("ui_focus_window"@.len() != "ui_find"@.len());
    is_read(args, "query"@);
}

/// What a call of `schedule_task` asks for: what its arguments say.
pub proof fn schedule_task_call(args: JsonV, p: ToolPlan)
    requires
        asks("schedule_task"@, args, p),
    ensures
        says_something(args, "name"@) && says_something(args, "cadence"@) && says_something(args, "prompt"@) ==> (p matches ToolPlan::Schedule { name, cadence, prompt, channel, why, .. } && is_text(args, "name"@, Seq::empty(), name@)
            && is_text(args, "cadence"@, Seq::empty(), cadence@)
            && is_text(args, "prompt"@, Seq::empty(), prompt@)
            && is_text(args, "output_channel"@, "notification"@, channel@)
            && is_optional_text(args, "why"@, text_view(why))),
        !(says_something(args, "name"@) && says_something(args, "cadence"@) && says_something(args, "prompt"@)) ==> (p matches ToolPlan::Reply { answer } && answer@ == "schedule_task: name, cadence, and prompt are required"@),
{
    reveal_strlit("schedule_task");
    reveal_strlit("search_memory");
    reveal_strlit("browser_click");
    assert("search_memory"@[1] != "schedule_task"@[1]);
    reveal_strlit("code_edit");
    assert("code_edit"@.len() != "schedule_task"@.len());
    reveal_strlit("file_read");
    assert("file_read"@.len() != "schedule_task"@.len());
    reveal_strlit("list_files");
    assert("list_files"@.len() != "schedule_task"@.len());
    reveal_strlit("change_dir");
    assert("change_dir"@.len() != "schedule_task"@.len());
    reveal_strlit("get_cwd");
    assert("get_cwd"@.len() != "schedule_task"@.len());
    reveal_strlit("file_write");
    assert("file_write"@.len() != "schedule_task"@.len());
    reveal_strlit("terminal_execute");
    assert("terminal_execute"@.len() != "schedule_task"@.len());
    reveal_strlit("glob");
    assert("glob"@.len() != "schedule_task"@.len());
    reveal_strlit("grep");
    assert("grep"@.len() != "schedule_task"@.len());
    reveal_strlit("search_in_file");
    assert("search_in_file"@.len() != "schedule_task"@.len());
    reveal_strlit("outline_file");
    assert("outline_file"@.len() != "schedule_task"@.len());
    reveal_strlit("file_diff");
    assert("file_diff"@.len() != "schedule_task"@.len());
    reveal_strlit("file_undo");
    assert("file_undo"@.len() != "schedule_task"@.len());
    reveal_strlit("apply_patch");
    assert("apply_patch"@.len() != "schedule_task"@.len());
    reveal_strlit("shell_spawn");
    assert("shell_spawn"@.len() != "schedule_task"@.len());
    reveal_strlit("shell_exec");
    assert("shell_exec"@.len() != "schedule_task"@.len());
    reveal_strlit("shell_read");
    assert("shell_read"@.len() != "schedule_task"@.len());
    reveal_strlit("shell_kill");
    assert("shell_kill"@.len() != "schedule_task"@.len());
    reveal_strlit("shell_list");
    assert("shell_list"@.len() != "schedule_task"@.len());
    reveal_strlit("git_status");
    assert("git_status"@.len() != "schedule_task"@.len());
    reveal_strlit("git_diff");
    assert("git_diff"@.len() != "schedule_task"@.len());
    reveal_strlit("git_log");
    assert("git_log"@.len() != "schedule_task"@.len());
    reveal_strlit("git_branch");
    assert("git_branch"@.len() != "schedule_task"@.len());
    reveal_strlit("lsp_definition");
    assert("lsp_definition"@.len() != "schedule_task"@.len());
    reveal_strlit("lsp_references");
    assert("lsp_references"@.len() != "schedule_task"@.len());
    reveal_strlit("lsp_hover");
    assert("lsp_hover"@.len() != "schedule_task"@.len());
    reveal_strlit("git_commit");
    assert("git_commit"@.len() != "schedule_task"@.len());
    reveal_strlit("web_search");
    assert("web_search"@.len() != "schedule_task"@.len());
    reveal_strlit("fetch_url");
    assert("fetch_url"@.len() != "schedule_task"@.len());
    reveal_strlit("browser_navigate");
    assert("browser_navigate"@.len() != "schedule_task"@.len());
    assert("browser_click"@[0] != "schedule_task"@[0]);
    reveal_strlit("browser_type");
    assert("browser_type"@.len() != "schedule_task"@.len());
    reveal_strlit("browser_evaluate");
    assert("browser_evaluate"@.len() != "schedule_task"@.len());
    reveal_strlit("browser_screenshot");
    assert("browser_screenshot"@.len() != "schedule_task"@.len());
    reveal_strlit("store_memory");
    assert("store_memory"@.len() != "schedule_task"@.len());
    reveal_strlit("store_user_fact");
    assert("store_user_fact"@.len() != "schedule_task"@.len());
    reveal_strlit("ui_snapshot");
    assert("ui_snapshot"@.len() != "schedule_task"@.len());
    reveal_strlit("ui_click");
    assert("ui_click"@.len() != "schedule_task"@.len());
    reveal_strlit("ui_type");
    assert("ui_type"@.len() != "schedule_task"@.len());
    reveal_strlit("ui_focus_window");
    assert("ui_focus_window"@.len() != "schedule_task"@.len());
    reveal_strlit("ui_find");
    assert("ui_find"@.len() != "schedule_task"@.len());
    is_read(args, "cadence"@);
    is_read(args, "name"@);
    is_read(args, "output_channel"@);
    is_read(args, "prompt"@);
    is_read(args, "why"@);
}

/// What a call of `propose_schedule` asks for: what its arguments say.
pub proof fn propose_schedule_call(args: JsonV, p: ToolPlan)
    requires
        asks("propose_schedule"@, args, p),
    ensures
        says_something(args, "name"@) && says_something(args, "cadence"@) && says_something(args, "prompt"@) ==> (p matches ToolPlan::Schedule { name, cadence, prompt, channel, why, .. } && is_text(args, "name"@, Seq::empty(), name@)
            && is_text(args, "cadence"@, Seq::empty(), cadence@)
            && is_text(args, "prompt"@, Seq::empty(), prompt@)
            && is_text(args, "output_channel"@, "notification"@, channel@)
            && is_optional_text(args, "why"@, text_view(why))),
        !(says_something(args, "name"@) && says_something(args, "cadence"@) && says_something(args, "prompt"@)) ==> (p matches ToolPlan::Reply { answer } && answer@ == "schedule_task: name, cadence, and prompt are required"@),
{
    reveal_strlit("propose_schedule");
    reveal_strlit("terminal_execute");
    reveal_strlit("browser_navigate");
    reveal_strlit("browser_evaluate");
    reveal_strlit("search_memory");
    assert("search_memory"@.len() != "propose_schedule"@.len());
    reveal_strlit("code_edit");
    assert("code_edit"@.len() != "propose_schedule"@.len());
    reveal_strlit("file_read");
    assert("file_read"@.len() != "propose_schedule"@.len());
    reveal_strlit("list_files");
    assert("list_files"@.len() != "propose_schedule"@.len());
    reveal_strlit("change_dir");
    assert("change_dir"@.len() != "propose_schedule"@.len());
    reveal_strlit("get_cwd");
    assert("get_cwd"@.len() != "propose_schedule"@.len());
    reveal_strlit("file_write");
    assert("file_write"@.len() != "propose_schedule"@.len());
    assert("terminal_execute"@[0] != "propose_schedule"@[0]);
    reveal_strlit("glob");
    assert("glob"@.len() != "propose_schedule"@.len());
    reveal_strlit("grep");
    assert("grep"@.len() != "propose_schedule"@.len());
    reveal_strlit("search_in_file");
    assert("search_in_file"@.len() != "propose_schedule"@.len());
    reveal_strlit("outline_file");
    assert("outline_file"@.len() != "propose_schedule"@.len());
    reveal_strlit("file_diff");
    assert("file_diff"@.len() != "propose_schedule"@.len());
    reveal_strlit("file_undo");
    assert("file_undo"@.len() != "propose_schedule"@.len());
    reveal_strlit("apply_patch");
    assert("apply_patch"@.len() != "propose_schedule"@.len());
    reveal_strlit("shell_spawn");
    assert("shell_spawn"@.len() != "propose_schedule"@.len());
    reveal_strlit("shell_exec");
    assert("shell_exec"@.len() != "propose_schedule"@.len());
    reveal_strlit("shell_read");
    assert("shell_read"@.len() != "propose_schedule"@.len());
    reveal_strlit("shell_kill");
    assert("shell_kill"@.len() != "propose_schedule"@.len());
    reveal_strlit("shell_list");
    assert("shell_list"@.len() != "propose_schedule"@.len());
    reveal_strlit("git_status");
    assert("git_status"@.len() != "propose_schedule"@.len());
    reveal_strlit("git_diff");
    assert("git_diff"@.len() != "propose_schedule"@.len());
    reveal_strlit("git_log");
    assert("git_log"@.len() != "propose_schedule"@.len());
    reveal_strlit("git_branch");
    assert("git_branch"@.len() != "propose_schedule"@.len());
    reveal_strlit("lsp_definition");
    assert("lsp_definition"@.len() != "propose_schedule"@.len());
    reveal_strlit("lsp_references");
    assert("lsp_references"@.len() != "propose_schedule"@.len());
    reveal_strlit("lsp_hover");
    assert("lsp_hover"@.len() != "propose_schedule"@.len());
    reveal_strlit("git_commit");
    assert("git_commit"@.len() != "propose_schedule"@.len());
    reveal_strlit("web_search");
    assert("web_search"@.len() != "propose_schedule"@.len());
    reveal_strlit("fetch_url");
    assert("fetch_url"@.len() != "propose_schedule"@.len());
    assert("browser_navigate"@[0] != "propose_schedule"@[0]);
    reveal_strlit("browser_click");
    assert("browser_click"@.len() != "propose_schedule"@.len());
    reveal_strlit("browser_type");
    assert("browser_type"@.len() != "propose_schedule"@.len());
    assert("browser_evaluate"@[0] != "propose_schedule"@[0]);
    reveal_strlit("browser_screenshot");
    assert("browser_screenshot"@.len() != "propose_schedule"@.len());
    reveal_strlit("store_memory");
    assert("store_memory"@.len() != "propose_schedule"@.len());
    reveal_strlit("store_user_fact");
    assert("store_user_fact"@.len() != "propose_schedule"@.len());
    reveal_strlit("ui_snapshot");
    assert("ui_snapshot"@.len() != "propose_schedule"@.len());
    reveal_strlit("ui_click");
    assert("ui_click"@.len() != "propose_schedule"@.len());
    reveal_strlit("ui_type");
    assert("ui_type"@.len() != "propose_schedule"@.len());
    reveal_strlit("ui_focus_window");
    assert("ui_focus_window"@.len() != "propose_schedule"@.len());
    reveal_strlit("ui_find");
    assert("ui_find"@.len() != "propose_schedule"@.len());
    reveal_strlit("schedule_task");
    assert("schedule_task"@.len() != "propose_schedule"@.len());
    is_read(args, "cadence"@);
    is_read(args, "name"@);
    is_read(args, "output_channel"@);
    is_read(args, "prompt"@);
    is_read(args, "why"@);
}

/// What a call of `list_schedules` asks for: what its arguments say.
pub proof fn list_schedules_call(args: JsonV, p: ToolPlan)
    requires
        asks("list_schedules"@, args, p),
    ensures
        p is ListSchedules,
{
    reveal_strlit("list_schedules");
    reveal_strlit("search_in_file");
    reveal_strlit("lsp_definition");
    reveal_strlit("lsp_references");
    reveal_strlit("search_memory");
    assert("search_memory"@.len() != "list_schedules"@.len());
    reveal_strlit("code_edit");
    assert("code_edit"@.len() != "list_schedules"@.len());
    reveal_strlit("file_read");
    assert("file_read"@.len() != "list_schedules"@.len());
    reveal_strlit("list_files");
    assert("list_files"@.len() != "list_schedules"@.len());
    reveal_strlit("change_dir");
    assert("change_dir"@.len() != "list_schedules"@.len());
    reveal_strlit("get_cwd");
    assert("get_cwd"@.len() != "list_schedules"@.len());
    reveal_strlit("file_write");
    assert("file_write"@.len() != "list_schedules"@.len());
    reveal_strlit("terminal_execute");
    assert("terminal_execute"@.len() != "list_schedules"@.len());
    reveal_strlit("glob");
    assert("glob"@.len() != "list_schedules"@.len());
    reveal_strlit("grep");
    assert("grep"@.len() != "list_schedules"@.len());
    assert("search_in_file"@[0] != "list_schedules"@[0]);
    reveal_strlit("outline_file");
    assert("outline_file"@.len() != "list_schedules"@.len());
    reveal_strlit("file_diff");
    assert("file_diff"@.len() != "list_schedules"@.len());
    reveal_strlit("file_undo");
    assert("file_undo"@.len() != "list_schedules"@.len());
    reveal_strlit("apply_patch");
    assert("apply_patch"@.len() != "list_schedules"@.len());
    reveal_strlit("shell_spawn");
    assert("shell_spawn"@.len() != "list_schedules"@.len());
    reveal_strlit("shell_exec");
    assert("shell_exec"@.len() != "list_schedules"@.len());
    reveal_strlit("shell_read");
    assert("shell_read"@.len() != "list_schedules"@.len());
    reveal_strlit("shell_kill");
    assert("shell_kill"@.len() != "list_schedules"@.len());
    reveal_strlit("shell_list");
    assert("shell_list"@.len() != "list_schedules"@.len());
    reveal_strlit("git_status");
    assert("git_status"@.len() != "list_schedules"@.len());
    reveal_strlit("git_diff");
    assert("git_diff"@.len() != "list_schedules"@.len());
    reveal_strlit("git_log");
    assert("git_log"@.len() != "list_schedules"@.len());
    reveal_strlit("git_branch");
    assert("git_branch"@.len() != "list_schedules"@.len());
    assert("lsp_definition"@[1] != "list_schedules"@[1]);
    assert("lsp_references"@[1] != "list_schedules"@[1]);
    reveal_strlit("lsp_hover");
    assert("lsp_hover"@.len() != "list_schedules"@.len());
    reveal_strlit("git_commit");
    assert("git_commit"@.len() != "list_schedules"@.len());
    reveal_strlit("web_search");
    assert("web_search"@.len() != "list_schedules"@.len());
    reveal_strlit("fetch_url");
    assert("fetch_url"@.len() != "list_schedules"@.len());
    reveal_strlit("browser_navigate");
    assert("browser_navigate"@.len() != "list_schedules"@.len());
    reveal_strlit("browser_click");
    assert("browser_click"@.len() != "list_schedules"@.len());
    reveal_strlit("browser_type");
    assert("browser_type"@.len() != "list_schedules"@.len());
    reveal_strlit("browser_evaluate");
    assert("browser_evaluate"@.len() != "list_schedules"@.len());
    reveal_strlit("browser_screenshot");
    assert("browser_screenshot"@.len() != "list_schedules"@.len());
    reveal_strlit("store_memory");
    assert("store_memory"@.len() != "list_schedules"@.len());
    reveal_strlit("store_user_fact");
    assert("store_user_fact"@.len() != "list_schedules"@.len());
    reveal_strlit("ui_snapshot");
    assert("ui_snapshot"@.len() != "list_schedules"@.len());
    reveal_strlit("ui_click");
    assert("ui_click"@.len() != "list_schedules"@.len());
    reveal_strlit("ui_type");
    assert("ui_type"@.len() != "list_schedules"@.len());
    reveal_strlit("ui_focus_window");
    assert("ui_focus_window"@.len() != "list_schedules"@.len());
    reveal_strlit("ui_find");
    assert("ui_find"@.len() != "list_schedules"@.len());
    reveal_strlit("schedule_task");
    assert("schedule_task"@.len() != "list_schedules"@.len());
    reveal_strlit("propose_schedule");
    assert("propose_schedule"@.len() != "list_schedules"@.len());
}

/// What a call of `cancel_schedule` asks for: what its arguments say.
pub proof fn cancel_schedule_call(args: JsonV, p: ToolPlan)
    requires
        asks("cancel_schedule"@, args, p),
    ensures
        p matches ToolPlan::CancelSchedule { id, .. } && is_text(args, "id"@, Seq::empty(), id@),
{
    reveal_strlit("cancel_schedule");
    reveal_strlit("store_user_fact");
    reveal_strlit("ui_focus_window");
    reveal_strlit("search_memory");
    assert("search_memory"@.len() != "cancel_schedule"@.len());
    reveal_strlit("code_edit");
    assert("code_edit"@.len() != "cancel_schedule"@.len());
    reveal_strlit("file_read");
    assert("file_read"@.len() != "cancel_schedule"@.len());
    reveal_strlit("list_files");
    assert("list_files"@.len() != "cancel_schedule"@.len());
    reveal_strlit("change_dir");
    assert("change_dir"@.len() != "cancel_schedule"@.len());
    reveal_strlit("get_cwd");
    assert("get_cwd"@.len() != "cancel_schedule"@.len());
    reveal_strlit("file_write");
    assert("file_write"@.len() != "cancel_schedule"@.len());
    reveal_strlit("terminal_execute");
    assert("terminal_execute"@.len() != "cancel_schedule"@.len());
    reveal_strlit("glob");
    assert("glob"@.len() != "cancel_schedule"@.len());
    reveal_strlit("grep");
    assert("grep"@.len() != "cancel_schedule"@.len());
    reveal_strlit("search_in_file");
    assert("search_in_file"@.len() != "cancel_schedule"@.len());
    reveal_strlit("outline_file");
    assert("outline_file"@.len() != "cancel_schedule"@.len());
    reveal_strlit("file_diff");
    assert("file_diff"@.len() != "cancel_schedule"@.len());
    reveal_strlit("file_undo");
    assert("file_undo"@.len() != "cancel_schedule"@.len());
    reveal_strlit("apply_patch");
    assert("apply_patch"@.len() != "cancel_schedule"@.len());
    reveal_strlit("shell_spawn");
    assert("shell_spawn"@.len() != "cancel_schedule"@.len());
    reveal_strlit("shell_exec");
    assert("shell_exec"@.len() != "cancel_schedule"@.len());
    reveal_strlit("shell_read");
    assert("shell_read"@.len() != "cancel_schedule"@.len());
    reveal_strlit("shell_kill");
    assert("shell_kill"@.len() != "cancel_schedule"@.len());
    reveal_strlit("shell_list");
    assert("shell_list"@.len() != "cancel_schedule"@.len());
    reveal_strlit("git_status");
    assert("git_status"@.len() != "cancel_schedule"@.len());
    reveal_strlit("git_diff");
    assert("git_diff"@.len() != "cancel_schedule"@.len());
    reveal_strlit("git_log");
    assert("git_log"@.len() != "cancel_schedule"@.len());
    reveal_strlit("git_branch");
    assert("git_branch"@.len() != "cancel_schedule"@.len());
    reveal_strlit("lsp_definition");
    assert("lsp_definition"@.len() != "cancel_schedule"@.len());
    reveal_strlit("lsp_references");
    assert("lsp_references"@.len() != "cancel_schedule"@.len());
    reveal_strlit("lsp_hover");
    assert("lsp_hover"@.len() != "cancel_schedule"@.len());
    reveal_strlit("git_commit");
    assert("git_commit"@.len() != "cancel_schedule"@.len());
    reveal_strlit("web_search");
    assert("web_search"@.len() != "cancel_schedule"@.len());
    reveal_strlit("fetch_url");
    assert("fetch_url"@.len() != "cancel_schedule"@.len());
    reveal_strlit("browser_navigate");
    assert("browser_navigate"@.len() != "cancel_schedule"@.len());
    reveal_strlit("browser_click");
    assert("browser_click"@.len() != "cancel_schedule"@.len());
    reveal_strlit("browser_type");
    assert("browser_type"@.len() != "cancel_schedule"@.len());
    reveal_strlit("browser_evaluate");
    assert("browser_evaluate"@.len() != "cancel_schedule"@.len());
    reveal_strlit("browser_screenshot");
    assert("browser_screenshot"@.len() != "cancel_schedule"@.len());
    reveal_strlit("store_memory");
    assert("store_memory"@.len() != "cancel_schedule"@.len());
    assert("store_user_fact"@[0] != "cancel_schedule"@[0]);
    reveal_strlit("ui_snapshot");
    assert("ui_snapshot"@.len() != "cancel_schedule"@.len());
    reveal_strlit("ui_click");
    assert("ui_click"@.len() != "cancel_schedule"@.len());
    reveal_strlit("ui_type");
    assert("ui_type"@.len() != "cancel_schedule"@.len());
    assert("ui_focus_window"@[0] != "cancel_schedule"@[0]);
    reveal_strlit("ui_find");
    assert("ui_find"@.len() != "cancel_schedule"@.len());
    reveal_strlit("schedule_task");
    assert("schedule_task"@.len() != "cancel_schedule"@.len());
    reveal_strlit("propose_schedule");
    assert("propose_schedule"@.len() != "cancel_schedule"@.len());
    reveal_strlit("list_schedules");
    assert("list_schedules"@.len() != "cancel_schedule"@.len());
    is_read(args, "id"@);
}

} // verus!
