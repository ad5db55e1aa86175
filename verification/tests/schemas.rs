use rook::ipc::handlers::chat::modes::coder_tools;
use rook::ipc::handlers::chat::team_tools::build_all_tools;
use rook::ipc::handlers::tool_dispatch::build_tools;
use rook::json::{Json, Number};
use rook::llm::types::ToolDefinition;
use serde_json::Value;

fn value(j: &Json) -> Value {
    match j {
        Json::Null => Value::Null,
        Json::Bool(b) => Value::Bool(*b),
        Json::Num(Number::Unsigned(n)) => Value::from(*n),
        Json::Num(Number::Negative(n)) => Value::from(*n),
        Json::Num(Number::Fraction(b)) => Value::from(f64::from_bits(*b)),
        Json::Text(t) => Value::String(t.clone()),
        Json::List(l) => Value::Array(l.iter().map(value).collect()),
        Json::Object(m) => Value::Object(m.iter().map(|(k, v)| (k.clone(), value(v))).collect()),
    }
}

fn compare(tools: Vec<ToolDefinition>, expected: &[(&str, &str)]) {
    assert_eq!(tools.len(), expected.len());
    for (tool, (name, schema)) in tools.iter().zip(expected) {
        assert_eq!(tool.tool_type, "function");
        assert_eq!(tool.function.name, *name);
        let schema: Value = serde_json::from_str(schema).unwrap();
        assert_eq!(value(&tool.function.parameters), schema, "{}", name);
    }
}

#[test]
fn the_tools_of_a_team_have_their_schemas() {
    compare(build_all_tools(), &TEAM);
}

#[test]
fn the_tools_of_a_coding_agent_have_their_schemas() {
    compare(coder_tools(), &CODER);
}

#[test]
fn the_tools_with_operations_have_their_schemas() {
    compare(build_tools(), &WITH_OPERATIONS);
}

const CODER: [(&str, &str); 2] = [
    (
        "code_edit",
        r#"{"properties":{"action":{"type":"string"},"content":{"type":"string"},"line":{"type":"integer"},"path":{"type":"string"},"replace":{"type":"string"},"search":{"type":"string"}},"required":["action","path"],"type":"object"}"#,
    ),
    (
        "terminal_execute",
        r#"{"properties":{"command":{"type":"string"}},"required":["command"],"type":"object"}"#,
    ),
];

const WITH_OPERATIONS: [(&str, &str); 12] = [
    (
        "memory",
        r#"{"properties":{"category":{"type":"string"},"content":{"type":"string"},"key":{"type":"string"},"limit":{"type":"integer"},"op":{"enum":["search","store","store_user_fact"],"type":"string"},"query":{"type":"string"},"value":{"type":"string"}},"required":["op"],"type":"object"}"#,
    ),
    (
        "schedule",
        r#"{"properties":{"cadence":{"type":"string"},"id":{"type":"string"},"name":{"type":"string"},"op":{"enum":["propose","list","cancel"],"type":"string"},"output_channel":{"enum":["notification","silent"],"type":"string"},"prompt":{"type":"string"},"why":{"type":"string"}},"required":["op"],"type":"object"}"#,
    ),
    (
        "git",
        r#"{"properties":{"count":{"type":"integer"},"file":{"type":"string"},"files":{"items":{"type":"string"},"type":"array"},"message":{"type":"string"},"op":{"enum":["status","diff","log","branch","commit"],"type":"string"}},"required":["op"],"type":"object"}"#,
    ),
    (
        "ui",
        r#"{"properties":{"element_id":{"type":"string"},"include_offscreen":{"type":"boolean"},"op":{"enum":["snapshot","click","type","focus","find"],"type":"string"},"query":{"type":"string"},"text":{"type":"string"},"title":{"type":"string"},"window":{"type":"string"}},"required":["op"],"type":"object"}"#,
    ),
    (
        "browser",
        r#"{"properties":{"full_page":{"type":"boolean"},"js":{"type":"string"},"op":{"enum":["navigate","click","type","eval","screenshot"],"type":"string"},"selector":{"type":"string"},"text":{"type":"string"},"url":{"type":"string"}},"required":["op"],"type":"object"}"#,
    ),
    (
        "shell",
        r#"{"properties":{"clear":{"type":"boolean"},"command":{"type":"string"},"name":{"type":"string"},"op":{"enum":["exec","spawn","read","kill","list"],"type":"string"},"run_in_background":{"type":"boolean"},"shell":{"type":"string"},"timeout_secs":{"type":"integer"}},"required":["op"],"type":"object"}"#,
    ),
    (
        "lsp",
        r#"{"properties":{"character":{"type":"integer"},"line":{"type":"integer"},"op":{"enum":["definition","references","hover"],"type":"string"},"path":{"type":"string"}},"required":["op"],"type":"object"}"#,
    ),
    (
        "semantic",
        r#"{"properties":{"character":{"type":"integer"},"hint_path":{"type":"string"},"id":{"type":"string"},"line":{"type":"integer"},"new_name":{"type":"string"},"op":{"enum":["rename","code_actions","apply_action","workspace_symbol"],"type":"string"},"path":{"type":"string"},"query":{"type":"string"}},"required":["op"],"type":"object"}"#,
    ),
    (
        "fs_read",
        r#"{"properties":{"case_insensitive":{"type":"boolean"},"context":{"type":"integer"},"glob":{"type":"string"},"limit":{"type":"integer"},"max_results":{"type":"integer"},"offset":{"type":"integer"},"op":{"enum":["read","list","cwd","chdir","glob","grep","outline","search_in_file"],"type":"string"},"output":{"enum":["files","content","count"],"type":"string"},"path":{"type":"string"},"pattern":{"type":"string"},"recursive":{"type":"boolean"}},"required":["op"],"type":"object"}"#,
    ),
    (
        "fs_write",
        r#"{"properties":{"action":{"enum":["search_replace","insert_at_line","append"],"type":"string"},"content":{"type":"string"},"line":{"type":"integer"},"op":{"enum":["write","edit","patch","diff","undo"],"type":"string"},"patch":{"type":"string"},"path":{"type":"string"},"replace":{"type":"string"},"search":{"type":"string"}},"required":["op"],"type":"object"}"#,
    ),
    (
        "web",
        r#"{"properties":{"op":{"enum":["search","fetch"],"type":"string"},"query":{"type":"string"},"url":{"type":"string"}},"required":["op"],"type":"object"}"#,
    ),
    (
        "todo_write",
        r#"{"properties":{"todos":{"items":{"properties":{"activeForm":{"description":"present continuous, e.g. 'Running tests'","type":"string"},"content":{"description":"imperative, e.g. 'Run tests'","type":"string"},"status":{"enum":["pending","in_progress","completed"],"type":"string"}},"required":["content","activeForm","status"],"type":"object"},"type":"array"}},"required":["todos"],"type":"object"}"#,
    ),
];

const TEAM: [(&str, &str); 46] = [
    (
        "search_memory",
        r#"{"properties":{"limit":{"description":"Max nodes to return. Default 5.","type":"integer"},"query":{"description":"Natural-language query describing what you need to recall.","type":"string"}},"required":["query"],"type":"object"}"#,
    ),
    (
        "ui_snapshot",
        r#"{"properties":{"include_offscreen":{"description":"Include elements scrolled off screen. Default false to keep tokens low.","type":"boolean"},"window":{"description":"Optional substring of a window title (e.g. 'Notepad'). Omit to snapshot the foreground window.","type":"string"}},"type":"object"}"#,
    ),
    (
        "ui_click",
        r#"{"properties":{"element_id":{"description":"ID from the most recent ui_snapshot (e.g. 'e42').","type":"string"}},"required":["element_id"],"type":"object"}"#,
    ),
    (
        "ui_type",
        r#"{"properties":{"element_id":{"type":"string"},"text":{"type":"string"}},"required":["element_id","text"],"type":"object"}"#,
    ),
    (
        "ui_focus_window",
        r#"{"properties":{"title":{"description":"Substring match on window title.","type":"string"}},"required":["title"],"type":"object"}"#,
    ),
    (
        "ui_find",
        r#"{"properties":{"query":{"type":"string"}},"required":["query"],"type":"object"}"#,
    ),
    (
        "propose_schedule",
        r#"{"properties":{"cadence":{"description":"Cadence spec - see tool description.","type":"string"},"name":{"description":"Short human-readable name.","type":"string"},"output_channel":{"description":"How to deliver the result. Default notification.","enum":["notification","silent"],"type":"string"},"prompt":{"description":"What Rook should do when the task fires.","type":"string"},"why":{"description":"Short reason the task is useful. Shown to the user when they approve.","type":"string"}},"required":["name","cadence","prompt"],"type":"object"}"#,
    ),
    (
        "list_schedules",
        r#"{"properties":{},"type":"object"}"#,
    ),
    (
        "cancel_schedule",
        r#"{"properties":{"id":{"type":"string"}},"required":["id"],"type":"object"}"#,
    ),
    (
        "file_read",
        r#"{"properties":{"limit":{"description":"Max lines to return (default 2000)","type":"integer"},"offset":{"description":"0-based line number to start at","type":"integer"},"path":{"description":"Absolute or relative file path","type":"string"}},"required":["path"],"type":"object"}"#,
    ),
    (
        "list_files",
        r#"{"properties":{"path":{"description":"Directory to list. Defaults to '.'","type":"string"},"pattern":{"description":"Optional glob-like substring filter on entry names","type":"string"},"recursive":{"description":"Walk subdirectories (max depth 3). Default false.","type":"boolean"}},"type":"object"}"#,
    ),
    (
        "change_dir",
        r#"{"properties":{"path":{"description":"Target directory (absolute or relative)","type":"string"}},"required":["path"],"type":"object"}"#,
    ),
    (
        "get_cwd",
        r#"{"properties":{},"type":"object"}"#,
    ),
    (
        "glob",
        r#"{"properties":{"path":{"description":"Optional base directory (default: cwd)","type":"string"},"pattern":{"description":"Glob pattern, e.g. 'src/**/*.ts'","type":"string"}},"required":["pattern"],"type":"object"}"#,
    ),
    (
        "grep",
        r#"{"properties":{"case_insensitive":{"type":"boolean"},"glob":{"description":"Optional glob filter, e.g. '*.rs'","type":"string"},"max_results":{"description":"Cap results (default 200)","type":"integer"},"output":{"description":"files=just paths (default), content=matching lines, count=match counts per file","enum":["files","content","count"],"type":"string"},"path":{"description":"Directory or file to search (default: cwd)","type":"string"},"pattern":{"description":"Regex pattern","type":"string"}},"required":["pattern"],"type":"object"}"#,
    ),
    (
        "todo_write",
        r#"{"properties":{"todos":{"items":{"properties":{"activeForm":{"description":"Present continuous, e.g. 'Running tests'","type":"string"},"content":{"description":"Imperative form, e.g. 'Run tests'","type":"string"},"status":{"enum":["pending","in_progress","completed"],"type":"string"}},"required":["content","activeForm","status"],"type":"object"},"type":"array"}},"required":["todos"],"type":"object"}"#,
    ),
    (
        "file_write",
        r#"{"properties":{"content":{"type":"string"},"path":{"type":"string"}},"required":["path","content"],"type":"object"}"#,
    ),
    (
        "code_edit",
        r#"{"properties":{"action":{"enum":["search_replace","insert_at_line","append"],"type":"string"},"content":{"description":"Content for append or insert_at_line","type":"string"},"line":{"description":"Line number for insert_at_line","type":"integer"},"path":{"type":"string"},"replace":{"description":"Replacement text for search_replace","type":"string"},"search":{"description":"Text to find for search_replace","type":"string"}},"required":["action","path"],"type":"object"}"#,
    ),
    (
        "terminal_execute",
        r#"{"properties":{"command":{"type":"string"}},"required":["command"],"type":"object"}"#,
    ),
    (
        "git_status",
        r#"{"properties":{},"type":"object"}"#,
    ),
    (
        "git_diff",
        r#"{"properties":{"file":{"description":"Optional file path","type":"string"}},"type":"object"}"#,
    ),
    (
        "git_log",
        r#"{"properties":{"count":{"description":"Number of commits (default 10)","type":"integer"}},"type":"object"}"#,
    ),
    (
        "git_branch",
        r#"{"properties":{},"type":"object"}"#,
    ),
    (
        "git_commit",
        r#"{"properties":{"files":{"description":"Files to stage (relative or absolute paths). Use [\".\"] to stage all changes.","items":{"type":"string"},"type":"array"},"message":{"description":"Commit message","type":"string"}},"required":["message","files"],"type":"object"}"#,
    ),
    (
        "web_search",
        r#"{"properties":{"query":{"type":"string"}},"required":["query"],"type":"object"}"#,
    ),
    (
        "fetch_url",
        r#"{"properties":{"url":{"type":"string"}},"required":["url"],"type":"object"}"#,
    ),
    (
        "browser_navigate",
        r#"{"properties":{"url":{"type":"string"}},"required":["url"],"type":"object"}"#,
    ),
    (
        "browser_click",
        r#"{"properties":{"selector":{"type":"string"}},"required":["selector"],"type":"object"}"#,
    ),
    (
        "browser_type",
        r#"{"properties":{"selector":{"type":"string"},"text":{"type":"string"}},"required":["selector","text"],"type":"object"}"#,
    ),
    (
        "browser_evaluate",
        r#"{"properties":{"js":{"type":"string"}},"required":["js"],"type":"object"}"#,
    ),
    (
        "browser_screenshot",
        r#"{"properties":{"full_page":{"description":"Capture full scrollable page","type":"boolean"}},"type":"object"}"#,
    ),
    (
        "store_memory",
        r#"{"properties":{"category":{"description":"Category tag (e.g. 'project', 'decision', 'architecture', 'bug', 'preference')","type":"string"},"content":{"description":"The information to remember","type":"string"}},"required":["content"],"type":"object"}"#,
    ),
    (
        "store_user_fact",
        r#"{"properties":{"key":{"description":"Fact key (e.g. 'name', 'preferred_language', 'editor', 'timezone')","type":"string"},"value":{"description":"Fact value","type":"string"}},"required":["key","value"],"type":"object"}"#,
    ),
    (
        "shell_spawn",
        r#"{"properties":{"name":{"description":"Shell name, e.g. 'shell2'","type":"string"}},"required":["name"],"type":"object"}"#,
    ),
    (
        "shell_exec",
        r#"{"properties":{"command":{"description":"Shell command to execute","type":"string"},"run_in_background":{"description":"Start command in background and return immediately","type":"boolean"},"shell":{"description":"Shell name (default: 'default'). Auto-creates if missing.","type":"string"},"timeout_secs":{"description":"Override default 45s timeout for sync calls","type":"integer"}},"required":["command"],"type":"object"}"#,
    ),
    (
        "shell_read",
        r#"{"properties":{"clear":{"description":"Clear the buffer after reading","type":"boolean"},"shell":{"description":"Shell name (default: 'default')","type":"string"}},"type":"object"}"#,
    ),
    (
        "shell_kill",
        r#"{"properties":{"name":{"description":"Shell name to kill","type":"string"}},"required":["name"],"type":"object"}"#,
    ),
    (
        "shell_list",
        r#"{"properties":{},"type":"object"}"#,
    ),
    (
        "outline_file",
        r#"{"properties":{"path":{"description":"Path to source file","type":"string"}},"required":["path"],"type":"object"}"#,
    ),
    (
        "search_in_file",
        r#"{"properties":{"case_insensitive":{"type":"boolean"},"context":{"description":"Lines of context around each match (default 2)","type":"integer"},"path":{"description":"File to search","type":"string"},"pattern":{"description":"Regex pattern","type":"string"}},"required":["path","pattern"],"type":"object"}"#,
    ),
    (
        "file_diff",
        r#"{"properties":{"path":{"description":"File to diff","type":"string"}},"required":["path"],"type":"object"}"#,
    ),
    (
        "file_undo",
        r#"{"properties":{"path":{"description":"File to restore","type":"string"}},"required":["path"],"type":"object"}"#,
    ),
    (
        "lsp_definition",
        r#"{"properties":{"character":{"description":"0-based column number","type":"integer"},"line":{"description":"0-based line number","type":"integer"},"path":{"description":"Source file path","type":"string"}},"required":["path","line","character"],"type":"object"}"#,
    ),
    (
        "lsp_references",
        r#"{"properties":{"character":{"description":"0-based column number","type":"integer"},"line":{"description":"0-based line number","type":"integer"},"path":{"description":"Source file path","type":"string"}},"required":["path","line","character"],"type":"object"}"#,
    ),
    (
        "lsp_hover",
        r#"{"properties":{"character":{"description":"0-based column number","type":"integer"},"line":{"description":"0-based line number","type":"integer"},"path":{"description":"Source file path","type":"string"}},"required":["path","line","character"],"type":"object"}"#,
    ),
    (
        "apply_patch",
        r#"{"properties":{"patch":{"description":"Unified diff text (@@-hunk format, optionally with --- +++ header)","type":"string"},"path":{"description":"File to patch","type":"string"}},"required":["path","patch"],"type":"object"}"#,
    ),
];
