//! The tools that are offered to the model, each with its operations.

use crate::llm::schema::{
    bare, bare_of, list_of, list_of_these, one_of, one_of_these, param_views, KindV, Param, ParamV,
};
use crate::text;
use vstd::prelude::*;

verus! {

/// An operation of a tool.
#[derive(Debug)]
pub struct Op {
    pub op: &'static str,
    /// The handler that does the work.
    pub inner: &'static str,
    /// The shape of the parameters.
    pub sig: &'static str,
    /// A remark, or nothing.
    pub note: &'static str,
    /// The parameters that must be given besides `op`.
    pub required: Vec<&'static str>,
}

/// The model of an operation.
#[verifier::ext_equal]
pub struct OpSpec {
    pub op: Seq<char>,
    pub inner: Seq<char>,
    pub sig: Seq<char>,
    pub note: Seq<char>,
    pub required: Seq<Seq<char>>,
}

impl View for Op {
    type V = OpSpec;

    open spec fn view(&self) -> OpSpec {
        OpSpec {
            op: self.op@,
            inner: self.inner@,
            sig: self.sig@,
            note: self.note@,
            required: text::slice_views(self.required@),
        }
    }
}

/// The models of a list of operations.
pub open spec fn op_specs(ops: Seq<Op>) -> Seq<OpSpec> {
    ops.map_values(|o: Op| o@)
}

/// A tool with several operations.
#[derive(Debug)]
pub struct Tool {
    pub name: &'static str,
    pub hint: &'static str,
    pub ops: Vec<Op>,
    /// What the operations may take.
    pub params: Vec<Param>,
}

/// The model of a tool.
#[verifier::ext_equal]
pub struct ToolSpec {
    pub name: Seq<char>,
    pub hint: Seq<char>,
    pub ops: Seq<OpSpec>,
    pub params: Seq<ParamV>,
}

impl View for Tool {
    type V = ToolSpec;

    open spec fn view(&self) -> ToolSpec {
        ToolSpec {
            name: self.name@,
            hint: self.hint@,
            ops: op_specs(self.ops@),
            params: param_views(self.params@),
        }
    }
}

/// The models of a list of tools.
pub open spec fn tool_specs(tools: Seq<Tool>) -> Seq<ToolSpec> {
    tools.map_values(|t: Tool| t@)
}

/// The tool `memory`.
pub open spec fn memory_tool() -> ToolSpec {
    ToolSpec {
        name: "memory"@,
        hint: "long-term memory graph across sessions. search BEFORE asking the user to repeat context; store non-obvious facts worth recalling later."@,
        ops: seq![
            OpSpec {
                op: "search"@,
                inner: "search_memory"@,
                sig: "{query, limit?}"@,
                note: "ranked results, cheap"@,
                required: seq!["query"@],
            },
            OpSpec {
                op: "store"@,
                inner: "store_memory"@,
                sig: "{content, category?}"@,
                note: "category: project|decision|architecture|bug|preference"@,
                required: seq!["content"@],
            },
            OpSpec {
                op: "store_user_fact"@,
                inner: "store_user_fact"@,
                sig: "{key, value}"@,
                note: "global user profile"@,
                required: seq!["key"@, "value"@],
            },
        ],
        params: seq![
            bare_of("query"@, "string"@),
            bare_of("limit"@, "integer"@),
            bare_of("content"@, "string"@),
            bare_of("category"@, "string"@),
            bare_of("key"@, "string"@),
            bare_of("value"@, "string"@),
        ],
    }
}

pub(crate) fn memory() -> (r: Tool)
    ensures
        r@ == memory_tool(),
{
    let mut ops: Vec<Op> = Vec::new();
    ops.push(
        Op {
            op: "search",
            inner: "search_memory",
            sig: "{query, limit?}",
            note: "ranked results, cheap",
            required: vec!["query"],
        },
    );
    ops.push(
        Op {
            op: "store",
            inner: "store_memory",
            sig: "{content, category?}",
            note: "category: project|decision|architecture|bug|preference",
            required: vec!["content"],
        },
    );
    ops.push(
        Op {
            op: "store_user_fact",
            inner: "store_user_fact",
            sig: "{key, value}",
            note: "global user profile",
            required: vec!["key", "value"],
        },
    );
    let params: Vec<Param> = vec![
        bare("query", "string"),
        bare("limit", "integer"),
        bare("content", "string"),
        bare("category", "string"),
        bare("key", "string"),
        bare("value", "string"),
    ];
    let r = Tool {
        name: "memory",
        hint: "long-term memory graph across sessions. search BEFORE asking the user to repeat context; store non-obvious facts worth recalling later.",
        ops,
        params,
    };
    assert(param_views(r.params@) =~= memory_tool().params);
    assert(op_specs(r.ops@)[0].required =~= memory_tool().ops[0].required);
    assert(op_specs(r.ops@)[1].required =~= memory_tool().ops[1].required);
    assert(op_specs(r.ops@)[2].required =~= memory_tool().ops[2].required);
    assert(r@.ops =~= memory_tool().ops);
    r
}

/// The tool `schedule`.
pub open spec fn schedule_tool() -> ToolSpec {
    ToolSpec {
        name: "schedule"@,
        hint: "scheduled tasks. propose starts status='proposed', user must approve."@,
        ops: seq![
            OpSpec {
                op: "propose"@,
                inner: "propose_schedule"@,
                sig: "{name, cadence, prompt, output_channel?, why?}"@,
                note: "cadence: 'once YYYY-MM-DD HH:MM' | 'in 2h' | 'daily 09:00' | 'weekly mon 09:00' | 'every 15m' | 'cron 0 9 * * 1'"@,
                required: seq!["name"@, "cadence"@, "prompt"@],
            },
            OpSpec {
                op: "list"@,
                inner: "list_schedules"@,
                sig: "{}"@,
                note: ""@,
                required: Seq::empty(),
            },
            OpSpec {
                op: "cancel"@,
                inner: "cancel_schedule"@,
                sig: "{id}"@,
                note: ""@,
                required: seq!["id"@],
            },
        ],
        params: seq![
            bare_of("name"@, "string"@),
            bare_of("cadence"@, "string"@),
            bare_of("prompt"@, "string"@),
            one_of_these("output_channel"@, seq!["notification"@, "silent"@], ""@),
            bare_of("why"@, "string"@),
            bare_of("id"@, "string"@),
        ],
    }
}

pub(crate) fn schedule() -> (r: Tool)
    ensures
        r@ == schedule_tool(),
{
    let mut ops: Vec<Op> = Vec::new();
    ops.push(
        Op {
            op: "propose",
            inner: "propose_schedule",
            sig: "{name, cadence, prompt, output_channel?, why?}",
            note: "cadence: 'once YYYY-MM-DD HH:MM' | 'in 2h' | 'daily 09:00' | 'weekly mon 09:00' | 'every 15m' | 'cron 0 9 * * 1'",
            required: vec!["name", "cadence", "prompt"],
        },
    );
    ops.push(
        Op {
            op: "list",
            inner: "list_schedules",
            sig: "{}",
            note: "",
            required: Vec::new(),
        },
    );
    ops.push(
        Op {
            op: "cancel",
            inner: "cancel_schedule",
            sig: "{id}",
            note: "",
            required: vec!["id"],
        },
    );
    let params: Vec<Param> = vec![
        bare("name", "string"),
        bare("cadence", "string"),
        bare("prompt", "string"),
        one_of("output_channel", vec!["notification", "silent"], ""),
        bare("why", "string"),
        bare("id", "string"),
    ];
    assert(params@[3]@.kind =~= KindV::OneOf(seq!["notification"@, "silent"@]));
    let r = Tool {
        name: "schedule",
        hint: "scheduled tasks. propose starts status='proposed', user must approve.",
        ops,
        params,
    };
    assert(param_views(r.params@) =~= schedule_tool().params);
    assert(op_specs(r.ops@)[0].required =~= schedule_tool().ops[0].required);
    assert(op_specs(r.ops@)[1].required =~= schedule_tool().ops[1].required);
    assert(op_specs(r.ops@)[2].required =~= schedule_tool().ops[2].required);
    assert(r@.ops =~= schedule_tool().ops);
    r
}

/// The tool `git`.
pub open spec fn git_tool() -> ToolSpec {
    ToolSpec {
        name: "git"@,
        hint: "git operations. commit ONLY when the user explicitly asks; never commit just because tests passed."@,
        ops: seq![
            OpSpec {
                op: "status"@,
                inner: "git_status"@,
                sig: "{}"@,
                note: ""@,
                required: Seq::empty(),
            },
            OpSpec {
                op: "diff"@,
                inner: "git_diff"@,
                sig: "{file?}"@,
                note: ""@,
                required: Seq::empty(),
            },
            OpSpec {
                op: "log"@,
                inner: "git_log"@,
                sig: "{count?}"@,
                note: "default 10"@,
                required: Seq::empty(),
            },
            OpSpec {
                op: "branch"@,
                inner: "git_branch"@,
                sig: "{}"@,
                note: ""@,
                required: Seq::empty(),
            },
            OpSpec {
                op: "commit"@,
                inner: "git_commit"@,
                sig: "{message, files}"@,
                note: "files: array of paths; use ['.'] to stage all"@,
                required: seq!["message"@, "files"@],
            },
        ],
        params: seq![
            bare_of("file"@, "string"@),
            bare_of("count"@, "integer"@),
            bare_of("message"@, "string"@),
            list_of_these("files"@, "string"@, ""@),
        ],
    }
}

pub(crate) fn git() -> (r: Tool)
    ensures
        r@ == git_tool(),
{
    let mut ops: Vec<Op> = Vec::new();
    ops.push(
        Op {
            op: "status",
            inner: "git_status",
            sig: "{}",
            note: "",
            required: Vec::new(),
        },
    );
    ops.push(
        Op {
            op: "diff",
            inner: "git_diff",
            sig: "{file?}",
            note: "",
            required: Vec::new(),
        },
    );
    ops.push(
        Op {
            op: "log",
            inner: "git_log",
            sig: "{count?}",
            note: "default 10",
            required: Vec::new(),
        },
    );
    ops.push(
        Op {
            op: "branch",
            inner: "git_branch",
            sig: "{}",
            note: "",
            required: Vec::new(),
        },
    );
    ops.push(
        Op {
            op: "commit",
            inner: "git_commit",
            sig: "{message, files}",
            note: "files: array of paths; use ['.'] to stage all",
            required: vec!["message", "files"],
        },
    );
    let params: Vec<Param> = vec![
        bare("file", "string"),
        bare("count", "integer"),
        bare("message", "string"),
        list_of("files", "string", ""),
    ];
    let r = Tool {
        name: "git",
        hint: "git operations. commit ONLY when the user explicitly asks; never commit just because tests passed.",
        ops,
        params,
    };
    assert(param_views(r.params@) =~= git_tool().params);
    assert(op_specs(r.ops@)[0].required =~= git_tool().ops[0].required);
    assert(op_specs(r.ops@)[1].required =~= git_tool().ops[1].required);
    assert(op_specs(r.ops@)[2].required =~= git_tool().ops[2].required);
    assert(op_specs(r.ops@)[3].required =~= git_tool().ops[3].required);
    assert(op_specs(r.ops@)[4].required =~= git_tool().ops[4].required);
    assert(r@.ops =~= git_tool().ops);
    r
}

/// The tool `ui`.
pub open spec fn ui_tool() -> ToolSpec {
    ToolSpec {
        name: "ui"@,
        hint: "Windows UIA desktop automation (not for web pages - use browser). call op=snapshot BEFORE every click so ids match the current screen."@,
        ops: seq![
            OpSpec {
                op: "snapshot"@,
                inner: "ui_snapshot"@,
                sig: "{window?, include_offscreen?}"@,
                note: "returns element tree + last 8 UI actions"@,
                required: Seq::empty(),
            },
            OpSpec {
                op: "click"@,
                inner: "ui_click"@,
                sig: "{element_id}"@,
                note: "id from most recent snapshot"@,
                required: seq!["element_id"@],
            },
            OpSpec {
                op: "type"@,
                inner: "ui_type"@,
                sig: "{element_id, text}"@,
                note: ""@,
                required: seq!["element_id"@, "text"@],
            },
            OpSpec {
                op: "focus"@,
                inner: "ui_focus_window"@,
                sig: "{title}"@,
                note: "substring match; snapshot again after focusing"@,
                required: seq!["title"@],
            },
            OpSpec {
                op: "find"@,
                inner: "ui_find"@,
                sig: "{query}"@,
                note: "search last snapshot by element name"@,
                required: seq!["query"@],
            },
        ],
        params: seq![
            bare_of("window"@, "string"@),
            bare_of("include_offscreen"@, "boolean"@),
            bare_of("element_id"@, "string"@),
            bare_of("text"@, "string"@),
            bare_of("title"@, "string"@),
            bare_of("query"@, "string"@),
        ],
    }
}

pub(crate) fn ui() -> (r: Tool)
    ensures
        r@ == ui_tool(),
{
    let mut ops: Vec<Op> = Vec::new();
    ops.push(
        Op {
            op: "snapshot",
            inner: "ui_snapshot",
            sig: "{window?, include_offscreen?}",
            note: "returns element tree + last 8 UI actions",
            required: Vec::new(),
        },
    );
    ops.push(
        Op {
            op: "click",
            inner: "ui_click",
            sig: "{element_id}",
            note: "id from most recent snapshot",
            required: vec!["element_id"],
        },
    );
    ops.push(
        Op {
            op: "type",
            inner: "ui_type",
            sig: "{element_id, text}",
            note: "",
            required: vec!["element_id", "text"],
        },
    );
    ops.push(
        Op {
            op: "focus",
            inner: "ui_focus_window",
            sig: "{title}",
            note: "substring match; snapshot again after focusing",
            required: vec!["title"],
        },
    );
    ops.push(
        Op {
            op: "find",
            inner: "ui_find",
            sig: "{query}",
            note: "search last snapshot by element name",
            required: vec!["query"],
        },
    );
    let params: Vec<Param> = vec![
        bare("window", "string"),
        bare("include_offscreen", "boolean"),
        bare("element_id", "string"),
        bare("text", "string"),
        bare("title", "string"),
        bare("query", "string"),
    ];
    let r = Tool {
        name: "ui",
        hint: "Windows UIA desktop automation (not for web pages - use browser). call op=snapshot BEFORE every click so ids match the current screen.",
        ops,
        params,
    };
    assert(param_views(r.params@) =~= ui_tool().params);
    assert(op_specs(r.ops@)[0].required =~= ui_tool().ops[0].required);
    assert(op_specs(r.ops@)[1].required =~= ui_tool().ops[1].required);
    assert(op_specs(r.ops@)[2].required =~= ui_tool().ops[2].required);
    assert(op_specs(r.ops@)[3].required =~= ui_tool().ops[3].required);
    assert(op_specs(r.ops@)[4].required =~= ui_tool().ops[4].required);
    assert(r@.ops =~= ui_tool().ops);
    r
}

/// The tool `browser`.
pub open spec fn browser_tool() -> ToolSpec {
    ToolSpec {
        name: "browser"@,
        hint: "headless browser via CDP. use for web pages that need JS; prefer web.fetch for static text."@,
        ops: seq![
            OpSpec {
                op: "navigate"@,
                inner: "browser_navigate"@,
                sig: "{url}"@,
                note: "returns page text"@,
                required: seq!["url"@],
            },
            OpSpec {
                op: "click"@,
                inner: "browser_click"@,
                sig: "{selector}"@,
                note: "CSS selector"@,
                required: seq!["selector"@],
            },
            OpSpec {
                op: "type"@,
                inner: "browser_type"@,
                sig: "{selector, text}"@,
                note: ""@,
                required: seq!["selector"@, "text"@],
            },
            OpSpec {
                op: "eval"@,
                inner: "browser_evaluate"@,
                sig: "{js}"@,
                note: "returns result"@,
                required: seq!["js"@],
            },
            OpSpec {
                op: "screenshot"@,
                inner: "browser_screenshot"@,
                sig: "{full_page?}"@,
                note: "base64 PNG"@,
                required: Seq::empty(),
            },
        ],
        params: seq![
            bare_of("url"@, "string"@),
            bare_of("selector"@, "string"@),
            bare_of("text"@, "string"@),
            bare_of("js"@, "string"@),
            bare_of("full_page"@, "boolean"@),
        ],
    }
}

pub(crate) fn browser() -> (r: Tool)
    ensures
        r@ == browser_tool(),
{
    let mut ops: Vec<Op> = Vec::new();
    ops.push(
        Op {
            op: "navigate",
            inner: "browser_navigate",
            sig: "{url}",
            note: "returns page text",
            required: vec!["url"],
        },
    );
    ops.push(
        Op {
            op: "click",
            inner: "browser_click",
            sig: "{selector}",
            note: "CSS selector",
            required: vec!["selector"],
        },
    );
    ops.push(
        Op {
            op: "type",
            inner: "browser_type",
            sig: "{selector, text}",
            note: "",
            required: vec!["selector", "text"],
        },
    );
    ops.push(
        Op {
            op: "eval",
            inner: "browser_evaluate",
            sig: "{js}",
            note: "returns result",
            required: vec!["js"],
        },
    );
    ops.push(
        Op {
            op: "screenshot",
            inner: "browser_screenshot",
            sig: "{full_page?}",
            note: "base64 PNG",
            required: Vec::new(),
        },
    );
    let params: Vec<Param> = vec![
        bare("url", "string"),
        bare("selector", "string"),
        bare("text", "string"),
        bare("js", "string"),
        bare("full_page", "boolean"),
    ];
    let r = Tool {
        name: "browser",
        hint: "headless browser via CDP. use for web pages that need JS; prefer web.fetch for static text.",
        ops,
        params,
    };
    assert(param_views(r.params@) =~= browser_tool().params);
    assert(op_specs(r.ops@)[0].required =~= browser_tool().ops[0].required);
    assert(op_specs(r.ops@)[1].required =~= browser_tool().ops[1].required);
    assert(op_specs(r.ops@)[2].required =~= browser_tool().ops[2].required);
    assert(op_specs(r.ops@)[3].required =~= browser_tool().ops[3].required);
    assert(op_specs(r.ops@)[4].required =~= browser_tool().ops[4].required);
    assert(r@.ops =~= browser_tool().ops);
    r
}

/// The tool `shell`.
pub open spec fn shell_tool() -> ToolSpec {
    ToolSpec {
        name: "shell"@,
        hint: "persistent named shells. cwd+env survive across calls. default shell='default'."@,
        ops: seq![
            OpSpec {
                op: "exec"@,
                inner: "shell_exec"@,
                sig: "{command, shell?, run_in_background?, timeout_secs?}"@,
                note: "sync timeout 45s default; run_in_background=true for dev servers, read output via op=read"@,
                required: seq!["command"@],
            },
            OpSpec {
                op: "spawn"@,
                inner: "shell_spawn"@,
                sig: "{name}"@,
                note: "new named shell; errors if already exists, kill first"@,
                required: seq!["name"@],
            },
            OpSpec {
                op: "read"@,
                inner: "shell_read"@,
                sig: "{shell?, clear?}"@,
                note: "reads background buffer"@,
                required: Seq::empty(),
            },
            OpSpec {
                op: "kill"@,
                inner: "shell_kill"@,
                sig: "{name}"@,
                note: ""@,
                required: seq!["name"@],
            },
            OpSpec {
                op: "list"@,
                inner: "shell_list"@,
                sig: "{}"@,
                note: ""@,
                required: Seq::empty(),
            },
        ],
        params: seq![
            bare_of("command"@, "string"@),
            bare_of("shell"@, "string"@),
            bare_of("run_in_background"@, "boolean"@),
            bare_of("timeout_secs"@, "integer"@),
            bare_of("name"@, "string"@),
            bare_of("clear"@, "boolean"@),
        ],
    }
}

pub(crate) fn shell() -> (r: Tool)
    ensures
        r@ == shell_tool(),
{
    let mut ops: Vec<Op> = Vec::new();
    ops.push(
        Op {
            op: "exec",
            inner: "shell_exec",
            sig: "{command, shell?, run_in_background?, timeout_secs?}",
            note: "sync timeout 45s default; run_in_background=true for dev servers, read output via op=read",
            required: vec!["command"],
        },
    );
    ops.push(
        Op {
            op: "spawn",
            inner: "shell_spawn",
            sig: "{name}",
            note: "new named shell; errors if already exists, kill first",
            required: vec!["name"],
        },
    );
    ops.push(
        Op {
            op: "read",
            inner: "shell_read",
            sig: "{shell?, clear?}",
            note: "reads background buffer",
            required: Vec::new(),
        },
    );
    ops.push(
        Op {
            op: "kill",
            inner: "shell_kill",
            sig: "{name}",
            note: "",
            required: vec!["name"],
        },
    );
    ops.push(
        Op {
            op: "list",
            inner: "shell_list",
            sig: "{}",
            note: "",
            required: Vec::new(),
        },
    );
    let params: Vec<Param> = vec![
        bare("command", "string"),
        bare("shell", "string"),
        bare("run_in_background", "boolean"),
        bare("timeout_secs", "integer"),
        bare("name", "string"),
        bare("clear", "boolean"),
    ];
    let r = Tool {
        name: "shell",
        hint: "persistent named shells. cwd+env survive across calls. default shell='default'.",
        ops,
        params,
    };
    assert(param_views(r.params@) =~= shell_tool().params);
    assert(op_specs(r.ops@)[0].required =~= shell_tool().ops[0].required);
    assert(op_specs(r.ops@)[1].required =~= shell_tool().ops[1].required);
    assert(op_specs(r.ops@)[2].required =~= shell_tool().ops[2].required);
    assert(op_specs(r.ops@)[3].required =~= shell_tool().ops[3].required);
    assert(op_specs(r.ops@)[4].required =~= shell_tool().ops[4].required);
    assert(r@.ops =~= shell_tool().ops);
    r
}

/// The tool `lsp`.
pub open spec fn lsp_tool() -> ToolSpec {
    ToolSpec {
        name: "lsp"@,
        hint: "read-only code intelligence at a cursor (definition, references, type info). For rename/refactor use semantic instead. 0-based line/character."@,
        ops: seq![
            OpSpec {
                op: "definition"@,
                inner: "lsp_definition"@,
                sig: "{path, line, character}"@,
                note: ""@,
                required: seq!["path"@, "line"@, "character"@],
            },
            OpSpec {
                op: "references"@,
                inner: "lsp_references"@,
                sig: "{path, line, character}"@,
                note: ""@,
                required: seq!["path"@, "line"@, "character"@],
            },
            OpSpec {
                op: "hover"@,
                inner: "lsp_hover"@,
                sig: "{path, line, character}"@,
                note: "type info + docs"@,
                required: seq!["path"@, "line"@, "character"@],
            },
        ],
        params: seq![
            bare_of("path"@, "string"@),
            bare_of("line"@, "integer"@),
            bare_of("character"@, "integer"@),
        ],
    }
}

pub(crate) fn lsp() -> (r: Tool)
    ensures
        r@ == lsp_tool(),
{
    let mut ops: Vec<Op> = Vec::new();
    ops.push(
        Op {
            op: "definition",
            inner: "lsp_definition",
            sig: "{path, line, character}",
            note: "",
            required: vec!["path", "line", "character"],
        },
    );
    ops.push(
        Op {
            op: "references",
            inner: "lsp_references",
            sig: "{path, line, character}",
            note: "",
            required: vec!["path", "line", "character"],
        },
    );
    ops.push(
        Op {
            op: "hover",
            inner: "lsp_hover",
            sig: "{path, line, character}",
            note: "type info + docs",
            required: vec!["path", "line", "character"],
        },
    );
    let params: Vec<Param> = vec![
        bare("path", "string"),
        bare("line", "integer"),
        bare("character", "integer"),
    ];
    let r = Tool {
        name: "lsp",
        hint: "read-only code intelligence at a cursor (definition, references, type info). For rename/refactor use semantic instead. 0-based line/character.",
        ops,
        params,
    };
    assert(param_views(r.params@) =~= lsp_tool().params);
    assert(op_specs(r.ops@)[0].required =~= lsp_tool().ops[0].required);
    assert(op_specs(r.ops@)[1].required =~= lsp_tool().ops[1].required);
    assert(op_specs(r.ops@)[2].required =~= lsp_tool().ops[2].required);
    assert(r@.ops =~= lsp_tool().ops);
    r
}

/// The tool `semantic`.
pub open spec fn semantic_tool() -> ToolSpec {
    ToolSpec {
        name: "semantic"@,
        hint: "structural code edits via LSP (rename, code actions, symbol search). PREFER over fs_write for rename/extract/inline/organize-imports: the server updates references and imports safely. Needs rust-analyzer | typescript-language-server | pylsp on PATH."@,
        ops: seq![
            OpSpec {
                op: "rename"@,
                inner: "semantic_rename"@,
                sig: "{path, line, character, new_name}"@,
                note: "0-based position; applies edit across the whole project"@,
                required: seq!["path"@, "line"@, "character"@, "new_name"@],
            },
            OpSpec {
                op: "code_actions"@,
                inner: "semantic_code_actions"@,
                sig: "{path, line, character}"@,
                note: "lists available refactors/fixes at cursor with ids; apply one via op=apply_action"@,
                required: seq!["path"@, "line"@, "character"@],
            },
            OpSpec {
                op: "apply_action"@,
                inner: "semantic_apply_action"@,
                sig: "{id}"@,
                note: "id from a recent code_actions response, e.g. 'a0'"@,
                required: seq!["id"@],
            },
            OpSpec {
                op: "workspace_symbol"@,
                inner: "semantic_workspace_symbol"@,
                sig: "{query, hint_path?}"@,
                note: "fuzzy symbol search; hint_path picks the language server (default: scan cwd)"@,
                required: seq!["query"@],
            },
        ],
        params: seq![
            bare_of("path"@, "string"@),
            bare_of("line"@, "integer"@),
            bare_of("character"@, "integer"@),
            bare_of("new_name"@, "string"@),
            bare_of("id"@, "string"@),
            bare_of("query"@, "string"@),
            bare_of("hint_path"@, "string"@),
        ],
    }
}

pub(crate) fn semantic() -> (r: Tool)
    ensures
        r@ == semantic_tool(),
{
    let mut ops: Vec<Op> = Vec::new();
    ops.push(
        Op {
            op: "rename",
            inner: "semantic_rename",
            sig: "{path, line, character, new_name}",
            note: "0-based position; applies edit across the whole project",
            required: vec!["path", "line", "character", "new_name"],
        },
    );
    ops.push(
        Op {
            op: "code_actions",
            inner: "semantic_code_actions",
            sig: "{path, line, character}",
            note: "lists available refactors/fixes at cursor with ids; apply one via op=apply_action",
            required: vec!["path", "line", "character"],
        },
    );
    ops.push(
        Op {
            op: "apply_action",
            inner: "semantic_apply_action",
            sig: "{id}",
            note: "id from a recent code_actions response, e.g. 'a0'",
            required: vec!["id"],
        },
    );
    ops.push(
        Op {
            op: "workspace_symbol",
            inner: "semantic_workspace_symbol",
            sig: "{query, hint_path?}",
            note: "fuzzy symbol search; hint_path picks the language server (default: scan cwd)",
            required: vec!["query"],
        },
    );
    let params: Vec<Param> = vec![
        bare("path", "string"),
        bare("line", "integer"),
        bare("character", "integer"),
        bare("new_name", "string"),
        bare("id", "string"),
        bare("query", "string"),
        bare("hint_path", "string"),
    ];
    let r = Tool {
        name: "semantic",
        hint: "structural code edits via LSP (rename, code actions, symbol search). PREFER over fs_write for rename/extract/inline/organize-imports: the server updates references and imports safely. Needs rust-analyzer | typescript-language-server | pylsp on PATH.",
        ops,
        params,
    };
    assert(param_views(r.params@) =~= semantic_tool().params);
    assert(op_specs(r.ops@)[0].required =~= semantic_tool().ops[0].required);
    assert(op_specs(r.ops@)[1].required =~= semantic_tool().ops[1].required);
    assert(op_specs(r.ops@)[2].required =~= semantic_tool().ops[2].required);
    assert(op_specs(r.ops@)[3].required =~= semantic_tool().ops[3].required);
    assert(r@.ops =~= semantic_tool().ops);
    r
}

/// The tool `fs_read`.
pub open spec fn fs_read_tool() -> ToolSpec {
    ToolSpec {
        name: "fs_read"@,
        hint: "read-only file/search. use grep/search_in_file BEFORE read to locate relevant lines."@,
        ops: seq![
            OpSpec {
                op: "read"@,
                inner: "file_read"@,
                sig: "{path, offset?, limit?}"@,
                note: "line-numbered output, limit default 2000"@,
                required: seq!["path"@],
            },
            OpSpec {
                op: "list"@,
                inner: "list_files"@,
                sig: "{path?, recursive?, pattern?}"@,
                note: "recursive depth 3"@,
                required: Seq::empty(),
            },
            OpSpec {
                op: "cwd"@,
                inner: "get_cwd"@,
                sig: "{}"@,
                note: ""@,
                required: Seq::empty(),
            },
            OpSpec {
                op: "chdir"@,
                inner: "change_dir"@,
                sig: "{path}"@,
                note: ""@,
                required: seq!["path"@],
            },
            OpSpec {
                op: "glob"@,
                inner: "glob"@,
                sig: "{pattern, path?}"@,
                note: "e.g. 'src/**/*.rs'"@,
                required: seq!["pattern"@],
            },
            OpSpec {
                op: "grep"@,
                inner: "grep"@,
                sig: "{pattern, path?, glob?, output?, case_insensitive?, max_results?}"@,
                note: "output: files|content|count (default files)"@,
                required: seq!["pattern"@],
            },
            OpSpec {
                op: "outline"@,
                inner: "outline_file"@,
                sig: "{path}"@,
                note: "symbols+line numbers; rs|js|ts|py|go"@,
                required: seq!["path"@],
            },
            OpSpec {
                op: "search_in_file"@,
                inner: "search_in_file"@,
                sig: "{path, pattern, context?, case_insensitive?}"@,
                note: "use when you already know the file"@,
                required: seq!["path"@, "pattern"@],
            },
        ],
        params: seq![
            bare_of("path"@, "string"@),
            bare_of("offset"@, "integer"@),
            bare_of("limit"@, "integer"@),
            bare_of("recursive"@, "boolean"@),
            bare_of("pattern"@, "string"@),
            bare_of("glob"@, "string"@),
            one_of_these("output"@, seq!["files"@, "content"@, "count"@], ""@),
            bare_of("case_insensitive"@, "boolean"@),
            bare_of("max_results"@, "integer"@),
            bare_of("context"@, "integer"@),
        ],
    }
}

pub(crate) fn fs_read() -> (r: Tool)
    ensures
        r@ == fs_read_tool(),
{
    let mut ops: Vec<Op> = Vec::new();
    ops.push(
        Op {
            op: "read",
            inner: "file_read",
            sig: "{path, offset?, limit?}",
            note: "line-numbered output, limit default 2000",
            required: vec!["path"],
        },
    );
    ops.push(
        Op {
            op: "list",
            inner: "list_files",
            sig: "{path?, recursive?, pattern?}",
            note: "recursive depth 3",
            required: Vec::new(),
        },
    );
    ops.push(
        Op {
            op: "cwd",
            inner: "get_cwd",
            sig: "{}",
            note: "",
            required: Vec::new(),
        },
    );
    ops.push(
        Op {
            op: "chdir",
            inner: "change_dir",
            sig: "{path}",
            note: "",
            required: vec!["path"],
        },
    );
    ops.push(
        Op {
            op: "glob",
            inner: "glob",
            sig: "{pattern, path?}",
            note: "e.g. 'src/**/*.rs'",
            required: vec!["pattern"],
        },
    );
    ops.push(
        Op {
            op: "grep",
            inner: "grep",
            sig: "{pattern, path?, glob?, output?, case_insensitive?, max_results?}",
            note: "output: files|content|count (default files)",
            required: vec!["pattern"],
        },
    );
    ops.push(
        Op {
            op: "outline",
            inner: "outline_file",
            sig: "{path}",
            note: "symbols+line numbers; rs|js|ts|py|go",
            required: vec!["path"],
        },
    );
    ops.push(
        Op {
            op: "search_in_file",
            inner: "search_in_file",
            sig: "{path, pattern, context?, case_insensitive?}",
            note: "use when you already know the file",
            required: vec!["path", "pattern"],
        },
    );
    let params: Vec<Param> = vec![
        bare("path", "string"),
        bare("offset", "integer"),
        bare("limit", "integer"),
        bare("recursive", "boolean"),
        bare("pattern", "string"),
        bare("glob", "string"),
        one_of("output", vec!["files", "content", "count"], ""),
        bare("case_insensitive", "boolean"),
        bare("max_results", "integer"),
        bare("context", "integer"),
    ];
    assert(params@[6]@.kind =~= KindV::OneOf(seq!["files"@, "content"@, "count"@]));
    let r = Tool {
        name: "fs_read",
        hint: "read-only file/search. use grep/search_in_file BEFORE read to locate relevant lines.",
        ops,
        params,
    };
    assert(param_views(r.params@) =~= fs_read_tool().params);
    assert(op_specs(r.ops@)[0].required =~= fs_read_tool().ops[0].required);
    assert(op_specs(r.ops@)[1].required =~= fs_read_tool().ops[1].required);
    assert(op_specs(r.ops@)[2].required =~= fs_read_tool().ops[2].required);
    assert(op_specs(r.ops@)[3].required =~= fs_read_tool().ops[3].required);
    assert(op_specs(r.ops@)[4].required =~= fs_read_tool().ops[4].required);
    assert(op_specs(r.ops@)[5].required =~= fs_read_tool().ops[5].required);
    assert(op_specs(r.ops@)[6].required =~= fs_read_tool().ops[6].required);
    assert(op_specs(r.ops@)[7].required =~= fs_read_tool().ops[7].required);
    assert(r@.ops =~= fs_read_tool().ops);
    r
}

/// The tool `fs_write`.
pub open spec fn fs_write_tool() -> ToolSpec {
    ToolSpec {
        name: "fs_write"@,
        hint: "mutating file ops. for rename/extract/refactor prefer semantic (it updates references). op=diff and op=undo work because write/edit/patch snapshot first."@,
        ops: seq![
            OpSpec {
                op: "write"@,
                inner: "file_write"@,
                sig: "{path, content}"@,
                note: "create or overwrite"@,
                required: seq!["path"@, "content"@],
            },
            OpSpec {
                op: "edit"@,
                inner: "code_edit"@,
                sig: "{path, action, search?, replace?, line?, content?}"@,
                note: "action: search_replace | insert_at_line | append"@,
                required: seq!["path"@, "action"@],
            },
            OpSpec {
                op: "patch"@,
                inner: "apply_patch"@,
                sig: "{path, patch}"@,
                note: "unified diff (@@-hunk format)"@,
                required: seq!["path"@, "patch"@],
            },
            OpSpec {
                op: "diff"@,
                inner: "file_diff"@,
                sig: "{path}"@,
                note: "vs first read/edit this conversation"@,
                required: seq!["path"@],
            },
            OpSpec {
                op: "undo"@,
                inner: "file_undo"@,
                sig: "{path}"@,
                note: "restore to first snapshot"@,
                required: seq!["path"@],
            },
        ],
        params: seq![
            bare_of("path"@, "string"@),
            bare_of("content"@, "string"@),
            one_of_these("action"@, seq!["search_replace"@, "insert_at_line"@, "append"@], ""@),
            bare_of("search"@, "string"@),
            bare_of("replace"@, "string"@),
            bare_of("line"@, "integer"@),
            bare_of("patch"@, "string"@),
        ],
    }
}

pub(crate) fn fs_write() -> (r: Tool)
    ensures
        r@ == fs_write_tool(),
{
    let mut ops: Vec<Op> = Vec::new();
    ops.push(
        Op {
            op: "write",
            inner: "file_write",
            sig: "{path, content}",
            note: "create or overwrite",
            required: vec!["path", "content"],
        },
    );
    ops.push(
        Op {
            op: "edit",
            inner: "code_edit",
            sig: "{path, action, search?, replace?, line?, content?}",
            note: "action: search_replace | insert_at_line | append",
            required: vec!["path", "action"],
        },
    );
    ops.push(
        Op {
            op: "patch",
            inner: "apply_patch",
            sig: "{path, patch}",
            note: "unified diff (@@-hunk format)",
            required: vec!["path", "patch"],
        },
    );
    ops.push(
        Op {
            op: "diff",
            inner: "file_diff",
            sig: "{path}",
            note: "vs first read/edit this conversation",
            required: vec!["path"],
        },
    );
    ops.push(
        Op {
            op: "undo",
            inner: "file_undo",
            sig: "{path}",
            note: "restore to first snapshot",
            required: vec!["path"],
        },
    );
    let params: Vec<Param> = vec![
        bare("path", "string"),
        bare("content", "string"),
        one_of("action", vec!["search_replace", "insert_at_line", "append"], ""),
        bare("search", "string"),
        bare("replace", "string"),
        bare("line", "integer"),
        bare("patch", "string"),
    ];
    assert(params@[2]@.kind =~= KindV::OneOf(seq!["search_replace"@, "insert_at_line"@, "append"@]));
    let r = Tool {
        name: "fs_write",
        hint: "mutating file ops. for rename/extract/refactor prefer semantic (it updates references). op=diff and op=undo work because write/edit/patch snapshot first.",
        ops,
        params,
    };
    assert(param_views(r.params@) =~= fs_write_tool().params);
    assert(op_specs(r.ops@)[0].required =~= fs_write_tool().ops[0].required);
    assert(op_specs(r.ops@)[1].required =~= fs_write_tool().ops[1].required);
    assert(op_specs(r.ops@)[2].required =~= fs_write_tool().ops[2].required);
    assert(op_specs(r.ops@)[3].required =~= fs_write_tool().ops[3].required);
    assert(op_specs(r.ops@)[4].required =~= fs_write_tool().ops[4].required);
    assert(r@.ops =~= fs_write_tool().ops);
    r
}

/// The tool `web`.
pub open spec fn web_tool() -> ToolSpec {
    ToolSpec {
        name: "web"@,
        hint: "internet access. search for discovery, fetch for a known URL. for JS-rendered pages use browser.navigate instead."@,
        ops: seq![
            OpSpec {
                op: "search"@,
                inner: "web_search"@,
                sig: "{query}"@,
                note: "DuckDuckGo; returns title/url/snippet"@,
                required: seq!["query"@],
            },
            OpSpec {
                op: "fetch"@,
                inner: "fetch_url"@,
                sig: "{url}"@,
                note: "extract text from a URL"@,
                required: seq!["url"@],
            },
        ],
        params: seq![
            bare_of("query"@, "string"@),
            bare_of("url"@, "string"@),
        ],
    }
}

pub(crate) fn web() -> (r: Tool)
    ensures
        r@ == web_tool(),
{
    let mut ops: Vec<Op> = Vec::new();
    ops.push(
        Op {
            op: "search",
            inner: "web_search",
            sig: "{query}",
            note: "DuckDuckGo; returns title/url/snippet",
            required: vec!["query"],
        },
    );
    ops.push(
        Op {
            op: "fetch",
            inner: "fetch_url",
            sig: "{url}",
            note: "extract text from a URL",
            required: vec!["url"],
        },
    );
    let params: Vec<Param> = vec![
        bare("query", "string"),
        bare("url", "string"),
    ];
    let r = Tool {
        name: "web",
        hint: "internet access. search for discovery, fetch for a known URL. for JS-rendered pages use browser.navigate instead.",
        ops,
        params,
    };
    assert(param_views(r.params@) =~= web_tool().params);
    assert(op_specs(r.ops@)[0].required =~= web_tool().ops[0].required);
    assert(op_specs(r.ops@)[1].required =~= web_tool().ops[1].required);
    assert(r@.ops =~= web_tool().ops);
    r
}
/// All tools, in the order in which they are offered.
pub open spec fn all_tools() -> Seq<ToolSpec> {
    seq![
        memory_tool(),
        schedule_tool(),
        git_tool(),
        ui_tool(),
        browser_tool(),
        shell_tool(),
        lsp_tool(),
        semantic_tool(),
        fs_read_tool(),
        fs_write_tool(),
        web_tool(),
    ]
}

/// All tools.
pub fn all() -> (r: Vec<Tool>)
    ensures
        tool_specs(r@) == all_tools(),
{
    let mut r: Vec<Tool> = Vec::new();
    r.push(memory());
    r.push(schedule());
    r.push(git());
    r.push(ui());
    r.push(browser());
    r.push(shell());
    r.push(lsp());
    r.push(semantic());
    r.push(fs_read());
    r.push(fs_write());
    r.push(web());
    assert(tool_specs(r@) =~= all_tools());
    r
}

} // verus!
