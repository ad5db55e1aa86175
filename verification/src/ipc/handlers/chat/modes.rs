//! Answering a chat: in a plain chat, as a coding agent, in a mode without
//! rules of its own, and as a team that works with tools.

use crate::ipc::handlers::chat::stream::{
    self, assembles, out_views, reply_text, OutV, Reply, StreamOut,
};
use crate::ipc::handlers::chat::team_tools::{tool, tool_of};
use crate::ipc::protocol::{token_usage, IPCResponse, PendingEditDiff, TokenUsage, ToolCallResult};
use crate::json::{Json, JsonV};
use crate::llm::client::last_user;
use crate::llm::schema::{bare, bare_of, param_views, Param, ParamV};
use crate::llm::types::{
    call_views, copy_calls, copy_messages, message_views, message_views_push, text_view, tool_views,
    tool_views_push, ChatCompletionResponse, Message, MessageV, ToolCallDefinition, ToolCallV,
    ToolDefinition, ToolV,
};
use crate::outside;
use crate::text;
use vstd::prelude::*;

verus! {

pub const CHAT_SYSTEM: &'static str =
    "You are Rook - a helpful assistant with long-term memory.\n\nYou have two memory tools you can call alongside your reply:\n• store_memory - save important context, decisions, or project details for future retrieval\n• store_user_fact - save/update a fact about the user (name, preferences, tools, etc.) in their global profile\n\nGuidelines:\n• When the user shares personal info (name, preferences, etc.), store it with store_user_fact.\n• When important decisions, project context, or useful knowledge comes up, store it with store_memory.\n• You may call memory tools AND provide a text reply in the same response.\n• Keep replies concise and rely on memory context when available.\n• Do NOT mention that you are storing things unless the user asks.";

pub const CODER_SYSTEM: &'static str =
    "You are a coding agent. Prefer detailed code suggestions, include reasoning, and provide runnable snippets when appropriate. If you want to make a change to the codebase, return a tool call using the provided code_edit or terminal tool definitions.";

pub const TEAM_SYSTEM: &'static str =
    "You are Rook - an autonomous software engineer agent.\n\nFILES & NAV:  file_read, file_write, code_edit, file_diff, file_undo, list_files, change_dir, get_cwd\nSEARCH:       glob, grep, search_in_file, outline_file\nSHELLS:       shell_spawn, shell_exec, shell_read, shell_kill, shell_list, terminal_execute\nGIT/WEB:      git_status, git_diff, git_log, git_branch, web_search, fetch_url\nBROWSER:      browser_navigate, browser_click, browser_type, browser_evaluate, browser_screenshot\nMEMORY:       store_memory, store_user_fact\nTASKS:        todo_write (ONLY for complex 3+ step work)\n\nACT IMMEDIATELY. Use tools without narrating every step.\n\n• Single-step tasks: just do them, no todo list.\n• Complex multi-step (3+ distinct steps): one `todo_write` plan, then execute.\n• Navigation order: `glob` → `grep` → `outline_file` → `file_read` for specific lines.\n• Shells: the default shell persists cwd across calls. Need a second one for a dev server? `shell_spawn` name=\"server\", then `shell_exec` shell=\"server\" run_in_background=true.\n• For long commands (>30s), use `run_in_background: true` and poll with `shell_read`.\n• Before editing a file, use `file_read` first so `file_undo` and `file_diff` work.\n• Call multiple independent tools in ONE response - they'll run in parallel.\n• Finish with plain text (no trailing tool calls).";

// ---------------------------------------------------------------------------
// What all modes share
// ---------------------------------------------------------------------------

/// The messages with one of the system in front of them.
pub open spec fn with_system(messages: Seq<MessageV>, content: Seq<char>) -> Seq<MessageV> {
    seq![MessageV::plain("system"@, content)] + messages
}

/// Puts a message of the system in front of the others.
pub fn put_system(messages: &mut Vec<Message>, content: String)
    ensures
        message_views(final(messages)@) == with_system(message_views(old(messages)@), content@),
{
    messages.insert(0, Message::text("system", content));
    assert(message_views(messages@) =~= with_system(message_views(old(messages)@), content@));
}

/// What the user said last, or nothing: what facts are later drawn from.
pub fn said_last(messages: &Vec<Message>) -> (r: String)
    ensures
        r@ == (match last_user(message_views(messages@)) {
            Some(c) => c,
            None => Seq::empty(),
        }),
{
    let ghost all = message_views(messages@);
    let mut i: usize = messages.len();
    assert(all.take(i as int) =~= all);
    while i > 0
        invariant
            i <= messages@.len(),
            all == message_views(messages@),
            last_user(all) == last_user(all.take(i as int)),
        decreases i,
    {
        i = i - 1;
        assert(all.take(i + 1).drop_last() =~= all.take(i as int));
        assert(all.take(i + 1).last() == messages@[i as int]@);
        if text::same(&messages[i].role, "user") {
            return messages[i].content.clone();
        }
    }
    String::new()
}

/// A reply with the warnings on the message above it.
pub open spec fn with_warnings(content: Seq<char>, warnings: Seq<Seq<char>>) -> Seq<char> {
    if warnings.len() == 0 {
        content
    } else {
        "[context guard] "@ + text::join(warnings, " "@) + "\n\n"@ + content
    }
}

/// A reply with the warnings on the message above it, unless it is empty.
pub open spec fn guarded(content: Seq<char>, warnings: Seq<Seq<char>>) -> Seq<char> {
    if content.len() == 0 {
        content
    } else {
        with_warnings(content, warnings)
    }
}

/// Puts the warnings on the message above a reply.
pub fn add_warnings(content: String, warnings: &Vec<String>) -> (r: String)
    ensures
        r@ == with_warnings(content@, text::views(warnings@)),
{
    assert(text::views(warnings@).len() == warnings@.len());
    if warnings.len() == 0 {
        return content;
    }
    let mut out = "[context guard] ".to_owned();
    out.append(&text::joined(warnings, " "));
    out.append("\n\n");
    out.append(&content);
    out
}

/// Puts the warnings on the message above a reply, unless it is empty.
pub fn guard_reply(content: String, warnings: &Vec<String>) -> (r: String)
    ensures
        r@ == guarded(content@, text::views(warnings@)),
{
    if content.as_str().is_empty() {
        content
    } else {
        add_warnings(content, warnings)
    }
}

/// What is sent of a reply that was not streamed: its words, one by one.
pub open spec fn replayed(content: Seq<char>) -> Seq<OutV> {
    text::cuts(content).map_values(|w: Seq<char>| OutV::Token(w))
}

/// What is sent of a reply that was not streamed: its words, one by one.
pub fn replay(content: &str) -> (r: Vec<StreamOut>)
    ensures
        out_views(r@) == replayed(content@),
{
    let words = text::cut_behind_space(content);
    let ghost want = replayed(content@);
    let mut out: Vec<StreamOut> = Vec::new();
    for i in 0..words.len()
        invariant
            text::views(words@) == text::cuts(content@),
            want == replayed(content@),
            out_views(out@) == want.take(i as int),
    {
        let ghost before = out@;
        let o = StreamOut::Token(words[i].clone());
        assert(text::views(words@)[i as int] == words@[i as int]@);
        assert(want[i as int] == o@);
        out.push(o);
        assert(out_views(out@) =~= out_views(before).push(o@));
        assert(want.take(i + 1) =~= want.take(i as int).push(o@));
    }
    assert(want.take(want.len() as int) =~= want);
    out
}

/// A reply that is sent word by word comes out whole.
pub proof fn replay_is_whole(content: Seq<char>)
    ensures
        stream::tokens(replayed(content)) == content,
    decreases content.len(),
{
    reveal_with_fuel(stream::tokens, 2);
    let n = text::word_len(content) as int;
    text::word_len_bounds(content);
    let outs = replayed(content);
    if content.len() == 0 {
        assert(outs =~= Seq::empty());
        assert(stream::tokens(outs) =~= content);
    } else if n >= content.len() {
        assert(outs =~= seq![OutV::Token(content)]);
        assert(outs.drop_last() =~= Seq::empty());
        assert(stream::tokens(outs) =~= content);
    } else {
        let first = OutV::Token(content.take(n + 1));
        let rest = content.skip(n + 1);
        replay_is_whole(rest);
        assert(outs =~= seq![first] + replayed(rest));
        stream::sums(seq![first], replayed(rest));
        assert(seq![first].drop_last() =~= Seq::<OutV>::empty());
        assert(stream::tokens(seq![first]) =~= content.take(n + 1));
        assert(stream::tokens(outs) =~= content);
    }
}

/// The end of a streamed chat.
pub open spec fn is_done(
    r: IPCResponse,
    id: Seq<char>,
    conv_id: Seq<char>,
    usage: Option<TokenUsage>,
) -> bool {
    r matches IPCResponse::ChatDone { id: i, conversation_id: c, usage: u } && i@ == id && c@
        == conv_id && u == usage
}

/// The end of a streamed chat.
pub fn chat_done(id: &str, conv_id: &str, usage: Option<TokenUsage>) -> (r: IPCResponse)
    ensures
        is_done(r, id@, conv_id@, usage),
{
    IPCResponse::ChatDone { id: id.to_owned(), conversation_id: conv_id.to_owned(), usage }
}

/// What a cancelled chat is answered: that it was cancelled, and then its end
/// without a usage.
pub fn cancelled(id: &str, conv_id: &str) -> (r: (IPCResponse, IPCResponse))
    ensures
        r.0 matches IPCResponse::Cancelled { id: i, target_id: t } && i@ == id@ && t@ == id@,
        is_done(r.1, id@, conv_id@, None),
{
    (
        IPCResponse::Cancelled { id: id.to_owned(), target_id: id.to_owned() },
        chat_done(id, conv_id, None),
    )
}

// ---------------------------------------------------------------------------
// Chat
// ---------------------------------------------------------------------------

/// The messages of a plain chat.
pub fn chat_messages(messages: Vec<Message>) -> (r: Vec<Message>)
    ensures
        message_views(r@) == with_system(message_views(messages@), CHAT_SYSTEM@),
{
    let mut m = messages;
    put_system(&mut m, CHAT_SYSTEM.to_owned());
    m
}

/// How a plain chat ends: what is kept of the reply, and the last message.
#[derive(Debug)]
pub struct ChatEnd {
    /// What is still to be sent before the last message.
    pub outs: Vec<StreamOut>,
    /// The reply as it is kept.
    pub content: String,
    /// Whether facts are drawn from the reply.
    pub distill: bool,
    pub last: IPCResponse,
}

/// Ends a plain chat whose reply was streamed, or came as a whole where the
/// stream brought none; a whole one is sent word by word.
pub fn finish_chat(
    id: &str,
    conv_id: &str,
    reply: Reply,
    whole: Option<&ChatCompletionResponse>,
    warnings: &Vec<String>,
) -> (r: ChatEnd)
    ensures
        ({
            let content = match whole {
                Some(w) => stream::whole_text(*w),
                None => reply@.content,
            };
            let usage = match whole {
                Some(w) => match w.usage {
                    Some(u) => Some(TokenUsage::of(u)),
                    None => reply@.usage,
                },
                None => reply@.usage,
            };
            &&& out_views(r.outs@) == (if whole is Some {
                replayed(content)
            } else {
                Seq::empty()
            })
            &&& r.content@ == guarded(content, text::views(warnings@))
            &&& r.distill == (content.len() > 0)
            &&& is_done(r.last, id@, conv_id@, usage)
        }),
{
    let mut reply = reply;
    let mut outs: Vec<StreamOut> = Vec::new();
    if let Some(w) = whole {
        reply.take_whole(w);
        outs = replay(&reply.content);
    }
    assert(whole is None ==> out_views(outs@) =~= Seq::empty());
    let distill = !reply.content.as_str().is_empty();
    let usage = reply.usage;
    let content = guard_reply(reply.content, warnings);
    ChatEnd { outs, content, distill, last: chat_done(id, conv_id, usage) }
}

// ---------------------------------------------------------------------------
// Coder
// ---------------------------------------------------------------------------

/// The lines for the first `n` files.
pub open spec fn file_lines(files: Seq<Seq<char>>, n: nat) -> Seq<char>
    decreases n,
{
    if n == 0 {
        Seq::empty()
    } else {
        file_lines(files, (n - 1) as nat) + ("- "@ + files[n - 1] + "\n"@)
    }
}

pub const FILES_HEADER: &'static str = "\n\nRelevant code files:\n";

/// The messages of a coding agent: its rules in front, and at the end at most
/// six files that may matter.
pub open spec fn coder_prompt(messages: Seq<MessageV>, files: Seq<Seq<char>>) -> Seq<MessageV> {
    let ruled = with_system(messages, CODER_SYSTEM@);
    if files.len() == 0 {
        ruled
    } else {
        ruled.push(
            MessageV::plain(
                "system"@,
                FILES_HEADER@ + file_lines(
                    files,
                    if files.len() < 6 {
                        files.len()
                    } else {
                        6
                    },
                ),
            ),
        )
    }
}

/// The messages of a coding agent.
pub fn coder_messages(messages: Vec<Message>, files: &Vec<String>) -> (r: Vec<Message>)
    ensures
        message_views(r@) == coder_prompt(message_views(messages@), text::views(files@)),
{
    broadcast use message_views_push;

    let mut m = messages;
    put_system(&mut m, CODER_SYSTEM.to_owned());
    assert(text::views(files@).len() == files@.len());
    if files.len() > 0 {
        let n: usize = if files.len() < 6 {
            files.len()
        } else {
            6
        };
        let mut t = FILES_HEADER.to_owned();
        for i in 0..n
            invariant
                n <= files@.len(),
                t@ == FILES_HEADER@ + file_lines(text::views(files@), i as nat),
        {
            let ghost before = t@;
            assert(text::views(files@)[i as int] == files@[i as int]@);
            t.append("- ");
            t.append(&files[i]);
            t.append("\n");
            assert(t@ =~= before + ("- "@ + files@[i as int]@ + "\n"@));
            assert(t@ =~= FILES_HEADER@ + file_lines(text::views(files@), (i + 1) as nat));
        }
        m.push(Message::text("system", t));
    }
    m
}

pub const CODE_EDIT: &'static str =
    "Edit or modify a file in the workspace. Supported actions: append, insert_at_line, search_replace.";

pub const TERMINAL: &'static str =
    "Execute a shell command in the project's workspace. Returns stdout/stderr.";

/// What `code_edit` takes.
pub open spec fn code_edit_params() -> Seq<ParamV> {
    seq![
        bare_of("action"@, "string"@),
        bare_of("content"@, "string"@),
        bare_of("line"@, "integer"@),
        bare_of("path"@, "string"@),
        bare_of("replace"@, "string"@),
        bare_of("search"@, "string"@),
    ]
}

/// The tools of a coding agent.
pub open spec fn coding_tools() -> Seq<ToolV> {
    seq![
        tool_of("code_edit"@, CODE_EDIT@, code_edit_params(), seq!["action"@, "path"@]),
        tool_of(
            "terminal_execute"@,
            TERMINAL@,
            seq![bare_of("command"@, "string"@)],
            seq!["command"@],
        ),
    ]
}

/// The tools of a coding agent.
pub fn coder_tools() -> (r: Vec<ToolDefinition>)
    ensures
        tool_views(r@) == coding_tools(),
{
    let edits: Vec<Param> = vec![
        bare("action", "string"),
        bare("content", "string"),
        bare("line", "integer"),
        bare("path", "string"),
        bare("replace", "string"),
        bare("search", "string"),
    ];
    let in_edits: Vec<&'static str> = vec!["action", "path"];
    let commands: Vec<Param> = vec![bare("command", "string")];
    let in_commands: Vec<&'static str> = vec!["command"];
    assert(param_views(edits@) =~= code_edit_params());
    assert(text::slice_views(in_edits@) =~= seq!["action"@, "path"@]);
    assert(param_views(commands@) =~= seq![bare_of("command"@, "string"@)]);
    assert(text::slice_views(in_commands@) =~= seq!["command"@]);
    let mut r: Vec<ToolDefinition> = Vec::new();
    r.push(tool("code_edit", CODE_EDIT, &edits, &in_edits));
    r.push(tool("terminal_execute", TERMINAL, &commands, &in_commands));
    assert(tool_views(r@) =~= coding_tools());
    r
}

/// A text of the arguments of a call, or nothing.
pub open spec fn arg(args: JsonV, key: Seq<char>) -> Seq<char> {
    match args.text_at(key) {
        Some(t) => t,
        None => Seq::empty(),
    }
}

/// A text of the arguments of a call, or nothing.
pub fn arg_text(args: &Json, key: &str) -> (r: String)
    ensures
        r@ == arg(args@, key@),
{
    match args.text_at(key) {
        Some(t) => t,
        None => String::new(),
    }
}

/// What a file would hold after an edit that is proposed: the first place of a
/// text replaced, a text added at the end, or no change.
pub open spec fn simulates(original: Seq<char>, args: JsonV, r: Seq<char>) -> bool {
    let action = arg(args, "action"@);
    if action == "search_replace"@ {
        text::is_replaced_once(original, arg(args, "search"@), arg(args, "replace"@), r)
    } else if action == "append"@ {
        r == text::strip_end(original, '\n') + "\n"@ + arg(args, "content"@)
    } else {
        r == original
    }
}

/// What a file would hold after an edit that is proposed.
pub fn simulate_edit(original: &str, args: &Json) -> (r: String)
    ensures
        simulates(original@, args@, r@),
{
    let action = arg_text(args, "action");
    if text::same(&action, "search_replace") {
        text::replaced_once(original, &arg_text(args, "search"), &arg_text(args, "replace"))
    } else if text::same(&action, "append") {
        let mut out = text::stripped_end(original, '\n');
        out.append("\n");
        out.append(&arg_text(args, "content"));
        out
    } else {
        original.to_owned()
    }
}

/// A call that is proposed, with what it would do: the given diff for an edit,
/// the command for any other.
pub fn pending_edit(name: &str, args: Json, edit_diff: &str) -> (r: PendingEditDiff)
    ensures
        r.tool_name@ == name@,
        r.path@ == arg(args@, "path"@),
        r.args == args,
        r.diff@ == (if name@ == "code_edit"@ {
            edit_diff@
        } else {
            match args@.text_at("command"@) {
                Some(c) => "$ "@ + c,
                None => Seq::empty(),
            }
        }),
{
    let path = arg_text(&args, "path");
    let diff = if text::same(name, "code_edit") {
        edit_diff.to_owned()
    } else {
        match args.text_at("command") {
            Some(c) => {
                let mut d = "$ ".to_owned();
                d.append(&c);
                d
            },
            None => String::new(),
        }
    };
    PendingEditDiff { tool_name: name.to_owned(), path, diff, args }
}

/// How a coding agent's turn ends.
#[derive(Debug)]
pub struct CoderEnd {
    /// The reply as it is kept.
    pub content: String,
    /// Whether facts are drawn from the reply.
    pub distill: bool,
    /// Whether the proposed calls wait for approval.
    pub pending: bool,
    pub last: IPCResponse,
}

/// Ends the turn of a coding agent: calls that it proposes wait for approval,
/// and without any the reply is the answer.
pub fn finish_coder(
    id: &str,
    conv_id: &str,
    response: &ChatCompletionResponse,
    diffs: Option<Vec<PendingEditDiff>>,
    context_packet: Option<Json>,
    warnings: &Vec<String>,
) -> (r: CoderEnd)
    ensures
        ({
            let content = with_warnings(
                stream::whole_text(*response),
                text::views(warnings@),
            );
            &&& r.content@ == content
            &&& r.pending == (diffs is Some)
            &&& r.distill == (diffs is None && content.len() > 0)
            &&& match diffs {
                Some(d) => r.last matches IPCResponse::PendingToolApproval {
                    id: i,
                    conversation_id: c,
                    diffs: e,
                } && i@ == id@ && c@ == conv_id@ && e == d,
                None => r.last matches IPCResponse::Chat {
                    id: i,
                    conversation_id: c,
                    content: t,
                    tool_calls,
                    context_packet: p,
                    usage,
                } && i@ == id@ && c@ == conv_id@ && t@ == content && tool_calls is None && p
                    == context_packet && usage == TokenUsage::of_optional(response.usage),
            }
        }),
{
    let content = add_warnings(reply_text(response), warnings);
    match diffs {
        Some(d) => CoderEnd {
            content,
            distill: false,
            pending: true,
            last: IPCResponse::PendingToolApproval {
                id: id.to_owned(),
                conversation_id: conv_id.to_owned(),
                diffs: d,
            },
        },
        None => CoderEnd {
            distill: !content.as_str().is_empty(),
            pending: false,
            last: IPCResponse::Chat {
                id: id.to_owned(),
                conversation_id: conv_id.to_owned(),
                content: content.clone(),
                tool_calls: None,
                context_packet,
                usage: token_usage(response.usage),
            },
            content,
        },
    }
}

// ---------------------------------------------------------------------------
// Other modes
// ---------------------------------------------------------------------------

/// The messages of a mode without rules of its own.
pub fn other_messages(messages: Vec<Message>, mode_name: &str) -> (r: Vec<Message>)
    ensures
        message_views(r@) == with_system(message_views(messages@), "Agent mode: "@ + mode_name@),
{
    let mut m = messages;
    let mut t = "Agent mode: ".to_owned();
    t.append(mode_name);
    put_system(&mut m, t);
    m
}

/// Ends a streamed reply in such a mode: what is kept of it, and the last
/// message, which carries no usage.
pub fn finish_other_stream(
    id: &str,
    conv_id: &str,
    reply: Reply,
    whole: Option<&ChatCompletionResponse>,
    warnings: &Vec<String>,
) -> (r: (String, IPCResponse))
    ensures
        r.0@ == guarded(
            match whole {
                Some(w) => stream::whole_text(*w),
                None => reply@.content,
            },
            text::views(warnings@),
        ),
        is_done(r.1, id@, conv_id@, None),
{
    let content = match whole {
        Some(w) => reply_text(w),
        None => reply.content,
    };
    (guard_reply(content, warnings), chat_done(id, conv_id, None))
}

/// Ends a whole reply in such a mode. Its tool calls, whose arguments were
/// read, are reported without a result.
pub fn finish_other_whole(
    id: &str,
    conv_id: &str,
    response: &ChatCompletionResponse,
    tool_calls: Option<Vec<ToolCallResult>>,
    context_packet: Option<Json>,
    warnings: &Vec<String>,
) -> (r: (String, IPCResponse))
    ensures
        r.0@ == with_warnings(stream::whole_text(*response), text::views(warnings@)),
        r.1 matches IPCResponse::Chat {
            id: i,
            conversation_id: c,
            content,
            tool_calls: t,
            context_packet: p,
            usage,
        } && i@ == id@ && c@ == conv_id@ && content@ == r.0@ && t == tool_calls && p
            == context_packet && usage == TokenUsage::of_optional(response.usage),
{
    let content = add_warnings(reply_text(response), warnings);
    let kept = content.clone();
    (
        kept,
        IPCResponse::Chat {
            id: id.to_owned(),
            conversation_id: conv_id.to_owned(),
            content,
            tool_calls,
            context_packet,
            usage: token_usage(response.usage),
        },
    )
}

/// A tool call as a whole reply reports it.
pub fn reported_call(call: &ToolCallDefinition, args: Option<Json>) -> (r: ToolCallResult)
    ensures
        r.name@ == call.function.name@,
        r.args == (match args {
            Some(a) => a,
            None => Json::Null,
        }),
        r.result@ == Seq::<char>::empty(),
{
    ToolCallResult {
        name: call.function.name.clone(),
        args: match args {
            Some(a) => a,
            None => Json::Null,
        },
        result: String::new(),
    }
}

// ---------------------------------------------------------------------------
// Team
// ---------------------------------------------------------------------------

/// How long one call of a tool may take, in seconds.
pub const TOOL_SECS: u64 = 120;

/// How often a team may call the model.
pub const MAX_ITERATIONS: usize = 25;

/// The longest result of a tool that is passed on whole, in bytes.
pub const MAX_RESULT: usize = 12_000;

pub const CONTEXT_HEADER: &'static str = "## Relevant prior context (from memory graph)\n\n";

pub const CONTEXT_FOOTER: &'static str = "\nUse this context but verify before relying on it.\n";

/// The lines for something that is known, at a place of the context.
pub open spec fn node_lines(i: int, node: JsonV) -> Seq<char> {
    let title = match node.text_at("title"@) {
        Some(t) => t,
        None => "(untitled)"@,
    };
    let summary = arg(node, "summary"@);
    let first = text::decimal((i + 1) as nat) + ". ["@ + arg(node, "node_type"@) + "] "@ + title
        + "\n"@;
    if summary.len() == 0 {
        first
    } else {
        first + "   "@ + text::head(summary, 200) + "\n"@
    }
}

/// The lines for the first `n` things that are known.
pub open spec fn context_lines(nodes: Seq<JsonV>, n: nat) -> Seq<char>
    decreases n,
{
    if n == 0 {
        Seq::empty()
    } else {
        context_lines(nodes, (n - 1) as nat) + node_lines(n - 1, nodes[n - 1])
    }
}

/// What is known, as a team is told it; at most eight things.
pub open spec fn known_context(packet: Option<JsonV>) -> Option<Seq<char>> {
    match packet {
        Some(p) => match p.get("memory"@) {
            Some(JsonV::List(nodes)) => if nodes.len() == 0 {
                None
            } else {
                Some(
                    CONTEXT_HEADER@ + context_lines(
                        nodes,
                        if nodes.len() < 8 {
                            nodes.len()
                        } else {
                            8
                        },
                    ) + CONTEXT_FOOTER@,
                )
            },
            _ => None,
        },
        None => None,
    }
}

fn describe_node(i: usize, node: &Json) -> (r: String)
    requires
        i < 8,
    ensures
        r@ == node_lines(i as int, node@),
{
    let mut out = text::number(i as u64 + 1);
    out.append(". [");
    out.append(&arg_text(node, "node_type"));
    out.append("] ");
    match node.text_at("title") {
        Some(t) => out.append(&t),
        None => out.append("(untitled)"),
    }
    out.append("\n");
    let summary = arg_text(node, "summary");
    if !summary.as_str().is_empty() {
        out.append("   ");
        out.append(&text::take_chars(&summary, 200));
        out.append("\n");
    }
    out
}

/// What is known, as a team is told it.
pub fn context_text(packet: Option<&Json>) -> (r: Option<String>)
    ensures
        text_view(r) == known_context(
            match packet {
                Some(p) => Some(p@),
                None => None,
            },
        ),
{
    let p = match packet {
        Some(p) => p,
        None => {
            return None;
        },
    };
    match p.get("memory") {
        Some(Json::List(nodes)) => {
            if nodes.len() == 0 {
                return None;
            }
            let ghost all = p@.get("memory"@)->0->List_0;
            let n: usize = if nodes.len() < 8 {
                nodes.len()
            } else {
                8
            };
            let mut out = CONTEXT_HEADER.to_owned();
            for i in 0..n
                invariant
                    n <= nodes@.len(),
                    n <= 8,
                    all.len() == nodes@.len(),
                    forall|j: int| 0 <= j < all.len() ==> #[trigger] all[j] == nodes@[j]@,
                    out@ == CONTEXT_HEADER@ + context_lines(all, i as nat),
            {
                let ghost before = out@;
                assert(all[i as int] == nodes@[i as int]@);
                out.append(&describe_node(i, &nodes[i]));
                assert(out@ =~= CONTEXT_HEADER@ + context_lines(all, (i + 1) as nat));
            }
            out.append(CONTEXT_FOOTER);
            Some(out)
        },
        _ => None,
    }
}

/// A message of the system where there is a text for it.
pub open spec fn system_if(t: Option<Seq<char>>) -> Seq<MessageV> {
    match t {
        Some(c) => seq![MessageV::plain("system"@, c)],
        None => Seq::empty(),
    }
}

/// What stands at the top of the messages of a team: its rules, the working
/// directory and what is known.
pub open spec fn team_top(context: Option<Seq<char>>, cwd: Seq<char>) -> Seq<MessageV> {
    seq![
        MessageV::plain("system"@, TEAM_SYSTEM@),
        MessageV::plain("system"@, "Current working directory: "@ + cwd),
    ] + system_if(context)
}

/// The messages with the list of things to do behind the first `top` of them,
/// unless it is empty.
pub open spec fn with_todos(messages: Seq<MessageV>, top: int, todos: Seq<char>) -> Seq<MessageV> {
    messages.take(top) + system_if(
        if todos.len() == 0 {
            None
        } else {
            Some(todos)
        },
    ) + messages.skip(top)
}

/// A copy of the messages, with the list of things to do.
pub fn show_todos(messages: &Vec<Message>, top: usize, todos: &str) -> (r: Vec<Message>)
    requires
        top <= messages@.len(),
    ensures
        message_views(r@) == with_todos(message_views(messages@), top as int, todos@),
{
    let ghost all = message_views(messages@);
    let mut out = copy_messages(messages);
    assert(message_views(out@).len() == out@.len());
    assert(all.len() == messages@.len());
    let mut rest = out.split_off(top);
    let ghost first = message_views(out@);
    let ghost last = message_views(rest@);
    assert(first =~= all.take(top as int));
    assert(last =~= all.skip(top as int));
    if !todos.is_empty() {
        out.push(Message::text("system", todos.to_owned()));
    }
    let ghost shown = message_views(out@);
    out.append(&mut rest);
    assert(message_views(out@) =~= shown + last);
    assert(message_views(out@) =~= with_todos(all, top as int, todos@));
    out
}

/// The messages of a team, with how many of them stand at the top.
pub fn team_messages(messages: Vec<Message>, context: Option<String>, cwd: &str) -> (r: (
    Vec<Message>,
    usize,
))
    ensures
        message_views(r.0@) == team_top(text_view(context), cwd@) + message_views(messages@),
        r.1 == team_top(text_view(context), cwd@).len(),
{
    let ghost given = message_views(messages@);
    let mut messages = messages;
    let mut out: Vec<Message> = Vec::new();
    out.push(Message::text("system", TEAM_SYSTEM.to_owned()));
    let mut t = "Current working directory: ".to_owned();
    t.append(cwd);
    out.push(Message::text("system", t));
    if let Some(c) = context {
        out.push(Message::text("system", c));
    }
    let top: usize = out.len();
    out.append(&mut messages);
    assert(message_views(out@) =~= team_top(text_view(context), cwd@) + given);
    (out, top)
}

/// The name of the model that a team works with, in small letters.
pub fn team_model(model: Option<&str>, configured: &str) -> (r: String)
    ensures
        r@ == text::lower(
            match model {
                Some(m) => m@,
                None => configured@,
            },
        ),
{
    match model {
        Some(m) => text::to_lower(m),
        None => text::to_lower(configured),
    }
}

/// Whether a team may use tools with a model.
pub fn tools_supported(model: &str, disabled: Option<&str>) -> (r: bool)
    ensures
        r == (!text::occurs(model@, "bard"@) && !(disabled matches Some(d) && d@ == "1"@)),
{
    let off = match disabled {
        Some(d) => text::same(d, "1"),
        None => false,
    };
    !text::contains(model, "bard") && !off
}

/// The note that a team works without tools.
pub fn no_tools_note(model: &str) -> (r: String)
    ensures
        r@ == "*note: tool calls disabled for `"@ + model@ + "` - reasoning-only mode.*\n\n"@,
{
    let mut t = "*note: tool calls disabled for `".to_owned();
    t.append(model);
    t.append("` - reasoning-only mode.*\n\n");
    t
}

/// The tools that are always offered.
pub open spec fn pinned_tools() -> Seq<Seq<char>> {
    seq![
        "search_memory"@,
        "file_read"@,
        "grep"@,
        "glob"@,
        "list_files"@,
        "get_cwd"@,
    ]
}

/// The tools of a list that are always offered or were used.
pub open spec fn narrowed(tools: Seq<ToolV>, used: Seq<Seq<char>>) -> Seq<ToolV> {
    tools.filter(|t: ToolV| pinned_tools().contains(t.name) || used.contains(t.name))
}

/// The tools of a list that are always offered or were used.
pub fn narrow_tools(tools: &Vec<ToolDefinition>, used: &Vec<String>) -> (r: Vec<ToolDefinition>)
    ensures
        tool_views(r@) == narrowed(tool_views(tools@), text::views(used@)),
{
    broadcast use tool_views_push;

    let pinned = ["search_memory", "file_read", "grep", "glob", "list_files", "get_cwd"];
    let ghost all = tool_views(tools@);
    let ghost keep = |t: ToolV|
        pinned_tools().contains(t.name) || text::views(used@).contains(t.name);
    let mut out: Vec<ToolDefinition> = Vec::new();
    proof {
        reveal(Seq::filter);
        assert(text::slice_views(pinned@) =~= pinned_tools());
        assert(all.take(0).filter(keep) =~= Seq::empty());
        assert(tool_views(out@) =~= Seq::empty());
    }
    for i in 0..tools.len()
        invariant
            text::slice_views(pinned@) == pinned_tools(),
            all == tool_views(tools@),
            keep == (|t: ToolV|
                pinned_tools().contains(t.name) || text::views(used@).contains(t.name)),
            tool_views(out@) == all.take(i as int).filter(keep),
    {
        proof {
            reveal(Seq::filter);
            assert(all.take(i + 1).drop_last() =~= all.take(i as int));
            assert(all.take(i + 1).last() == tools@[i as int]@);
        }
        let name = &tools[i].function.name;
        if text::one_of(name, &pinned) || text::holds(used, name) {
            let t = tools[i].copy();
            out.push(t);
        }
    }
    assert(all.take(all.len() as int) =~= all);
    out
}

/// A tool that is offered stays offered once it was used, and so does every
/// one that is always offered; nothing else is offered.
pub proof fn used_tools_stay(tools: Seq<ToolV>, used: Seq<Seq<char>>, t: ToolV)
    ensures
        narrowed(tools, used).contains(t) <==> tools.contains(t) && (pinned_tools().contains(t.name)
            || used.contains(t.name)),
{
    let keep = |t: ToolV| pinned_tools().contains(t.name) || used.contains(t.name);
    filter_has(tools, keep, t);
}

proof fn filter_has(s: Seq<ToolV>, keep: spec_fn(ToolV) -> bool, t: ToolV)
    ensures
        s.filter(keep).contains(t) <==> s.contains(t) && keep(t),
    decreases s.len(),
{
    reveal(Seq::filter);
    if s.len() > 0 {
        let front = s.drop_last();
        filter_has(front, keep, t);
        assert(s =~= front.push(s.last()));
        assert(s.contains(t) <==> front.contains(t) || t == s.last()) by {
            if front.contains(t) {
                let k = choose|k: int| 0 <= k < front.len() && front[k] == t;
                assert(s[k] == t);
            }
            if t == s.last() {
                assert(s[s.len() - 1] == t);
            }
        }
        let f = front.filter(keep);
        if keep(s.last()) {
            assert(f.push(s.last()).contains(t) <==> f.contains(t) || t == s.last()) by {
                if f.contains(t) {
                    let k = choose|k: int| 0 <= k < f.len() && f[k] == t;
                    assert(f.push(s.last())[k] == t);
                }
                assert(f.push(s.last())[f.len() as int] == s.last());
            }
        }
    }
}

/// A team at work.
#[derive(Debug)]
pub struct Team {
    /// How often the model was called.
    pub iteration: usize,
    /// All that was said and done so far.
    pub content: String,
    pub usage: Option<TokenUsage>,
    /// The tools that were used.
    pub used: Vec<String>,
    pub messages: Vec<Message>,
    pub tools: Vec<ToolDefinition>,
}

/// What a team does next.
#[derive(Debug)]
pub enum TeamStep {
    /// The model is called with these tools.
    Ask(Vec<ToolDefinition>),
    /// There were too many calls; this is sent, and the work ends.
    Stop(String),
}

pub const TOO_MANY: &'static str = "\n\n[Reached maximum tool iterations - stopping.]";

/// The result of a tool as the model gets it, if its cut does not fall inside
/// a character.
pub open spec fn shown_result(result: Seq<char>) -> Option<Seq<char>> {
    if text::byte_count(result) > MAX_RESULT {
        match text::byte_cut(result, MAX_RESULT as int) {
            Some(t) => Some(
                t + "...\n[truncated - "@ + text::decimal(text::byte_count(result))
                    + " bytes total]"@,
            ),
            None => None,
        }
    } else {
        Some(result)
    }
}

/// The result of a tool as the model gets it, if its cut does not fall inside
/// a character.
pub fn trim_result(result: &str) -> (r: Option<String>)
    ensures
        text_view(r) == shown_result(result@),
{
    let n: usize = text::byte_len(result);
    if n > MAX_RESULT {
        match text::cut_at_byte(result, MAX_RESULT) {
            Some(mut t) => {
                t.append("...\n[truncated - ");
                t.append(&text::number(n as u64));
                t.append(" bytes total]");
                Some(t)
            },
            None => None,
        }
    } else {
        Some(result.to_owned())
    }
}

/// The mark of a call in what is said and done.
pub open spec fn call_mark(name: Seq<char>, arguments: Seq<char>) -> Seq<char> {
    "\n[[TOOL:"@ + name + ":"@ + (match outside::json_compact(arguments) {
        Some(a) => a,
        None => "null"@,
    }) + "]]\n"@
}

/// The mark of a call that failed.
pub open spec fn error_mark(name: Seq<char>) -> Seq<char> {
    "[[TERR:"@ + name + "]]"@
}

/// The message of the assistant that calls tools.
pub open spec fn calling_message(
    content: Seq<char>,
    reasoning: Seq<char>,
    calls: Seq<ToolCallV>,
) -> MessageV {
    MessageV {
        role: "assistant"@,
        content,
        content_blocks: None,
        tool_calls: Some(calls),
        tool_call_id: None,
        reasoning: if reasoning.len() == 0 {
            None
        } else {
            Some(JsonV::Text(reasoning))
        },
    }
}

/// The names of a list of calls.
pub open spec fn call_names(calls: Seq<ToolCallV>) -> Seq<Seq<char>> {
    calls.map_values(|c: ToolCallV| c.name)
}

impl Team {
    /// A team before its work.
    pub fn new(messages: Vec<Message>, tools: Vec<ToolDefinition>) -> (r: Self)
        ensures
            r.iteration == 0,
            r.content@ == Seq::<char>::empty(),
            r.usage is None,
            r.used@ == Seq::<String>::empty(),
            r.messages == messages,
            r.tools == tools,
    {
        Team {
            iteration: 0,
            content: String::new(),
            usage: None,
            used: Vec::new(),
            messages,
            tools,
        }
    }

    /// What the team does next: up to twenty-five times the model is called,
    /// the first time with all tools and then with those that matter.
    pub fn begin(&mut self) -> (r: TeamStep)
        ensures
            final(self).content == old(self).content,
            final(self).usage == old(self).usage,
            final(self).used == old(self).used,
            final(self).messages == old(self).messages,
            final(self).tools == old(self).tools,
            match r {
                TeamStep::Ask(t) => {
                    &&& old(self).iteration < MAX_ITERATIONS
                    &&& final(self).iteration == old(self).iteration + 1
                    &&& tool_views(t@) == (if old(self).iteration == 0 {
                        tool_views(old(self).tools@)
                    } else {
                        narrowed(tool_views(old(self).tools@), text::views(old(self).used@))
                    })
                },
                TeamStep::Stop(t) => {
                    &&& old(self).iteration >= MAX_ITERATIONS
                    &&& final(self).iteration == old(self).iteration
                    &&& t@ == TOO_MANY@
                },
            },
    {
        if self.iteration >= MAX_ITERATIONS {
            return TeamStep::Stop(TOO_MANY.to_owned());
        }
        self.iteration = self.iteration + 1;
        if self.iteration == 1 {
            TeamStep::Ask(copy_tools(&self.tools))
        } else {
            TeamStep::Ask(narrow_tools(&self.tools, &self.used))
        }
    }

    /// Takes in a reply. It gives what is still to be sent of it, and the
    /// calls that are to be made; without any the work is done.
    pub fn on_reply(&mut self, reply: Reply) -> (r: (Vec<StreamOut>, Vec<ToolCallDefinition>))
        ensures
            final(self).iteration == old(self).iteration,
            final(self).tools == old(self).tools,
            final(self).content@ == old(self).content@ + reply@.content,
            final(self).usage == (match reply@.usage {
                Some(u) => Some(u),
                None => old(self).usage,
            }),
            out_views(r.0@) == (if reply@.streamed {
                Seq::empty()
            } else {
                replayed(reply@.content)
            }),
            exists|at: Seq<usize>| #[trigger] assembles(reply@.calls, call_views(r.1@), at),
            text::views(final(self).used@) == text::views(old(self).used@) + call_names(
                call_views(r.1@),
            ),
            message_views(final(self).messages@) == (if r.1@.len() == 0 {
                message_views(old(self).messages@)
            } else {
                message_views(old(self).messages@).push(
                    calling_message(reply@.content, reply@.reasoning, call_views(r.1@)),
                )
            }),
    {
        broadcast use message_views_push;

        let outs = if reply.streamed {
            Vec::new()
        } else {
            replay(&reply.content)
        };
        assert(reply.streamed ==> out_views(outs@) =~= Seq::empty());
        self.content.append(&reply.content);
        if reply.usage.is_some() {
            self.usage = reply.usage;
        }
        let calls = reply.calls.assemble();
        proof {
            let at = choose|at: Seq<usize>| assembles(reply.calls@, call_views(calls@), at);
            assert(assembles(reply@.calls, call_views(calls@), at));
        }
        self.remember(&calls);
        if calls.len() > 0 {
            let reasoning = if reply.reasoning.as_str().is_empty() {
                None
            } else {
                Some(Json::Text(reply.reasoning))
            };
            self.messages.push(
                Message {
                    role: "assistant".to_owned(),
                    content: reply.content,
                    content_blocks: None,
                    tool_calls: Some(copy_calls(&calls)),
                    tool_call_id: None,
                    reasoning,
                },
            );
        }
        (outs, calls)
    }

    fn remember(&mut self, calls: &Vec<ToolCallDefinition>)
        ensures
            final(self).iteration == old(self).iteration,
            final(self).content == old(self).content,
            final(self).usage == old(self).usage,
            final(self).messages == old(self).messages,
            final(self).tools == old(self).tools,
            text::views(final(self).used@) == text::views(old(self).used@) + call_names(
                call_views(calls@),
            ),
    {
        broadcast use text::views_push;

        let ghost names = call_names(call_views(calls@));
        let ghost before = text::views(self.used@);
        assert(before + names.take(0) =~= before);
        for i in 0..calls.len()
            invariant
                self.iteration == old(self).iteration,
                self.content == old(self).content,
                self.usage == old(self).usage,
                self.messages == old(self).messages,
                self.tools == old(self).tools,
                names == call_names(call_views(calls@)),
                text::views(self.used@) == before + names.take(i as int),
        {
            let n = calls[i].function.name.clone();
            assert(call_views(calls@)[i as int] == calls@[i as int]@);
            assert(names[i as int] == n@);
            self.used.push(n);
            assert(before + names.take(i + 1) =~= (before + names.take(i as int)).push(n@));
        }
        assert(names.take(names.len() as int) =~= names);
    }

    /// A call is about to be made: its mark is sent and kept.
    pub fn start_call(&mut self, call: &ToolCallDefinition) -> (r: String)
        ensures
            r@ == call_mark(call@.name, call@.arguments),
            final(self).content@ == old(self).content@ + r@,
            final(self).iteration == old(self).iteration,
            final(self).usage == old(self).usage,
            final(self).used == old(self).used,
            final(self).messages == old(self).messages,
            final(self).tools == old(self).tools,
    {
        let mut mark = "\n[[TOOL:".to_owned();
        mark.append(&call.function.name);
        mark.append(":");
        match outside::compact_json(&call.function.arguments) {
            Some(a) => mark.append(&a),
            None => mark.append("null"),
        }
        mark.append("]]\n");
        self.content.append(&mark);
        mark
    }

    /// Takes in the result of a call. For one that failed, a mark is sent and
    /// kept.
    pub fn on_result(&mut self, call: &ToolCallDefinition, result: &str) -> (r: Option<String>)
        requires
            shown_result(result@) is Some,
        ensures
            text_view(r) == (if text::begins(result@, "Error:"@) {
                Some(error_mark(call@.name))
            } else {
                None
            }),
            final(self).content@ == old(self).content@ + (match r {
                Some(m) => m@,
                None => Seq::empty(),
            }),
            message_views(final(self).messages@) == message_views(old(self).messages@).push(
                (MessageV {
                    tool_call_id: Some(call@.id),
                    ..MessageV::plain("tool"@, shown_result(result@)->0)
                }),
            ),
            final(self).iteration == old(self).iteration,
            final(self).usage == old(self).usage,
            final(self).used == old(self).used,
            final(self).tools == old(self).tools,
    {
        broadcast use message_views_push;

        let mark = if text::starts_with(result, "Error:") {
            let mut m = "[[TERR:".to_owned();
            m.append(&call.function.name);
            m.append("]]");
            self.content.append(&m);
            Some(m)
        } else {
            assert(self.content@ + Seq::<char>::empty() =~= self.content@);
            None
        };
        if let Some(shown) = trim_result(result) {
            self.messages.push(Message::tool_result(&call.id, shown));
        }
        mark
    }

    /// Ends the work: what is kept of it, and the last message.
    pub fn finish(&self, id: &str, conv_id: &str, warnings: &Vec<String>) -> (r: (
        String,
        IPCResponse,
    ))
        ensures
            r.0@ == guarded(self.content@, text::views(warnings@)),
            is_done(r.1, id@, conv_id@, self.usage),
    {
        let last = chat_done(id, conv_id, self.usage);
        (guard_reply(self.content.clone(), warnings), last)
    }
}

/// A second copy of a list of tools.
pub fn copy_tools(tools: &Vec<ToolDefinition>) -> (r: Vec<ToolDefinition>)
    ensures
        tool_views(r@) == tool_views(tools@),
{
    let mut out: Vec<ToolDefinition> = Vec::new();
    for i in 0..tools.len()
        invariant
            out@.len() == i,
            forall|j: int| 0 <= j < i ==> (#[trigger] out@[j])@ == tools@[j]@,
    {
        let t = tools[i].copy();
        out.push(t);
    }
    assert(tool_views(out@) =~= tool_views(tools@));
    out
}

/// What is sent where the model could not be called.
pub open spec fn failure_note(problem: Seq<char>, model: Seq<char>) -> Seq<char> {
    "\n\n"@ + (if text::occurs(problem, "thought_signature"@) {
        "\u{26a0} This model ("@ + model
            + ") requires Vertex AI thought signatures which aren't supported via this gateway. Switch to an OpenAI-compatible model (e.g. gpt-4o) in Settings to use Team mode tools."@
    } else {
        "\u{26a0} Tool call failed: "@ + problem
            + "\n\nTry rephrasing or switching to Chat mode."@
    })
}

/// Whether something is to be learned from the turn of a team: something was
/// said, and something was answered.
pub fn team_distills(said: &str, content: &str) -> (r: bool)
    ensures
        r == (said@.len() > 0 && content@.len() > 0),
{
    !said.is_empty() && !content.is_empty()
}

/// What is sent where the model could not be called.
pub fn on_failure(problem: &str, model: &str) -> (r: String)
    ensures
        r@ == failure_note(problem@, model@),
{
    let mut hint = String::new();
    if text::contains(problem, "thought_signature") {
        hint.append("\u{26a0} This model (");
        hint.append(model);
        hint.append(
            ") requires Vertex AI thought signatures which aren't supported via this gateway. Switch to an OpenAI-compatible model (e.g. gpt-4o) in Settings to use Team mode tools.",
        );
    } else {
        hint.append("\u{26a0} Tool call failed: ");
        hint.append(problem);
        hint.append("\n\nTry rephrasing or switching to Chat mode.");
    }
    let mut out = "\n\n".to_owned();
    out.append(&hint);
    assert(out@ =~= failure_note(problem@, model@));
    out
}

/// The result of a call that was cancelled.
pub fn cancelled_result(name: &str) -> (r: String)
    ensures
        r@ == "Error: tool '"@ + name@ + "' cancelled"@,
{
    let mut t = "Error: tool '".to_owned();
    t.append(name);
    t.append("' cancelled");
    t
}

/// The result of a call that took too long.
pub fn timed_out_result(name: &str) -> (r: String)
    ensures
        r@ == "Error: tool '"@ + name@
            + "' timed out after "@ + text::decimal(TOOL_SECS as nat)
            + "s. Use run_in_background=true for long commands."@,
{
    let mut t = "Error: tool '".to_owned();
    t.append(name);
    t.append("' timed out after ");
    t.append(&text::number(TOOL_SECS));
    t.append("s. Use run_in_background=true for long commands.");
    t
}

} // verus!
