//! What agents are told while they work, and what is kept of their work.

use crate::ipc::handlers::chat::edits::{
    done_text, index_meta, index_title_text, patched_text, undo_text,
};
use crate::ipc::handlers::chat::modes::{
    call_mark, calling_message, coder_prompt, coding_tools, context_lines, error_mark,
    failure_note, file_lines, guarded, known_context, narrowed, node_lines, pinned_tools,
    shown_result, simulates, team_top, with_todos, with_warnings, CODER_SYSTEM, CONTEXT_FOOTER,
    CONTEXT_HEADER, FILES_HEADER, TEAM_SYSTEM,
};
use crate::ipc::handlers::chat::session::{
    noted, plain_todo_lines, todo_json, todo_line, todo_lines, todo_mark, todo_summary,
    todos_prompt, TodoItem, TODO_FOOTER, TODO_HEADER,
};
use crate::json::JsonV;
use crate::laws::calling::{has_member, members_are_found_by_name, says};
use crate::laws::noting::notes;
use crate::laws::parts::{concat, concat_one_more, occurs_within, stands_at};
use crate::llm::client::last_user;
use crate::llm::types::{MessageV, ToolCallV, ToolV};
use crate::outside;
use crate::text;
use vstd::prelude::*;

verus! {

// ---------------------------------------------------------------------------
// Things to do
// ---------------------------------------------------------------------------

/// A thing that is done has a cross, one that is being done a wave, and any other an
/// empty box.
pub proof fn states_have_marks(status: Seq<char>)
    ensures
        status == "completed"@ ==> todo_mark(status) == "[x]"@,
        status == "in_progress"@ ==> todo_mark(status) == "[~]"@,
        status != "completed"@ && status != "in_progress"@ ==> todo_mark(status) == "[ ]"@,
{
    reveal_strlit("completed");
    reveal_strlit("in_progress");
    assert("completed"@.len() == 9 && "in_progress"@.len() == 11);
}

/// A thing to do as the model is shown it: its number, its mark, and what it is; one
/// that is being done by what is being done.
pub open spec fn shown_todo(todos: Seq<TodoItem>, i: int) -> Seq<char> {
    let t = todos[i];
    text::decimal((i + 1) as nat) + ". "@ + todo_mark(t.status@) + " "@ + (if t.status@
        == "in_progress"@ && t.active_form@.len() > 0 {
        t.active_form@
    } else {
        t.content@
    }) + "\n"@
}

/// A thing to do in the answer to a new list.
pub open spec fn told_todo(todos: Seq<TodoItem>, i: int) -> Seq<char> {
    "  "@ + text::decimal((i + 1) as nat) + ". "@ + todo_mark(todos[i].status@) + " "@
        + todos[i].content@ + "\n"@
}

proof fn todos_up_to(todos: Seq<TodoItem>, n: nat)
    requires
        n <= todos.len(),
    ensures
        todo_lines(todos, n) == concat(Seq::new(n, |i: int| shown_todo(todos, i))),
        plain_todo_lines(todos, n) == concat(Seq::new(n, |i: int| told_todo(todos, i))),
    decreases n,
{
    let a = Seq::new(n, |i: int| shown_todo(todos, i));
    let b = Seq::new(n, |i: int| told_todo(todos, i));
    if n > 0 {
        let m = (n - 1) as nat;
        todos_up_to(todos, m);
        let c = Seq::new(m, |i: int| shown_todo(todos, i));
        let d = Seq::new(m, |i: int| told_todo(todos, i));
        assert(a =~= c.push(shown_todo(todos, n - 1)));
        assert(b =~= d.push(told_todo(todos, n - 1)));
        concat_one_more(c, shown_todo(todos, n - 1));
        concat_one_more(d, told_todo(todos, n - 1));
        assert(todo_line(n - 1, todos[n - 1]) =~= shown_todo(todos, n - 1));
        assert(todo_lines(todos, n) =~= concat(a));
        assert(plain_todo_lines(todos, n) =~= concat(b));
    } else {
        assert(todo_lines(todos, n) =~= concat(a));
        assert(plain_todo_lines(todos, n) =~= concat(b));
    }
}

/// Every thing to do is shown to the model and told in the answer to a new list, in
/// order and with its number and its mark; an empty list is not shown.
pub proof fn every_thing_to_do_is_shown(todos: Seq<TodoItem>)
    ensures
        todos.len() == 0 ==> todos_prompt(todos).len() == 0,
        todos.len() > 0 ==> todos_prompt(todos) == TODO_HEADER@ + concat(
            Seq::new(todos.len(), |i: int| shown_todo(todos, i)),
        ) + TODO_FOOTER@,
        todo_summary(todos) == "Task list updated ("@ + text::decimal(todos.len())
            + " items):\n"@ + concat(Seq::new(todos.len(), |i: int| told_todo(todos, i)))
            + "\nContinue with the in_progress task. Update statuses as you complete each item."@,
{
    todos_up_to(todos, todos.len());
}

/// The user interface gets a thing to do with all that is known of it.
pub proof fn a_thing_to_do_is_told_whole(t: TodoItem)
    ensures
        notes(todo_json(t), "content"@, JsonV::Text(t.content@)),
        notes(todo_json(t), "activeForm"@, JsonV::Text(t.active_form@)),
        notes(todo_json(t), "status"@, JsonV::Text(t.status@)),
{
    let m = todo_json(t)->Object_0;
    assert(m.contains(m[0]) && m.contains(m[1]) && m.contains(m[2]));
}

// ---------------------------------------------------------------------------
// Edits
// ---------------------------------------------------------------------------

/// A version of a file is noted once, on top of the others; twenty are kept, and the
/// oldest goes first.
pub proof fn twenty_versions_are_kept(history: Seq<Seq<char>>, content: Seq<char>)
    requires
        history.len() <= 20,
    ensures
        ({
            let after = noted(history, content);
            &&& after.len() <= 20
            &&& after.len() > 0 && after.last() == content
            &&& history.len() > 0 && history.last() == content ==> after == history
            &&& (history.len() == 0 || history.last() != content) && history.len() < 20 ==> after
                == history.push(content)
            &&& history.len() == 20 && history.last() != content ==> after == history.skip(1).push(
                content,
            )
        }),
{
}

/// The answers to changes of a file tell what was done, to which file and to how many
/// bytes.
pub proof fn changes_are_told(path: Seq<char>, a: nat, b: nat, left: nat)
    ensures
        undo_text(path, a, 1) == "Restored "@ + path + " ("@ + text::decimal(a)
            + " bytes). 1 undo level remaining."@,
        left != 1 ==> undo_text(path, a, left) == "Restored "@ + path + " ("@ + text::decimal(a)
            + " bytes). "@ + text::decimal(left) + " undo levels remaining."@,
        patched_text(path, a, b) == "Applied patch to "@ + path + " ("@ + text::decimal(a)
            + " \u{2192} "@ + text::decimal(b) + " bytes)"@,
        done_text(Ok(()), path, path) == path,
        forall|e: Seq<char>, bad: Seq<char>| #[trigger]
            done_text(Err(e), path, bad) == bad + e,
{
    reveal_strlit(" bytes). ");
    reveal_strlit(" undo level");
    reveal_strlit("s");
    reveal_strlit(" remaining.");
    reveal_strlit(" undo levels remaining.");
    reveal_strlit(" bytes). 1 undo level remaining.");
    assert(text::decimal(1) =~= seq!['1']);
    assert(undo_text(path, a, 1) =~= "Restored "@ + path + " ("@ + text::decimal(a)
        + " bytes). 1 undo level remaining."@);
    if left != 1 {
        assert(undo_text(path, a, left) =~= "Restored "@ + path + " ("@ + text::decimal(a)
            + " bytes). "@ + text::decimal(left) + " undo levels remaining."@);
    }
}

/// A file that is remembered is remembered by its name and what was done with it, with
/// its path and the conversation.
pub proof fn a_file_is_remembered(
    path: Seq<char>,
    name: Seq<char>,
    action: Seq<char>,
    conv: Seq<char>,
)
    ensures
        index_title_text(path, Some(name), action) == name + " ("@ + action + ")"@,
        index_title_text(path, None, action) == path + " ("@ + action + ")"@,
        notes(index_meta(path, action, conv), "path"@, JsonV::Text(path)),
        notes(index_meta(path, action, conv), "action"@, JsonV::Text(action)),
        notes(index_meta(path, action, conv), "conversation_id"@, JsonV::Text(conv)),
        notes(index_meta(path, action, conv), "source"@, JsonV::Text("auto_index"@)),
{
    let m = index_meta(path, action, conv)->Object_0;
    assert(m.contains(m[0]) && m.contains(m[1]) && m.contains(m[2]) && m.contains(m[3]));
}

proof fn is_told(args: JsonV, key: Seq<char>, t: Seq<char>)
    requires
        says(args, key, t),
    ensures
        crate::ipc::handlers::chat::modes::arg(args, key) == t,
{
    members_are_found_by_name(args, key);
    assert(has_member(args, key, JsonV::Text(t)));
}

/// An edit that replaces a text replaces its first place and nothing else.
pub proof fn the_first_place_is_replaced(
    args: JsonV,
    front: Seq<char>,
    search: Seq<char>,
    back: Seq<char>,
    replace: Seq<char>,
    r: Seq<char>,
)
    requires
        says(args, "action"@, "search_replace"@),
        says(args, "search"@, search),
        says(args, "replace"@, replace),
        forall|j: int| 0 <= j < front.len() ==> !text::match_at(front + search + back, search, j),
        simulates(front + search + back, args, r),
    ensures
        r == front + replace + back,
{
    let s = front + search + back;
    is_told(args, "action"@, "search_replace"@);
    is_told(args, "search"@, search);
    is_told(args, "replace"@, replace);
    let n = front.len() as int;
    assert(s.subrange(n, n + search.len()) =~= search);
    assert(text::match_at(s, search, n));
    let i = choose|i: int|
        #[trigger] text::match_at(s, search, i) && (forall|j: int|
            0 <= j < i ==> !text::match_at(s, search, j)) && r == s.take(i) + replace + s.skip(
            i + search.len(),
        );
    assert(i == n);
    assert(r =~= front + replace + back);
}

/// An edit that replaces a text that is not there changes nothing, and one that adds a
/// text puts it on a line of its own behind the last one.
pub proof fn other_edits_are_simulated(
    args: JsonV,
    original: Seq<char>,
    t: Seq<char>,
    r: Seq<char>,
)
    requires
        simulates(original, args, r),
    ensures
        says(args, "action"@, "search_replace"@) && says(args, "search"@, t) && !text::occurs(
            original,
            t,
        ) ==> r == original,
        says(args, "action"@, "append"@) && says(args, "content"@, t) && (original.len() == 0
            || original.last() != '\n') ==> r == original + "\n"@ + t,
        says(args, "action"@, "append"@) && says(args, "content"@, t) && original.len() > 0
            && original.last() == '\n' && (original.len() == 1 || original[original.len() - 2]
            != '\n') ==> r == original + t,
{
    reveal_strlit("append");
    reveal_strlit("search_replace");
    reveal_strlit("\n");
    assert("append"@.len() == 6 && "search_replace"@.len() == 14);
    if says(args, "action"@, "search_replace"@) {
        is_told(args, "action"@, "search_replace"@);
        if says(args, "search"@, t) {
            is_told(args, "search"@, t);
        }
    }
    if says(args, "action"@, "append"@) {
        is_told(args, "action"@, "append"@);
        if says(args, "content"@, t) {
            is_told(args, "content"@, t);
        }
        reveal_with_fuel(text::strip_end, 3);
        if original.len() > 0 && original.last() == '\n' && (original.len() == 1
            || original[original.len() - 2] != '\n') {
            assert(text::strip_end(original, '\n') == original.drop_last());
            assert(original.drop_last() + "\n"@ =~= original);
        }
    }
}

// ---------------------------------------------------------------------------
// Agents
// ---------------------------------------------------------------------------

proof fn file_is_named(files: Seq<Seq<char>>, n: nat, i: int)
    requires
        0 <= i < n <= files.len(),
    ensures
        text::occurs(file_lines(files, n), "- "@ + files[i] + "\n"@),
    decreases n,
{
    let m = (n - 1) as nat;
    let front = file_lines(files, m);
    let last = "- "@ + files[n - 1] + "\n"@;
    if i == m {
        assert((front + last).subrange(front.len() as int, (front + last).len() as int) =~= last);
        stands_at(front + last, last, front.len() as int);
    } else {
        file_is_named(files, m, i);
        occurs_within(Seq::empty(), front, last, "- "@ + files[i] + "\n"@);
        assert(Seq::<char>::empty() + front + last =~= front + last);
    }
}

/// A coding agent gets its rules first, then what was said, and last the names of the
/// first six files that may matter.
pub proof fn a_coder_is_told_of_files(messages: Seq<MessageV>, files: Seq<Seq<char>>, i: int)
    ensures
        ({
            let p = coder_prompt(messages, files);
            &&& p[0] == MessageV::plain("system"@, CODER_SYSTEM@)
            &&& p.subrange(1, 1 + messages.len() as int) == messages
            &&& files.len() == 0 ==> p.len() == messages.len() + 1
            &&& files.len() > 0 ==> p.len() == messages.len() + 2 && p.last().role == "system"@
            &&& 0 <= i < files.len() && i < 6 ==> text::occurs(
                p.last().content,
                "- "@ + files[i] + "\n"@,
            )
        }),
{
    let p = coder_prompt(messages, files);
    assert(p.subrange(1, 1 + messages.len() as int) =~= messages);
    if 0 <= i < files.len() && i < 6 {
        let n = if files.len() < 6 {
            files.len()
        } else {
            6
        };
        file_is_named(files, n, i);
        let l = file_lines(files, n);
        occurs_within(FILES_HEADER@, l, Seq::empty(), "- "@ + files[i] + "\n"@);
        assert(FILES_HEADER@ + l + Seq::<char>::empty() =~= FILES_HEADER@ + l);
    }
}

/// A coding agent may edit files and run commands.
pub proof fn a_coder_may_edit_and_run()
    ensures
        coding_tools().len() == 2,
        coding_tools()[0].name == "code_edit"@,
        coding_tools()[1].name == "terminal_execute"@,
{
}

proof fn node_is_told(nodes: Seq<JsonV>, n: nat, i: int)
    requires
        0 <= i < n <= nodes.len(),
    ensures
        text::occurs(context_lines(nodes, n), node_lines(i, nodes[i])),
    decreases n,
{
    let m = (n - 1) as nat;
    let front = context_lines(nodes, m);
    let last = node_lines(n - 1, nodes[n - 1]);
    if i == m {
        assert((front + last).subrange(front.len() as int, (front + last).len() as int) =~= last);
        stands_at(front + last, last, front.len() as int);
    } else {
        node_is_told(nodes, m, i);
        occurs_within(Seq::empty(), front, last, node_lines(i, nodes[i]));
        assert(Seq::<char>::empty() + front + last =~= front + last);
    }
}

/// A team is told the first eight things that are known: each with its number, its
/// kind and its title, and the first two hundred characters of its summary.
pub proof fn a_team_is_told_what_is_known(packet: JsonV, nodes: Seq<JsonV>, i: int)
    requires
        has_member(packet, "memory"@, JsonV::List(nodes)),
        0 <= i < nodes.len(),
        i < 8,
    ensures
        known_context(Some(packet)) is Some,
        text::occurs(known_context(Some(packet))->0, node_lines(i, nodes[i])),
        forall|kind: Seq<char>, title: Seq<char>|
            #[trigger] says(nodes[i], "node_type"@, kind) && #[trigger] says(
                nodes[i],
                "title"@,
                title,
            ) ==> text::begins(
                node_lines(i, nodes[i]),
                text::decimal((i + 1) as nat) + ". ["@ + kind + "] "@ + title + "\n"@,
            ),
        forall|summary: Seq<char>| #[trigger]
            says(nodes[i], "summary"@, summary) && summary.len() > 0 ==> text::ends(
                node_lines(i, nodes[i]),
                "   "@ + (if summary.len() <= 200 {
                    summary
                } else {
                    summary.take(200)
                }) + "\n"@,
            ),
{
    members_are_found_by_name(packet, "memory"@);
    let n = if nodes.len() < 8 {
        nodes.len()
    } else {
        8
    };
    node_is_told(nodes, n, i);
    let l = context_lines(nodes, n);
    occurs_within(CONTEXT_HEADER@, l, CONTEXT_FOOTER@, node_lines(i, nodes[i]));
    let lines = node_lines(i, nodes[i]);
    assert forall|kind: Seq<char>, title: Seq<char>|
        #[trigger] says(nodes[i], "node_type"@, kind) && #[trigger] says(
            nodes[i],
            "title"@,
            title,
        ) implies text::begins(
        lines,
        text::decimal((i + 1) as nat) + ". ["@ + kind + "] "@ + title + "\n"@,
    ) by {
        is_told(nodes[i], "node_type"@, kind);
        is_told(nodes[i], "title"@, title);
        members_are_found_by_name(nodes[i], "title"@);
        assert(has_member(nodes[i], "title"@, JsonV::Text(title)));
        let head = text::decimal((i + 1) as nat) + ". ["@ + kind + "] "@ + title + "\n"@;
        assert(lines.subrange(0, head.len() as int) =~= head);
    }
    assert forall|summary: Seq<char>| #[trigger]
        says(nodes[i], "summary"@, summary) && summary.len() > 0 implies text::ends(
        lines,
        "   "@ + (if summary.len() <= 200 {
            summary
        } else {
            summary.take(200)
        }) + "\n"@,
    ) by {
        is_told(nodes[i], "summary"@, summary);
        let tail = "   "@ + (if summary.len() <= 200 {
            summary
        } else {
            summary.take(200)
        }) + "\n"@;
        assert(lines.subrange(lines.len() - tail.len(), lines.len() as int) =~= tail);
    }
}

/// A team gets its rules and its working directory first, then what is known, and
/// behind these the things to do.
pub proof fn a_team_is_told_where_it_works(
    context: Option<Seq<char>>,
    cwd: Seq<char>,
    messages: Seq<MessageV>,
    top: int,
    todos: Seq<char>,
)
    requires
        0 <= top <= messages.len(),
    ensures
        team_top(context, cwd)[0] == MessageV::plain("system"@, TEAM_SYSTEM@),
        team_top(context, cwd)[1] == MessageV::plain(
            "system"@,
            "Current working directory: "@ + cwd,
        ),
        context matches Some(c) ==> team_top(context, cwd).len() == 3 && team_top(context, cwd)[2]
            == MessageV::plain("system"@, c),
        context is None ==> team_top(context, cwd).len() == 2,
        todos.len() == 0 ==> with_todos(messages, top, todos) == messages,
        todos.len() > 0 ==> with_todos(messages, top, todos) == messages.insert(
            top,
            MessageV::plain("system"@, todos),
        ),
{
    assert(messages.take(top) + messages.skip(top) =~= messages);
    if todos.len() == 0 {
        assert(with_todos(messages, top, todos) =~= messages);
    } else {
        assert(with_todos(messages, top, todos) =~= messages.insert(
            top,
            MessageV::plain("system"@, todos),
        ));
    }
}

/// A tool is offered again if it was used, or is one of the six that look things up.
pub proof fn six_tools_are_always_offered(tools: Seq<ToolV>, used: Seq<Seq<char>>)
    ensures
        narrowed(tools, used) == tools.filter(
            |t: ToolV|
                used.contains(t.name) || t.name == "search_memory"@ || t.name == "file_read"@
                    || t.name == "grep"@ || t.name == "glob"@ || t.name == "list_files"@ || t.name
                    == "get_cwd"@,
        ),
    decreases tools.len(),
{
    reveal(Seq::filter);
    let p = pinned_tools();
    assert(p.len() == 6 && p[0] == "search_memory"@ && p[1] == "file_read"@ && p[2] == "grep"@
        && p[3] == "glob"@ && p[4] == "list_files"@ && p[5] == "get_cwd"@);
    if tools.len() > 0 {
        six_tools_are_always_offered(tools.drop_last(), used);
    }
    assert(narrowed(tools, used) =~= tools.filter(
        |t: ToolV|
            used.contains(t.name) || t.name == "search_memory"@ || t.name == "file_read"@ || t.name
                == "grep"@ || t.name == "glob"@ || t.name == "list_files"@ || t.name
                == "get_cwd"@,
    ));
}

/// A result of up to twelve thousand bytes is passed on whole; of a longer one the
/// first twelve thousand, and how many there are.
pub proof fn long_results_are_cut(result: Seq<char>)
    ensures
        text::byte_count(result) <= 12_000 ==> shown_result(result) == Some(result),
        text::byte_count(result) > 12_000 ==> (shown_result(result) matches Some(s) ==> exists|
            cut: Seq<char>,
        |
            text::byte_count(cut) == 12_000 && #[trigger] text::begins(result, cut) && s == cut
                + "...\n[truncated - "@ + text::decimal(text::byte_count(result))
                + " bytes total]"@),
        text::byte_count(result) > 12_000 && shown_result(result) is None ==> text::byte_cut(
            result,
            12_000,
        ) is None,
{
    if text::byte_count(result) > 12_000 {
        text::byte_cut_is_prefix(result, 12_000);
        if let Some(cut) = text::byte_cut(result, 12_000) {
            assert(result.subrange(0, cut.len() as int) =~= cut);
            assert(text::begins(result, cut));
        }
    }
}

/// A call and its failure are marked in what is shown, with the name of the tool.
pub proof fn calls_are_marked(name: Seq<char>, arguments: Seq<char>)
    ensures
        outside::json_compact(arguments) matches Some(a) ==> call_mark(name, arguments)
            == "\n[[TOOL:"@ + name + ":"@ + a + "]]\n"@,
        outside::json_compact(arguments) is None ==> call_mark(name, arguments) == "\n[[TOOL:"@
            + name + ":null]]\n"@,
        error_mark(name) == "[[TERR:"@ + name + "]]"@,
{
    reveal_strlit(":");
    reveal_strlit("null");
    reveal_strlit("]]\n");
    reveal_strlit(":null]]\n");
    if outside::json_compact(arguments) is None {
        assert(call_mark(name, arguments) =~= "\n[[TOOL:"@ + name + ":null]]\n"@);
    }
}

/// The model is handed back the calls that it made, with what it said and thought.
pub proof fn calls_are_handed_back(
    content: Seq<char>,
    reasoning: Seq<char>,
    calls: Seq<ToolCallV>,
)
    ensures
        ({
            let m = calling_message(content, reasoning, calls);
            &&& m.role == "assistant"@
            &&& m.content == content
            &&& m.tool_calls == Some(calls)
            &&& m.tool_call_id is None
            &&& reasoning.len() > 0 ==> m.reasoning == Some(JsonV::Text(reasoning))
            &&& reasoning.len() == 0 ==> m.reasoning is None
        }),
{
}

/// A reply stands under the warnings on the message, word for word; an empty reply has
/// none.
pub proof fn warnings_stand_above_replies(content: Seq<char>, warnings: Seq<Seq<char>>)
    ensures
        warnings.len() == 0 ==> with_warnings(content, warnings) == content,
        warnings.len() > 0 ==> with_warnings(content, warnings) == "[context guard] "@ + text::join(
            warnings,
            " "@,
        ) + "\n\n"@ + content,
        content.len() > 0 ==> guarded(content, warnings) == with_warnings(content, warnings),
        content.len() == 0 ==> guarded(content, warnings).len() == 0,
{
}

/// A failed call of the model is told with its problem, or with the model where that
/// one cannot call tools here.
pub proof fn failures_of_the_model_are_told(problem: Seq<char>, model: Seq<char>)
    ensures
        text::occurs(problem, "thought_signature"@) ==> text::occurs(
            failure_note(problem, model),
            "This model ("@ + model + ") requires Vertex AI thought signatures"@,
        ),
        !text::occurs(problem, "thought_signature"@) ==> text::occurs(
            failure_note(problem, model),
            "Tool call failed: "@ + problem,
        ),
{
    reveal_strlit("\n\n");
    reveal_strlit("\u{26a0} This model (");
    reveal_strlit("This model (");
    reveal_strlit(") requires Vertex AI thought signatures");
    reveal_strlit(
        ") requires Vertex AI thought signatures which aren't supported via this gateway. Switch to an OpenAI-compatible model (e.g. gpt-4o) in Settings to use Team mode tools.",
    );
    reveal_strlit("\u{26a0} Tool call failed: ");
    reveal_strlit("Tool call failed: ");
    let n = failure_note(problem, model);
    if text::occurs(problem, "thought_signature"@) {
        let pat = "This model ("@ + model + ") requires Vertex AI thought signatures"@;
        assert(n.subrange(4, 4 + pat.len() as int) =~= pat);
        stands_at(n, pat, 4);
    } else {
        let pat = "Tool call failed: "@ + problem;
        assert(n.subrange(4, 4 + pat.len() as int) =~= pat);
        stands_at(n, pat, 4);
    }
}

/// What the user said last is what the last of their messages says.
pub proof fn the_last_word_of_the_user(messages: Seq<MessageV>, i: int)
    requires
        0 <= i < messages.len(),
        messages[i].role == "user"@,
        forall|j: int| i < j < messages.len() ==> (#[trigger] messages[j]).role != "user"@,
    ensures
        last_user(messages) == Some(messages[i].content),
    decreases messages.len(),
{
    if i < messages.len() - 1 {
        assert(messages[messages.len() - 1].role != "user"@);
        let front = messages.drop_last();
        assert forall|j: int| i < j < front.len() implies (#[trigger] front[j]).role != "user"@ by {
            assert(front[j] == messages[j]);
        }
        the_last_word_of_the_user(front, i);
    }
}

} // verus!
