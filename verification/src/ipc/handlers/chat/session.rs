//! What is kept of each conversation while the program runs: its list of
//! things to do, its working directory and the history of the files it edits.

use crate::ipc::protocol::IPCResponse;
use crate::json::{Json, JsonV};
use crate::strmap::StrMap;
use crate::text;
use vstd::prelude::*;

verus! {

/// How many versions of a file its history keeps.
pub const MAX_SNAPSHOTS: usize = 20;

/// One thing to do.
#[derive(Debug)]
pub struct TodoItem {
    pub content: String,
    pub active_form: String,
    /// "pending", "in_progress" or "completed".
    pub status: String,
}

impl TodoItem {
    /// A copy of the item.
    pub fn copy(&self) -> (r: Self)
        ensures
            r == *self,
    {
        TodoItem {
            content: self.content.clone(),
            active_form: self.active_form.clone(),
            status: self.status.clone(),
        }
    }
}

/// What is kept of all conversations.
#[derive(Debug)]
pub struct Sessions {
    todos: StrMap<Vec<TodoItem>>,
    cwd: StrMap<String>,
    snapshots: StrMap<StrMap<Vec<String>>>,
}

impl Sessions {
    /// The list of things to do of a conversation.
    pub closed spec fn todos(self, conv: Seq<char>) -> Seq<TodoItem> {
        if self.todos@.contains_key(conv) {
            self.todos@[conv]@
        } else {
            Seq::empty()
        }
    }

    /// The working directory of a conversation, if it has one of its own.
    pub closed spec fn cwd(self, conv: Seq<char>) -> Option<Seq<char>> {
        if self.cwd@.contains_key(conv) {
            Some(self.cwd@[conv]@)
        } else {
            None
        }
    }

    /// The versions of a file that a conversation keeps, from the oldest on.
    pub closed spec fn history(self, conv: Seq<char>, path: Seq<char>) -> Seq<Seq<char>> {
        if self.snapshots@.contains_key(conv) && self.snapshots@[conv]@.contains_key(path) {
            text::views(self.snapshots@[conv]@[path]@)
        } else {
            Seq::empty()
        }
    }

    /// Nothing is kept of a conversation.
    pub open spec fn forgotten(self, conv: Seq<char>) -> bool {
        &&& self.todos(conv) == Seq::<TodoItem>::empty()
        &&& self.cwd(conv) is None
        &&& forall|path: Seq<char>| #[trigger]
            self.history(conv, path) == Seq::<Seq<char>>::empty()
    }

    /// What is kept of a conversation is the same in both.
    pub open spec fn agrees(self, other: Sessions, conv: Seq<char>) -> bool {
        &&& self.todos(conv) == other.todos(conv)
        &&& self.cwd(conv) == other.cwd(conv)
        &&& forall|path: Seq<char>| #[trigger]
            self.history(conv, path) == other.history(conv, path)
    }

    /// Only the list of things to do of a conversation differs.
    pub open spec fn only_todos(self, other: Sessions, conv: Seq<char>) -> bool {
        &&& forall|c: Seq<char>| c != conv ==> #[trigger] self.todos(c) == other.todos(c)
        &&& forall|c: Seq<char>| #[trigger] self.cwd(c) == other.cwd(c)
        &&& forall|c: Seq<char>, p: Seq<char>| #[trigger] self.history(c, p) == other.history(c, p)
    }

    /// Only the working directory of a conversation differs.
    pub open spec fn only_cwd(self, other: Sessions, conv: Seq<char>) -> bool {
        &&& forall|c: Seq<char>| #[trigger] self.todos(c) == other.todos(c)
        &&& forall|c: Seq<char>| c != conv ==> #[trigger] self.cwd(c) == other.cwd(c)
        &&& forall|c: Seq<char>, p: Seq<char>| #[trigger] self.history(c, p) == other.history(c, p)
    }

    /// Only the history of one file of a conversation differs.
    pub open spec fn only_history(self, other: Sessions, conv: Seq<char>, path: Seq<char>) -> bool {
        &&& forall|c: Seq<char>| #[trigger] self.todos(c) == other.todos(c)
        &&& forall|c: Seq<char>| #[trigger] self.cwd(c) == other.cwd(c)
        &&& forall|c: Seq<char>, p: Seq<char>|
            !(c == conv && p == path) ==> #[trigger] self.history(c, p) == other.history(c, p)
    }

    /// The sessions before any conversation.
    pub fn new() -> (r: Self)
        ensures
            forall|c: Seq<char>| #[trigger] r.forgotten(c),
    {
        Sessions { todos: StrMap::new(), cwd: StrMap::new(), snapshots: StrMap::new() }
    }
}

/// The working directory of a conversation, or else that of the program.
pub fn get_session_cwd(s: &Sessions, conv_id: &str, default: &str) -> (r: String)
    ensures
        r@ == (match s.cwd(conv_id@) {
            Some(p) => p,
            None => default@,
        }),
{
    match s.cwd.get(conv_id) {
        Some(p) => p.clone(),
        None => default.to_owned(),
    }
}

/// Gives a conversation a working directory of its own.
pub fn set_session_cwd(s: &mut Sessions, conv_id: &str, path: String)
    ensures
        final(s).cwd(conv_id@) == Some(path@),
        final(s).only_cwd(*old(s), conv_id@),
{
    s.cwd.insert(conv_id.to_owned(), path);
}

/// A path as a tool was given it: on its own, or below a directory.
#[derive(Debug)]
pub struct ConvPath {
    /// The directory that a relative path is below.
    pub base: Option<String>,
    pub path: String,
}

/// The path that a conversation means: an absolute one stands for itself, any
/// other is below the working directory.
pub fn resolve_conv_path(
    s: &Sessions,
    conv_id: &str,
    path: &str,
    absolute: bool,
    default: &str,
) -> (r: ConvPath)
    ensures
        r.path@ == path@,
        r.base is None <==> absolute,
        r.base matches Some(b) ==> b@ == (match s.cwd(conv_id@) {
            Some(p) => p,
            None => default@,
        }),
{
    if absolute {
        ConvPath { base: None, path: path.to_owned() }
    } else {
        ConvPath { base: Some(get_session_cwd(s, conv_id, default)), path: path.to_owned() }
    }
}

/// Forgets all that is kept of a conversation.
pub fn clear_conversation_state(s: &mut Sessions, conversation_id: &str)
    ensures
        final(s).forgotten(conversation_id@),
        forall|c: Seq<char>| c != conversation_id@ ==> #[trigger] final(s).agrees(*old(s), c),
{
    let _ = s.todos.remove(conversation_id);
    let _ = s.cwd.remove(conversation_id);
    let _ = s.snapshots.remove(conversation_id);
}

/// A history after a version was noted: the version comes on top unless it is
/// there already, and of too many the oldest goes.
pub open spec fn noted(history: Seq<Seq<char>>, content: Seq<char>) -> Seq<Seq<char>> {
    if history.len() > 0 && history.last() == content {
        history
    } else if history.len() >= MAX_SNAPSHOTS {
        history.skip(1).push(content)
    } else {
        history.push(content)
    }
}

fn take_history(s: &mut Sessions, conv_id: &str, path: &str) -> (r: Vec<String>)
    ensures
        text::views(r@) == old(s).history(conv_id@, path@),
        final(s).history(conv_id@, path@) == Seq::<Seq<char>>::empty(),
        final(s).only_history(*old(s), conv_id@, path@),
{
    match s.snapshots.remove(conv_id) {
        Some(mut files) => {
            let r = match files.remove(path) {
                Some(stack) => stack,
                None => Vec::new(),
            };
            s.snapshots.insert(conv_id.to_owned(), files);
            assert(text::views(r@) =~= old(s).history(conv_id@, path@));
            r
        },
        None => {
            let r: Vec<String> = Vec::new();
            assert(text::views(r@) =~= old(s).history(conv_id@, path@));
            r
        },
    }
}

fn put_history(s: &mut Sessions, conv_id: &str, path: &str, stack: Vec<String>)
    ensures
        final(s).history(conv_id@, path@) == text::views(stack@),
        final(s).only_history(*old(s), conv_id@, path@),
{
    let mut files = match s.snapshots.remove(conv_id) {
        Some(f) => f,
        None => StrMap::new(),
    };
    files.insert(path.to_owned(), stack);
    s.snapshots.insert(conv_id.to_owned(), files);
}

/// Notes the content that a file has before an edit, so that the edit can be
/// undone.
pub fn snapshot_file(s: &mut Sessions, conv_id: &str, path: &str, content: String)
    ensures
        final(s).history(conv_id@, path@) == noted(old(s).history(conv_id@, path@), content@),
        final(s).only_history(*old(s), conv_id@, path@),
{
    broadcast use text::views_push;

    let mut stack = take_history(s, conv_id, path);
    let ghost before = text::views(stack@);
    let n: usize = stack.len();
    assert(n > 0 ==> before.last() == stack@.last()@);
    if !(n > 0 && text::same(&stack[n - 1], &content)) {
        if n >= MAX_SNAPSHOTS {
            let ghost all = stack@;
            let _ = stack.remove(0);
            assert(text::views(stack@) =~= before.skip(1));
        }
        stack.push(content);
    }
    put_history(s, conv_id, path, stack);
}

/// The oldest version of a file that is kept, against which a diff shows what
/// the conversation has changed.
pub fn get_snapshot(s: &Sessions, conv_id: &str, path: &str) -> (r: Option<String>)
    ensures
        match r {
            Some(c) => s.history(conv_id@, path@).len() > 0 && c@ == s.history(
                conv_id@,
                path@,
            ).first(),
            None => s.history(conv_id@, path@).len() == 0,
        },
{
    match s.snapshots.get(conv_id) {
        Some(files) => match files.get(path) {
            Some(stack) => if stack.len() > 0 {
                Some(stack[0].clone())
            } else {
                None
            },
            None => None,
        },
        None => None,
    }
}

/// Takes the last version of a file out of its history.
pub fn pop_snapshot(s: &mut Sessions, conv_id: &str, path: &str) -> (r: Option<String>)
    ensures
        match r {
            Some(c) => {
                let h = old(s).history(conv_id@, path@);
                h.len() > 0 && c@ == h.last() && final(s).history(conv_id@, path@)
                    == h.drop_last()
            },
            None => old(s).history(conv_id@, path@).len() == 0 && final(s).history(
                conv_id@,
                path@,
            ).len() == 0,
        },
        final(s).only_history(*old(s), conv_id@, path@),
{
    let mut stack = take_history(s, conv_id, path);
    let ghost before = stack@;
    let r = stack.pop();
    proof {
        if before.len() > 0 {
            assert(text::views(stack@) =~= text::views(before).drop_last());
            assert(text::views(before).last() == before.last()@);
        }
    }
    put_history(s, conv_id, path, stack);
    r
}

/// How many versions of a file can still be gone back to.
pub fn undo_depth(s: &Sessions, conv_id: &str, path: &str) -> (r: usize)
    ensures
        r == s.history(conv_id@, path@).len(),
{
    match s.snapshots.get(conv_id) {
        Some(files) => match files.get(path) {
            Some(stack) => stack.len(),
            None => 0,
        },
        None => 0,
    }
}

/// Replaces the list of things to do of a conversation.
pub fn set_todos(s: &mut Sessions, conv_id: &str, todos: Vec<TodoItem>)
    ensures
        final(s).todos(conv_id@) == todos@,
        final(s).only_todos(*old(s), conv_id@),
{
    s.todos.insert(conv_id.to_owned(), todos);
}

/// The list of things to do of a conversation.
pub fn session_todos(s: &Sessions, conv_id: &str) -> (r: Vec<TodoItem>)
    ensures
        r@ == s.todos(conv_id@),
{
    let mut out: Vec<TodoItem> = Vec::new();
    if let Some(list) = s.todos.get(conv_id) {
        for i in 0..list.len()
            invariant
                out@ == list@.take(i as int),
        {
            let t = list[i].copy();
            out.push(t);
            assert(out@ =~= list@.take(i + 1));
        }
        assert(list@.take(list@.len() as int) =~= list@);
    }
    assert(out@ =~= s.todos(conv_id@));
    out
}

/// A thing to do as the user interface gets it.
pub open spec fn todo_json(t: TodoItem) -> JsonV {
    JsonV::Object(
        seq![
            ("content"@, JsonV::Text(t.content@)),
            ("activeForm"@, JsonV::Text(t.active_form@)),
            ("status"@, JsonV::Text(t.status@)),
        ],
    )
}

/// The list of things to do as the user interface gets it.
pub fn get_session_todos_json(s: &Sessions, conv_id: &str) -> (r: Vec<Json>)
    ensures
        r@.len() == s.todos(conv_id@).len(),
        forall|i: int| 0 <= i < r@.len() ==> (#[trigger] r@[i])@ == todo_json(s.todos(conv_id@)[i]),
{
    let todos = session_todos(s, conv_id);
    let mut out: Vec<Json> = Vec::new();
    for i in 0..todos.len()
        invariant
            out@.len() == i,
            forall|j: int| 0 <= j < i ==> (#[trigger] out@[j])@ == todo_json(todos@[j]),
    {
        let t = &todos[i];
        let mut members: Vec<(String, Json)> = Vec::new();
        members.push(("content".to_owned(), Json::Text(t.content.clone())));
        members.push(("activeForm".to_owned(), Json::Text(t.active_form.clone())));
        members.push(("status".to_owned(), Json::Text(t.status.clone())));
        let j = Json::Object(members);
        proof {
            reveal_with_fuel(Json::model, 3);
            assert(j@->Object_0 =~= todo_json(*t)->Object_0);
        }
        out.push(j);
    }
    out
}

/// The mark of a thing to do, by its status.
pub open spec fn todo_mark(status: Seq<char>) -> Seq<char> {
    if status == "completed"@ {
        "[x]"@
    } else if status == "in_progress"@ {
        "[~]"@
    } else {
        "[ ]"@
    }
}

/// The mark of a thing to do.
pub fn mark_of(status: &str) -> (r: &'static str)
    ensures
        r@ == todo_mark(status@),
{
    if text::same(status, "completed") {
        "[x]"
    } else if text::same(status, "in_progress") {
        "[~]"
    } else {
        "[ ]"
    }
}

/// The line for the thing to do at place `i`.
pub open spec fn todo_line(i: int, t: TodoItem) -> Seq<char> {
    text::decimal((i + 1) as nat) + ". "@ + todo_mark(t.status@) + " "@ + (if t.status@
        == "in_progress"@ && t.active_form@.len() > 0 {
        t.active_form@
    } else {
        t.content@
    }) + "\n"@
}

/// The lines for the first `n` things to do.
pub open spec fn todo_lines(todos: Seq<TodoItem>, n: nat) -> Seq<char>
    decreases n,
{
    if n == 0 {
        Seq::empty()
    } else {
        todo_lines(todos, (n - 1) as nat) + todo_line(n - 1, todos[n - 1])
    }
}

pub const TODO_HEADER: &'static str = "\n\n## Current task list (your TODOs)\n";

pub const TODO_FOOTER: &'static str =
    "\nKeep exactly one task `in_progress`. Mark each task `completed` immediately after finishing it. Use `todo_write` to update the list.\n";

/// The list of things to do as the prompt shows it.
pub open spec fn todos_prompt(todos: Seq<TodoItem>) -> Seq<char> {
    if todos.len() == 0 {
        Seq::empty()
    } else {
        TODO_HEADER@ + todo_lines(todos, todos.len()) + TODO_FOOTER@
    }
}

/// The list of things to do as the prompt shows it; nothing for an empty one.
pub fn format_todos_for_prompt(s: &Sessions, conv_id: &str) -> (r: String)
    ensures
        r@ == todos_prompt(s.todos(conv_id@)),
{
    let todos = session_todos(s, conv_id);
    if todos.len() == 0 {
        return String::new();
    }
    let mut out = TODO_HEADER.to_owned();
    for i in 0..todos.len()
        invariant
            out@ == TODO_HEADER@ + todo_lines(todos@, i as nat),
    {
        let t = &todos[i];
        let ghost before = out@;
        out.append(&text::number(i as u64 + 1));
        out.append(". ");
        out.append(mark_of(&t.status));
        out.append(" ");
        if text::same(&t.status, "in_progress") && !t.active_form.as_str().is_empty() {
            out.append(&t.active_form);
        } else {
            out.append(&t.content);
        }
        out.append("\n");
        assert(out@ =~= before + todo_line(i as int, *t));
        assert(out@ =~= TODO_HEADER@ + todo_lines(todos@, (i + 1) as nat));
    }
    out.append(TODO_FOOTER);
    out
}

/// The answer to a new list of things to do.
pub open spec fn todo_summary(todos: Seq<TodoItem>) -> Seq<char> {
    "Task list updated ("@ + text::decimal(todos.len()) + " items):\n"@ + plain_todo_lines(
        todos,
        todos.len(),
    )
        + "\nContinue with the in_progress task. Update statuses as you complete each item."@
}

/// The lines of the answer for the first `n` things to do.
pub open spec fn plain_todo_lines(todos: Seq<TodoItem>, n: nat) -> Seq<char>
    decreases n,
{
    if n == 0 {
        Seq::empty()
    } else {
        plain_todo_lines(todos, (n - 1) as nat) + ("  "@ + text::decimal(n) + ". "@ + todo_mark(
            todos[n - 1].status@,
        ) + " "@ + todos[n - 1].content@ + "\n"@)
    }
}

/// Takes a new list of things to do and gives the answer to it.
pub fn write_todos(s: &mut Sessions, conv_id: &str, todos: Vec<TodoItem>) -> (r: String)
    ensures
        r@ == todo_summary(todos@),
        final(s).todos(conv_id@) == todos@,
        final(s).only_todos(*old(s), conv_id@),
{
    let mut out = "Task list updated (".to_owned();
    out.append(&text::number(todos.len() as u64));
    out.append(" items):\n");
    let ghost head = out@;
    for i in 0..todos.len()
        invariant
            out@ == head + plain_todo_lines(todos@, i as nat),
    {
        let t = &todos[i];
        let ghost before = out@;
        out.append("  ");
        out.append(&text::number(i as u64 + 1));
        out.append(". ");
        out.append(mark_of(&t.status));
        out.append(" ");
        out.append(&t.content);
        out.append("\n");
        assert(out@ =~= before + ("  "@ + text::decimal((i + 1) as nat) + ". "@ + todo_mark(
            t.status@,
        ) + " "@ + t.content@ + "\n"@));
        assert(out@ =~= head + plain_todo_lines(todos@, (i + 1) as nat));
    }
    out.append("\nContinue with the in_progress task. Update statuses as you complete each item.");
    set_todos(s, conv_id, todos);
    out
}

/// Takes a call that writes the list of things to do, as far as its list could be
/// read: the result of the call, and what the user interface is told of the new
/// list.
pub fn write_list(
    s: &mut Sessions,
    id: &str,
    conv_id: &str,
    read: Result<Vec<TodoItem>, String>,
) -> (r: (String, Option<IPCResponse>))
    ensures
        match read {
            Ok(todos) => {
                &&& r.0@ == todo_summary(todos@)
                &&& final(s).todos(conv_id@) == todos@
                &&& final(s).only_todos(*old(s), conv_id@)
                &&& r.1 matches Some(IPCResponse::SessionTodos {
                    id: i,
                    conversation_id,
                    todos: told,
                }) && i@ == id@ && conversation_id@ == conv_id@ && told@.len() == todos@.len()
                    && forall|k: int|
                    0 <= k < told@.len() ==> (#[trigger] told@[k])@ == todo_json(todos@[k])
            },
            Err(e) => {
                &&& r.0@ == "Error: invalid todo list: "@ + e@
                &&& r.1 is None
                &&& *final(s) == *old(s)
            },
        },
{
    match read {
        Ok(todos) => {
            let summary = write_todos(s, conv_id, todos);
            let told = IPCResponse::SessionTodos {
                id: id.to_owned(),
                conversation_id: conv_id.to_owned(),
                todos: get_session_todos_json(s, conv_id),
            };
            (summary, Some(told))
        },
        Err(e) => {
            let mut t = "Error: invalid todo list: ".to_owned();
            t.append(&e);
            (t, None)
        },
    }
}

/// Undoing an edit right after it was noted gives back the content from before
/// it, and leaves the history that was there; unless the oldest version had to
/// go, in which case that one is gone.
pub proof fn undo_restores_the_noted_content(history: Seq<Seq<char>>, content: Seq<char>)
    ensures
        noted(history, content).len() > 0,
        noted(history, content).last() == content,
        (history.len() == 0 || history.last() != content) && history.len() < MAX_SNAPSHOTS
            ==> noted(history, content).drop_last() == history,
        (history.len() == 0 || history.last() != content) && history.len() >= MAX_SNAPSHOTS
            ==> noted(history, content).drop_last() == history.skip(1),
{
    assert(history.push(content).drop_last() =~= history);
    assert(history.len() > 0 ==> history.skip(1).push(content).drop_last() =~= history.skip(1));
}

/// The history after a sequence of edits, each noted before it is made.
pub open spec fn after_edits(contents: Seq<Seq<char>>) -> Seq<Seq<char>>
    decreases contents.len(),
{
    if contents.len() == 0 {
        Seq::empty()
    } else {
        noted(after_edits(contents.drop_last()), contents.last())
    }
}

/// However often a file is edited, its history holds at most twenty versions,
/// no two alike next to each other, and the last one on top.
pub proof fn history_is_bounded(contents: Seq<Seq<char>>)
    ensures
        after_edits(contents).len() <= MAX_SNAPSHOTS,
        contents.len() > 0 ==> after_edits(contents).len() > 0 && after_edits(contents).last()
            == contents.last(),
        forall|i: int|
            0 <= i < after_edits(contents).len() - 1 ==> #[trigger] after_edits(contents)[i]
                != after_edits(contents)[i + 1],
    decreases contents.len(),
{
    if contents.len() > 0 {
        let before = after_edits(contents.drop_last());
        let after = after_edits(contents);
        history_is_bounded(contents.drop_last());
        assert forall|i: int| 0 <= i < after.len() - 1 implies #[trigger] after[i] != after[i
            + 1] by {
            if before.len() > 0 && before.last() == contents.last() {
                assert(before[i] != before[i + 1]);
            } else if before.len() >= MAX_SNAPSHOTS {
                if i + 1 < after.len() - 1 {
                    assert(before[i + 1] != before[i + 2]);
                }
            } else if i + 1 < after.len() - 1 {
                assert(before[i] != before[i + 1]);
            }
        }
    }
}

} // verus!
