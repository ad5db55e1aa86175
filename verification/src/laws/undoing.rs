//! What a conversation keeps and takes back.

use crate::ipc::handlers::chat::edits::{
    after_read, auto_index_file, begin_patch, begin_undo, begin_write, change_dir, file_diff,
    finish_edit, finish_patch, finish_write, index_pattern, Comparison, Place,
};
use crate::ipc::handlers::chat::patch::patch_result;
use crate::ipc::handlers::chat::session::{
    clear_conversation_state, format_todos_for_prompt, get_session_cwd, get_session_todos_json,
    get_snapshot, resolve_conv_path, set_session_cwd, snapshot_file, todo_json, todos_prompt,
    undo_depth, write_list, write_todos, ConvPath, Sessions, TodoItem,
};
use crate::ipc::protocol::IPCResponse;
use crate::json::{Json, JsonV};
use crate::laws::noting::notes;
use crate::laws::working::twenty_versions_are_kept;
use crate::text;
use vstd::prelude::*;

verus! {

/// A change of a file is undone by the next undoing: what the file held before it comes
/// back.
pub proof fn an_undoing_takes_back_the_last_change(
    s: &mut Sessions,
    t: &mut Sessions,
    conv: &str,
    key: &str,
    path: &str,
    before: String,
    r: Result<String, String>,
)
    requires
        old(s).history(conv@, key@).len() <= 20,
        call_ensures(begin_write, (s, conv, key, Some(before)), ()),
        *old(t) == *final(s),
        call_ensures(begin_undo, (t, conv, key, path), r),
    ensures
        r matches Ok(c) && c@ == before@,
        final(t).history(conv@, key@).len() < final(s).history(conv@, key@).len(),
{
    twenty_versions_are_kept(old(s).history(conv@, key@), before@);
}

/// Without a change there is nothing to undo.
pub proof fn nothing_is_undone_without_a_change(
    s: &mut Sessions,
    conv: &str,
    key: &str,
    path: &str,
    r: Result<String, String>,
)
    requires
        call_ensures(begin_undo, (s, conv, key, path), r),
    ensures
        r is Err <==> old(s).history(conv@, key@).len() == 0,
        r matches Err(e) ==> e@ == "No undo history for "@ + path@ + "."@,
        forall|c: Seq<char>, k: Seq<char>|
            !(c == conv@ && k == key@) ==> #[trigger] final(s).history(c, k) == old(s).history(
                c,
                k,
            ),
{
}

/// A file is noted when it is read, when it is written and when a diff is applied to it,
/// and its other histories stay.
pub proof fn files_are_noted(
    s: &mut Sessions,
    conv: &str,
    key: &str,
    path: &str,
    content: String,
    read: bool,
    diff: &str,
    p: Option<Result<String, String>>,
)
    requires
        old(s).history(conv@, key@).len() <= 20,
    ensures
        call_ensures(after_read, (s, conv, key, &Ok::<String, String>(content)), read) ==> read
            && final(s).history(conv@, key@).len() > 0 && final(s).history(conv@, key@).last()
            == content@,
        call_ensures(
            begin_patch,
            (s, conv, key, path, &Ok::<String, String>(content), diff),
            p,
        ) ==> final(s).history(conv@, key@).len() > 0 && final(s).history(conv@, key@).last()
            == content@ && (patch_result(content@, diff@) matches Some(Ok(t)) ==> (
        p matches Some(Ok(x)) && x@ == t)) && (patch_result(content@, diff@) matches Some(Err(e))
            ==> (p matches Some(Err(x)) && x@ == "Error: patch failed: "@ + e)),
        call_ensures(snapshot_file, (s, conv, key, content), ()) ==> final(s).history(
            conv@,
            key@,
        ).len() > 0 && final(s).history(conv@, key@).last() == content@,
{
    twenty_versions_are_kept(old(s).history(conv@, key@), content@);
}

/// The oldest version of a file is what its changes are told against.
pub proof fn changes_are_told_against_the_oldest(
    s: &Sessions,
    conv: &str,
    key: &str,
    path: &str,
    now: String,
    r: Comparison,
    v: Option<String>,
    d: usize,
)
    ensures
        call_ensures(file_diff, (s, conv, key, path, &Ok::<String, String>(now)), r) ==> ({
            let h = s.history(conv@, key@);
            &&& h.len() > 0 && h[0] != now@ ==> (r matches Comparison::Compare { before } && before@
                == h[0])
            &&& h.len() == 0 || h[0] == now@ ==> r is Answer
        }),
        call_ensures(get_snapshot, (s, conv, key), v) ==> (v matches Some(c) ==> c@ == s.history(
            conv@,
            key@,
        )[0]) && (v is None <==> s.history(conv@, key@).len() == 0),
        call_ensures(undo_depth, (s, conv, key), d) ==> d == s.history(conv@, key@).len(),
{
}

/// The answers to changes tell the file and its bytes, or what went wrong; a file is
/// remembered where the change was made.
pub proof fn answers_tell_what_was_changed(
    path: &str,
    content: &str,
    done: &Result<(), String>,
    r: (String, bool),
    edit: Result<String, String>,
)
    ensures
        call_ensures(finish_write, (path, content, done), r) ==> r.1 == (*done is Ok) && (*done is Ok
            ==> r.0@ == "Wrote "@ + path@ + " ("@ + text::decimal(text::byte_count(content@))
            + " bytes)"@) && (*done matches Err(e) ==> r.0@ == "Error: "@ + e@),
        call_ensures(finish_edit, (edit,), r) ==> r.1 == (edit is Ok) && (edit matches Ok(t) ==> r.0@
            == t@) && (edit matches Err(e) ==> r.0@ == "Error: "@ + e@),
        call_ensures(finish_patch, (path, content, content, done), r) ==> r.1 == (*done is Ok) && (
        *done matches Err(e) ==> r.0@ == "Error writing patched file: "@ + e@),
{
}

/// The working directory of a conversation is the one that was set, and no other
/// conversation is moved.
pub proof fn the_working_directory_stays(
    s: &mut Sessions,
    conv: &str,
    path: String,
    other: &str,
    start: &str,
    here: String,
    there: String,
    file: &str,
    absolute: bool,
    f: ConvPath,
)
    requires
        call_ensures(set_session_cwd, (s, conv, path), ()),
        call_ensures(get_session_cwd, (final(s), conv, start), here),
        call_ensures(get_session_cwd, (final(s), other, start), there),
        call_ensures(resolve_conv_path, (final(s), conv, file, absolute, start), f),
    ensures
        here@ == path@,
        other@ != conv@ && old(s).cwd(other@) is None ==> there@ == start@,
        f.path@ == file@,
        absolute ==> f.base is None,
        !absolute ==> (f.base matches Some(b) && b@ == path@),
{
}

/// A conversation moves only to directories; anything else is told and changes nothing.
pub proof fn only_directories_are_entered(
    s: &mut Sessions,
    conv: &str,
    resolved: &str,
    place: Place,
    r: (String, bool),
)
    requires
        call_ensures(change_dir, (s, conv, resolved, place), r),
    ensures
        place matches Place::Directory { path } ==> final(s).cwd(conv@) == Some(path@) && r.1,
        !(place is Directory) ==> *final(s) == *old(s) && !r.1 && text::begins(r.0@, "Error: "@),
        forall|c: Seq<char>| c != conv@ ==> #[trigger] final(s).cwd(c) == old(s).cwd(c),
{
    reveal_strlit("Error: ");
    reveal_strlit("Error: '");
    reveal_strlit("Error: cannot change to '");
    if !(place is Directory) {
        assert(r.0@.subrange(0, 7) =~= "Error: "@);
    }
}

/// A list of things to do that was written is the one that is shown and told from then
/// on, in this conversation alone.
pub proof fn a_written_list_is_shown(
    s: &mut Sessions,
    conv: &str,
    todos: Vec<TodoItem>,
    answer: String,
    shown: String,
    told: Vec<Json>,
    other: Seq<char>,
)
    requires
        call_ensures(write_todos, (s, conv, todos), answer),
        call_ensures(format_todos_for_prompt, (final(s), conv), shown),
        call_ensures(get_session_todos_json, (final(s), conv), told),
    ensures
        shown@ == todos_prompt(todos@),
        told@.len() == todos@.len(),
        forall|i: int| 0 <= i < told@.len() ==> (#[trigger] told@[i])@ == todo_json(todos@[i]),
        other != conv@ ==> final(s).todos(other) == old(s).todos(other),
        forall|k: Seq<char>| #[trigger] final(s).history(conv@, k) == old(s).history(conv@, k),
{
}

/// A call that writes the list is told to the user interface with every thing to do; a
/// list that cannot be read changes nothing.
pub proof fn a_new_list_is_told(
    s: &mut Sessions,
    id: &str,
    conv: &str,
    read: Result<Vec<TodoItem>, String>,
    r: (String, Option<IPCResponse>),
)
    requires
        call_ensures(write_list, (s, id, conv, read), r),
    ensures
        read matches Ok(l) ==> final(s).todos(conv@) == l@ && (r.1 matches Some(a)
            && a matches IPCResponse::SessionTodos { id: i, conversation_id, todos } && i@ == id@
            && conversation_id@ == conv@ && todos@.len() == l@.len()),
        read matches Err(e) ==> *final(s) == *old(s) && r.1 is None && text::begins(
            r.0@,
            "Error:"@,
        ) && text::ends(r.0@, e@),
{
    if let Err(e) = read {
        reveal_strlit("Error:");
        reveal_strlit("Error: invalid todo list: ");
        assert(r.0@.subrange(0, 6) =~= "Error:"@);
        assert(r.0@.subrange(r.0@.len() - e@.len(), r.0@.len() as int) =~= e@);
    }
}

/// A conversation that is cleared keeps nothing, and all others keep what they had.
pub proof fn a_cleared_conversation_keeps_nothing(
    s: &mut Sessions,
    conv: &str,
    other: Seq<char>,
    path: Seq<char>,
)
    requires
        call_ensures(clear_conversation_state, (s, conv), ()),
    ensures
        final(s).todos(conv@).len() == 0,
        final(s).cwd(conv@) is None,
        final(s).history(conv@, path).len() == 0,
        other != conv@ ==> final(s).todos(other) == old(s).todos(other) && final(s).cwd(other)
            == old(s).cwd(other) && final(s).history(other, path) == old(s).history(other, path),
{
    assert(final(s).forgotten(conv@));
    if other != conv@ {
        assert(final(s).agrees(*old(s), other));
    }
}

/// A file that is known is not remembered again; any other is found again by its path.
pub proof fn a_file_is_remembered_once(
    known: bool,
    conv: &str,
    path: &str,
    name: &Option<String>,
    action: &str,
    r: Option<(String, Json)>,
    p: String,
)
    ensures
        call_ensures(auto_index_file, (known, conv, path, name, action), r) ==> (r is Some
            <==> !known) && (r matches Some((title, meta)) ==> notes(
            meta@,
            "path"@,
            JsonV::Text(path@),
        ) && (*name matches Some(n) ==> title@ == n@ + " ("@ + action@ + ")"@)),
        call_ensures(index_pattern, (path,), p) ==> p@ == "%\"path\":\""@ + path@ + "%"@,
{
    if call_ensures(auto_index_file, (known, conv, path, name, action), r) {
        if let Some((title, meta)) = r {
            let m = meta@->Object_0;
            assert(m[0] == ("path"@, JsonV::Text(path@)));
            assert(m.contains(m[0]));
        }
    }
}

} // verus!
