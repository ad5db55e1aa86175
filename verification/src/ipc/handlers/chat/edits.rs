//! What the tools that change files answer, and what is kept of the change.

use crate::ipc::handlers::chat::files;
use crate::ipc::handlers::chat::patch;
use crate::ipc::handlers::chat::session;
use crate::ipc::handlers::chat::session::Sessions;
use crate::json::{Json, JsonV};
use crate::llm::types::text_view;
use crate::text;
use vstd::prelude::*;

verus! {

// ---------------------------------------------------------------------------
// What is remembered of a file
// ---------------------------------------------------------------------------

/// The pattern by which it is seen that a file is remembered already.
pub fn index_pattern(path: &str) -> (r: String)
    ensures
        r@ == "%\"path\":\""@ + path@ + "%"@,
{
    files::three("%\"path\":\"", path, "%")
}

/// The title under which a file is remembered.
pub open spec fn index_title_text(
    path: Seq<char>,
    file_name: Option<Seq<char>>,
    action: Seq<char>,
) -> Seq<char> {
    (match file_name {
        Some(n) => n,
        None => path,
    }) + " ("@ + action + ")"@
}

/// What is noted of a file that is remembered.
pub open spec fn index_meta(path: Seq<char>, action: Seq<char>, conv: Seq<char>) -> JsonV {
    JsonV::Object(
        seq![
            ("path"@, JsonV::Text(path)),
            ("action"@, JsonV::Text(action)),
            ("conversation_id"@, JsonV::Text(conv)),
            ("source"@, JsonV::Text("auto_index"@)),
        ],
    )
}

/// How a file that was read or changed is remembered: its title, and what is
/// noted of it. A file that is remembered already is passed over.
pub fn auto_index_file(
    known: bool,
    conv_id: &str,
    abs_path: &str,
    file_name: &Option<String>,
    action: &str,
) -> (r: Option<(String, Json)>)
    ensures
        r is None <==> known,
        r matches Some((title, meta)) ==> title@ == index_title_text(
            abs_path@,
            match *file_name {
                Some(n) => Some(n@),
                None => None,
            },
            action@,
        ) && meta@ == index_meta(abs_path@, action@, conv_id@),
{
    if known {
        return None;
    }
    let mut title = match file_name {
        Some(n) => n.clone(),
        None => abs_path.to_owned(),
    };
    title.append(" (");
    title.append(action);
    title.append(")");
    let meta = Json::Object(
        vec![
            ("path".to_owned(), Json::Text(abs_path.to_owned())),
            ("action".to_owned(), Json::Text(action.to_owned())),
            ("conversation_id".to_owned(), Json::Text(conv_id.to_owned())),
            ("source".to_owned(), Json::Text("auto_index".to_owned())),
        ],
    );
    proof {
        reveal_with_fuel(Json::model, 3);
        assert(meta@->Object_0 =~= index_meta(abs_path@, action@, conv_id@)->Object_0);
    }
    Some((title, meta))
}

// ---------------------------------------------------------------------------
// Directories
// ---------------------------------------------------------------------------

/// What a path turned out to be.
#[derive(Debug)]
pub enum Place {
    Directory { path: String },
    /// It is there, but is no directory.
    Other { path: String },
    /// It cannot be resolved.
    Missing { error: String },
}

/// The directory that a tool works in, or the answer where it is none.
pub fn directory_of(resolved: &str, place: Place) -> (r: Result<String, String>)
    ensures
        match (place, r) {
            (Place::Directory { path }, Ok(p)) => p@ == path@,
            (Place::Other { path }, Err(e)) => e@ == "Error: '"@ + path@ + "' is not a directory"@,
            (Place::Missing { error }, Err(e)) => e@ == "Error: cannot resolve '"@ + resolved@
                + "': "@ + error@,
            _ => false,
        },
{
    match place {
        Place::Directory { path } => Ok(path),
        Place::Other { path } => Err(files::three("Error: '", &path, "' is not a directory")),
        Place::Missing { error } => {
            let mut e = files::three("Error: cannot resolve '", resolved, "': ");
            e.append(&error);
            Err(e)
        },
    }
}

/// Changes the working directory of a conversation. Answers what was done, and
/// whether the files of the directory are to be indexed.
pub fn change_dir(s: &mut Sessions, conv_id: &str, resolved: &str, place: Place) -> (r: (
    String,
    bool,
))
    ensures
        match place {
            Place::Directory { path } => {
                &&& r.0@ == "Changed directory to: "@ + path@
                    + " - indexing files for semantic search."@
                &&& r.1
                &&& final(s).cwd(conv_id@) == Some(path@)
                &&& final(s).only_cwd(*old(s), conv_id@)
            },
            Place::Other { path } => {
                &&& r.0@ == "Error: '"@ + path@ + "' is not a directory"@
                &&& !r.1
                &&& *final(s) == *old(s)
            },
            Place::Missing { error } => {
                &&& r.0@ == "Error: cannot change to '"@ + resolved@ + "': "@ + error@
                &&& !r.1
                &&& *final(s) == *old(s)
            },
        },
{
    match place {
        Place::Directory { path } => {
            let answer = files::three(
                "Changed directory to: ",
                &path,
                " - indexing files for semantic search.",
            );
            session::set_session_cwd(s, conv_id, path);
            (answer, true)
        },
        Place::Other { path } => (
            files::three("Error: '", &path, "' is not a directory"),
            false,
        ),
        Place::Missing { error } => {
            let mut e = files::three("Error: cannot change to '", resolved, "': ");
            e.append(&error);
            (e, false)
        },
    }
}

// ---------------------------------------------------------------------------
// Writing, undoing, comparing, patching
// ---------------------------------------------------------------------------

/// The model of an outcome without a value.
pub open spec fn done_view(r: Result<(), String>) -> Result<(), Seq<char>> {
    match r {
        Ok(_) => Ok(()),
        Err(e) => Err(e@),
    }
}

/// A text for an outcome.
pub open spec fn done_text(done: Result<(), Seq<char>>, good: Seq<char>, bad: Seq<char>) -> Seq<
    char,
> {
    match done {
        Ok(_) => good,
        Err(e) => bad + e,
    }
}

/// The answer for an outcome: one text where it is good, another with the error
/// behind it where it is not.
pub fn done_answer(done: &Result<(), String>, good: String, bad: &str) -> (r: String)
    ensures
        r@ == done_text(done_view(*done), good@, bad@),
{
    match done {
        Ok(_) => good,
        Err(e) => {
            let mut t = bad.to_owned();
            t.append(e);
            t
        },
    }
}

/// What a file holds is noted before it is changed; nothing is where it cannot be
/// read.
pub open spec fn notes(
    before: Sessions,
    conv: Seq<char>,
    key: Seq<char>,
    content: Option<Seq<char>>,
    after: Sessions,
) -> bool {
    &&& after.history(conv, key) == (match content {
        Some(c) => session::noted(before.history(conv, key), c),
        None => before.history(conv, key),
    })
    &&& after.only_history(before, conv, key)
}

/// Begins a writing or an edit of a file: what it holds now, if it can be read, is
/// noted in its history under `key`, so that the change can be undone.
pub fn begin_write(s: &mut Sessions, conv_id: &str, key: &str, before: Option<String>)
    ensures
        notes(*old(s), conv_id@, key@, text_view(before), *final(s)),
{
    if let Some(c) = before {
        session::snapshot_file(s, conv_id, key, c);
    }
}

/// Ends a writing of a file: the answer, and whether the file is remembered,
/// which it is if it was written.
pub fn finish_write(path: &str, content: &str, done: &Result<(), String>) -> (r: (String, bool))
    ensures
        r.0@ == done_text(
            done_view(*done),
            "Wrote "@ + path@ + " ("@ + text::decimal(text::byte_count(content@)) + " bytes)"@,
            "Error: "@,
        ),
        r.1 == (*done is Ok),
{
    let mut t = files::three("Wrote ", path, " (");
    t.append(&text::number(text::byte_len(content) as u64));
    t.append(" bytes)");
    (done_answer(done, t, "Error: "), done.is_ok())
}

/// Ends an edit of a file: the answer, and whether the file is remembered, which
/// it is if it was edited.
pub fn finish_edit(done: Result<String, String>) -> (r: (String, bool))
    ensures
        r.0@ == files::plain(files::outcome_view(done)),
        r.1 == (done is Ok),
{
    let good = done.is_ok();
    (files::plain_answer(done), good)
}

/// Follows a reading of a file: what was read is noted in its history under `key`
/// and the file is remembered, if it could be read.
pub fn after_read(s: &mut Sessions, conv_id: &str, key: &str, read: &Result<String, String>) -> (r:
    bool)
    ensures
        r == (*read is Ok),
        notes(
            *old(s),
            conv_id@,
            key@,
            match *read {
                Ok(c) => Some(c@),
                Err(_) => None,
            },
            *final(s),
        ),
{
    match read {
        Ok(c) => {
            session::snapshot_file(s, conv_id, key, c.clone());
            true
        },
        Err(_) => false,
    }
}

/// What is compared to show what a conversation has changed in a file.
#[derive(Debug)]
pub enum Comparison {
    /// The answer is known.
    Answer { text: String },
    /// The file is compared with what it was.
    Compare { before: String },
}

/// How it is shown what a conversation has changed in a file. Its history is kept
/// under `key`, and `path` is what it is called in the answer.
pub fn file_diff(
    s: &Sessions,
    conv_id: &str,
    key: &str,
    path: &str,
    current: &Result<String, String>,
) -> (r: Comparison)
    ensures
        match *current {
            Err(e) => r matches Comparison::Answer { text } && text@
                == "Error reading current file: "@ + e@,
            Ok(now) => {
                let h = s.history(conv_id@, key@);
                if h.len() == 0 {
                    r matches Comparison::Answer { text } && text@ == "No snapshot for "@ + path@
                        + ": no edits have been made to this file yet in this conversation."@
                } else if h.first() == now@ {
                    r matches Comparison::Answer { text } && text@ == "No changes to "@ + path@
                        + " in this conversation."@
                } else {
                    r matches Comparison::Compare { before } && before@ == h.first()
                }
            },
        },
{
    match current {
        Err(e) => {
            let mut text = "Error reading current file: ".to_owned();
            text.append(e);
            Comparison::Answer { text }
        },
        Ok(now) => match session::get_snapshot(s, conv_id, key) {
            None => Comparison::Answer {
                text: files::three(
                    "No snapshot for ",
                    path,
                    ": no edits have been made to this file yet in this conversation.",
                ),
            },
            Some(before) => if text::same(&before, now) {
                Comparison::Answer {
                    text: files::three("No changes to ", path, " in this conversation."),
                }
            } else {
                Comparison::Compare { before }
            },
        },
    }
}

/// What an undoing writes, or the answer where there is nothing to undo: the last
/// version that was noted, which goes out of the history.
pub open spec fn undoes(
    before: Sessions,
    conv: Seq<char>,
    key: Seq<char>,
    path: Seq<char>,
    after: Sessions,
    r: Result<String, String>,
) -> bool {
    let h = before.history(conv, key);
    &&& match r {
        Ok(c) => h.len() > 0 && c@ == h.last() && after.history(conv, key) == h.drop_last(),
        Err(e) => h.len() == 0 && after.history(conv, key).len() == 0 && e@
            == "No undo history for "@ + path + "."@,
    }
    &&& after.only_history(before, conv, key)
}

/// What an undoing writes, or the answer where there is nothing to undo. The
/// history of the file is kept under `key`.
pub fn begin_undo(s: &mut Sessions, conv_id: &str, key: &str, path: &str) -> (r: Result<
    String,
    String,
>)
    ensures
        undoes(*old(s), conv_id@, key@, path@, *final(s), r),
{
    match session::pop_snapshot(s, conv_id, key) {
        Some(c) => Ok(c),
        None => Err(files::three("No undo history for ", path, ".")),
    }
}

/// The answer to an undoing.
pub open spec fn undo_text(path: Seq<char>, bytes: nat, left: nat) -> Seq<char> {
    "Restored "@ + path + " ("@ + text::decimal(bytes) + " bytes). "@ + text::decimal(left)
        + " undo level"@ + (if left == 1 {
        Seq::empty()
    } else {
        "s"@
    }) + " remaining."@
}

/// The answer to an undoing, once the file was written. The history of the file
/// is kept under `key`.
pub fn finish_undo(
    s: &Sessions,
    conv_id: &str,
    key: &str,
    path: &str,
    restored: &str,
    done: &Result<(), String>,
) -> (r: String)
    ensures
        r@ == done_text(
            done_view(*done),
            undo_text(
                path@,
                text::byte_count(restored@),
                s.history(conv_id@, key@).len(),
            ),
            "Error: "@,
        ),
{
    let left: usize = session::undo_depth(s, conv_id, key);
    let mut t = files::three("Restored ", path, " (");
    t.append(&text::number(text::byte_len(restored) as u64));
    t.append(" bytes). ");
    t.append(&text::number(left as u64));
    t.append(" undo level");
    if left != 1 {
        t.append("s");
    } else {
        assert(t@ =~= t@ + Seq::<char>::empty());
    }
    t.append(" remaining.");
    done_answer(done, t, "Error: ")
}

/// The answer to a diff that was applied.
pub open spec fn patched_text(path: Seq<char>, before: nat, after: nat) -> Seq<char> {
    "Applied patch to "@ + path + " ("@ + text::decimal(before) + " \u{2192} "@ + text::decimal(
        after,
    ) + " bytes)"@
}

/// What a diff makes of a file, or the answer where it cannot be applied. None
/// where the diff begins behind the file or has a line that cannot be read. What
/// the file holds, if it can be read, is noted first in its history under `key`.
pub fn begin_patch(
    s: &mut Sessions,
    conv_id: &str,
    key: &str,
    path: &str,
    original: &Result<String, String>,
    diff: &str,
) -> (r: Option<Result<String, String>>)
    ensures
        notes(
            *old(s),
            conv_id@,
            key@,
            match *original {
                Ok(o) => Some(o@),
                Err(_) => None,
            },
            *final(s),
        ),
        match *original {
            Err(e) => r matches Some(Err(a)) && a@ == "Error reading '"@ + path@ + "': "@ + e@,
            Ok(o) => match patch::patch_result(o@, diff@) {
                None => r is None,
                Some(Ok(t)) => r matches Some(Ok(p)) && p@ == t,
                Some(Err(e)) => r matches Some(Err(a)) && a@ == "Error: patch failed: "@ + e,
            },
        },
{
    match original {
        Err(e) => {
            let mut a = files::three("Error reading '", path, "': ");
            a.append(e);
            Some(Err(a))
        },
        Ok(o) => {
            session::snapshot_file(s, conv_id, key, o.clone());
            match patch::patch_if_possible(o, diff) {
                None => None,
                Some(Ok(t)) => Some(Ok(t)),
                Some(Err(e)) => {
                    let mut a = "Error: patch failed: ".to_owned();
                    a.append(&e);
                    Some(Err(a))
                },
            }
        },
    }
}

/// Ends the application of a diff: the answer, and whether the file is remembered,
/// which it is if it was written.
pub fn finish_patch(path: &str, original: &str, patched: &str, done: &Result<(), String>) -> (r: (
    String,
    bool,
))
    ensures
        r.1 == (*done is Ok),
        r.0@ == done_text(
            done_view(*done),
            patched_text(path@, text::byte_count(original@), text::byte_count(patched@)),
            "Error writing patched file: "@,
        ),
{
    let mut t = files::three("Applied patch to ", path, " (");
    t.append(&text::number(text::byte_len(original) as u64));
    t.append(" \u{2192} ");
    t.append(&text::number(text::byte_len(patched) as u64));
    t.append(" bytes)");
    (done_answer(done, t, "Error writing patched file: "), done.is_ok())
}

/// Writings are undone one by one: after up to twenty writings of a file, each of
/// which changed it, the same number of undoings leads back through all versions
/// of it to the first, and one more finds nothing to undo. `v` are the versions,
/// `w` the sessions as the file was written, and `u` as it was undone.
pub proof fn writings_are_undone_one_by_one(
    conv: Seq<char>,
    key: Seq<char>,
    path: Seq<char>,
    v: Seq<Seq<char>>,
    w: Seq<Sessions>,
    u: Seq<Sessions>,
    r: Seq<Result<String, String>>,
    i: int,
)
    requires
        1 <= v.len() <= session::MAX_SNAPSHOTS + 1,
        forall|j: int| 0 <= j < v.len() - 1 ==> #[trigger] v[j] != v[j + 1],
        w.len() == v.len(),
        w[0].history(conv, key).len() == 0,
        forall|j: int|
            0 <= j < w.len() - 1 ==> notes(#[trigger] w[j], conv, key, Some(v[j]), w[j + 1]),
        u.len() == v.len() + 1,
        r.len() == v.len(),
        u[0] == w.last(),
        forall|j: int| 0 <= j < r.len() ==> undoes(#[trigger] u[j], conv, key, path, u[j + 1], r[j]),
        1 <= i <= v.len(),
    ensures
        i < v.len() ==> (r[i - 1] matches Ok(c) && c@ == v[v.len() - 1 - i]) && u[i].history(
            conv,
            key,
        ).len() == v.len() - 1 - i,
        i == v.len() ==> (r[i - 1] matches Err(e) && e@ == "No undo history for "@ + path + "."@),
{
    written_versions(conv, key, v, w, v.len() - 1);
    left_versions(conv, key, path, v, u, r, i - 1);
    assert(undoes(u[i - 1], conv, key, path, u[i - 1 + 1], r[i - 1]));
}

proof fn written_versions(
    conv: Seq<char>,
    key: Seq<char>,
    v: Seq<Seq<char>>,
    w: Seq<Sessions>,
    n: int,
)
    requires
        v.len() <= session::MAX_SNAPSHOTS + 1,
        forall|j: int| 0 <= j < v.len() - 1 ==> #[trigger] v[j] != v[j + 1],
        w.len() == v.len(),
        w[0].history(conv, key).len() == 0,
        forall|j: int|
            0 <= j < w.len() - 1 ==> notes(#[trigger] w[j], conv, key, Some(v[j]), w[j + 1]),
        0 <= n < v.len(),
    ensures
        w[n].history(conv, key) == v.take(n),
    decreases n,
{
    if n == 0 {
        assert(w[0].history(conv, key) =~= v.take(0));
    } else {
        written_versions(conv, key, v, w, n - 1);
        assert(notes(w[n - 1], conv, key, Some(v[n - 1]), w[n - 1 + 1]));
        if n >= 2 {
            assert(v[n - 2] != v[n - 2 + 1]);
        }
        assert(v.take(n - 1).push(v[n - 1]) =~= v.take(n));
    }
}

proof fn left_versions(
    conv: Seq<char>,
    key: Seq<char>,
    path: Seq<char>,
    v: Seq<Seq<char>>,
    u: Seq<Sessions>,
    r: Seq<Result<String, String>>,
    n: int,
)
    requires
        v.len() > 0,
        u.len() == v.len() + 1,
        r.len() == v.len(),
        u[0].history(conv, key) == v.take(v.len() - 1),
        forall|j: int| 0 <= j < r.len() ==> undoes(#[trigger] u[j], conv, key, path, u[j + 1], r[j]),
        0 <= n < v.len(),
    ensures
        u[n].history(conv, key) == v.take(v.len() - 1 - n),
    decreases n,
{
    if n > 0 {
        left_versions(conv, key, path, v, u, r, n - 1);
        assert(undoes(u[n - 1], conv, key, path, u[n - 1 + 1], r[n - 1]));
        assert(v.take(v.len() - n).drop_last() =~= v.take(v.len() - 1 - n));
    }
}

} // verus!
