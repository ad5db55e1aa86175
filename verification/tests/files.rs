use rook::computer_use::context::{get, logs};
use rook::ipc::handlers::chat::answers::{
    cancelled_schedule, enter_command, found_elements, listed_schedules, live_line, lsp_answer,
    memory_answer, memory_hit, memory_note, memory_title, nothing_found, run_mode, scheduled,
    screenshot_answer, stored_fact, stored_memory, ui_click, ui_focus_window, ui_snapshot, ui_type,
    unknown_edit, unread_cadence, unreadable, window_to_describe, Described, RunMode,
};
use rook::ipc::handlers::chat::edits::{
    after_read, auto_index_file, begin_patch, begin_undo, begin_write, change_dir, directory_of,
    file_diff, finish_edit, finish_patch, finish_undo, finish_write, index_pattern, Comparison,
    Place,
};
use rook::ipc::handlers::chat::execute::{execute_tool, search_pool, Edit, ToolPlan};
use rook::ipc::handlers::chat::files::{
    git_diff_for_file, list_answer, plain_answer, read_answer, Entry, Listing,
};
use rook::ipc::handlers::chat::grep::{glob_to_pattern, is_ignored, GrepRun};
use rook::ipc::handlers::chat::outline::{extract_imports, outline_source};
use rook::ipc::handlers::chat::patch::patch_if_possible;
use rook::ipc::handlers::chat::search::{full_glob, glob_answer, search_in_file};
use rook::ipc::handlers::chat::session::{get_session_cwd, snapshot_file, undo_depth, Sessions};
use rook::ipc::handlers::chat::team_tools::build_all_tools;
use rook::ipc::protocol::IPCResponse;
use rook::json::{Json, Number};

fn args(members: Vec<(&str, Json)>) -> Json {
    Json::Object(members.into_iter().map(|(k, v)| (k.to_string(), v)).collect())
}

fn s(v: &str) -> Json {
    Json::Text(v.to_string())
}

fn n(v: u64) -> Json {
    Json::Num(Number::Unsigned(v))
}

fn bad<T>(e: &str) -> Result<T, String> {
    Err(e.to_string())
}

// ---- calls

#[test]
fn a_call_gets_its_defaults() {
    assert!(matches!(
        execute_tool("search_memory", &args(vec![("query", s("x"))])),
        ToolPlan::SearchMemory { limit: 5, pool: 20, .. }
    ));
    assert!(matches!(
        execute_tool("search_memory", &args(vec![("query", s("x")), ("limit", n(99))])),
        ToolPlan::SearchMemory { limit: 15, pool: 60, .. }
    ));
    assert_eq!(search_pool(3), 12);
    assert!(matches!(
        execute_tool("file_read", &args(vec![("path", s("f"))])),
        ToolPlan::FileRead { offset: 0, limit: None, .. }
    ));
    assert!(matches!(
        execute_tool("list_files", &args(vec![])),
        ToolPlan::ListFiles { path, recursive: false, .. } if path == "."
    ));
    assert!(matches!(
        execute_tool("grep", &args(vec![("pattern", s("x"))])),
        ToolPlan::Grep { path, output, max_results: 200, case_insensitive: false, .. }
            if path == "." && output == "files"
    ));
    assert!(matches!(
        execute_tool("shell_spawn", &args(vec![])),
        ToolPlan::ShellSpawn { name } if name == "shell1"
    ));
    assert!(matches!(
        execute_tool("shell_kill", &args(vec![])),
        ToolPlan::ShellKill { name } if name == "default"
    ));
    assert!(matches!(
        execute_tool("git_log", &args(vec![])),
        ToolPlan::GitLog { count: 10 }
    ));
    assert!(matches!(
        execute_tool("git_commit", &args(vec![("message", s("m"))])),
        ToolPlan::GitCommit { files, .. } if files == vec!["."]
    ));
    assert!(matches!(
        execute_tool(
            "git_commit",
            &args(vec![("message", s("m")), ("files", Json::List(vec![s("a"), n(1), s("b")]))])
        ),
        ToolPlan::GitCommit { files, .. } if files == vec!["a", "b"]
    ));
    assert!(matches!(
        execute_tool("lsp_hover", &args(vec![("path", s("f")), ("line", n(0x1_0000_0005))])),
        ToolPlan::LspHover { line: 5, character: 0, .. }
    ));
    assert!(matches!(
        execute_tool(
            "propose_schedule",
            &args(vec![("name", s("n")), ("cadence", s("daily")), ("prompt", s("p"))])
        ),
        ToolPlan::Schedule { channel, why: None, .. } if channel == "notification"
    ));
    assert!(matches!(
        execute_tool("search_in_file", &args(vec![("path", s("f")), ("pattern", s("x"))])),
        ToolPlan::SearchInFile { context: 2, .. }
    ));
}

#[test]
fn a_call_without_what_it_needs_is_answered() {
    let said = |name: &str, a: Vec<(&str, Json)>| match execute_tool(name, &args(a)) {
        ToolPlan::Reply { answer } => answer,
        other => panic!("{:?}", other),
    };
    assert_eq!(said("search_memory", vec![("query", s("  "))]), "search_memory: query is required");
    assert_eq!(said("change_dir", vec![]), "Error: path is required");
    assert_eq!(said("terminal_execute", vec![]), "Error: command is required");
    assert_eq!(said("shell_exec", vec![]), "Error: command is required");
    assert_eq!(said("glob", vec![]), "Error: pattern is required");
    assert_eq!(said("grep", vec![]), "Error: pattern is required");
    assert_eq!(
        said("search_in_file", vec![("path", s("f"))]),
        "Error: path and pattern are required"
    );
    assert_eq!(
        said("apply_patch", vec![("path", s("f"))]),
        "Error: both path and patch are required"
    );
    assert_eq!(said("git_commit", vec![]), "Error: message is required");
    assert_eq!(said("store_memory", vec![]), "Error: content is required");
    assert_eq!(
        said("store_user_fact", vec![("key", s("k"))]),
        "Error: both key and value are required"
    );
    assert_eq!(
        said("schedule_task", vec![("name", s("n"))]),
        "schedule_task: name, cadence, and prompt are required"
    );
    assert_eq!(said("fly", vec![]), "Unknown tool: fly");
}

#[test]
fn edits_are_told_apart() {
    let edit = |a: Vec<(&str, Json)>| match execute_tool("code_edit", &args(a)) {
        ToolPlan::CodeEdit { edit, .. } => edit,
        other => panic!("{:?}", other),
    };
    assert!(matches!(
        edit(vec![("action", s("search_replace")), ("search", s("a"))]),
        Edit::SearchReplace { search, replace } if search == "a" && replace.is_empty()
    ));
    assert!(matches!(
        edit(vec![("action", s("insert_at_line"))]),
        Edit::InsertAtLine { line: 1, .. }
    ));
    assert!(matches!(edit(vec![("action", s("append"))]), Edit::Append { .. }));
    assert!(matches!(edit(vec![("action", s("zap"))]), Edit::Unknown { action } if action == "zap"));
    assert_eq!(
        plain_answer(Err(unknown_edit("zap"))),
        "Error: Unknown code_edit action: zap"
    );
}

#[test]
fn every_offered_tool_is_known() {
    for t in build_all_tools() {
        let p = execute_tool(&t.function.name, &args(vec![]));
        if let ToolPlan::Reply { answer } = p {
            let special = t.function.name == "todo_write";
            assert!(special || !answer.starts_with("Unknown tool"), "{}", answer);
        }
    }
}

// ---- reading

#[test]
fn a_file_is_read_with_numbers() {
    let c = "use a::b;\nfn main() {}\n";
    assert_eq!(
        read_answer(c, "rs", &None, 0, None),
        "     1\tuse a::b;\n     2\tfn main() {}\n\n[Imports/dependencies detected:\n  use a::b\n]\n"
    );
    assert_eq!(
        read_answer("a\nb\nc", "txt", &Some("note".to_string()), 1, Some(1)),
        "note\n     2\tb\n\n[file has 3 lines total - pass offset/limit to read more]"
    );
    assert_eq!(read_answer("a", "txt", &None, 9, Some(u64::MAX)), "");
    let long = "x\n".repeat(2001);
    let r = read_answer(&long, "txt", &None, 0, None);
    assert!(r.contains("  2000\tx\n\n[file has 2001 lines total"));
}

#[test]
fn recent_changes_are_shown_first() {
    assert_eq!(git_diff_for_file(&None, &Some(b"x".to_vec())), None);
    assert_eq!(git_diff_for_file(&Some(b" \n".to_vec()), &None), None);
    assert_eq!(
        git_diff_for_file(&Some(b"\n".to_vec()), &Some(b" +x\xff ".to_vec())).as_deref(),
        Some("[Recent uncommitted changes]\n```diff\n+x\u{fffd}\n```\n")
    );
    let long = "d".repeat(5000);
    let r = git_diff_for_file(&Some(long.into_bytes()), &None).unwrap();
    assert_eq!(r.matches('d').count(), 3000 + "Recent uncommitted```diff".matches('d').count());
}

fn file(name: &str, size: u64) -> Entry {
    Entry { name: name.to_string(), rel: name.to_string(), size, inside: None }
}

fn dir(name: &str, list: Vec<Entry>) -> Entry {
    Entry {
        name: name.to_string(),
        rel: name.to_string(),
        size: 0,
        inside: Some(Listing::Entries { list }),
    }
}

#[test]
fn a_directory_is_listed() {
    let l = Listing::Entries { list: vec![dir("sub", vec![file("in.rs", 3)]), file("A.TXT", 7)] };
    assert_eq!(
        list_answer("/w", false, "", &l),
        "Listing /w (recursive=false)\nsub/  (dir)\nA.TXT  (7 bytes)\n"
    );
    assert_eq!(
        list_answer("/w", true, "", &l),
        "Listing /w (recursive=true)\nsub/  (dir)\n  in.rs  (3 bytes)\nA.TXT  (7 bytes)\n"
    );
    assert_eq!(
        list_answer("/w", true, "txt", &l),
        "Listing /w (recursive=true)\nA.TXT  (7 bytes)\n"
    );
    assert_eq!(
        list_answer("/w", false, "zz", &l),
        "Listing /w (recursive=false)\n  (empty)\n"
    );
    let u = Listing::Unread { error: "denied".to_string() };
    assert_eq!(
        list_answer("/w", false, "", &u),
        "Listing /w (recursive=false)\n  [error: denied]\n  (empty)\n"
    );
    let umlaut = Listing::Entries { list: vec![file("\u{dc}ber.md", 1)] };
    assert!(list_answer("/w", false, "\u{fc}b", &umlaut).contains("1 bytes"));
}

#[test]
fn a_listing_is_bounded() {
    let l = Listing::Entries { list: (0..600).map(|i| file(&format!("f{}", i), 1)).collect() };
    let r = list_answer("/w", false, "", &l);
    assert_eq!(r.matches("bytes)").count(), 500);
    assert!(r.ends_with("  [... truncated at 500 entries]\n"));
}

// ---- searching

#[test]
fn globs_are_answered_from_new_to_old() {
    assert_eq!(full_glob("/w", "*.rs", false), "/w/*.rs");
    assert_eq!(full_glob("/w", "/x/*.rs", true), "/x/*.rs");
    let found = Ok(vec![("a".to_string(), 1), ("b".to_string(), 3), ("c".to_string(), 3)]);
    assert_eq!(glob_answer("*", &found), "3 matches for '*':\nb\nc\na\n");
    assert_eq!(glob_answer("*", &Ok(vec![])), "No files matched pattern '*'");
    assert_eq!(glob_answer("[", &bad("no")), "Error: invalid glob pattern: no");
    let many = Ok((0..201).map(|i| (i.to_string(), 0)).collect());
    let r = glob_answer("*", &many);
    assert!(r.starts_with("201 matches for '*':\n0\n1\n") && r.ends_with("199\n... (1 more)\n"));
}

#[test]
fn lines_are_found_with_those_around_them() {
    let c = "one\ntwo\nthree\nfour\n";
    assert_eq!(
        search_in_file("TWO|four", true, "f", c, 1),
        "2 matches in f:\n\n      1 one\n>     2 two\n      3 three\n---\n      3 three\n>     4 four"
    );
    assert_eq!(search_in_file("two", false, "f", c, 0), "1 matches in f:\n\n>     2 two");
    assert_eq!(search_in_file("TWO", false, "f", c, 0), "No matches for 'TWO' in f");
    assert!(search_in_file("(", false, "f", c, 0).starts_with("Error: invalid regex: "));
    assert!(search_in_file("two", false, "f", c, u64::MAX).contains("four"));
}

#[test]
fn files_are_searched() {
    assert!(is_ignored("node_modules") && !is_ignored("src"));
    assert_eq!(glob_to_pattern("*.r?"), "^.*\\.r.$");
    let mut g = GrepRun::start("needle", "*.rs", "content", false, 1).unwrap();
    assert!(g.wants("a.rs", Some(10)) && !g.wants("a.txt", Some(10)));
    assert!(!g.wants("a.rs", Some(4_194_305)));
    assert_eq!(g.scan("a.rs", "hay\nneedle one\n"), Some(false));
    assert_eq!(g.scan("b.rs", "needle two\n"), Some(true));
    assert_eq!(g.finish(), "1 match(es):\na.rs:2:needle one\n... (1 more not shown)");
    let mut g = GrepRun::start("x", "", "count", false, 10).unwrap();
    let _ = g.scan("a", "x\n");
    let _ = g.scan("b", "x\nx\n");
    assert_eq!(g.finish(), "b: 2\na: 1");
    let mut g = GrepRun::start("x", "", "files", false, 10).unwrap();
    let _ = g.scan("a", "nothing");
    assert_eq!(g.finish(), "(no matches)");
    let _ = g.scan("b", "x");
    assert_eq!(g.finish(), "1 file(s) matched:\nb");
    let long = format!("x{}\u{fc}", "y".repeat(238));
    let mut g = GrepRun::start("x", "", "content", false, 10).unwrap();
    assert_eq!(g.scan("c", &long), None);
    let g = GrepRun::start("x", "", "poem", true, 10).unwrap();
    assert_eq!(g.finish(), "Unknown output mode: poem");
    assert!(matches!(
        GrepRun::start("(", "", "files", false, 10),
        Err(e) if e.starts_with("Error: invalid regex: ")
    ));
}

#[test]
fn sources_are_outlined() {
    let src = "pub fn run() {}\nstruct S;\n\nimpl Display for S {\n";
    assert_eq!(
        outline_source("f.rs", "rs", src),
        "Outline of f.rs (3 symbols):\n      1        fn  run\n      2    struct  S\n      4      impl  S\n"
    );
    assert_eq!(
        outline_source("f.py", "py", "x = 1\n"),
        "No symbols extracted from f.py (unsupported or empty file)."
    );
    assert_eq!(extract_imports("import os\nx\nfrom a import b\n", "py"), vec!["import os", "from a import b"]);
    assert_eq!(extract_imports("use std::fs;\nmod x;\n", "rs"), vec!["use std::fs", "mod x"]);
}

// ---- changing

#[test]
fn patches_are_applied() {
    let p = "--- a\n+++ b\n@@ -1,3 +1,3 @@\n one\n-two\n+TWO\n three\n";
    assert_eq!(
        patch_if_possible("one\ntwo\nthree\n", p),
        Some(Ok("one\nTWO\nthree\n".to_string()))
    );
    assert_eq!(patch_if_possible("a\n", ""), Some(Ok("a\n".to_string())));
    assert_eq!(patch_if_possible("a\n", "@@ -9,1 +9,1 @@\n-x\n+y\n"), None);
    assert!(matches!(
        patch_if_possible("a\n", "@@ -99999999999999999999,1 +1,1 @@\n-x\n"),
        Some(Err(_))
    ));
    let two = "@@ -1 +1,2 @@\n one\n+half\n@@ -3 +4 @@\n-three\n+THREE\n";
    assert_eq!(
        patch_if_possible("one\ntwo\nthree", two),
        Some(Ok("one\nhalf\ntwo\nTHREE".to_string()))
    );
}

#[test]
fn patches_are_answered() {
    let d = "@@ -1 +1 @@\n-a\n+bb\n";
    let mut st = Sessions::new();
    let mut begin =
        |original: Result<String, String>, d| begin_patch(&mut st, "c", "/real/f", "f", &original, d);
    assert_eq!(begin(Ok("a\n".to_string()), d), Some(Ok("bb\n".to_string())));
    assert_eq!(begin(bad("gone"), d), Some(Err("Error reading 'f': gone".to_string())));
    assert!(matches!(
        begin(Ok("a".to_string()), "@@ -99999999999999999999 +1 @@\n"),
        Some(Err(e)) if e.starts_with("Error: patch failed: ")
    ));
    assert_eq!(undo_depth(&st, "c", "/real/f"), 2);
    assert_eq!(
        finish_patch("f", "a\n", "bb\n", &Ok(())),
        ("Applied patch to f (2 \u{2192} 3 bytes)".to_string(), true)
    );
    assert_eq!(
        finish_patch("f", "a", "b", &bad("full")),
        ("Error writing patched file: full".to_string(), false)
    );
}

#[test]
fn writings_are_undone_one_by_one() {
    let mut st = Sessions::new();
    let mut disk = "v0".to_string();
    for i in 1..=20 {
        begin_write(&mut st, "c", "/real/f", Some(disk));
        disk = format!("v{}", i);
    }
    for i in 1..=20 {
        disk = begin_undo(&mut st, "c", "/real/f", "f").unwrap();
        assert_eq!(disk, format!("v{}", 20 - i));
        let told = finish_undo(&st, "c", "/real/f", "f", &disk, &Ok(()));
        assert!(told.contains(&format!(" {} undo level", 20 - i)), "{}", told);
    }
    assert_eq!(begin_undo(&mut st, "c", "/real/f", "f"), Err("No undo history for f.".to_string()));
}

#[test]
fn what_succeeds_is_remembered() {
    let mut st = Sessions::new();
    begin_write(&mut st, "c", "k", None);
    assert!(!after_read(&mut st, "c", "k", &bad("gone")));
    assert_eq!(undo_depth(&st, "c", "k"), 0);
    assert!(after_read(&mut st, "c", "k", &Ok("one".to_string())));
    begin_write(&mut st, "c", "k", Some("one".to_string()));
    assert_eq!(undo_depth(&st, "c", "k"), 1);
    assert_eq!(finish_edit(Ok("Edited k".to_string())), ("Edited k".to_string(), true));
    assert_eq!(finish_edit(bad("ro")), ("Error: ro".to_string(), false));
}

#[test]
fn undoing_is_answered() {
    let mut st = Sessions::new();
    assert_eq!(begin_undo(&mut st, "c", "/real/f", "f"), Err("No undo history for f.".to_string()));
    snapshot_file(&mut st, "c", "/real/f", "one".to_string());
    snapshot_file(&mut st, "c", "/real/f", "two\u{fc}".to_string());
    assert_eq!(begin_undo(&mut st, "c", "/real/f", "f"), Ok("two\u{fc}".to_string()));
    assert_eq!(
        finish_undo(&st, "c", "/real/f", "f", "two\u{fc}", &Ok(())),
        "Restored f (5 bytes). 1 undo level remaining."
    );
    let _ = begin_undo(&mut st, "c", "/real/f", "f");
    assert_eq!(
        finish_undo(&st, "c", "/real/f", "f", "one", &Ok(())),
        "Restored f (3 bytes). 0 undo levels remaining."
    );
    assert_eq!(finish_undo(&st, "c", "/real/f", "f", "one", &bad("ro")), "Error: ro");
    assert_eq!(undo_depth(&st, "c", "/real/f"), 0);
}

#[test]
fn changes_are_compared_with_the_first_version() {
    let mut st = Sessions::new();
    let said = |c: Comparison| match c {
        Comparison::Answer { text } => text,
        Comparison::Compare { before } => format!("<{}>", before),
    };
    let now = Ok("two".to_string());
    assert_eq!(
        said(file_diff(&st, "c", "/real/f", "f", &now)),
        "No snapshot for f: no edits have been made to this file yet in this conversation."
    );
    snapshot_file(&mut st, "c", "/real/f", "one".to_string());
    snapshot_file(&mut st, "c", "/real/f", "mid".to_string());
    assert_eq!(said(file_diff(&st, "c", "/real/f", "f", &now)), "<one>");
    assert_eq!(
        said(file_diff(&st, "c", "/real/f", "f", &Ok("one".to_string()))),
        "No changes to f in this conversation."
    );
    assert_eq!(said(file_diff(&st, "c", "/real/f", "f", &bad("x"))), "Error reading current file: x");
}

#[test]
fn the_directory_changes_only_to_a_directory() {
    let mut st = Sessions::new();
    let (t, index) =
        change_dir(&mut st, "c", "w", Place::Directory { path: "/w".to_string() });
    assert_eq!(t, "Changed directory to: /w - indexing files for semantic search.");
    assert!(index);
    assert_eq!(get_session_cwd(&st, "c", "/"), "/w");
    let (t, index) = change_dir(&mut st, "c", "f", Place::Other { path: "/w/f".to_string() });
    assert_eq!((t.as_str(), index), ("Error: '/w/f' is not a directory", false));
    let (t, _) = change_dir(&mut st, "c", "zz", Place::Missing { error: "none".to_string() });
    assert_eq!(t, "Error: cannot change to 'zz': none");
    assert_eq!(get_session_cwd(&st, "c", "/"), "/w");
    assert_eq!(
        directory_of("zz", Place::Missing { error: "none".to_string() }),
        Err("Error: cannot resolve 'zz': none".to_string())
    );
    assert_eq!(directory_of("w", Place::Directory { path: "/w".to_string() }), Ok("/w".to_string()));
}

#[test]
fn files_are_remembered_once() {
    assert_eq!(index_pattern("/a"), "%\"path\":\"/a%");
    assert!(auto_index_file(true, "c", "/a/b", &None, "read").is_none());
    let (title, meta) =
        auto_index_file(false, "c", "/a/b.rs", &Some("b.rs".to_string()), "write").unwrap();
    assert_eq!(title, "b.rs (write)");
    assert_eq!(meta.text_at("path").as_deref(), Some("/a/b.rs"));
    assert_eq!(meta.text_at("action").as_deref(), Some("write"));
    assert_eq!(meta.text_at("conversation_id").as_deref(), Some("c"));
    assert_eq!(meta.text_at("source").as_deref(), Some("auto_index"));
    assert_eq!(auto_index_file(false, "c", "/", &None, "read").unwrap().0, "/ (read)");
    assert_eq!(
        finish_write("f", "\u{fc}x", &Ok(())),
        ("Wrote f (3 bytes)".to_string(), true)
    );
    assert_eq!(finish_write("f", "x", &bad("full")), ("Error: full".to_string(), false));
}

// ---- other answers

#[test]
fn commands_are_run_in_one_of_three_ways() {
    assert_eq!(run_mode(true, true), RunMode::Background);
    assert_eq!(run_mode(false, true), RunMode::Streaming);
    assert_eq!(run_mode(false, false), RunMode::Waiting);
    assert_eq!(enter_command("/a b"), "cd \"/a b\"");
    assert!(matches!(
        live_line("1", "default", "hi"),
        IPCResponse::ChatChunk { token, .. } if token == "\n```sh [default]\nhi\n```"
    ));
    assert_eq!(lsp_answer(bad("x")), "LSP error: x");
    assert_eq!(lsp_answer(Ok("y".to_string())), "y");
    assert_eq!(screenshot_answer(&Ok("abcd".to_string())), "[screenshot: 4 bytes base64]");
    assert_eq!(screenshot_answer(&bad("x")), "Error: x");
}

#[test]
fn memories_have_short_titles() {
    assert_eq!(nothing_found("q"), "search_memory: no results for query 'q'");
    assert_eq!(memory_title("short").as_deref(), Some("short"));
    let long = "a".repeat(121);
    assert_eq!(memory_title(&long), Some(format!("{}\u{2026}", "a".repeat(120))));
    assert_eq!(memory_title(&format!("{}\u{fc}x", "a".repeat(119))), None);
    assert_eq!(stored_memory("t", &Ok(())), "Stored memory: t");
    assert_eq!(stored_memory("t", &bad("x")), "Error storing memory: x");
    assert_eq!(stored_fact("k", "v", &Ok(())), "Stored user fact: k = v");
    assert_eq!(stored_fact("k", "v", &bad("x")), "Error storing user fact: x");
}

#[test]
fn memories_are_told_and_noted() {
    let hit = memory_hit("T", Some("S".to_string()), Number::Unsigned(1), "n");
    match &hit {
        Json::Object(members) => {
            let names: Vec<&str> = members.iter().map(|m| m.0.as_str()).collect();
            assert_eq!(names, vec!["title", "summary", "confidence", "node_id"]);
        }
        other => panic!("{:?}", other),
    }
    assert_eq!(hit.text_at("title").as_deref(), Some("T"));
    assert_eq!(hit.text_at("summary").as_deref(), Some("S"));
    assert_eq!(hit.unsigned_at("confidence"), Some(1));
    assert_eq!(hit.text_at("node_id").as_deref(), Some("n"));
    let bare = memory_hit("T", None, Number::Unsigned(1), "n");
    assert_eq!(bare.text_at("summary").as_deref(), Some(""));
    assert_eq!(memory_answer("q", &Ok(vec![hit]), "[..]".to_string()), "[..]");
    let none = "search_memory: no results for query 'q'";
    assert_eq!(memory_answer("q", &Ok(Vec::new()), "[]".to_string()), none);
    assert_eq!(memory_answer("q", &bad("x"), String::new()), none);
    let note = memory_note("likes tea", "taste");
    assert_eq!(note.metadata.text_at("category").as_deref(), Some("taste"));
    assert_eq!(note.metadata.text_at("source").as_deref(), Some("llm_tool"));
    assert_eq!((note.summary.as_str(), note.embed_text.as_str()), ("likes tea", "likes tea"));
    assert_eq!(note.key_facts, vec!["likes tea"]);
    assert_eq!(note.tags, vec!["taste"]);
}

#[test]
fn failures_of_calls_are_told() {
    assert_eq!(unreadable("/a", "gone"), "Error reading '/a': gone");
    assert_eq!(found_elements(bad("x")), "ui_find failed: x");
    assert_eq!(found_elements(Ok("[]".to_string())), "[]");
    assert_eq!(listed_schedules(bad("x")), "list_schedules failed: x");
    assert_eq!(listed_schedules(Ok("[]".to_string())), "[]");
}

#[test]
fn what_is_done_in_windows_is_recorded() {
    let mut l = logs();
    assert_eq!(ui_click(&mut l, "c", 7, "e1", &Ok(())), "clicked e1");
    assert_eq!(ui_type(&mut l, "c", 8, "e2", &"x".repeat(99), &bad("no")), "ui_type failed: no");
    assert_eq!(ui_focus_window(&mut l, "c", 9, "Notes", &Ok(())), "focused Notes");
    let log = get(&l, "c");
    assert_eq!(log.actions.len(), 3);
    assert_eq!(log.actions[1].value.as_deref(), Some("x".repeat(60).as_str()));
    assert_eq!(log.actions[1].error.as_deref(), Some("no"));
    assert!(!log.actions[1].ok && log.actions[2].ok);
    let r = ui_snapshot(&mut l, "c", 10, "", &Ok("{}".to_string()));
    assert!(r.starts_with("{}\n\n# Recent actions\nclick e1 ok (7)\n"), "{}", r);
    assert!(r.contains(&format!("type e2 fail (8) value={:?}", "x".repeat(60))), "{}", r);
    assert!(r.ends_with("snapshot <foreground> ok (10)"), "{}", r);
    let log = get(&l, "c");
    assert_eq!(log.last_tree_json.as_deref(), Some("{}"));
    let before = log.last_tree_hash;
    let r = ui_snapshot(&mut l, "c", 11, "W", &bad("gone"));
    assert!(r.starts_with("ui_snapshot failed: gone\n\n# Recent actions\n"));
    assert_eq!(get(&l, "c").last_tree_hash, before);
    assert!(get(&l, "d").actions.is_empty());
    assert_eq!(window_to_describe("  "), Described::Foreground);
    assert_eq!(window_to_describe("W"), Described::Titled);
}

#[test]
fn tasks_for_later_are_answered() {
    assert_eq!(
        scheduled("n", "7", "active", "2030", &Ok(())),
        "scheduled task 'n' (7) status=active next_run=2030"
    );
    assert_eq!(scheduled("n", "7", "a", "0", &bad("x")), "schedule_task insert failed: x");
    assert_eq!(unread_cadence("x"), "schedule_task: invalid cadence - x");
    assert_eq!(cancelled_schedule("7", &Ok(())), "cancelled schedule 7");
    assert_eq!(cancelled_schedule("7", &bad("x")), "cancel_schedule failed: x");
}
