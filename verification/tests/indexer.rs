use rook::indexer::browser_indexer::BrowserIndexer;
use rook::indexer::file_indexer::{
    build_chunk_metadata, compute_hash, find_dependency, find_file_node, make_entry, DirWalk,
    EntryKind, EventStep, FileEvent, FileIndexer, KnownNode, Place,
};
use rook::indexer::indexing::{IndexAction, IndexEvent, IndexRun, IndexStage, VectorKind};
use rook::indexer::notes::{
    extract_todos, format_system_time, generate_tags, guess_file_type, guess_mime_type,
    parent_folder_names, FileFacts,
};
use rook::indexer::structure::{
    chunk_fingerprints, count_control_flow_tokens, extract_import_target, extract_structure,
    extract_symbol_signature, is_comment_line, truncate_text,
};
use rook::indexer::task_tracker::{TaskNode, TaskTracker};
use rook::indexer::ui_indexer::UiIndexer;
use rook::json::Json;

fn segments(path: &str) -> Vec<String> {
    std::path::Path::new(path)
        .components()
        .filter_map(|c| c.as_os_str().to_str())
        .map(|s| s.to_string())
        .collect()
}

fn skip(path: &str) -> bool {
    FileIndexer::<(), ()>::should_skip_path(&segments(path))
}

#[test]
fn skips_irrelevant_cache_and_build_paths() {
    assert!(skip("C:/repo/.git/index.lock"));
    assert!(skip("C:/repo/node_modules/pkg/index.js"));
    assert!(skip("C:/Users/Aaron/AppData/Local/Temp/file.txt"));
    assert!(skip("C:/repo/.vscode/settings.json"));
    assert!(!skip("C:/repo/src/main.rs"));
}

fn facts(path: &str, ext: Option<&str>) -> FileFacts {
    let parts = segments(path);
    FileFacts {
        path: path.to_string(),
        file_name: parts.last().cloned(),
        extension: ext.map(|e| e.to_string()),
        depth: parts.len(),
        parent: Some(parts[..parts.len() - 1].to_vec()),
        size: 5,
        size_human: "5 B".to_string(),
        modified: Some("then".to_string()),
        created: None,
    }
}

const PY: &str = "import json\nimport sqlite3\n\n# Graph training helper\nclass GraphSageTrainer:\n    pass\n\ndef summarize_predictions(items):\n    if items:\n        return len(items)\n    return 0\n";

#[test]
fn indexes_four_layer_local_summary_for_code_files() {
    let mut indexer: FileIndexer<(), ()> = FileIndexer::new(());
    let entry =
        indexer.index_file(&facts("/tmp/rook-index-1.py", Some("py")), PY.as_bytes().to_vec()).unwrap();
    assert!(entry.summary.contains("Type:"), "summary should include metadata type");
    assert!(entry.summary.contains("Path:"), "summary should include file path");
    assert!(entry.structure.contains("Imports:"), "structure should include imports");
    assert!(entry.structure.contains("GraphSageTrainer"), "structure should include symbols");
    assert!(entry.code_signatures.contains("Chunk"), "chunk fingerprints should be stored");
    assert!(!entry.summary_text.is_empty(), "summary embedding should be stored");
    assert!(!entry.fact_texts.is_empty(), "chunk-level fact embeddings should be stored");
    assert_eq!(entry.metadata.text_at("path").as_deref(), Some("/tmp/rook-index-1.py"));
}

#[test]
fn a_file_is_described_exactly() {
    let e = make_entry(&facts("/w/a/b.py", Some("py")), PY.as_bytes().to_vec(), true);
    assert_eq!(e.title, "b.py");
    assert_eq!(
        e.summary,
        "Type: Python source file\nPath: /w/a/b.py\nExtension: py\nSize: 5 B\nModified: then\nCreated: unknown\nPath depth: 4\nParent folders: / > w > a\nMIME type: text/x-python"
    );
    assert_eq!(
        e.structure,
        "Lines: 11\nSymbols: class GraphSageTrainer, def summarize_predictions(items)\nImports: json, sqlite3\nTop-level comments: # Graph training helper\nApprox cyclomatic complexity: 2\nDependency graph: json, sqlite3"
    );
    assert_eq!(
        e.code_signatures,
        "Signatures:\nclass GraphSageTrainer\ndef summarize_predictions(items)\n\nChunk fingerprints:\nChunk 1 (lines 1-11). Symbols: class GraphSageTrainer, def summarize_predictions(items). Preview: import json"
    );
    assert_eq!(e.summary_text, format!("{}\n{}", e.summary, e.structure));
    assert_eq!(e.dependencies, vec!["json", "sqlite3"]);
    assert_eq!(e.tags, vec!["code", "json", "local-indexed", "py", "sqlite3", "text"]);
    assert_eq!(
        e.key_facts,
        vec![
            "File type: Python source file",
            "MIME type: text/x-python",
            "Path depth: 4",
            "Indexed with local deterministic 4-layer summarization",
            "Line count: 11",
            "Symbol count: 2",
            "Chunk fingerprints: 1",
            "Approx cyclomatic complexity: 2",
            "Imports: json, sqlite3"
        ]
    );
    assert_eq!(e.excerpt.as_deref(), Some(PY.trim()));
    assert_eq!(e.metadata.text_at("indexing_mode").as_deref(), Some("neural"));
    assert_eq!(e.metadata.unsigned_at("chunk_count"), Some(1));
    let c = &e.chunks[0];
    assert_eq!((c.line_start, c.line_end), (0, 11));
    assert_eq!(c.label, "import json");
    assert_eq!(c.embed_text, format!("b.py | {}\n{}", c.summary, c.content));
    let m = build_chunk_metadata(c, "n1", "/w/a/b.py");
    assert_eq!(m.text_at("parent_file_id").as_deref(), Some("n1"));
    assert_eq!(m.unsigned_at("line_end"), Some(11));
}

#[test]
fn what_is_not_text_is_only_described() {
    let e = make_entry(&facts("/w/x.bin", None), vec![0xff, 0xfe], false);
    assert!(e.excerpt.is_none() && e.chunks.is_empty() && e.todos.is_empty());
    assert_eq!(
        e.structure,
        "Structural summary: binary or non-UTF8 file; metadata-only indexing applied."
    );
    assert!(e.summary.starts_with("Type: Binary file\n") && e.summary.contains("Extension: none"));
    assert!(e.code_signatures.ends_with("Chunk fingerprints: none"));
    assert_eq!(e.tags, vec!["local-indexed"]);
    let large = make_entry(&facts("/w/x.rs", Some("rs")), vec![b'a'; 524_289], false);
    assert!(large.excerpt.is_none());
    let fits = make_entry(&facts("/w/x.rs", Some("rs")), vec![b'a'; 524_288], false);
    assert_eq!(fits.excerpt.unwrap().len(), 1200);
}

#[test]
fn a_file_is_indexed_again_only_when_it_changed() {
    let mut i: FileIndexer<(), ()> = FileIndexer::new(());
    let f = facts("/w/a.rs", Some("rs"));
    assert!(i.index_file(&f, b"one".to_vec()).is_some());
    assert!(i.index_file(&f, b"one".to_vec()).is_none());
    assert!(i.index_file(&f, b"two".to_vec()).is_some());
    assert!(i.index_file(&facts("/w/b.rs", Some("rs")), b"two".to_vec()).is_some());
    assert_eq!(i.on_event(FileEvent::Removed, "/w/a.rs", true), EventStep::Pending);
    assert!(i.index_file(&f, b"two".to_vec()).is_some());
    assert_eq!(i.on_event(FileEvent::Removed, "/w/a.rs", false), EventStep::Nothing);
    assert_eq!(i.on_event(FileEvent::Modified, "/w/a.rs", true), EventStep::Reindex);
    assert_eq!(i.on_event(FileEvent::Created, "/w/a.rs", true), EventStep::Reindex);
    assert_eq!(i.on_event(FileEvent::Other, "/w/a.rs", true), EventStep::Nothing);
    assert_eq!(
        compute_hash(b"abc"),
        "ba7816bf8f01cfea414140de5dae2223b00361a396177a9cb410ff61f20015ad"
    );
}

#[test]
fn directories_are_watched_once() {
    let mut i: FileIndexer<(), u8> = FileIndexer::new_with_llm((), 1);
    assert_eq!(i.start_watching(Some("/here".to_string())), Some(vec!["/here".to_string()]));
    i.watching_started();
    assert_eq!(i.start_watching(None), None);
    assert_eq!(i.watch_directory("/here"), None);
    assert_eq!(i.watch_directory("/there"), Some(true));
    let mut i: FileIndexer<(), ()> = FileIndexer::new(());
    assert_eq!(i.watch_directory("/a"), Some(false));
    assert_eq!(i.start_watching(Some("/here".to_string())), Some(vec!["/a".to_string()]));
    assert!(FileIndexer::<(), ()>::wants(true, true, &segments("/x/.git/y")));
    assert!(!FileIndexer::<(), ()>::wants(true, false, &segments("/x/.git/y")));
    assert!(!FileIndexer::<(), ()>::wants(false, true, &segments("/x/y")));
}

fn place(path: &str) -> Place {
    Place { path: path.to_string(), segments: segments(path) }
}

#[test]
fn a_walk_passes_over_what_does_not_matter() {
    assert!(DirWalk::index_directory(place("/w"), false).is_none());
    let mut w = DirWalk::index_directory(place("/w"), true).unwrap();
    assert_eq!(w.next_directory().unwrap().path, "/w");
    assert!(!w.take_entry(place("/w/src"), EntryKind::Directory));
    assert!(!w.take_entry(place("/w/target"), EntryKind::Directory));
    assert!(w.take_entry(place("/w/a.rs"), EntryKind::File));
    assert!(!w.take_entry(place("/w/pipe"), EntryKind::Other));
    w.count_indexed();
    assert_eq!(w.next_directory().unwrap().path, "/w/src");
    assert!(w.next_directory().is_none());
    assert_eq!(w.indexed, 1);
    let mut w = DirWalk::index_directory(place("/w/node_modules"), true).unwrap();
    assert!(w.next_directory().is_none());
}

#[test]
fn lines_show_the_structure() {
    assert_eq!(extract_import_target("use a::b;;").as_deref(), Some("a::b"));
    assert_eq!(extract_import_target("import a  from 'b' x").as_deref(), Some("a from 'b'"));
    assert_eq!(extract_import_target("from a import b").as_deref(), Some("a import"));
    assert_eq!(extract_import_target("#include <x>").as_deref(), Some("#include <x>"));
    assert_eq!(extract_import_target("let x"), None);
    assert_eq!(extract_symbol_signature("pub fn f() {").as_deref(), Some("pub fn f()"));
    assert_eq!(extract_symbol_signature("class A:").as_deref(), Some("class A"));
    assert_eq!(extract_symbol_signature("let x"), None);
    assert!(is_comment_line("// x") && is_comment_line("'''doc") && !is_comment_line("x // y"));
    assert_eq!(count_control_flow_tokens("if a && b || c"), 3);
    assert_eq!(count_control_flow_tokens("iffy"), 0);
    assert_eq!(truncate_text("  abc  ", 2), "ab");
    let s = extract_structure("use b;\nuse a;\nuse b;\nif x && y\n");
    assert_eq!(s.imports, vec!["a", "b"]);
    assert_eq!((s.line_count, s.cyclomatic_complexity, s.symbol_count), (4, 3, 0));
}

#[test]
fn chunks_hold_all_lines() {
    let text: String = (0..70).map(|i| format!("line {}\n", i)).collect();
    let c = chunk_fingerprints(&text);
    assert_eq!(c.len(), 3);
    assert!(c[1].summary.starts_with("Chunk 2 (lines 33-64). Symbols: none. Preview: line 32"));
    let joined = c.iter().map(|x| x.content.as_str()).collect::<Vec<_>>().join("\n");
    assert_eq!(joined, text.trim_end());
    let long: String = (0..2000).map(|_| "x\n").collect();
    assert_eq!(chunk_fingerprints(&long).len(), 24);
    assert!(chunk_fingerprints("").is_empty());
}

#[test]
fn files_have_types_and_tags() {
    assert_eq!(guess_mime_type("RS", true), "text/x-rust");
    assert_eq!(guess_mime_type("zzz", true), "text/plain");
    assert_eq!(guess_mime_type("", false), "application/octet-stream");
    assert_eq!(guess_file_type("yml", true), "Configuration file");
    assert_eq!(guess_file_type("hpp", true), "C/C++ source file");
    let s = extract_structure("import {Foo} from 'x'\nuse std::io;\n#include <v>\n");
    assert_eq!(
        generate_tags(&facts("/a/b.TS", Some("TS")), "text/typescript", "Web source file", &s),
        vec!["code", "foo", "include", "local-indexed", "std", "text", "ts"]
    );
    let parts: Vec<String> = ["a", "b", "c", "d", "e"].iter().map(|x| x.to_string()).collect();
    assert_eq!(parent_folder_names(&parts), "b > c > d > e");
    assert_eq!(extract_todos("x\n  // TODO: y\nHACK\n"), vec!["// TODO: y", "HACK"]);
}

#[test]
fn times_are_written_out() {
    assert_eq!(format_system_time(0).as_deref(), Some("1970-01-01 00:00:00 UTC"));
    assert_eq!(format_system_time(951_827_696).as_deref(), Some("2000-02-29 12:34:56 UTC"));
    assert_eq!(format_system_time(253_402_300_799).as_deref(), Some("9999-12-31 23:59:59 UTC"));
    assert_eq!(format_system_time(-1).as_deref(), Some("1969-12-31 23:59:59 UTC"));
    assert_eq!(format_system_time(i64::MAX), None);
}

fn object(members: Vec<(&str, &str)>) -> Json {
    Json::Object(
        members.into_iter().map(|(k, v)| (k.to_string(), Json::Text(v.to_string()))).collect(),
    )
}

fn known(id: &str, title: &str, metadata: Option<Json>) -> KnownNode {
    KnownNode { id: id.to_string(), title: title.to_string(), metadata }
}

#[test]
fn what_is_kept_already_is_found() {
    let at = |p: &str| Some(object(vec![("path", p)]));
    let found = vec![known("0", "x", None), known("1", "x", at("/b")), known("2", "x", at("/a"))];
    assert_eq!(find_file_node(&found, "/a").as_deref(), Some("2"));
    assert_eq!(find_file_node(&found, "/c"), None);
    let found = vec![known("0", "Serde", None), known("1", "serde", None)];
    assert_eq!(find_dependency(&found, "SERDE").as_deref(), Some("0"));
    assert_eq!(find_dependency(&found, "x"), None);
    let pages = vec![Some(object(vec![("url", "u")]))];
    assert_eq!(BrowserIndexer::<()>::find_page(&pages, "u"), Some(0));
    assert_eq!(BrowserIndexer::<()>::find_page(&pages, "v"), None);
}

#[test]
fn pages_are_indexed() {
    let b = BrowserIndexer::new(7);
    assert_eq!(b.memory, 7);
    let text: String = (0..20).map(|i| format!("l{}\n \n", i)).collect();
    let p = BrowserIndexer::<()>::index_url("http://x", "T", &text);
    assert_eq!(p.summary, "l0 l1 l2 l3 l4 l5 l6 l7 l8 l9 l10 l11");
    assert_eq!(p.structure, "URL: http://x\nTitle: T");
    assert_eq!(p.summary_text, format!("http://x T {}", p.summary));
    assert_eq!(p.tags, vec!["web", "browser"]);
    assert_eq!(p.metadata.text_at("url").as_deref(), Some("http://x"));
    assert!(BrowserIndexer::<()>::index_url("u", "t", "").excerpt.is_none());
}

#[test]
fn tasks_are_tracked() {
    let t = TaskTracker::new(());
    let _ = t.memory;
    let task = TaskTracker::<()>::create_task("T", "do it", Some("P"));
    assert_eq!((task.title.as_str(), task.summary.as_str()), ("T", "do it"));
    let (from, link) = task.link.unwrap();
    assert_eq!((from.as_str(), link.relationship.as_str()), ("P", "contains"));
    assert_eq!(f64::from_bits(link.strength), 1.0);
    assert!(TaskTracker::<()>::create_task("T", "do it", None).link.is_none());
    let m = task.metadata;
    assert_eq!(m.text_at("description").as_deref(), Some("do it"));
    assert_eq!(m.text_at("status").as_deref(), Some("open"));
    assert_eq!(
        TaskTracker::<()>::create_project("p").text_at("description").as_deref(),
        Some("p")
    );
    let node = |id: &str, is_task: bool, metadata: Option<Json>| TaskNode {
        id: id.to_string(),
        title: format!("t{}", id),
        is_task,
        metadata,
    };
    let tasks = TaskTracker::<()>::get_tasks_for_project(
        "P",
        vec![
            node("1", true, Some(m)),
            node("2", false, None),
            node("3", true, Some(TaskTracker::<()>::update_task_status("done"))),
            node("4", true, None),
        ],
    );
    assert_eq!(tasks.iter().map(|t| t.id.as_str()).collect::<Vec<_>>(), vec!["1", "3", "4"]);
    assert_eq!(
        tasks.iter().map(|t| t.status.as_str()).collect::<Vec<_>>(),
        vec!["open", "done", "open"]
    );
    assert_eq!(tasks[0].description, "do it");
    assert_eq!(tasks[0].project_id.as_deref(), Some("P"));
    let p = TaskTracker::<()>::get_projects(vec![node("1", false, None), node("2", false, None)]);
    assert_eq!(p.iter().map(|t| t.title.as_str()).collect::<Vec<_>>(), vec!["t1", "t2"]);
    assert_eq!((p[0].status.as_str(), p[0].project_id.as_deref()), ("active", None));
}

#[test]
fn windows_are_indexed() {
    let u = UiIndexer::new(());
    let _ = u.memory;
    let w = |s: &str| UiIndexer::<()>::capture_window(s.as_bytes());
    assert_eq!(w(" {} \n"), None);
    assert_eq!(w(""), None);
    assert_eq!(w("not json"), None);
    assert_eq!(w("{\"title\":\"\"}"), None);
    assert_eq!(w("{\"title\":4}"), None);
    assert_eq!(w("[\"title\"]"), None);
    assert_eq!(w(" {\"title\":\"A\"}\n").as_deref(), Some("{\"title\":\"A\"}"));
    assert_eq!(
        UiIndexer::<()>::capture_and_index(b"{\"title\":\"A\\u0042\"}"),
        Some(("AB".to_string(), "{\"title\":\"A\\u0042\"}".to_string()))
    );
    let e = UiIndexer::<()>::index_ui_state("A", "info");
    assert_eq!(e.summary, "UI state for window: A");
    assert_eq!(e.metadata.text_at("window_title").as_deref(), Some("A"));
    assert_eq!(e.snapshot.text_at("info").as_deref(), Some("info"));
    let states = vec![Some(Json::Null), None, Some(Json::Bool(true))];
    assert_eq!(UiIndexer::<()>::get_recent_ui_states(&states, 2).len(), 1);
    assert_eq!(UiIndexer::<()>::get_recent_ui_states(&states, 9).len(), 2);
}

fn run_of(path: &str, content: &[u8]) -> (IndexRun, IndexAction) {
    let mut indexer = FileIndexer::<(), ()>::new(());
    let f = facts(path, Some("py"));
    let begun = indexer.index_path_internal(&f, content.to_vec()).unwrap();
    assert!(indexer.index_path_internal(&f, content.to_vec()).is_none());
    begun
}

fn made(id: &str) -> IndexEvent {
    IndexEvent::Made { id: id.to_string() }
}

fn failed() -> IndexEvent {
    IndexEvent::Failed { problem: "locked".to_string() }
}

fn none_found() -> IndexEvent {
    IndexEvent::Found { nodes: Vec::new() }
}

#[test]
fn a_file_is_taken_in_step_by_step() {
    let (mut run, first) = run_of("/r/a.py", PY.as_bytes());
    assert!(matches!(first, IndexAction::FindFiles { title } if title == "a.py"));
    assert!(matches!(
        run.step(none_found()),
        IndexAction::CreateFile { title, .. } if title == "a.py"
    ));
    match run.step(made("f")) {
        IndexAction::PutDetails { id, details } => {
            assert_eq!(id, "f");
            assert!(details.summary.contains("Path: /r/a.py"));
            assert!(details.structure.contains("GraphSageTrainer"));
            assert!(details.code_signatures.contains("Chunk"));
            assert_eq!(details.content_hash, compute_hash(PY.as_bytes()));
            assert!(!details.key_facts.is_empty() && !details.tags.is_empty());
        }
        other => panic!("{:?}", other),
    }
    assert!(matches!(run.step(IndexEvent::Done), IndexAction::ClearVectors { id } if id == "f"));
    let summary = run.step(IndexEvent::Done);
    assert!(matches!(summary, IndexAction::PutVector { kind: VectorKind::Summary, .. }));
    match run.step(IndexEvent::Done) {
        IndexAction::PutVector { kind: VectorKind::Content, text, id } => {
            assert_eq!((text.as_str(), id.as_str()), (PY.trim(), "f"));
        }
        other => panic!("{:?}", other),
    }
    let fact = run.step(IndexEvent::Done);
    assert!(matches!(fact, IndexAction::PutVector { kind: VectorKind::Fact, .. }));
    assert!(matches!(run.step(IndexEvent::Done), IndexAction::ClearChunks { id } if id == "f"));
    match run.step(IndexEvent::Done) {
        IndexAction::CreateChunk { metadata, .. } => {
            assert_eq!(metadata.text_at("parent_file_id").as_deref(), Some("f"));
            assert_eq!(metadata.text_at("parent_path").as_deref(), Some("/r/a.py"));
        }
        other => panic!("{:?}", other),
    }
    assert!(matches!(
        run.step(made("c")),
        IndexAction::LinkChunk { file, chunk, link } if file == "f" && chunk == "c"
            && link.relationship == "contains" && f64::from_bits(link.strength) == 1.0
    ));
    assert!(matches!(run.step(failed()), IndexAction::PutChunkDetails { id, .. } if id == "c"));
    assert!(matches!(
        run.step(failed()),
        IndexAction::PutVector { id, kind: VectorKind::Content, .. } if id == "c"
    ));
    assert!(matches!(run.step(failed()), IndexAction::FindDependencies { name } if name == "json"));
    match run.step(none_found()) {
        IndexAction::CreateDependency { name, metadata } => {
            assert_eq!(name, "json");
            assert_eq!(metadata.text_at("kind").as_deref(), Some("import"));
        }
        other => panic!("{:?}", other),
    }
    assert!(matches!(
        run.step(made("d")),
        IndexAction::CountImports { dependency, .. } if dependency == "d"
    ));
    match run.step(IndexEvent::Counted { count: 0 }) {
        IndexAction::LinkImport { file, dependency, link, metadata } => {
            assert_eq!(link.relationship, "imports");
            assert_eq!(f64::from_bits(link.strength), 0.72);
            assert_eq!((file.as_str(), dependency.as_str()), ("f", "d"));
            assert_eq!(metadata.text_at("source").as_deref(), Some("local_indexer"));
        }
        other => panic!("{:?}", other),
    }
    assert!(matches!(
        run.step(IndexEvent::Done),
        IndexAction::FindDependencies { name } if name == "sqlite3"
    ));
    let nodes = vec![known("x", "SQLite3", None)];
    assert!(matches!(
        run.step(IndexEvent::Found { nodes }),
        IndexAction::CountImports { dependency, .. } if dependency == "x"
    ));
    match run.step(IndexEvent::Counted { count: 1 }) {
        IndexAction::NoteIndexed { path, hash, size } => {
            assert_eq!((path.as_str(), size), ("/r/a.py", 5));
            assert_eq!(hash, compute_hash(PY.as_bytes()));
        }
        other => panic!("{:?}", other),
    }
    assert!(matches!(run.step(IndexEvent::Done), IndexAction::Finish));
    assert_eq!(run.stage, IndexStage::Ended);
}

#[test]
fn what_is_no_text_has_no_parts() {
    let (mut run, _) = run_of("/r/a.py", &[0xff, 0xfe]);
    let nodes = vec![known("o", "a.py", Some(object(vec![("path", "/r/a.py")])))];
    match run.step(IndexEvent::Found { nodes }) {
        IndexAction::UpdateFile { id, title, .. } => {
            assert_eq!((id.as_str(), title.as_str()), ("o", "a.py"));
        }
        other => panic!("{:?}", other),
    }
    run.step(IndexEvent::Done);
    run.step(IndexEvent::Done);
    run.step(IndexEvent::Done);
    assert!(matches!(run.step(IndexEvent::Done), IndexAction::NoteIndexed { .. }));
}

#[test]
fn only_a_chunk_may_fail() {
    let (mut run, _) = run_of("/r/a.py", PY.as_bytes());
    run.step(none_found());
    match run.step(failed()) {
        IndexAction::Fail { problem } => assert_eq!(problem, "locked"),
        other => panic!("{:?}", other),
    }
    let (mut run, _) = run_of("/r/a.py", b"x = 1\n");
    run.step(none_found());
    run.step(made("f"));
    while !matches!(run.step(IndexEvent::Done), IndexAction::CreateChunk { .. }) {}
    assert!(matches!(run.step(failed()), IndexAction::NoteIndexed { .. }));
}
