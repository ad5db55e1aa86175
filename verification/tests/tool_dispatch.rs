use rook::ipc::handlers::tool_dispatch::{build_tools, dispatch};
use rook::ipc::handlers::tool_table;
use rook::json::{Json, Number};

fn args(members: Vec<(&str, Json)>) -> Json {
    Json::Object(members.into_iter().map(|(k, v)| (k.to_string(), v)).collect())
}

fn s(v: &str) -> Json {
    Json::Text(v.to_string())
}

fn n(v: u64) -> Json {
    Json::Num(Number::Unsigned(v))
}

#[test]
fn passes_through_unknown_tool() {
    let r = dispatch("not_a_tool", &args(vec![])).unwrap();
    assert!(r.is_none());
}

#[test]
fn missing_op_gives_usage() {
    let err = dispatch("git", &args(vec![])).unwrap_err();
    assert!(err.contains("missing required field 'op'"));
    assert!(err.contains("status{}"));
    assert!(err.contains("commit{message, files}"));
}

#[test]
fn unknown_op_gives_usage() {
    let err = dispatch("git", &args(vec![("op", s("yolo"))])).unwrap_err();
    assert!(err.contains("unknown op 'yolo'"));
}

#[test]
fn rewrites_to_leaf_name() {
    let leaf = dispatch("git", &args(vec![("op", s("status"))])).unwrap();
    assert_eq!(leaf.as_deref(), Some("git_status"));
}

#[test]
fn missing_required_params_listed() {
    let err = dispatch("git", &args(vec![("op", s("commit"))])).unwrap_err();
    assert!(err.contains("missing required: message, files"), "{}", err);
}

#[test]
fn empty_string_counts_as_missing() {
    let err = dispatch("web", &args(vec![("op", s("search")), ("query", s("  "))])).unwrap_err();
    assert!(err.contains("missing required: query"), "{}", err);
}

#[test]
fn empty_array_counts_as_missing() {
    let err = dispatch(
        "git",
        &args(vec![
            ("op", s("commit")),
            ("message", s("x")),
            ("files", Json::List(vec![])),
        ]),
    )
    .unwrap_err();
    assert!(err.contains("missing required: files"), "{}", err);
}

#[test]
fn all_present_dispatches() {
    let leaf = dispatch(
        "web",
        &args(vec![("op", s("fetch")), ("url", s("https://example.com"))]),
    )
    .unwrap();
    assert_eq!(leaf.as_deref(), Some("fetch_url"));
}

#[test]
fn numbers_satisfy_required() {
    let leaf = dispatch(
        "lsp",
        &args(vec![
            ("op", s("hover")),
            ("path", s("a.rs")),
            ("line", n(0)),
            ("character", n(0)),
        ]),
    )
    .unwrap();
    assert_eq!(leaf.as_deref(), Some("lsp_hover"));
}

#[test]
fn semantic_rename_dispatches() {
    let leaf = dispatch(
        "semantic",
        &args(vec![
            ("op", s("rename")),
            ("path", s("x.rs")),
            ("line", n(0)),
            ("character", n(0)),
            ("new_name", s("foo")),
        ]),
    )
    .unwrap();
    assert_eq!(leaf.as_deref(), Some("semantic_rename"));
}

#[test]
fn semantic_rename_missing_new_name() {
    let err = dispatch(
        "semantic",
        &args(vec![
            ("op", s("rename")),
            ("path", s("x.rs")),
            ("line", n(0)),
            ("character", n(0)),
        ]),
    )
    .unwrap_err();
    assert!(err.contains("missing required: new_name"), "{}", err);
}

#[test]
fn semantic_workspace_symbol_optional_hint() {
    let leaf = dispatch(
        "semantic",
        &args(vec![("op", s("workspace_symbol")), ("query", s("User"))]),
    )
    .unwrap();
    assert_eq!(leaf.as_deref(), Some("semantic_workspace_symbol"));
}

#[test]
fn every_tool_builds_valid_schema() {
    let tools = build_tools();
    assert_eq!(tools.len(), tool_table::all().len() + 1); // +1 for todo_write
    for t in &tools {
        let params = &t.function.parameters;
        assert!(
            params.get("type").and_then(|v| v.as_text()).map(String::as_str) == Some("object"),
            "{}",
            t.function.name
        );
        assert!(params.get("properties").is_some(), "{}", t.function.name);
    }
}

#[test]
fn schemas_list_the_operations() {
    let tools = build_tools();
    let git = tools.iter().find(|t| t.function.name == "git").unwrap();
    let properties = git.function.parameters.get("properties").unwrap();
    let ops = match properties.get("op").and_then(|op| op.get("enum")) {
        Some(Json::List(l)) => l.iter().map(|v| v.as_text().unwrap().as_str()).collect::<Vec<_>>(),
        other => panic!("{:?}", other),
    };
    assert_eq!(ops, vec!["status", "diff", "log", "branch", "commit"]);
    let files = properties.get("files").and_then(|f| f.get("items")).unwrap();
    assert_eq!(files.text_at("type").as_deref(), Some("string"));
    assert!(git
        .function
        .description
        .ends_with("commit{message, files} (files: array of paths; use ['.'] to stage all)"));
}

#[test]
fn explanations_are_exact() {
    assert_eq!(
        dispatch("web", &args(vec![])).unwrap_err(),
        "web: missing required field 'op'.\nvalid ops:\n  search{query}  - DuckDuckGo; returns title/url/snippet\n  fetch{url}  - extract text from a URL\nexample: {\"op\":\"search\", \"query\":...}"
    );
    assert_eq!(
        dispatch("web", &args(vec![("op", s("fetch"))])).unwrap_err(),
        "web: op='fetch' missing required: url.\nexpected fetch{url}\nexample: {\"op\":\"fetch\", \"url\":...}"
    );
}

#[test]
fn every_operation_reaches_its_handler() {
    for t in tool_table::all() {
        for op in &t.ops {
            let mut members = vec![("op", s(op.op))];
            for r in &op.required {
                members.push((r, n(1)));
            }
            let leaf = dispatch(t.name, &args(members)).unwrap();
            assert_eq!(leaf.as_deref(), Some(op.inner));
        }
    }
}
