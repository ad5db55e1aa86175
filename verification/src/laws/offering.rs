//! What the model is offered.

use crate::ipc::handlers::chat::team_tools::team_tools;
use crate::ipc::handlers::tool_dispatch::{
    description, missing_of, missing_text, op_names, op_phrase, present, usage,
};
use crate::ipc::handlers::tool_table::{all_tools, OpSpec, ToolSpec};
use crate::json::JsonV;
use crate::laws::parts::{joined_parts_occur, occurs_within};
use crate::llm::types::ToolV;
use crate::text;
use vstd::prelude::*;

verus! {

/// A tool is described as an object that may have some members, and must have others.
pub open spec fn takes(t: ToolV, params: Seq<Seq<char>>, required: Seq<Seq<char>>) -> bool {
    t.parameters matches JsonV::Object(m) && m.len() >= 2 && m[0] == ("type"@, JsonV::Text("object"@))
        && m[1].0 == "properties"@ && (m[1].1 matches JsonV::Object(p) && p.map_values(
        |x: (Seq<char>, JsonV)| x.0,
    ) == params) && (required.len() == 0 ==> m.len() == 2) && (required.len() > 0 ==> m.len() == 3
        && m[2] == ("required"@, JsonV::List(required.map_values(|r: Seq<char>| JsonV::Text(r)))))
}

/// The tools on the desktop: how they are called, and what they take and need.
pub proof fn desktop_tools_are_offered()
    ensures
        team_tools().len() == 46,
        team_tools()[0].name == "search_memory"@ && takes(
            team_tools()[0],
            seq!["limit"@, "query"@],
            seq!["query"@],
        ),
        team_tools()[1].name == "ui_snapshot"@ && takes(
            team_tools()[1],
            seq!["include_offscreen"@, "window"@],
            Seq::<Seq<char>>::empty(),
        ),
        team_tools()[2].name == "ui_click"@ && takes(
            team_tools()[2],
            seq!["element_id"@],
            seq!["element_id"@],
        ),
        team_tools()[3].name == "ui_type"@ && takes(
            team_tools()[3],
            seq!["element_id"@, "text"@],
            seq!["element_id"@, "text"@],
        ),
        team_tools()[4].name == "ui_focus_window"@ && takes(
            team_tools()[4],
            seq!["title"@],
            seq!["title"@],
        ),
        team_tools()[5].name == "ui_find"@ && takes(
            team_tools()[5],
            seq!["query"@],
            seq!["query"@],
        ),
        team_tools()[6].name == "propose_schedule"@ && takes(
            team_tools()[6],
            seq!["cadence"@, "name"@, "output_channel"@, "prompt"@, "why"@],
            seq!["name"@, "cadence"@, "prompt"@],
        ),
        team_tools()[7].name == "list_schedules"@ && takes(
            team_tools()[7],
            Seq::<Seq<char>>::empty(),
            Seq::<Seq<char>>::empty(),
        ),
{
    let m = team_tools()[0].parameters->Object_0;
    assert((m[1].1->Object_0).map_values(|x: (Seq<char>, JsonV)| x.0) =~= seq!["limit"@, "query"@]);
    let m = team_tools()[1].parameters->Object_0;
    assert((m[1].1->Object_0).map_values(|x: (Seq<char>, JsonV)| x.0) =~= seq!["include_offscreen"@, "window"@]);
    let m = team_tools()[2].parameters->Object_0;
    assert((m[1].1->Object_0).map_values(|x: (Seq<char>, JsonV)| x.0) =~= seq!["element_id"@]);
    let m = team_tools()[3].parameters->Object_0;
    assert((m[1].1->Object_0).map_values(|x: (Seq<char>, JsonV)| x.0) =~= seq!["element_id"@, "text"@]);
    let m = team_tools()[4].parameters->Object_0;
    assert((m[1].1->Object_0).map_values(|x: (Seq<char>, JsonV)| x.0) =~= seq!["title"@]);
    let m = team_tools()[5].parameters->Object_0;
    assert((m[1].1->Object_0).map_values(|x: (Seq<char>, JsonV)| x.0) =~= seq!["query"@]);
    let m = team_tools()[6].parameters->Object_0;
    assert((m[1].1->Object_0).map_values(|x: (Seq<char>, JsonV)| x.0) =~= seq!["cadence"@, "name"@, "output_channel"@, "prompt"@, "why"@]);
    let m = team_tools()[7].parameters->Object_0;
    assert((m[1].1->Object_0).map_values(|x: (Seq<char>, JsonV)| x.0) =~= Seq::<Seq<char>>::empty());
}

/// The tools on files: how they are called, and what they take and need.
pub proof fn file_tools_are_offered()
    ensures
        team_tools().len() == 46,
        team_tools()[8].name == "cancel_schedule"@ && takes(
            team_tools()[8],
            seq!["id"@],
            seq!["id"@],
        ),
        team_tools()[9].name == "file_read"@ && takes(
            team_tools()[9],
            seq!["limit"@, "offset"@, "path"@],
            seq!["path"@],
        ),
        team_tools()[10].name == "list_files"@ && takes(
            team_tools()[10],
            seq!["path"@, "pattern"@, "recursive"@],
            Seq::<Seq<char>>::empty(),
        ),
        team_tools()[11].name == "change_dir"@ && takes(
            team_tools()[11],
            seq!["path"@],
            seq!["path"@],
        ),
        team_tools()[12].name == "get_cwd"@ && takes(
            team_tools()[12],
            Seq::<Seq<char>>::empty(),
            Seq::<Seq<char>>::empty(),
        ),
        team_tools()[13].name == "glob"@ && takes(
            team_tools()[13],
            seq!["path"@, "pattern"@],
            seq!["pattern"@],
        ),
        team_tools()[14].name == "grep"@ && takes(
            team_tools()[14],
            seq!["case_insensitive"@, "glob"@, "max_results"@, "output"@, "path"@, "pattern"@],
            seq!["pattern"@],
        ),
        team_tools()[15].name == "todo_write"@,
{
    let m = team_tools()[8].parameters->Object_0;
    assert((m[1].1->Object_0).map_values(|x: (Seq<char>, JsonV)| x.0) =~= seq!["id"@]);
    let m = team_tools()[9].parameters->Object_0;
    assert((m[1].1->Object_0).map_values(|x: (Seq<char>, JsonV)| x.0) =~= seq!["limit"@, "offset"@, "path"@]);
    let m = team_tools()[10].parameters->Object_0;
    assert((m[1].1->Object_0).map_values(|x: (Seq<char>, JsonV)| x.0) =~= seq!["path"@, "pattern"@, "recursive"@]);
    let m = team_tools()[11].parameters->Object_0;
    assert((m[1].1->Object_0).map_values(|x: (Seq<char>, JsonV)| x.0) =~= seq!["path"@]);
    let m = team_tools()[12].parameters->Object_0;
    assert((m[1].1->Object_0).map_values(|x: (Seq<char>, JsonV)| x.0) =~= Seq::<Seq<char>>::empty());
    let m = team_tools()[13].parameters->Object_0;
    assert((m[1].1->Object_0).map_values(|x: (Seq<char>, JsonV)| x.0) =~= seq!["path"@, "pattern"@]);
    let m = team_tools()[14].parameters->Object_0;
    assert((m[1].1->Object_0).map_values(|x: (Seq<char>, JsonV)| x.0) =~= seq!["case_insensitive"@, "glob"@, "max_results"@, "output"@, "path"@, "pattern"@]);
}

/// The tools on changes: how they are called, and what they take and need.
pub proof fn editing_tools_are_offered()
    ensures
        team_tools().len() == 46,
        team_tools()[16].name == "file_write"@ && takes(
            team_tools()[16],
            seq!["content"@, "path"@],
            seq!["path"@, "content"@],
        ),
        team_tools()[17].name == "code_edit"@ && takes(
            team_tools()[17],
            seq!["action"@, "content"@, "line"@, "path"@, "replace"@, "search"@],
            seq!["action"@, "path"@],
        ),
        team_tools()[18].name == "terminal_execute"@ && takes(
            team_tools()[18],
            seq!["command"@],
            seq!["command"@],
        ),
        team_tools()[19].name == "git_status"@ && takes(
            team_tools()[19],
            Seq::<Seq<char>>::empty(),
            Seq::<Seq<char>>::empty(),
        ),
        team_tools()[20].name == "git_diff"@ && takes(
            team_tools()[20],
            seq!["file"@],
            Seq::<Seq<char>>::empty(),
        ),
        team_tools()[21].name == "git_log"@ && takes(
            team_tools()[21],
            seq!["count"@],
            Seq::<Seq<char>>::empty(),
        ),
        team_tools()[22].name == "git_branch"@ && takes(
            team_tools()[22],
            Seq::<Seq<char>>::empty(),
            Seq::<Seq<char>>::empty(),
        ),
        team_tools()[23].name == "git_commit"@ && takes(
            team_tools()[23],
            seq!["files"@, "message"@],
            seq!["message"@, "files"@],
        ),
{
    let m = team_tools()[16].parameters->Object_0;
    assert((m[1].1->Object_0).map_values(|x: (Seq<char>, JsonV)| x.0) =~= seq!["content"@, "path"@]);
    let m = team_tools()[17].parameters->Object_0;
    assert((m[1].1->Object_0).map_values(|x: (Seq<char>, JsonV)| x.0) =~= seq!["action"@, "content"@, "line"@, "path"@, "replace"@, "search"@]);
    let m = team_tools()[18].parameters->Object_0;
    assert((m[1].1->Object_0).map_values(|x: (Seq<char>, JsonV)| x.0) =~= seq!["command"@]);
    let m = team_tools()[19].parameters->Object_0;
    assert((m[1].1->Object_0).map_values(|x: (Seq<char>, JsonV)| x.0) =~= Seq::<Seq<char>>::empty());
    let m = team_tools()[20].parameters->Object_0;
    assert((m[1].1->Object_0).map_values(|x: (Seq<char>, JsonV)| x.0) =~= seq!["file"@]);
    let m = team_tools()[21].parameters->Object_0;
    assert((m[1].1->Object_0).map_values(|x: (Seq<char>, JsonV)| x.0) =~= seq!["count"@]);
    let m = team_tools()[22].parameters->Object_0;
    assert((m[1].1->Object_0).map_values(|x: (Seq<char>, JsonV)| x.0) =~= Seq::<Seq<char>>::empty());
    let m = team_tools()[23].parameters->Object_0;
    assert((m[1].1->Object_0).map_values(|x: (Seq<char>, JsonV)| x.0) =~= seq!["files"@, "message"@]);
}

/// The tools on the web: how they are called, and what they take and need.
pub proof fn web_tools_are_offered()
    ensures
        team_tools().len() == 46,
        team_tools()[24].name == "web_search"@ && takes(
            team_tools()[24],
            seq!["query"@],
            seq!["query"@],
        ),
        team_tools()[25].name == "fetch_url"@ && takes(
            team_tools()[25],
            seq!["url"@],
            seq!["url"@],
        ),
        team_tools()[26].name == "browser_navigate"@ && takes(
            team_tools()[26],
            seq!["url"@],
            seq!["url"@],
        ),
        team_tools()[27].name == "browser_click"@ && takes(
            team_tools()[27],
            seq!["selector"@],
            seq!["selector"@],
        ),
        team_tools()[28].name == "browser_type"@ && takes(
            team_tools()[28],
            seq!["selector"@, "text"@],
            seq!["selector"@, "text"@],
        ),
        team_tools()[29].name == "browser_evaluate"@ && takes(
            team_tools()[29],
            seq!["js"@],
            seq!["js"@],
        ),
        team_tools()[30].name == "browser_screenshot"@ && takes(
            team_tools()[30],
            seq!["full_page"@],
            Seq::<Seq<char>>::empty(),
        ),
        team_tools()[31].name == "store_memory"@ && takes(
            team_tools()[31],
            seq!["category"@, "content"@],
            seq!["content"@],
        ),
{
    let m = team_tools()[24].parameters->Object_0;
    assert((m[1].1->Object_0).map_values(|x: (Seq<char>, JsonV)| x.0) =~= seq!["query"@]);
    let m = team_tools()[25].parameters->Object_0;
    assert((m[1].1->Object_0).map_values(|x: (Seq<char>, JsonV)| x.0) =~= seq!["url"@]);
    let m = team_tools()[26].parameters->Object_0;
    assert((m[1].1->Object_0).map_values(|x: (Seq<char>, JsonV)| x.0) =~= seq!["url"@]);
    let m = team_tools()[27].parameters->Object_0;
    assert((m[1].1->Object_0).map_values(|x: (Seq<char>, JsonV)| x.0) =~= seq!["selector"@]);
    let m = team_tools()[28].parameters->Object_0;
    assert((m[1].1->Object_0).map_values(|x: (Seq<char>, JsonV)| x.0) =~= seq!["selector"@, "text"@]);
    let m = team_tools()[29].parameters->Object_0;
    assert((m[1].1->Object_0).map_values(|x: (Seq<char>, JsonV)| x.0) =~= seq!["js"@]);
    let m = team_tools()[30].parameters->Object_0;
    assert((m[1].1->Object_0).map_values(|x: (Seq<char>, JsonV)| x.0) =~= seq!["full_page"@]);
    let m = team_tools()[31].parameters->Object_0;
    assert((m[1].1->Object_0).map_values(|x: (Seq<char>, JsonV)| x.0) =~= seq!["category"@, "content"@]);
}

/// The tools on shells and sources: how they are called, and what they take and need.
pub proof fn shell_tools_are_offered()
    ensures
        team_tools().len() == 46,
        team_tools()[32].name == "store_user_fact"@ && takes(
            team_tools()[32],
            seq!["key"@, "value"@],
            seq!["key"@, "value"@],
        ),
        team_tools()[33].name == "shell_spawn"@ && takes(
            team_tools()[33],
            seq!["name"@],
            seq!["name"@],
        ),
        team_tools()[34].name == "shell_exec"@ && takes(
            team_tools()[34],
            seq!["command"@, "run_in_background"@, "shell"@, "timeout_secs"@],
            seq!["command"@],
        ),
        team_tools()[35].name == "shell_read"@ && takes(
            team_tools()[35],
            seq!["clear"@, "shell"@],
            Seq::<Seq<char>>::empty(),
        ),
        team_tools()[36].name == "shell_kill"@ && takes(
            team_tools()[36],
            seq!["name"@],
            seq!["name"@],
        ),
        team_tools()[37].name == "shell_list"@ && takes(
            team_tools()[37],
            Seq::<Seq<char>>::empty(),
            Seq::<Seq<char>>::empty(),
        ),
        team_tools()[38].name == "outline_file"@ && takes(
            team_tools()[38],
            seq!["path"@],
            seq!["path"@],
        ),
        team_tools()[39].name == "search_in_file"@ && takes(
            team_tools()[39],
            seq!["case_insensitive"@, "context"@, "path"@, "pattern"@],
            seq!["path"@, "pattern"@],
        ),
{
    let m = team_tools()[32].parameters->Object_0;
    assert((m[1].1->Object_0).map_values(|x: (Seq<char>, JsonV)| x.0) =~= seq!["key"@, "value"@]);
    let m = team_tools()[33].parameters->Object_0;
    assert((m[1].1->Object_0).map_values(|x: (Seq<char>, JsonV)| x.0) =~= seq!["name"@]);
    let m = team_tools()[34].parameters->Object_0;
    assert((m[1].1->Object_0).map_values(|x: (Seq<char>, JsonV)| x.0) =~= seq!["command"@, "run_in_background"@, "shell"@, "timeout_secs"@]);
    let m = team_tools()[35].parameters->Object_0;
    assert((m[1].1->Object_0).map_values(|x: (Seq<char>, JsonV)| x.0) =~= seq!["clear"@, "shell"@]);
    let m = team_tools()[36].parameters->Object_0;
    assert((m[1].1->Object_0).map_values(|x: (Seq<char>, JsonV)| x.0) =~= seq!["name"@]);
    let m = team_tools()[37].parameters->Object_0;
    assert((m[1].1->Object_0).map_values(|x: (Seq<char>, JsonV)| x.0) =~= Seq::<Seq<char>>::empty());
    let m = team_tools()[38].parameters->Object_0;
    assert((m[1].1->Object_0).map_values(|x: (Seq<char>, JsonV)| x.0) =~= seq!["path"@]);
    let m = team_tools()[39].parameters->Object_0;
    assert((m[1].1->Object_0).map_values(|x: (Seq<char>, JsonV)| x.0) =~= seq!["case_insensitive"@, "context"@, "path"@, "pattern"@]);
}

/// The tools on code: how they are called, and what they take and need.
pub proof fn code_tools_are_offered()
    ensures
        team_tools().len() == 46,
        team_tools()[40].name == "file_diff"@ && takes(
            team_tools()[40],
            seq!["path"@],
            seq!["path"@],
        ),
        team_tools()[41].name == "file_undo"@ && takes(
            team_tools()[41],
            seq!["path"@],
            seq!["path"@],
        ),
        team_tools()[42].name == "lsp_definition"@ && takes(
            team_tools()[42],
            seq!["character"@, "line"@, "path"@],
            seq!["path"@, "line"@, "character"@],
        ),
        team_tools()[43].name == "lsp_references"@ && takes(
            team_tools()[43],
            seq!["character"@, "line"@, "path"@],
            seq!["path"@, "line"@, "character"@],
        ),
        team_tools()[44].name == "lsp_hover"@ && takes(
            team_tools()[44],
            seq!["character"@, "line"@, "path"@],
            seq!["path"@, "line"@, "character"@],
        ),
        team_tools()[45].name == "apply_patch"@ && takes(
            team_tools()[45],
            seq!["patch"@, "path"@],
            seq!["path"@, "patch"@],
        ),
{
    let m = team_tools()[40].parameters->Object_0;
    assert((m[1].1->Object_0).map_values(|x: (Seq<char>, JsonV)| x.0) =~= seq!["path"@]);
    let m = team_tools()[41].parameters->Object_0;
    assert((m[1].1->Object_0).map_values(|x: (Seq<char>, JsonV)| x.0) =~= seq!["path"@]);
    let m = team_tools()[42].parameters->Object_0;
    assert((m[1].1->Object_0).map_values(|x: (Seq<char>, JsonV)| x.0) =~= seq!["character"@, "line"@, "path"@]);
    let m = team_tools()[43].parameters->Object_0;
    assert((m[1].1->Object_0).map_values(|x: (Seq<char>, JsonV)| x.0) =~= seq!["character"@, "line"@, "path"@]);
    let m = team_tools()[44].parameters->Object_0;
    assert((m[1].1->Object_0).map_values(|x: (Seq<char>, JsonV)| x.0) =~= seq!["character"@, "line"@, "path"@]);
    let m = team_tools()[45].parameters->Object_0;
    assert((m[1].1->Object_0).map_values(|x: (Seq<char>, JsonV)| x.0) =~= seq!["patch"@, "path"@]);
}

/// The operations of `memory`: which tool does the work of each, and what it needs.
pub proof fn operations_of_memory()
    ensures
        all_tools()[0].name == "memory"@,
        all_tools()[0].ops.len() == 3,
        leads(all_tools()[0].ops[0], "search"@, "search_memory"@, seq!["query"@]),
        leads(all_tools()[0].ops[1], "store"@, "store_memory"@, seq!["content"@]),
        leads(all_tools()[0].ops[2], "store_user_fact"@, "store_user_fact"@, seq!["key"@, "value"@]),
        all_tools()[0].params.map_values(|p: crate::llm::schema::ParamV| p.name) == seq!["query"@, "limit"@, "content"@, "category"@, "key"@, "value"@],
{
    assert(all_tools()[0].params.map_values(|p: crate::llm::schema::ParamV| p.name) =~= seq!["query"@, "limit"@, "content"@, "category"@, "key"@, "value"@]);
    assert(all_tools()[0].ops[0].required =~= seq!["query"@]);
    assert(all_tools()[0].ops[1].required =~= seq!["content"@]);
    assert(all_tools()[0].ops[2].required =~= seq!["key"@, "value"@]);
}

/// The operations of `schedule`: which tool does the work of each, and what it needs.
pub proof fn operations_of_schedule()
    ensures
        all_tools()[1].name == "schedule"@,
        all_tools()[1].ops.len() == 3,
        leads(all_tools()[1].ops[0], "propose"@, "propose_schedule"@, seq!["name"@, "cadence"@, "prompt"@]),
        leads(all_tools()[1].ops[1], "list"@, "list_schedules"@, Seq::<Seq<char>>::empty()),
        leads(all_tools()[1].ops[2], "cancel"@, "cancel_schedule"@, seq!["id"@]),
        all_tools()[1].params.map_values(|p: crate::llm::schema::ParamV| p.name) == seq!["name"@, "cadence"@, "prompt"@, "output_channel"@, "why"@, "id"@],
{
    assert(all_tools()[1].params.map_values(|p: crate::llm::schema::ParamV| p.name) =~= seq!["name"@, "cadence"@, "prompt"@, "output_channel"@, "why"@, "id"@]);
    assert(all_tools()[1].ops[0].required =~= seq!["name"@, "cadence"@, "prompt"@]);
    assert(all_tools()[1].ops[1].required =~= Seq::<Seq<char>>::empty());
    assert(all_tools()[1].ops[2].required =~= seq!["id"@]);
}

/// The operations of `git`: which tool does the work of each, and what it needs.
pub proof fn operations_of_git()
    ensures
        all_tools()[2].name == "git"@,
        all_tools()[2].ops.len() == 5,
        leads(all_tools()[2].ops[0], "status"@, "git_status"@, Seq::<Seq<char>>::empty()),
        leads(all_tools()[2].ops[1], "diff"@, "git_diff"@, Seq::<Seq<char>>::empty()),
        leads(all_tools()[2].ops[2], "log"@, "git_log"@, Seq::<Seq<char>>::empty()),
        leads(all_tools()[2].ops[3], "branch"@, "git_branch"@, Seq::<Seq<char>>::empty()),
        leads(all_tools()[2].ops[4], "commit"@, "git_commit"@, seq!["message"@, "files"@]),
        all_tools()[2].params.map_values(|p: crate::llm::schema::ParamV| p.name) == seq!["file"@, "count"@, "message"@, "files"@],
{
    assert(all_tools()[2].params.map_values(|p: crate::llm::schema::ParamV| p.name) =~= seq!["file"@, "count"@, "message"@, "files"@]);
    assert(all_tools()[2].ops[0].required =~= Seq::<Seq<char>>::empty());
    assert(all_tools()[2].ops[1].required =~= Seq::<Seq<char>>::empty());
    assert(all_tools()[2].ops[2].required =~= Seq::<Seq<char>>::empty());
    assert(all_tools()[2].ops[3].required =~= Seq::<Seq<char>>::empty());
    assert(all_tools()[2].ops[4].required =~= seq!["message"@, "files"@]);
}

/// The operations of `ui`: which tool does the work of each, and what it needs.
pub proof fn operations_of_ui()
    ensures
        all_tools()[3].name == "ui"@,
        all_tools()[3].ops.len() == 5,
        leads(all_tools()[3].ops[0], "snapshot"@, "ui_snapshot"@, Seq::<Seq<char>>::empty()),
        leads(all_tools()[3].ops[1], "click"@, "ui_click"@, seq!["element_id"@]),
        leads(all_tools()[3].ops[2], "type"@, "ui_type"@, seq!["element_id"@, "text"@]),
        leads(all_tools()[3].ops[3], "focus"@, "ui_focus_window"@, seq!["title"@]),
        leads(all_tools()[3].ops[4], "find"@, "ui_find"@, seq!["query"@]),
        all_tools()[3].params.map_values(|p: crate::llm::schema::ParamV| p.name) == seq!["window"@, "include_offscreen"@, "element_id"@, "text"@, "title"@, "query"@],
{
    assert(all_tools()[3].params.map_values(|p: crate::llm::schema::ParamV| p.name) =~= seq!["window"@, "include_offscreen"@, "element_id"@, "text"@, "title"@, "query"@]);
    assert(all_tools()[3].ops[0].required =~= Seq::<Seq<char>>::empty());
    assert(all_tools()[3].ops[1].required =~= seq!["element_id"@]);
    assert(all_tools()[3].ops[2].required =~= seq!["element_id"@, "text"@]);
    assert(all_tools()[3].ops[3].required =~= seq!["title"@]);
    assert(all_tools()[3].ops[4].required =~= seq!["query"@]);
}

/// The operations of `browser`: which tool does the work of each, and what it needs.
pub proof fn operations_of_browser()
    ensures
        all_tools()[4].name == "browser"@,
        all_tools()[4].ops.len() == 5,
        leads(all_tools()[4].ops[0], "navigate"@, "browser_navigate"@, seq!["url"@]),
        leads(all_tools()[4].ops[1], "click"@, "browser_click"@, seq!["selector"@]),
        leads(all_tools()[4].ops[2], "type"@, "browser_type"@, seq!["selector"@, "text"@]),
        leads(all_tools()[4].ops[3], "eval"@, "browser_evaluate"@, seq!["js"@]),
        leads(all_tools()[4].ops[4], "screenshot"@, "browser_screenshot"@, Seq::<Seq<char>>::empty()),
        all_tools()[4].params.map_values(|p: crate::llm::schema::ParamV| p.name) == seq!["url"@, "selector"@, "text"@, "js"@, "full_page"@],
{
    assert(all_tools()[4].params.map_values(|p: crate::llm::schema::ParamV| p.name) =~= seq!["url"@, "selector"@, "text"@, "js"@, "full_page"@]);
    assert(all_tools()[4].ops[0].required =~= seq!["url"@]);
    assert(all_tools()[4].ops[1].required =~= seq!["selector"@]);
    assert(all_tools()[4].ops[2].required =~= seq!["selector"@, "text"@]);
    assert(all_tools()[4].ops[3].required =~= seq!["js"@]);
    assert(all_tools()[4].ops[4].required =~= Seq::<Seq<char>>::empty());
}

/// The operations of `shell`: which tool does the work of each, and what it needs.
pub proof fn operations_of_shell()
    ensures
        all_tools()[5].name == "shell"@,
        all_tools()[5].ops.len() == 5,
        leads(all_tools()[5].ops[0], "exec"@, "shell_exec"@, seq!["command"@]),
        leads(all_tools()[5].ops[1], "spawn"@, "shell_spawn"@, seq!["name"@]),
        leads(all_tools()[5].ops[2], "read"@, "shell_read"@, Seq::<Seq<char>>::empty()),
        leads(all_tools()[5].ops[3], "kill"@, "shell_kill"@, seq!["name"@]),
        leads(all_tools()[5].ops[4], "list"@, "shell_list"@, Seq::<Seq<char>>::empty()),
        all_tools()[5].params.map_values(|p: crate::llm::schema::ParamV| p.name) == seq!["command"@, "shell"@, "run_in_background"@, "timeout_secs"@, "name"@, "clear"@],
{
    assert(all_tools()[5].params.map_values(|p: crate::llm::schema::ParamV| p.name) =~= seq!["command"@, "shell"@, "run_in_background"@, "timeout_secs"@, "name"@, "clear"@]);
    assert(all_tools()[5].ops[0].required =~= seq!["command"@]);
    assert(all_tools()[5].ops[1].required =~= seq!["name"@]);
    assert(all_tools()[5].ops[2].required =~= Seq::<Seq<char>>::empty());
    assert(all_tools()[5].ops[3].required =~= seq!["name"@]);
    assert(all_tools()[5].ops[4].required =~= Seq::<Seq<char>>::empty());
}

/// The operations of `lsp`: which tool does the work of each, and what it needs.
pub proof fn operations_of_lsp()
    ensures
        all_tools()[6].name == "lsp"@,
        all_tools()[6].ops.len() == 3,
        leads(all_tools()[6].ops[0], "definition"@, "lsp_definition"@, seq!["path"@, "line"@, "character"@]),
        leads(all_tools()[6].ops[1], "references"@, "lsp_references"@, seq!["path"@, "line"@, "character"@]),
        leads(all_tools()[6].ops[2], "hover"@, "lsp_hover"@, seq!["path"@, "line"@, "character"@]),
        all_tools()[6].params.map_values(|p: crate::llm::schema::ParamV| p.name) == seq!["path"@, "line"@, "character"@],
{
    assert(all_tools()[6].params.map_values(|p: crate::llm::schema::ParamV| p.name) =~= seq!["path"@, "line"@, "character"@]);
    assert(all_tools()[6].ops[0].required =~= seq!["path"@, "line"@, "character"@]);
    assert(all_tools()[6].ops[1].required =~= seq!["path"@, "line"@, "character"@]);
    assert(all_tools()[6].ops[2].required =~= seq!["path"@, "line"@, "character"@]);
}

/// The operations of `semantic`: which tool does the work of each, and what it needs.
pub proof fn operations_of_semantic()
    ensures
        all_tools()[7].name == "semantic"@,
        all_tools()[7].ops.len() == 4,
        leads(all_tools()[7].ops[0], "rename"@, "semantic_rename"@, seq!["path"@, "line"@, "character"@, "new_name"@]),
        leads(all_tools()[7].ops[1], "code_actions"@, "semantic_code_actions"@, seq!["path"@, "line"@, "character"@]),
        leads(all_tools()[7].ops[2], "apply_action"@, "semantic_apply_action"@, seq!["id"@]),
        leads(all_tools()[7].ops[3], "workspace_symbol"@, "semantic_workspace_symbol"@, seq!["query"@]),
        all_tools()[7].params.map_values(|p: crate::llm::schema::ParamV| p.name) == seq!["path"@, "line"@, "character"@, "new_name"@, "id"@, "query"@, "hint_path"@],
{
    assert(all_tools()[7].params.map_values(|p: crate::llm::schema::ParamV| p.name) =~= seq!["path"@, "line"@, "character"@, "new_name"@, "id"@, "query"@, "hint_path"@]);
    assert(all_tools()[7].ops[0].required =~= seq!["path"@, "line"@, "character"@, "new_name"@]);
    assert(all_tools()[7].ops[1].required =~= seq!["path"@, "line"@, "character"@]);
    assert(all_tools()[7].ops[2].required =~= seq!["id"@]);
    assert(all_tools()[7].ops[3].required =~= seq!["query"@]);
}

/// The operations of `fs_read`: which tool does the work of each, and what it needs.
pub proof fn operations_of_fs_read()
    ensures
        all_tools()[8].name == "fs_read"@,
        all_tools()[8].ops.len() == 8,
        leads(all_tools()[8].ops[0], "read"@, "file_read"@, seq!["path"@]),
        leads(all_tools()[8].ops[1], "list"@, "list_files"@, Seq::<Seq<char>>::empty()),
        leads(all_tools()[8].ops[2], "cwd"@, "get_cwd"@, Seq::<Seq<char>>::empty()),
        leads(all_tools()[8].ops[3], "chdir"@, "change_dir"@, seq!["path"@]),
        leads(all_tools()[8].ops[4], "glob"@, "glob"@, seq!["pattern"@]),
        leads(all_tools()[8].ops[5], "grep"@, "grep"@, seq!["pattern"@]),
        leads(all_tools()[8].ops[6], "outline"@, "outline_file"@, seq!["path"@]),
        leads(all_tools()[8].ops[7], "search_in_file"@, "search_in_file"@, seq!["path"@, "pattern"@]),
        all_tools()[8].params.map_values(|p: crate::llm::schema::ParamV| p.name) == seq!["path"@, "offset"@, "limit"@, "recursive"@, "pattern"@, "glob"@, "output"@, "case_insensitive"@, "max_results"@, "context"@],
{
    assert(all_tools()[8].params.map_values(|p: crate::llm::schema::ParamV| p.name) =~= seq!["path"@, "offset"@, "limit"@, "recursive"@, "pattern"@, "glob"@, "output"@, "case_insensitive"@, "max_results"@, "context"@]);
    assert(all_tools()[8].ops[0].required =~= seq!["path"@]);
    assert(all_tools()[8].ops[1].required =~= Seq::<Seq<char>>::empty());
    assert(all_tools()[8].ops[2].required =~= Seq::<Seq<char>>::empty());
    assert(all_tools()[8].ops[3].required =~= seq!["path"@]);
    assert(all_tools()[8].ops[4].required =~= seq!["pattern"@]);
    assert(all_tools()[8].ops[5].required =~= seq!["pattern"@]);
    assert(all_tools()[8].ops[6].required =~= seq!["path"@]);
    assert(all_tools()[8].ops[7].required =~= seq!["path"@, "pattern"@]);
}

/// The operations of `fs_write`: which tool does the work of each, and what it needs.
pub proof fn operations_of_fs_write()
    ensures
        all_tools()[9].name == "fs_write"@,
        all_tools()[9].ops.len() == 5,
        leads(all_tools()[9].ops[0], "write"@, "file_write"@, seq!["path"@, "content"@]),
        leads(all_tools()[9].ops[1], "edit"@, "code_edit"@, seq!["path"@, "action"@]),
        leads(all_tools()[9].ops[2], "patch"@, "apply_patch"@, seq!["path"@, "patch"@]),
        leads(all_tools()[9].ops[3], "diff"@, "file_diff"@, seq!["path"@]),
        leads(all_tools()[9].ops[4], "undo"@, "file_undo"@, seq!["path"@]),
        all_tools()[9].params.map_values(|p: crate::llm::schema::ParamV| p.name) == seq!["path"@, "content"@, "action"@, "search"@, "replace"@, "line"@, "patch"@],
{
    assert(all_tools()[9].params.map_values(|p: crate::llm::schema::ParamV| p.name) =~= seq!["path"@, "content"@, "action"@, "search"@, "replace"@, "line"@, "patch"@]);
    assert(all_tools()[9].ops[0].required =~= seq!["path"@, "content"@]);
    assert(all_tools()[9].ops[1].required =~= seq!["path"@, "action"@]);
    assert(all_tools()[9].ops[2].required =~= seq!["path"@, "patch"@]);
    assert(all_tools()[9].ops[3].required =~= seq!["path"@]);
    assert(all_tools()[9].ops[4].required =~= seq!["path"@]);
}

/// The operations of `web`: which tool does the work of each, and what it needs.
pub proof fn operations_of_web()
    ensures
        all_tools()[10].name == "web"@,
        all_tools()[10].ops.len() == 2,
        leads(all_tools()[10].ops[0], "search"@, "web_search"@, seq!["query"@]),
        leads(all_tools()[10].ops[1], "fetch"@, "fetch_url"@, seq!["url"@]),
        all_tools()[10].params.map_values(|p: crate::llm::schema::ParamV| p.name) == seq!["query"@, "url"@],
{
    assert(all_tools()[10].params.map_values(|p: crate::llm::schema::ParamV| p.name) =~= seq!["query"@, "url"@]);
    assert(all_tools()[10].ops[0].required =~= seq!["query"@]);
    assert(all_tools()[10].ops[1].required =~= seq!["url"@]);
}

/// An operation leads to a tool, and needs some arguments.
pub open spec fn leads(
    o: OpSpec,
    op: Seq<char>,
    inner: Seq<char>,
    required: Seq<Seq<char>>,
) -> bool {
    o.op == op && o.inner == inner && o.required == required
}

/// An argument is given unless it is absent, null, blank or empty.
pub proof fn blank_arguments_are_missing(t: Seq<char>, l: Seq<JsonV>, b: bool)
    ensures
        !present(None),
        !present(Some(JsonV::Null)),
        present(Some(JsonV::Text(t))) <==> !text::blank(t),
        present(Some(JsonV::List(l))) <==> l.len() > 0,
        present(Some(JsonV::Bool(b))),
{
}

/// Every argument that is needed and not given is told, in order.
pub proof fn every_missing_argument_is_told(required: Seq<Seq<char>>, args: JsonV)
    ensures
        missing_of(required, args) == required.filter(|r: Seq<char>| !present(args.get(r))),
    decreases required.len(),
{
    reveal(Seq::filter);
    if required.len() > 0 {
        every_missing_argument_is_told(required.drop_last(), args);
    }
    assert(missing_of(required, args) =~= required.filter(|r: Seq<char>| !present(args.get(r))));
}

/// What is told of missing arguments names the tool, the operation and each of them.
pub proof fn missing_arguments_are_named(
    t: ToolSpec,
    op: OpSpec,
    missing: Seq<Seq<char>>,
    i: int,
)
    requires
        0 <= i < missing.len(),
    ensures
        text::begins(
            missing_text(t, op, missing),
            t.name + ": op='"@ + op.op + "' missing required: "@,
        ),
        text::occurs(missing_text(t, op, missing), missing[i]),
        text::begins(usage(t, op.op), t.name + ": "@ + op.op),
{
    let head = t.name + ": op='"@ + op.op + "' missing required: "@;
    let all = missing_text(t, op, missing);
    assert(all.subrange(0, head.len() as int) =~= head);
    joined_parts_occur(missing, ", "@, i);
    let l = text::join(missing, ", "@);
    let back = all.skip((head + l).len() as int);
    assert(all =~= head + l + back);
    occurs_within(head, l, back, missing[i]);
    let u = usage(t, op.op);
    let start = t.name + ": "@ + op.op;
    assert(u.subrange(0, start.len() as int) =~= start);
}

/// A tool is described with its hint and every operation that it has.
pub proof fn every_operation_is_described(t: ToolSpec, i: int)
    requires
        0 <= i < t.ops.len(),
    ensures
        text::begins(description(t), t.hint + " ops: "@),
        text::occurs(description(t), op_phrase(t.ops[i])),
        text::begins(op_phrase(t.ops[i]), t.ops[i].op + t.ops[i].sig),
        op_names(t)[i] == t.ops[i].op,
        op_names(t).len() == t.ops.len(),
{
    let d = description(t);
    let head = t.hint + " ops: "@;
    assert(d.subrange(0, head.len() as int) =~= head);
    let parts = t.ops.map_values(|o: OpSpec| op_phrase(o));
    joined_parts_occur(parts, " | "@, i);
    let l = text::join(parts, " | "@);
    occurs_within(head, l, Seq::empty(), parts[i]);
    assert(head + l + Seq::<char>::empty() =~= d);
    let p = op_phrase(t.ops[i]);
    let start = t.ops[i].op + t.ops[i].sig;
    assert(p.subrange(0, start.len() as int) =~= start);
}

} // verus!
