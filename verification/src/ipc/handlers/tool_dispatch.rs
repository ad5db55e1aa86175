//! The tools as the model sees them, and the way from a call of one of them to
//! the handler that does the work.

use crate::ipc::handlers::tool_table;
use crate::ipc::handlers::tool_table::{
    all, Op, OpSpec, Tool, ToolSpec,
};
use crate::json::{Json, JsonV};
use crate::llm::schema::{
    add_properties, is_object_schema, make_object_schema, make_param_schema, make_todo_schema,
    member_views, one_of, one_of_these, param_schema, properties, schema_of, schemas_are_objects,
    todo_params, todo_schema, typed,
};
use crate::llm::types::{
    tool_views, tool_views_push, FunctionDefinition, ToolDefinition, ToolV,
};
use crate::text;
use vstd::prelude::*;

verus! {

pub const TODO_DESCRIPTION: &'static str =
    "track multi-step work (3+ steps only). Pass FULL list each call - replaces prior. Keep exactly ONE in_progress; mark completed IMMEDIATELY when done.";

pub const TODO_CONTENT: &'static str = "imperative, e.g. 'Run tests'";

pub const TODO_ACTIVE: &'static str = "present continuous, e.g. 'Running tests'";

/// An operation in the description of its tool.
pub open spec fn op_phrase(op: OpSpec) -> Seq<char> {
    if op.note.len() == 0 {
        op.op + op.sig
    } else {
        op.op + op.sig + " ("@ + op.note + ")"@
    }
}

/// The description of a tool: its hint, and its operations one after the other.
pub open spec fn description(t: ToolSpec) -> Seq<char> {
    t.hint + " ops: "@ + text::join(t.ops.map_values(|o: OpSpec| op_phrase(o)), " | "@)
}

/// The description of a tool.
pub fn render_description(t: &Tool) -> (r: String)
    ensures
        r@ == description(t@),
{
    broadcast use text::views_push;

    let mut phrases: Vec<String> = Vec::new();
    let ghost want = t@.ops.map_values(|o: OpSpec| op_phrase(o));
    for i in 0..t.ops.len()
        invariant
            want == t@.ops.map_values(|o: OpSpec| op_phrase(o)),
            text::views(phrases@) == want.take(i as int),
    {
        let op = &t.ops[i];
        let mut p = op.op.to_owned();
        p.append(op.sig);
        if !op.note.is_empty() {
            p.append(" (");
            p.append(op.note);
            p.append(")");
        }
        assert(t@.ops[i as int] == op@);
        assert(want[i as int] == p@);
        phrases.push(p);
        assert(want.take(i + 1) =~= want.take(i as int).push(p@));
    }
    assert(want.take(want.len() as int) =~= want);
    let mut out = t.hint.to_owned();
    out.append(" ops: ");
    out.append(&text::joined(&phrases, " | "));
    out
}

/// The names of the operations of a tool.
pub open spec fn op_names(t: ToolSpec) -> Seq<Seq<char>> {
    t.ops.map_values(|o: OpSpec| o.op)
}

/// The schema of a tool: one parameter for the operation, which must be given, and
/// all that the operations may take.
pub open spec fn schema(t: ToolSpec) -> JsonV {
    schema_of(seq![one_of_these("op"@, op_names(t), ""@)] + t.params, seq!["op"@])
}

/// The schema of a tool.
pub fn render_schema(t: &Tool) -> (r: Json)
    ensures
        r@ == schema(t@),
{
    let mut names: Vec<&'static str> = Vec::new();
    for i in 0..t.ops.len()
        invariant
            text::slice_views(names@) == op_names(t@).take(i as int),
    {
        let ghost before = names@;
        names.push(t.ops[i].op);
        assert(t@.ops[i as int] == t.ops@[i as int]@);
        assert(text::slice_views(names@) =~= text::slice_views(before).push(
            t.ops@[i as int].op@,
        ));
        assert(op_names(t@).take(i + 1) =~= op_names(t@).take(i as int).push(
            t.ops@[i as int].op@,
        ));
    }
    assert(op_names(t@).take(op_names(t@).len() as int) =~= op_names(t@));
    let op = one_of("op", names, "");
    let mut members: Vec<(String, Json)> = Vec::new();
    members.push(("op".to_owned(), make_param_schema(&op)));
    add_properties(&mut members, &t.params);
    let required: Vec<&'static str> = vec!["op"];
    assert(member_views(members@) =~= properties(seq![op@] + t@.params));
    assert(text::slice_views(required@) =~= seq!["op"@]);
    make_object_schema(members, &required)
}

/// A tool as it is offered to the model.
pub open spec fn offered(t: ToolSpec) -> ToolV {
    ToolV {
        tool_type: "function"@,
        name: t.name,
        description: description(t),
        parameters: schema(t),
    }
}

/// The tool that keeps the list of things to do.
pub open spec fn todo_tool() -> ToolV {
    ToolV {
        tool_type: "function"@,
        name: "todo_write"@,
        description: TODO_DESCRIPTION@,
        parameters: todo_schema(TODO_CONTENT@, TODO_ACTIVE@),
    }
}

/// All tools that are offered to the model.
pub open spec fn offered_tools() -> Seq<ToolV> {
    tool_table::all_tools().map_values(|t: ToolSpec| offered(t)).push(todo_tool())
}

/// All tools that are offered to the model.
pub fn build_tools() -> (r: Vec<ToolDefinition>)
    ensures
        tool_views(r@) == offered_tools(),
{
    broadcast use tool_views_push;

    let tools = all();
    let mut out: Vec<ToolDefinition> = Vec::new();
    let ghost want = tool_table::all_tools().map_values(|t: ToolSpec| offered(t));
    for i in 0..tools.len()
        invariant
            tool_table::tool_specs(tools@) == tool_table::all_tools(),
            want == tool_table::all_tools().map_values(|t: ToolSpec| offered(t)),
            tool_views(out@) == want.take(i as int),
    {
        let t = &tools[i];
        let d = ToolDefinition {
            tool_type: "function".to_owned(),
            function: FunctionDefinition {
                name: t.name.to_owned(),
                description: render_description(t),
                parameters: render_schema(t),
            },
        };
        assert(tool_table::tool_specs(tools@)[i as int] == t@);
        assert(want[i as int] == d@);
        out.push(d);
        assert(want.take(i + 1) =~= want.take(i as int).push(d@));
    }
    assert(want.take(want.len() as int) =~= want);
    out.push(
        ToolDefinition {
            tool_type: "function".to_owned(),
            function: FunctionDefinition {
                name: "todo_write".to_owned(),
                description: TODO_DESCRIPTION.to_owned(),
                parameters: make_todo_schema(TODO_CONTENT, TODO_ACTIVE),
            },
        },
    );
    out
}

/// A parameter counts as given unless it is absent, null, blank or empty.
pub open spec fn present(v: Option<JsonV>) -> bool {
    match v {
        None => false,
        Some(JsonV::Null) => false,
        Some(JsonV::Text(s)) => !text::blank(s),
        Some(JsonV::List(l)) => l.len() > 0,
        Some(JsonV::Object(o)) => o.len() > 0,
        Some(_) => true,
    }
}

/// Whether a parameter counts as given.
pub fn is_present(v: Option<&Json>) -> (r: bool)
    ensures
        r == present(
            match v {
                Some(j) => Some(j@),
                None => None,
            },
        ),
{
    match v {
        None => false,
        Some(Json::Null) => false,
        Some(Json::Text(s)) => !text::is_blank(s),
        Some(Json::List(l)) => l.len() > 0,
        Some(Json::Object(o)) => o.len() > 0,
        Some(_) => true,
    }
}

/// The line for an operation in the explanation of a tool.
pub open spec fn op_line(op: OpSpec) -> Seq<char> {
    if op.note.len() == 0 {
        "  "@ + op.op + op.sig + "\n"@
    } else {
        "  "@ + op.op + op.sig + "  - "@ + op.note + "\n"@
    }
}

/// The texts of a list one after the other.
pub open spec fn concat(parts: Seq<Seq<char>>) -> Seq<char>
    decreases parts.len(),
{
    if parts.len() == 0 {
        Seq::empty()
    } else {
        concat(parts.drop_last()) + parts.last()
    }
}

/// A parameter in an example of a call.
pub open spec fn example_param(name: Seq<char>) -> Seq<char> {
    ", \""@ + name + "\":..."@
}

/// The explanation that answers a call that names no known operation.
pub open spec fn usage(t: ToolSpec, problem: Seq<char>) -> Seq<char> {
    t.name + ": "@ + problem + ".\nvalid ops:\n"@ + concat(
        t.ops.map_values(|o: OpSpec| op_line(o)),
    ) + "example: {\"op\":\""@ + t.ops[0].op + "\""@ + concat(
        t.ops[0].required.map_values(|p: Seq<char>| example_param(p)),
    ) + "}"@
}

/// The lines for the operations of a tool.
fn op_lines(t: &Tool) -> (r: String)
    ensures
        r@ == concat(t@.ops.map_values(|o: OpSpec| op_line(o))),
{
    let mut s = String::new();
    let ghost want = t@.ops.map_values(|o: OpSpec| op_line(o));
    assert(want.take(0) =~= Seq::empty());
    for i in 0..t.ops.len()
        invariant
            want == t@.ops.map_values(|o: OpSpec| op_line(o)),
            s@ == concat(want.take(i as int)),
    {
        let op = &t.ops[i];
        let ghost before = s@;
        s.append("  ");
        s.append(op.op);
        s.append(op.sig);
        if !op.note.is_empty() {
            s.append("  - ");
            s.append(op.note);
        }
        s.append("\n");
        assert(t@.ops[i as int] == op@);
        assert(s@ =~= before + op_line(op@));
        assert(want.take(i + 1).drop_last() =~= want.take(i as int));
    }
    assert(want.take(want.len() as int) =~= want);
    s
}

/// The parameters of an operation in an example of a call.
fn example_params(op: &Op) -> (r: String)
    ensures
        r@ == concat(op@.required.map_values(|p: Seq<char>| example_param(p))),
{
    let mut s = String::new();
    let ghost want = op@.required.map_values(|p: Seq<char>| example_param(p));
    assert(want.take(0) =~= Seq::empty());
    for i in 0..op.required.len()
        invariant
            want == op@.required.map_values(|p: Seq<char>| example_param(p)),
            s@ == concat(want.take(i as int)),
    {
        let ghost before = s@;
        s.append(", \"");
        s.append(op.required[i]);
        s.append("\":...");
        assert(op@.required[i as int] == op.required@[i as int]@);
        assert(s@ =~= before + example_param(op.required@[i as int]@));
        assert(want.take(i + 1).drop_last() =~= want.take(i as int));
    }
    assert(want.take(want.len() as int) =~= want);
    s
}

/// The explanation that answers a call that names no known operation.
pub fn usage_error(t: &Tool, problem: &str) -> (r: String)
    requires
        t.ops@.len() > 0,
    ensures
        r@ == usage(t@, problem@),
{
    let mut s = t.name.to_owned();
    s.append(": ");
    s.append(problem);
    s.append(".\nvalid ops:\n");
    s.append(&op_lines(t));
    s.append("example: {\"op\":\"");
    s.append(t.ops[0].op);
    s.append("\"");
    s.append(&example_params(&t.ops[0]));
    s.append("}");
    assert(t@.ops[0] == t.ops@[0]@);
    s
}

/// A parameter in an example of a call, without what stands before it.
pub open spec fn example_pair(name: Seq<char>) -> Seq<char> {
    "\""@ + name + "\":..."@
}

/// The explanation that answers a call that leaves out parameters.
pub open spec fn missing_text(t: ToolSpec, op: OpSpec, missing: Seq<Seq<char>>) -> Seq<char> {
    t.name + ": op='"@ + op.op + "' missing required: "@ + text::join(missing, ", "@)
        + ".\nexpected "@ + op.op + op.sig + "\nexample: {\"op\":\""@ + op.op + "\", "@
        + text::join(op.required.map_values(|p: Seq<char>| example_pair(p)), ", "@) + "}"@
}

/// The explanation that answers a call that leaves out parameters.
pub fn missing_params_error(t: &Tool, op: &Op, missing: &Vec<String>) -> (r: String)
    ensures
        r@ == missing_text(t@, op@, text::views(missing@)),
{
    broadcast use text::views_push;

    let mut pairs: Vec<String> = Vec::new();
    let ghost want = op@.required.map_values(|p: Seq<char>| example_pair(p));
    for i in 0..op.required.len()
        invariant
            want == op@.required.map_values(|p: Seq<char>| example_pair(p)),
            text::views(pairs@) == want.take(i as int),
    {
        let mut p = "\"".to_owned();
        p.append(op.required[i]);
        p.append("\":...");
        assert(op@.required[i as int] == op.required@[i as int]@);
        assert(want[i as int] == p@);
        pairs.push(p);
        assert(want.take(i + 1) =~= want.take(i as int).push(p@));
    }
    assert(want.take(want.len() as int) =~= want);
    let mut s = t.name.to_owned();
    s.append(": op='");
    s.append(op.op);
    s.append("' missing required: ");
    s.append(&text::joined(missing, ", "));
    s.append(".\nexpected ");
    s.append(op.op);
    s.append(op.sig);
    s.append("\nexample: {\"op\":\"");
    s.append(op.op);
    s.append("\", ");
    s.append(&text::joined(&pairs, ", "));
    s.append("}");
    s
}

/// The first tool of a list with a name.
pub open spec fn tool_named(tools: Seq<ToolSpec>, name: Seq<char>) -> Option<ToolSpec>
    decreases tools.len(),
{
    if tools.len() == 0 {
        None
    } else if tools[0].name == name {
        Some(tools[0])
    } else {
        tool_named(tools.skip(1), name)
    }
}

/// The first operation of a list with a name.
pub open spec fn op_named(ops: Seq<OpSpec>, name: Seq<char>) -> Option<OpSpec>
    decreases ops.len(),
{
    if ops.len() == 0 {
        None
    } else if ops[0].op == name {
        Some(ops[0])
    } else {
        op_named(ops.skip(1), name)
    }
}

/// The parameters of a list that a call does not give.
pub open spec fn missing_of(required: Seq<Seq<char>>, args: JsonV) -> Seq<Seq<char>>
    decreases required.len(),
{
    if required.len() == 0 {
        Seq::empty()
    } else {
        let before = missing_of(required.drop_last(), args);
        if present(args.get(required.last())) {
            before
        } else {
            before.push(required.last())
        }
    }
}

/// Where a call of a tool leads: nowhere else where the tool is not one of
/// these, to the handler of its operation, or to an explanation.
pub open spec fn dispatched(name: Seq<char>, args: JsonV) -> Result<Option<Seq<char>>, Seq<char>> {
    match tool_named(tool_table::all_tools(), name) {
        None => Ok(None),
        Some(t) => match args.text_at("op"@) {
            None => Err(usage(t, "missing required field 'op'"@)),
            Some(o) => match op_named(t.ops, o) {
                None => Err(usage(t, "unknown op '"@ + o + "'"@)),
                Some(op) => {
                    let missing = missing_of(op.required, args);
                    if missing.len() > 0 {
                        Err(missing_text(t, op, missing))
                    } else {
                        Ok(Some(op.inner))
                    }
                },
            },
        },
    }
}

fn find_tool<'a>(tools: &'a Vec<Tool>, name: &str) -> (r: Option<&'a Tool>)
    ensures
        match r {
            Some(t) => tool_named(tool_table::tool_specs(tools@), name@) == Some(t@) && (exists|i: int|
                0 <= i < tools@.len() && #[trigger] tools@[i]@ == t@),
            None => tool_named(tool_table::tool_specs(tools@), name@) is None,
        },
{
    let ghost all = tool_table::tool_specs(tools@);
    let mut i: usize = 0;
    assert(all.skip(0) =~= all);
    while i < tools.len()
        invariant
            i <= tools@.len(),
            all == tool_table::tool_specs(tools@),
            tool_named(all, name@) == tool_named(all.skip(i as int), name@),
        decreases tools@.len() - i,
    {
        assert(all.skip(i as int)[0] == tools@[i as int]@);
        if text::same(tools[i].name, name) {
            return Some(&tools[i]);
        }
        assert(all.skip(i as int).skip(1) =~= all.skip(i + 1));
        i = i + 1;
    }
    None
}

fn find_op<'a>(ops: &'a Vec<Op>, name: &str) -> (r: Option<&'a Op>)
    ensures
        match r {
            Some(o) => op_named(tool_table::op_specs(ops@), name@) == Some(o@),
            None => op_named(tool_table::op_specs(ops@), name@) is None,
        },
{
    let ghost all = tool_table::op_specs(ops@);
    let mut i: usize = 0;
    assert(all.skip(0) =~= all);
    while i < ops.len()
        invariant
            i <= ops@.len(),
            all == tool_table::op_specs(ops@),
            op_named(all, name@) == op_named(all.skip(i as int), name@),
        decreases ops@.len() - i,
    {
        assert(all.skip(i as int)[0] == ops@[i as int]@);
        if text::same(ops[i].op, name) {
            return Some(&ops[i]);
        }
        assert(all.skip(i as int).skip(1) =~= all.skip(i + 1));
        i = i + 1;
    }
    None
}

fn missing_params(op: &Op, args: &Json) -> (r: Vec<String>)
    ensures
        text::views(r@) == missing_of(op@.required, args@),
{
    broadcast use text::views_push;

    let ghost req = op@.required;
    let mut out: Vec<String> = Vec::new();
    assert(req.take(0) =~= Seq::empty());
    for i in 0..op.required.len()
        invariant
            req == op@.required,
            text::views(out@) == missing_of(req.take(i as int), args@),
    {
        let k = op.required[i];
        assert(req.take(i + 1).drop_last() =~= req.take(i as int));
        assert(req.take(i + 1).last() == k@);
        if !is_present(args.get(k)) {
            out.push(k.to_owned());
        }
    }
    assert(req.take(req.len() as int) =~= req);
    out
}

/// Each tool has an operation, so that an example can be given.
pub proof fn tools_have_operations(i: int)
    requires
        0 <= i < tool_table::all_tools().len(),
    ensures
        tool_table::all_tools()[i].ops.len() > 0,
{
}

/// The way from a call of a tool to the handler that does the work.
///
/// `Ok(None)` says that the tool is not one of these and that the call is to
/// be passed on as it is, `Ok(Some(leaf))` that `leaf` is to be called with the
/// same arguments; an error is the answer to the model.
pub fn dispatch(tool_name: &str, args: &Json) -> (r: Result<Option<String>, String>)
    ensures
        match r {
            Ok(Some(leaf)) => dispatched(tool_name@, args@) == Ok::<_, Seq<char>>(Some(leaf@)),
            Ok(None) => dispatched(tool_name@, args@) == Ok::<_, Seq<char>>(None::<Seq<char>>),
            Err(e) => dispatched(tool_name@, args@) == Err::<Option<Seq<char>>, _>(e@),
        },
{
    let tools = all();
    let spec_ = match find_tool(&tools, tool_name) {
        Some(t) => t,
        None => {
            return Ok(None);
        },
    };
    proof {
        let i = choose|i: int| 0 <= i < tools@.len() && #[trigger] tools@[i]@ == spec_@;
        assert(tool_table::tool_specs(tools@)[i] == spec_@);
        tools_have_operations(i);
        assert(spec_@.ops.len() == spec_.ops@.len());
    }
    let op_name = match args.text_at("op") {
        Some(o) => o,
        None => {
            return Err(usage_error(spec_, "missing required field 'op'"));
        },
    };
    let op = match find_op(&spec_.ops, &op_name) {
        Some(o) => o,
        None => {
            let mut problem = "unknown op '".to_owned();
            problem.append(&op_name);
            problem.append("'");
            return Err(usage_error(spec_, &problem));
        },
    };
    let missing = missing_params(op, args);
    if missing.len() > 0 {
        return Err(missing_params_error(spec_, op, &missing));
    }
    Ok(Some(op.inner.to_owned()))
}

/// A number by which the names of tools, and of the operations of one tool,
/// are told apart.
spec fn rank(s: Seq<char>) -> int {
    s.len() * 1_000_000 + s[0] as int * 1_000 + s[1] as int
}

proof fn tool_names_differ(i: int, j: int)
    requires
        0 <= i < j < tool_table::all_tools().len(),
    ensures
        tool_table::all_tools()[i].name != tool_table::all_tools()[j].name,
{
    reveal_strlit("memory");
    reveal_strlit("schedule");
    reveal_strlit("git");
    reveal_strlit("ui");
    reveal_strlit("browser");
    reveal_strlit("shell");
    reveal_strlit("lsp");
    reveal_strlit("semantic");
    reveal_strlit("fs_read");
    reveal_strlit("fs_write");
    reveal_strlit("web");
    assert(rank(tool_table::all_tools()[0].name) == 6109101);
    assert(rank(tool_table::all_tools()[1].name) == 8115099);
    assert(rank(tool_table::all_tools()[2].name) == 3103105);
    assert(rank(tool_table::all_tools()[3].name) == 2117105);
    assert(rank(tool_table::all_tools()[4].name) == 7098114);
    assert(rank(tool_table::all_tools()[5].name) == 5115104);
    assert(rank(tool_table::all_tools()[6].name) == 3108115);
    assert(rank(tool_table::all_tools()[7].name) == 8115101);
    assert(rank(tool_table::all_tools()[8].name) == 7102115);
    assert(rank(tool_table::all_tools()[9].name) == 8102115);
    assert(rank(tool_table::all_tools()[10].name) == 3119101);
    assert(i == 0 || i == 1 || i == 2 || i == 3 || i == 4 || i == 5 || i == 6 || i == 7 || i == 8
        || i == 9 || i == 10);
    assert(j == 0 || j == 1 || j == 2 || j == 3 || j == 4 || j == 5 || j == 6 || j == 7 || j == 8
        || j == 9 || j == 10);
    assert(rank(tool_table::all_tools()[i].name) != rank(tool_table::all_tools()[j].name));
}

proof fn memory_ops_differ(i: int, j: int)
    requires
        0 <= i < j < tool_table::memory_tool().ops.len(),
    ensures
        tool_table::memory_tool().ops[i].op != tool_table::memory_tool().ops[j].op,
{
    reveal_strlit("search");
    reveal_strlit("store");
    reveal_strlit("store_user_fact");
    assert(rank(tool_table::memory_tool().ops[0].op) == 6115101);
    assert(rank(tool_table::memory_tool().ops[1].op) == 5115116);
    assert(rank(tool_table::memory_tool().ops[2].op) == 15115116);
    assert(i == 0 || i == 1 || i == 2);
    assert(j == 0 || j == 1 || j == 2);
}

proof fn schedule_ops_differ(i: int, j: int)
    requires
        0 <= i < j < tool_table::schedule_tool().ops.len(),
    ensures
        tool_table::schedule_tool().ops[i].op != tool_table::schedule_tool().ops[j].op,
{
    reveal_strlit("propose");
    reveal_strlit("list");
    reveal_strlit("cancel");
    assert(rank(tool_table::schedule_tool().ops[0].op) == 7112114);
    assert(rank(tool_table::schedule_tool().ops[1].op) == 4108105);
    assert(rank(tool_table::schedule_tool().ops[2].op) == 6099097);
    assert(i == 0 || i == 1 || i == 2);
    assert(j == 0 || j == 1 || j == 2);
}

proof fn git_ops_differ(i: int, j: int)
    requires
        0 <= i < j < tool_table::git_tool().ops.len(),
    ensures
        tool_table::git_tool().ops[i].op != tool_table::git_tool().ops[j].op,
{
    reveal_strlit("status");
    reveal_strlit("diff");
    reveal_strlit("log");
    reveal_strlit("branch");
    reveal_strlit("commit");
    assert(rank(tool_table::git_tool().ops[0].op) == 6115116);
    assert(rank(tool_table::git_tool().ops[1].op) == 4100105);
    assert(rank(tool_table::git_tool().ops[2].op) == 3108111);
    assert(rank(tool_table::git_tool().ops[3].op) == 6098114);
    assert(rank(tool_table::git_tool().ops[4].op) == 6099111);
    assert(i == 0 || i == 1 || i == 2 || i == 3 || i == 4);
    assert(j == 0 || j == 1 || j == 2 || j == 3 || j == 4);
}

proof fn ui_ops_differ(i: int, j: int)
    requires
        0 <= i < j < tool_table::ui_tool().ops.len(),
    ensures
        tool_table::ui_tool().ops[i].op != tool_table::ui_tool().ops[j].op,
{
    reveal_strlit("snapshot");
    reveal_strlit("click");
    reveal_strlit("type");
    reveal_strlit("focus");
    reveal_strlit("find");
    assert(rank(tool_table::ui_tool().ops[0].op) == 8115110);
    assert(rank(tool_table::ui_tool().ops[1].op) == 5099108);
    assert(rank(tool_table::ui_tool().ops[2].op) == 4116121);
    assert(rank(tool_table::ui_tool().ops[3].op) == 5102111);
    assert(rank(tool_table::ui_tool().ops[4].op) == 4102105);
    assert(i == 0 || i == 1 || i == 2 || i == 3 || i == 4);
    assert(j == 0 || j == 1 || j == 2 || j == 3 || j == 4);
}

proof fn browser_ops_differ(i: int, j: int)
    requires
        0 <= i < j < tool_table::browser_tool().ops.len(),
    ensures
        tool_table::browser_tool().ops[i].op != tool_table::browser_tool().ops[j].op,
{
    reveal_strlit("navigate");
    reveal_strlit("click");
    reveal_strlit("type");
    reveal_strlit("eval");
    reveal_strlit("screenshot");
    assert(rank(tool_table::browser_tool().ops[0].op) == 8110097);
    assert(rank(tool_table::browser_tool().ops[1].op) == 5099108);
    assert(rank(tool_table::browser_tool().ops[2].op) == 4116121);
    assert(rank(tool_table::browser_tool().ops[3].op) == 4101118);
    assert(rank(tool_table::browser_tool().ops[4].op) == 10115099);
    assert(i == 0 || i == 1 || i == 2 || i == 3 || i == 4);
    assert(j == 0 || j == 1 || j == 2 || j == 3 || j == 4);
}

proof fn shell_ops_differ(i: int, j: int)
    requires
        0 <= i < j < tool_table::shell_tool().ops.len(),
    ensures
        tool_table::shell_tool().ops[i].op != tool_table::shell_tool().ops[j].op,
{
    reveal_strlit("exec");
    reveal_strlit("spawn");
    reveal_strlit("read");
    reveal_strlit("kill");
    reveal_strlit("list");
    assert(rank(tool_table::shell_tool().ops[0].op) == 4101120);
    assert(rank(tool_table::shell_tool().ops[1].op) == 5115112);
    assert(rank(tool_table::shell_tool().ops[2].op) == 4114101);
    assert(rank(tool_table::shell_tool().ops[3].op) == 4107105);
    assert(rank(tool_table::shell_tool().ops[4].op) == 4108105);
    assert(i == 0 || i == 1 || i == 2 || i == 3 || i == 4);
    assert(j == 0 || j == 1 || j == 2 || j == 3 || j == 4);
}

proof fn lsp_ops_differ(i: int, j: int)
    requires
        0 <= i < j < tool_table::lsp_tool().ops.len(),
    ensures
        tool_table::lsp_tool().ops[i].op != tool_table::lsp_tool().ops[j].op,
{
    reveal_strlit("definition");
    reveal_strlit("references");
    reveal_strlit("hover");
    assert(rank(tool_table::lsp_tool().ops[0].op) == 10100101);
    assert(rank(tool_table::lsp_tool().ops[1].op) == 10114101);
    assert(rank(tool_table::lsp_tool().ops[2].op) == 5104111);
    assert(i == 0 || i == 1 || i == 2);
    assert(j == 0 || j == 1 || j == 2);
}

proof fn semantic_ops_differ(i: int, j: int)
    requires
        0 <= i < j < tool_table::semantic_tool().ops.len(),
    ensures
        tool_table::semantic_tool().ops[i].op != tool_table::semantic_tool().ops[j].op,
{
    reveal_strlit("rename");
    reveal_strlit("code_actions");
    reveal_strlit("apply_action");
    reveal_strlit("workspace_symbol");
    assert(rank(tool_table::semantic_tool().ops[0].op) == 6114101);
    assert(rank(tool_table::semantic_tool().ops[1].op) == 12099111);
    assert(rank(tool_table::semantic_tool().ops[2].op) == 12097112);
    assert(rank(tool_table::semantic_tool().ops[3].op) == 16119111);
    assert(i == 0 || i == 1 || i == 2 || i == 3);
    assert(j == 0 || j == 1 || j == 2 || j == 3);
}

proof fn fs_read_ops_differ(i: int, j: int)
    requires
        0 <= i < j < tool_table::fs_read_tool().ops.len(),
    ensures
        tool_table::fs_read_tool().ops[i].op != tool_table::fs_read_tool().ops[j].op,
{
    reveal_strlit("read");
    reveal_strlit("list");
    reveal_strlit("cwd");
    reveal_strlit("chdir");
    reveal_strlit("glob");
    reveal_strlit("grep");
    reveal_strlit("outline");
    reveal_strlit("search_in_file");
    assert(rank(tool_table::fs_read_tool().ops[0].op) == 4114101);
    assert(rank(tool_table::fs_read_tool().ops[1].op) == 4108105);
    assert(rank(tool_table::fs_read_tool().ops[2].op) == 3099119);
    assert(rank(tool_table::fs_read_tool().ops[3].op) == 5099104);
    assert(rank(tool_table::fs_read_tool().ops[4].op) == 4103108);
    assert(rank(tool_table::fs_read_tool().ops[5].op) == 4103114);
    assert(rank(tool_table::fs_read_tool().ops[6].op) == 7111117);
    assert(rank(tool_table::fs_read_tool().ops[7].op) == 14115101);
    assert(i == 0 || i == 1 || i == 2 || i == 3 || i == 4 || i == 5 || i == 6 || i == 7);
    assert(j == 0 || j == 1 || j == 2 || j == 3 || j == 4 || j == 5 || j == 6 || j == 7);
}

proof fn fs_write_ops_differ(i: int, j: int)
    requires
        0 <= i < j < tool_table::fs_write_tool().ops.len(),
    ensures
        tool_table::fs_write_tool().ops[i].op != tool_table::fs_write_tool().ops[j].op,
{
    reveal_strlit("write");
    reveal_strlit("edit");
    reveal_strlit("patch");
    reveal_strlit("diff");
    reveal_strlit("undo");
    assert(rank(tool_table::fs_write_tool().ops[0].op) == 5119114);
    assert(rank(tool_table::fs_write_tool().ops[1].op) == 4101100);
    assert(rank(tool_table::fs_write_tool().ops[2].op) == 5112097);
    assert(rank(tool_table::fs_write_tool().ops[3].op) == 4100105);
    assert(rank(tool_table::fs_write_tool().ops[4].op) == 4117110);
    assert(i == 0 || i == 1 || i == 2 || i == 3 || i == 4);
    assert(j == 0 || j == 1 || j == 2 || j == 3 || j == 4);
}

proof fn web_ops_differ(i: int, j: int)
    requires
        0 <= i < j < tool_table::web_tool().ops.len(),
    ensures
        tool_table::web_tool().ops[i].op != tool_table::web_tool().ops[j].op,
{
    reveal_strlit("search");
    reveal_strlit("fetch");
    assert(rank(tool_table::web_tool().ops[0].op) == 6115101);
    assert(rank(tool_table::web_tool().ops[1].op) == 5102101);
    assert(i == 0 || i == 1);
    assert(j == 0 || j == 1);
}

proof fn ops_differ(k: int, i: int, j: int)
    requires
        0 <= k < tool_table::all_tools().len(),
        0 <= i < j < tool_table::all_tools()[k].ops.len(),
    ensures
        tool_table::all_tools()[k].ops[i].op != tool_table::all_tools()[k].ops[j].op,
{
    if k == 0 {
        memory_ops_differ(i, j);
    } else if k == 1 {
        schedule_ops_differ(i, j);
    } else if k == 2 {
        git_ops_differ(i, j);
    } else if k == 3 {
        ui_ops_differ(i, j);
    } else if k == 4 {
        browser_ops_differ(i, j);
    } else if k == 5 {
        shell_ops_differ(i, j);
    } else if k == 6 {
        lsp_ops_differ(i, j);
    } else if k == 7 {
        semantic_ops_differ(i, j);
    } else if k == 8 {
        fs_read_ops_differ(i, j);
    } else if k == 9 {
        fs_write_ops_differ(i, j);
    } else {
        web_ops_differ(i, j);
    }
}

proof fn finds_tool(tools: Seq<ToolSpec>, i: int)
    requires
        0 <= i < tools.len(),
        forall|a: int, b: int|
            0 <= a < b < tools.len() ==> #[trigger] tools[a].name != #[trigger] tools[b].name,
    ensures
        tool_named(tools, tools[i].name) == Some(tools[i]),
    decreases i,
{
    if i > 0 {
        let rest = tools.skip(1);
        assert(tools[0].name != tools[i].name);
        assert forall|a: int, b: int| 0 <= a < b < rest.len() implies #[trigger] rest[a].name
            != #[trigger] rest[b].name by {
            assert(tools[a + 1].name != tools[b + 1].name);
        }
        finds_tool(rest, i - 1);
        assert(rest[i - 1] == tools[i]);
    }
}

proof fn finds_op(ops: Seq<OpSpec>, i: int)
    requires
        0 <= i < ops.len(),
        forall|a: int, b: int|
            0 <= a < b < ops.len() ==> #[trigger] ops[a].op != #[trigger] ops[b].op,
    ensures
        op_named(ops, ops[i].op) == Some(ops[i]),
    decreases i,
{
    if i > 0 {
        let rest = ops.skip(1);
        assert(ops[0].op != ops[i].op);
        assert forall|a: int, b: int| 0 <= a < b < rest.len() implies #[trigger] rest[a].op
            != #[trigger] rest[b].op by {
            assert(ops[a + 1].op != ops[b + 1].op);
        }
        finds_op(rest, i - 1);
        assert(rest[i - 1] == ops[i]);
    }
}

proof fn nothing_missing(required: Seq<Seq<char>>, args: JsonV)
    ensures
        missing_of(required, args).len() == 0 <==> forall|k: int|
            0 <= k < required.len() ==> present(args.get(#[trigger] required[k])),
    decreases required.len(),
{
    if required.len() > 0 {
        let front = required.drop_last();
        nothing_missing(front, args);
        assert(forall|k: int| 0 <= k < front.len() ==> front[k] == required[k]);
    }
}

/// Every operation that is offered to the model is reached by its name: the
/// call leads to the handler of the operation exactly where all the
/// parameters that the operation requires are given.
pub proof fn every_offered_operation_is_reached(i: int, j: int, args: JsonV)
    requires
        0 <= i < tool_table::all_tools().len(),
        0 <= j < tool_table::all_tools()[i].ops.len(),
        args.text_at("op"@) == Some(tool_table::all_tools()[i].ops[j].op),
    ensures
        (forall|k: int|
            0 <= k < tool_table::all_tools()[i].ops[j].required.len() ==> present(
                args.get(#[trigger] tool_table::all_tools()[i].ops[j].required[k]),
            )) <==> dispatched(tool_table::all_tools()[i].name, args) == Ok::<_, Seq<char>>(
            Some(tool_table::all_tools()[i].ops[j].inner),
        ),
{
    let t = tool_table::all_tools()[i];
    assert forall|a: int, b: int|
        0 <= a < b < tool_table::all_tools().len() implies #[trigger] tool_table::all_tools()[a].name
        != #[trigger] tool_table::all_tools()[b].name by {
        tool_names_differ(a, b);
    }
    finds_tool(tool_table::all_tools(), i);
    assert forall|a: int, b: int| 0 <= a < b < t.ops.len() implies #[trigger] t.ops[a].op
        != #[trigger] t.ops[b].op by {
        ops_differ(i, a, b);
    }
    finds_op(t.ops, j);
    nothing_missing(t.ops[j].required, args);
}

/// An operation that is offered is always known: a call of it leads to its
/// handler, or is answered with what it leaves out.
pub proof fn an_offered_operation_is_known(i: int, j: int, args: JsonV)
    requires
        0 <= i < tool_table::all_tools().len(),
        0 <= j < tool_table::all_tools()[i].ops.len(),
        args.text_at("op"@) == Some(tool_table::all_tools()[i].ops[j].op),
    ensures
        ({
            let t = tool_table::all_tools()[i];
            let missing = missing_of(t.ops[j].required, args);
            let r = dispatched(t.name, args);
            &&& r == (if missing.len() > 0 {
                Err(missing_text(t, t.ops[j], missing))
            } else {
                Ok(Some(t.ops[j].inner))
            })
            &&& r != Ok::<_, Seq<char>>(None::<Seq<char>>)
            &&& r != Err::<Option<Seq<char>>, _>(usage(t, "unknown op '"@ + t.ops[j].op + "'"@))
        }),
{
    let t = tool_table::all_tools()[i];
    assert forall|a: int, b: int|
        0 <= a < b < tool_table::all_tools().len() implies #[trigger] tool_table::all_tools()[a].name
        != #[trigger] tool_table::all_tools()[b].name by {
        tool_names_differ(a, b);
    }
    finds_tool(tool_table::all_tools(), i);
    assert forall|a: int, b: int| 0 <= a < b < t.ops.len() implies #[trigger] t.ops[a].op
        != #[trigger] t.ops[b].op by {
        ops_differ(i, a, b);
    }
    finds_op(t.ops, j);
    let missing = missing_of(t.ops[j].required, args);
    let at = t.name.len() as int + 2;
    reveal_strlit(": ");
    reveal_strlit(": op='");
    reveal_strlit("unknown op '");
    assert(missing_text(t, t.ops[j], missing)[at] == 'o');
    assert(usage(t, "unknown op '"@ + t.ops[j].op + "'"@)[at] == 'u');
}

/// There are twelve tools, the last of which keeps the list of things to do, and
/// no two have the same name.
pub proof fn offered_tools_are_told_apart()
    ensures
        offered_tools().len() == 12,
        offered_tools().last().name == "todo_write"@,
        forall|i: int, j: int|
            0 <= i < j < offered_tools().len() ==> (#[trigger] offered_tools()[i]).name != (
            #[trigger] offered_tools()[j]).name,
{
    assert forall|i: int, j: int| 0 <= i < j < offered_tools().len() implies (
    #[trigger] offered_tools()[i]).name != (#[trigger] offered_tools()[j]).name by {
        if j < tool_table::all_tools().len() {
            tool_names_differ(i, j);
        } else {
            reveal_strlit("todo_write");
            tool_names_are_short(i);
        }
    }
}

/// The schema of every tool is one of an object with properties, and that of a tool
/// with operations lists them all by their names.
pub proof fn offered_schemas_are_objects(i: int)
    requires
        0 <= i < offered_tools().len(),
    ensures
        is_object_schema(offered_tools()[i].parameters),
        i < tool_table::all_tools().len() ==> {
            let t = tool_table::all_tools()[i];
            &&& offered_tools()[i].name == t.name
            &&& offered_tools()[i].parameters.get("properties"@) matches Some(
                JsonV::Object(members),
            ) && members[0] == (
                "op"@,
                param_schema(one_of_these("op"@, op_names(t), ""@)),
            )
        },
{
    if i < tool_table::all_tools().len() {
        let t = tool_table::all_tools()[i];
        let params = seq![one_of_these("op"@, op_names(t), ""@)] + t.params;
        schemas_are_objects(properties(params), seq!["op"@]);
        assert(properties(params)[0] == ("op"@, param_schema(params[0])));
    } else {
        let item = schema_of(
            todo_params(TODO_CONTENT@, TODO_ACTIVE@),
            seq!["content"@, "activeForm"@, "status"@],
        );
        schemas_are_objects(
            seq![("todos"@, JsonV::Object(seq![typed("array"@), ("items"@, item)]))],
            seq!["todos"@],
        );
    }
}

proof fn tool_names_are_short(i: int)
    requires
        0 <= i < tool_table::all_tools().len(),
    ensures
        tool_table::all_tools()[i].name.len() < 10,
{
    reveal_strlit("memory");
    reveal_strlit("schedule");
    reveal_strlit("git");
    reveal_strlit("ui");
    reveal_strlit("browser");
    reveal_strlit("shell");
    reveal_strlit("lsp");
    reveal_strlit("semantic");
    reveal_strlit("fs_read");
    reveal_strlit("fs_write");
    reveal_strlit("web");
    assert(i == 0 || i == 1 || i == 2 || i == 3 || i == 4 || i == 5 || i == 6 || i == 7 || i == 8
        || i == 9 || i == 10);
}

} // verus!
