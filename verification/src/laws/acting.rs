//! What is done on the desktop, remembered of it, and written down of errors.

use crate::computer_use::actions::title_matches;
use crate::computer_use::context::{action_line, recent, summary, ActionRecord};
use crate::computer_use::uia::{hint, hits, shown, UiElement, UiHit};
use crate::error_log::{
    first_members, preview_json, previews, record_json, ErrorContext, PromptPreviewEntry,
};
use crate::ipc::handlers::chat::answers::{
    enter_command, found_elements, hit_json, listed_schedules, live_line, lsp_answer, memory_answer,
    memory_note, memory_title_text, run_mode, screenshot_answer, snapshot_body, snapshot_text,
    unreadable, window_to_describe, Described, MemoryNote, RunMode,
};
use crate::ipc::handlers::chat::context::{
    fact_json, ids_among, looked_up, usable, RegisteredPlugin,
};
use crate::ipc::protocol::IPCResponse;
use crate::json::{Json, JsonV, Number};
use crate::laws::calling::{has_member, members_are_found_by_name, says};
use crate::laws::noting::notes;
use crate::laws::parts::{joined_parts_occur, stands_at};
use crate::llm::types::Message;
use crate::outside;
use crate::text;
use vstd::prelude::*;

verus! {

// ---------------------------------------------------------------------------
// Actions
// ---------------------------------------------------------------------------

/// The last fifty actions are remembered.
pub proof fn fifty_actions_are_remembered(actions: Seq<ActionRecord>, a: ActionRecord)
    ensures
        recent(actions.push(a)).last() == a,
        recent(actions).len() <= 50,
        actions.len() <= 50 ==> recent(actions) == actions,
        actions.len() > 50 ==> recent(actions) == actions.skip(actions.len() - 50),
{
}

/// The last actions are told in order, each with what was done, to what, and whether it
/// worked.
pub proof fn the_last_actions_are_told(actions: Seq<ActionRecord>, n: nat, i: int)
    requires
        0 <= i < actions.len(),
        i >= actions.len() - n,
    ensures
        text::occurs(summary(actions, n), action_line(actions[i])),
        text::begins(
            action_line(actions[i]),
            actions[i].kind@ + " "@ + actions[i].target@ + " "@ + (if actions[i].ok {
                "ok"@
            } else {
                "fail"@
            }),
        ),
        actions[i].value matches Some(v) ==> text::ends(
            action_line(actions[i]),
            " value="@ + outside::debug_text(v@),
        ),
{
    let from = if actions.len() <= n {
        0
    } else {
        actions.len() - n
    };
    let shown = actions.skip(from);
    assert(actions.len() <= n ==> shown =~= actions);
    let lines = shown.map_values(|a: ActionRecord| action_line(a));
    assert(lines[i - from] == action_line(actions[i]));
    joined_parts_occur(lines, "\n"@, i - from);
    let a = actions[i];
    let l = action_line(a);
    let head = a.kind@ + " "@ + a.target@ + " "@ + (if a.ok {
        "ok"@
    } else {
        "fail"@
    });
    assert(l.subrange(0, head.len() as int) =~= head);
    if let Some(v) = a.value {
        let tail = " value="@ + outside::debug_text(v@);
        assert(l.subrange(l.len() - tail.len(), l.len() as int) =~= tail);
    }
}

/// An element is told by what can be done with it, and what is empty of it is left out.
pub proof fn elements_are_described(el: UiElement, max: nat, first: nat)
    ensures
        el.can_invoke ==> hint(el) == Some("click"@),
        !el.can_invoke && el.can_toggle ==> hint(el) == Some("toggle"@),
        !el.can_invoke && !el.can_toggle && el.can_select ==> hint(el) == Some("select"@),
        !el.can_invoke && !el.can_toggle && !el.can_select && el.can_edit ==> hint(el) == Some(
            "edit"@,
        ),
        !el.can_invoke && !el.can_toggle && !el.can_select && !el.can_edit ==> hint(el) is None,
        el.offscreen ==> shown(el, 0, max, false, first) is None,
        shown(el, 0, max, true, first) matches Some(n) && n.id == "e"@ + text::decimal(first) && (
        el.name matches Some(x) ==> n.name == x@) && (el.role matches Some(x) ==> n.role == x@) && (
        el.role is None ==> n.role == "Unknown"@) && (el.bounds matches Some(b) ==> n.bounds == b)
            && n.invoke_hint == hint(el) && (el.value matches Some(x) ==> x@.len() > 0 ==> n.value
            == Some(x@)) && (el.value is None ==> n.value is None),
{
}

proof fn hits_are_found(elements: Seq<UiHit>, query: Seq<char>, most: nat)
    ensures
        ({
            let h = hits(elements, query, most);
            &&& h.len() <= most
            &&& forall|k: int|
                0 <= k < h.len() ==> 0 <= #[trigger] h[k] < elements.len() && text::occurs(
                    text::lower(elements[h[k]].name@),
                    text::lower(query),
                )
            &&& forall|k: int, m: int| 0 <= k < m < h.len() ==> #[trigger] h[k] < #[trigger] h[m]
            &&& h.len() < most ==> forall|i: int|
                0 <= i < elements.len() && text::occurs(
                    text::lower((#[trigger] elements[i]).name@),
                    text::lower(query),
                ) ==> h.contains(i)
        }),
    decreases elements.len(),
{
    if elements.len() > 0 {
        let front = elements.drop_last();
        hits_are_found(front, query, most);
        let a = hits(front, query, most);
        let h = hits(elements, query, most);
        let last = elements.len() - 1;
        assert forall|k: int| 0 <= k < h.len() implies 0 <= #[trigger] h[k] < elements.len()
            && text::occurs(text::lower(elements[h[k]].name@), text::lower(query)) by {
            if k < a.len() {
                assert(h[k] == a[k]);
                assert(front[a[k]] == elements[a[k]]);
            }
        }
        assert forall|k: int, m: int| 0 <= k < m < h.len() implies #[trigger] h[k] < #[trigger] h[m] by {
            assert(h[k] == a[k]);
            if m < a.len() {
                assert(h[m] == a[m]);
            }
        }
        if h.len() < most {
            assert forall|i: int|
                0 <= i < elements.len() && text::occurs(
                    text::lower((#[trigger] elements[i]).name@),
                    text::lower(query),
                ) implies h.contains(i) by {
                if i < last {
                    assert(front[i] == elements[i]);
                    assert(a.contains(i));
                    let k = choose|k: int| 0 <= k < a.len() && a[k] == i;
                    assert(h[k] == i);
                } else {
                    assert(h[h.len() - 1] == i);
                }
            }
        }
    }
}

/// Elements are found by a part of their name, in capitals or not, the first ones first
/// and all of them as long as there is room.
pub proof fn elements_are_found_by_name(elements: Seq<UiHit>, query: Seq<char>, most: nat)
    ensures
        ({
            let h = hits(elements, query, most);
            &&& h.len() <= most
            &&& forall|k: int|
                0 <= k < h.len() ==> 0 <= #[trigger] h[k] < elements.len() && text::occurs(
                    text::lower(elements[h[k]].name@),
                    text::lower(query),
                )
            &&& h.len() < most ==> forall|i: int|
                0 <= i < elements.len() && text::occurs(
                    text::lower((#[trigger] elements[i]).name@),
                    text::lower(query),
                ) ==> h.contains(i)
        }),
        forall|title: Seq<char>| #[trigger]
            title_matches(title, query) <==> text::occurs(text::lower(title), text::lower(query)),
{
    hits_are_found(elements, query, most);
}

// ---------------------------------------------------------------------------
// Answers of tools
// ---------------------------------------------------------------------------

/// A memory is kept whole, with its category; its title is its first 120 bytes.
pub proof fn a_memory_is_kept(content: &str, category: &str, r: MemoryNote)
    requires
        call_ensures(memory_note, (content, category), r),
    ensures
        notes(r.metadata@, "category"@, JsonV::Text(category@)),
        notes(r.metadata@, "source"@, JsonV::Text("llm_tool"@)),
        r.summary@ == content@,
        r.embed_text@ == content@,
        text::views(r.key_facts@) == seq![content@],
        text::views(r.tags@) == seq![category@],
        text::byte_count(content@) <= 120 ==> memory_title_text(content@) == Some(content@),
        text::byte_count(content@) > 120 ==> (memory_title_text(content@) matches Some(t) ==> exists|
            cut: Seq<char>,
        |
            text::byte_count(cut) == 120 && #[trigger] text::begins(content@, cut) && t == cut
                + "\u{2026}"@),
{
    let m = r.metadata@->Object_0;
    assert(m.contains(m[0]) && m.contains(m[1]));
    if text::byte_count(content@) > 120 {
        text::byte_cut_is_prefix(content@, 120);
        if let Some(cut) = text::byte_cut(content@, 120) {
            assert(content@.subrange(0, cut.len() as int) =~= cut);
            assert(text::begins(content@, cut));
        }
    }
}

/// What is found in the memory is told with its title, its summary, how far it fits and
/// its node; where nothing is, that is told with the query.
pub proof fn a_memory_is_told(
    title: Seq<char>,
    summary: Option<Seq<char>>,
    c: Number,
    node: Seq<char>,
    query: &str,
    found: &Result<Vec<Json>, String>,
    printed: String,
    r: String,
)
    ensures
        notes(hit_json(title, summary, c, node), "title"@, JsonV::Text(title)),
        summary matches Some(s) ==> notes(
            hit_json(title, summary, c, node),
            "summary"@,
            JsonV::Text(s),
        ),
        notes(hit_json(title, summary, c, node), "confidence"@, JsonV::Num(c)),
        notes(hit_json(title, summary, c, node), "node_id"@, JsonV::Text(node)),
        call_ensures(memory_answer, (query, found, printed), r) ==> (*found is Ok
            && found->Ok_0@.len() > 0 ==> r@ == printed@) && (*found is Err ==> text::occurs(
            r@,
            query@,
        )),
{
    let m = hit_json(title, summary, c, node)->Object_0;
    assert(m.contains(m[0]) && m.contains(m[1]) && m.contains(m[2]) && m.contains(m[3]));
    if call_ensures(memory_answer, (query, found, printed), r) && *found is Err {
        let head = "search_memory: no results for query '"@;
        assert(r@.subrange(head.len() as int, (head.len() + query@.len()) as int) =~= query@);
        stands_at(r@, query@, head.len() as int);
    }
}

/// Commands run beside the chat where that is asked for, and are shown line by line
/// where someone listens; they run in the working directory.
pub proof fn commands_run_as_asked(
    background: bool,
    listener: bool,
    m: RunMode,
    cwd: &str,
    c: String,
    id: &str,
    shell: &str,
    line: &str,
    l: IPCResponse,
)
    ensures
        call_ensures(run_mode, (background, listener), m) ==> (background ==> m
            == RunMode::Background) && (!background && listener ==> m == RunMode::Streaming) && (
        !background && !listener ==> m == RunMode::Waiting),
        call_ensures(enter_command, (cwd,), c) ==> c@ == "cd \""@ + cwd@ + "\""@,
        call_ensures(live_line, (id, shell, line), l) ==> (l matches IPCResponse::ChatChunk {
            id: i,
            token,
        } && i@ == id@ && token@ == "\n```sh ["@ + shell@ + "]\n"@ + line@ + "\n```"@),
{
}

/// What a tool gives is answered as it is, and what went wrong behind a word on it.
pub proof fn tools_are_quoted(
    outcome: Result<String, String>,
    path: &str,
    e: &str,
    picture: &Result<String, String>,
    window: &str,
    d: Described,
    r: String,
)
    ensures
        call_ensures(lsp_answer, (outcome,), r) ==> (outcome matches Ok(t) ==> r@ == t@) && (
        outcome matches Err(x) ==> r@ == "LSP error: "@ + x@),
        call_ensures(found_elements, (outcome,), r) ==> (outcome matches Ok(t) ==> r@ == t@) && (
        outcome matches Err(x) ==> r@ == "ui_find failed: "@ + x@),
        call_ensures(listed_schedules, (outcome,), r) ==> (outcome matches Ok(t) ==> r@ == t@) && (
        outcome matches Err(x) ==> r@ == "list_schedules failed: "@ + x@),
        call_ensures(unreadable, (path, e), r) ==> r@ == "Error reading '"@ + path@ + "': "@ + e@,
        call_ensures(screenshot_answer, (picture,), r) ==> (*picture matches Ok(p) ==> r@
            == "[screenshot: "@ + text::decimal(text::byte_count(p@)) + " bytes base64]"@) && (
        *picture matches Err(x) ==> r@ == "Error: "@ + x@),
        call_ensures(window_to_describe, (window,), d) ==> (d == Described::Foreground
            <==> text::blank(window@)),
{
}

/// A window is told before the last actions.
pub proof fn a_window_is_told_before_actions(
    tree: Seq<char>,
    body: Seq<char>,
    history: Seq<char>,
)
    ensures
        snapshot_body(Ok(tree)) == tree,
        snapshot_body(Err(tree)) == "ui_snapshot failed: "@ + tree,
        history.len() == 0 ==> snapshot_text(body, history) == body,
        history.len() > 0 ==> snapshot_text(body, history) == body + "\n\n# Recent actions\n"@
            + history,
{
}

// ---------------------------------------------------------------------------
// What is known
// ---------------------------------------------------------------------------

proof fn ids_up_to(items: Seq<JsonV>, n: nat)
    requires
        n <= items.len(),
    ensures
        ({
            let all = items.take(n as int).filter(
                |v: JsonV| v.text_at("node_id"@) is Some,
            ).map_values(|v: JsonV| v.text_at("node_id"@)->0);
            ids_among(items, n) == (if all.len() <= 4 {
                all
            } else {
                all.take(4)
            })
        }),
    decreases n,
{
    reveal(Seq::filter);
    let p = |v: JsonV| v.text_at("node_id"@) is Some;
    let m = |v: JsonV| v.text_at("node_id"@)->0;
    let part = items.take(n as int);
    let all = part.filter(p).map_values(m);
    if n > 0 {
        ids_up_to(items, (n - 1) as nat);
        assert(part.drop_last() =~= items.take(n - 1));
        let before = items.take(n - 1).filter(p).map_values(m);
        if p(items[n - 1]) {
            assert(all =~= before.push(m(items[n - 1])));
        } else {
            assert(all =~= before);
        }
    }
    assert(ids_among(items, n) =~= if all.len() <= 4 {
        all
    } else {
        all.take(4)
    });
}

/// The first four things that were looked up are linked to each other: each two of them
/// once, the earlier to the later.
pub proof fn the_first_four_are_linked(items: Seq<JsonV>)
    ensures
        ({
            let all = items.filter(|v: JsonV| v.text_at("node_id"@) is Some).map_values(
                |v: JsonV| v.text_at("node_id"@)->0,
            );
            ids_among(items, items.len()) == (if all.len() <= 4 {
                all
            } else {
                all.take(4)
            })
        }),
        forall|packet: JsonV| #[trigger]
            has_member(packet, "memory"@, JsonV::List(items)) ==> looked_up(Some(packet)) == items,
{
    ids_up_to(items, items.len());
    assert(items.take(items.len() as int) =~= items);
    assert forall|packet: JsonV| #[trigger]
        has_member(packet, "memory"@, JsonV::List(items)) implies looked_up(Some(packet))
        == items by {
        members_are_found_by_name(packet, "memory"@);
    }
}

/// Every plugin that is installed and enabled is in use, in order, and no other.
pub proof fn enabled_plugins_are_in_use(list: Seq<RegisteredPlugin>)
    ensures
        usable(list) == list.filter(
            |p: RegisteredPlugin| p.installed && p.enabled,
        ).map_values(|p: RegisteredPlugin| p.plugin),
    decreases list.len(),
{
    let f = |p: RegisteredPlugin| p.installed && p.enabled;
    let m = |p: RegisteredPlugin| p.plugin;
    if list.len() > 0 {
        enabled_plugins_are_in_use(list.skip(1));
        let one = seq![list[0]];
        assert(list =~= one + list.skip(1));
        Seq::filter_distributes_over_add(one, list.skip(1), f);
        reveal(Seq::filter);
        let none = one.drop_last();
        assert(none.filter(f) =~= Seq::empty());
        assert(one.filter(f) =~= if f(list[0]) {
            one
        } else {
            Seq::empty()
        });
        assert(usable(list) =~= list.filter(f).map_values(m));
    } else {
        reveal(Seq::filter);
        assert(usable(list) =~= list.filter(f).map_values(m));
    }
}

/// A fact is told with its name and its value.
pub proof fn a_fact_is_told(f: (Seq<char>, Seq<char>))
    ensures
        notes(fact_json(f), "key"@, JsonV::Text(f.0)),
        notes(fact_json(f), "value"@, JsonV::Text(f.1)),
{
    let m = fact_json(f)->Object_0;
    assert(m.contains(m[0]) && m.contains(m[1]));
}

// ---------------------------------------------------------------------------
// Errors
// ---------------------------------------------------------------------------

/// An error is written down with where it came from, what it says, and what was asked.
pub proof fn errors_are_written_down(stamp: Seq<char>, c: ErrorContext)
    ensures
        ({
            let r = record_json(stamp, c);
            &&& notes(r, "timestamp"@, JsonV::Text(stamp))
            &&& notes(r, "source"@, JsonV::Text(c.source@))
            &&& notes(r, "message"@, JsonV::Text(c.message@))
            &&& c.conversation_id matches Some(x) ==> notes(r, "conversation_id"@, JsonV::Text(x@))
            &&& c.model matches Some(x) ==> notes(r, "model"@, JsonV::Text(x@))
            &&& c.provider matches Some(x) ==> notes(r, "provider"@, JsonV::Text(x@))
            &&& c.agent_mode matches Some(x) ==> notes(r, "agent_mode"@, JsonV::Text(x@))
            &&& c.max_tokens matches Some(n) ==> notes(
                r,
                "max_tokens"@,
                JsonV::Num(Number::Unsigned(n as u64)),
            )
            &&& c.est_input_tokens matches Some(n) ==> notes(
                r,
                "est_input_tokens"@,
                JsonV::Num(Number::Unsigned(n as u64)),
            )
            &&& c.prompt_preview matches Some(l) ==> notes(
                r,
                "prompt_preview"@,
                JsonV::List(l@.map_values(|e: PromptPreviewEntry| preview_json(e))),
            )
            &&& c.extra matches Some(e) ==> notes(r, "extra"@, e@)
        }),
{
    let m = record_json(stamp, c)->Object_0;
    let f = first_members(stamp, c);
    assert(m[0] == f[0] && m[1] == f[1] && m[2] == f[2] && m[3] == f[3] && m[4] == f[4] && m[5]
        == f[5] && m[6] == f[6] && m[7] == f[7]);
    assert(m.contains(m[0]) && m.contains(m[1]) && m.contains(m[2]) && m.contains(m[3])
        && m.contains(m[4]) && m.contains(m[5]) && m.contains(m[6]) && m.contains(m[7]));
    let k = if c.prompt_preview is Some {
        1int
    } else {
        0
    };
    if c.prompt_preview is Some {
        assert(m.contains(m[8]));
    }
    assert(m.contains(m[8 + k]));
    if c.extra is Some {
        assert(m.contains(m[9 + k]));
    }
}

/// A message is previewed by its role, its length and its start.
pub proof fn messages_are_previewed(e: PromptPreviewEntry, m: Message)
    requires
        previews(e, m),
    ensures
        e.role@ == m.role@,
        e.chars == text::byte_count(m.content@),
        text::begins(m.content@, e.head@),
        notes(preview_json(e), "role"@, JsonV::Text(e.role@)),
        notes(preview_json(e), "chars"@, JsonV::Num(Number::Unsigned(e.chars as u64))),
        notes(preview_json(e), "head"@, JsonV::Text(e.head@)),
{
    let c = m.content@;
    let p = preview_json(e)->Object_0;
    assert(p.contains(p[0]) && p.contains(p[1]) && p.contains(p[2]));
    assert(c.subrange(0, e.head@.len() as int) =~= e.head@);
}

} // verus!
