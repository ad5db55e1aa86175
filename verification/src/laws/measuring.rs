//! How much is kept, shown and told.

use crate::computer_use::context::{recent, summary, ActionLogs, ActionRecord};
use crate::computer_use::uia::{
    find_element, hits, shown, snapshot, Registry, UiElement, UiHit, UiNode,
};
use crate::error_log::{
    preview_messages, rfc3339, utc_notation, zero_padded, PromptPreviewEntry,
};
use crate::indexer::file_indexer::{is_entry, is_entry_of, FileEntry};
use crate::indexer::notes::FileFacts;
use crate::indexer::structure::{self, ChunkFingerprint, StructuralFingerprint};
use crate::ipc::handlers::chat::answers::{described, is_record, snapshot_text, ui_snapshot};
use crate::ipc::handlers::chat::course::{follows, ChatAction, ChatEvent, Course, Stage};
use crate::ipc::handlers::chat::files::{listed, listing_is_bounded, Listed, Listing};
use crate::ipc::handlers::chat::modes::{guarded, narrowed, with_todos};
use crate::ipc::handlers::chat::prompt::{as_messages, history};
use crate::ipc::handlers::chat::stream::{taken_whole, whole_calls, OutV, ReplyV};
use crate::ipc::handlers::chat::team::{concat, others, team_goes, TeamEvent, TeamNext, TeamTurn};
use crate::ipc::handlers::chat::turns::{goes, Manner, Turn, TurnEvent, TurnStep};
use crate::ipc::handlers::tools::{note_views, web_notes, web_notes_of, WebNote};
use crate::ipc::protocol::{IPCResponse, TokenUsage};
use crate::json::{json_views, Json};
use crate::llm::client::{ChatPlan, LLMClient};
use crate::llm::types::{
    call_views, text_view, tool_views, ChatCompletionResponse, FloatBits, LLMConfigV, LLMSettings,
    Message,
    message_views,
};
use crate::outside;
use crate::startup::poll_interval;
use crate::text;
use vstd::prelude::*;

verus! {

/// Three results of a search of the web are remembered, or all where there are fewer.
pub proof fn three_pages_are_remembered(
    results: &Vec<Json>,
    query: &str,
    conv: &Option<String>,
    r: Vec<WebNote>,
)
    requires
        call_ensures(web_notes, (results, query, conv), r),
    ensures
        results@.len() >= 3 ==> note_views(r@) == web_notes_of(
            json_views(results@),
            query@,
            text_view(*conv),
            3,
        ),
        results@.len() < 3 ==> note_views(r@) == web_notes_of(
            json_views(results@),
            query@,
            text_view(*conv),
            results@.len(),
        ),
{
}

/// A window is looked into twelve levels deep, and ten elements are found in it.
pub proof fn windows_are_looked_into(
    root: &UiElement,
    all: bool,
    registry: &mut Registry,
    r: Result<UiNode, String>,
    elements: &Vec<UiHit>,
    query: &str,
    found: Vec<usize>,
)
    ensures
        call_ensures(snapshot, (root, all, registry), r) ==> (r matches Ok(n) ==> shown(
            *root,
            0,
            12,
            all,
            0,
        ) == Some(n.model())) && (r is Err ==> shown(*root, 0, 12, all, 0) is None),
        call_ensures(find_element, (elements, query), found) ==> found@.map_values(
            |i: usize| i as int,
        ) == hits(elements@, query@, 10),
{
}

/// Of the messages of a prompt the first three hundred characters are previewed.
pub proof fn three_hundred_characters_are_previewed(
    messages: &[Message],
    r: Vec<PromptPreviewEntry>,
    i: int,
)
    requires
        call_ensures(preview_messages, (messages,), r),
        0 <= i < messages@.len(),
    ensures
        messages@[i].content@.len() <= 300 ==> r@[i].head@ == messages@[i].content@,
        messages@[i].content@.len() > 300 ==> r@[i].head@ == messages@[i].content@.take(300),
{
    assert(crate::error_log::previews(r@[i], messages@[i]));
}

/// Where nothing else is set the window in front is kept every thirty seconds.
pub proof fn thirty_seconds_pass_between_looks(n: nat)
    requires
        n <= u64::MAX,
    ensures
        poll_interval(None) == 30,
        poll_interval(Some(text::decimal(n))) == n,
{
    crate::laws::wording::numbers_are_written_and_read(n, u64::MAX as nat);
}

/// The first twenty-four things that a text file takes in are linked to it, in order.
pub proof fn the_first_imports_are_linked(
    e: FileEntry,
    f: FileFacts,
    bytes: Seq<u8>,
    neural: bool,
)
    requires
        is_entry(e, f, bytes, neural),
        bytes.len() <= 512 * 1024,
        vstd::utf8::valid_utf8(bytes),
    ensures
        exists|s: StructuralFingerprint| #[trigger]
            structure::is_structure(vstd::utf8::decode_utf8(bytes), s) && text::views(
                e.dependencies@,
            ) == (if s.imports@.len() <= 24 {
                text::views(s.imports@)
            } else {
                text::views(s.imports@).take(24)
            }),
{
    let (s, l) = choose|s: StructuralFingerprint, l: Seq<ChunkFingerprint>| #[trigger]
        is_entry_of(e, f, bytes, neural, s, l) && (
        match crate::indexer::file_indexer::content_of(bytes) {
            Some(c) => structure::is_structure(c, s) && structure::chunk_views(l)
                == structure::chunks(c),
            None => structure::is_blank_structure(s) && l.len() == 0,
        });
    assert(text::views(s.imports@).len() == s.imports@.len());
    assert(structure::is_structure(vstd::utf8::decode_utf8(bytes), s));
}

/// Of a conversation the last twelve turns are sent, or all where there are fewer.
pub proof fn twelve_turns_are_sent(
    all: Seq<(Seq<char>, Seq<char>)>,
    latest: Seq<(Seq<char>, Seq<char>)>,
)
    ensures
        all.len() <= 12 ==> history(Some(all), latest) == as_messages(all),
        all.len() > 12 ==> history(Some(all), latest).len() == 13 && history(
            Some(all),
            latest,
        ).skip(1) == as_messages(all.skip(all.len() - 12)),
        forall|i: int|
            0 <= i < all.len() ==> (#[trigger] as_messages(all)[i]).role == all[i].0 && as_messages(
                all,
            )[i].content == all[i].1,
{
    if all.len() > 12 {
        assert(history(Some(all), latest).skip(1) =~= as_messages(all.skip(all.len() - 12)));
    }
}

/// A team is offered all its tools first, and then those that it used and those that look
/// things up.
pub proof fn tools_are_offered_by_round(
    t: TeamTurn,
    todos: String,
    n: TeamTurn,
    outs: Seq<OutV>,
    next: TeamNext,
)
    requires
        team_goes(t, (TeamEvent::Begin { todos }), n, outs, next),
    ensures
        next matches TeamNext::Ask { tools, .. } ==> (t.team.iteration == 0 ==> tool_views(tools@)
            == tool_views(t.team.tools@)) && (t.team.iteration > 0 ==> tool_views(tools@)
            == narrowed(tool_views(t.team.tools@), text::views(t.team.used@))),
        t.team.iteration < 25 ==> next is Ask,
        t.team.iteration >= 25 ==> next is End,
{
}

/// A reply of a team without calls ends its work, with everything that was said and done;
/// one with calls is followed by them.
pub proof fn work_ends_without_calls(
    t: TeamTurn,
    w: ChatCompletionResponse,
    n: TeamTurn,
    outs: Seq<OutV>,
    next: TeamNext,
)
    requires
        team_goes(t, (TeamEvent::Whole { reply: w }), n, outs, next),
    ensures
        n.calls@.len() == 0 ==> (next matches TeamNext::End { content, distill, last } && content@
            == guarded(n.team.content@, text::views(t.warnings@)) && (distill <==> t.said@.len() > 0
            && content@.len() > 0) && last is ChatDone) && n.team.content@ == t.team.content@
            + taken_whole(t.reply@, w).content,
        n.calls@.len() > 0 ==> next is WriteList || next is Run,
        next matches TeamNext::Run { calls } ==> call_views(calls@) == others(call_views(n.calls@)),
        text::views(n.team.used@) == text::views(t.team.used@) + call_views(n.calls@).map_values(
            |c: crate::llm::types::ToolCallV| c.name,
        ),
{
    let calls = call_views(n.calls@);
    assert(calls.len() == n.calls@.len());
    if calls.len() == 0 {
        let s = crate::ipc::handlers::chat::team::started(calls, 0);
        assert(s =~= Seq::empty());
        assert(concat(s) =~= Seq::empty());
        assert(t.team.content@ + taken_whole(t.reply@, w).content + concat(s) =~= t.team.content@
            + taken_whole(t.reply@, w).content);
    }
}

/// Replies are a little varied where nothing else is set.
pub proof fn temperature_has_a_default(s: LLMSettings)
    ensures
        s.temperature is None ==> LLMConfigV::of_settings(s).temperature == (FloatBits {
            bits: 0x3f33_3333,
        }),
        s.max_tokens matches Some(v) ==> (text::unsigned_value(v@, u32::MAX as nat) matches Some(n)
            ==> LLMConfigV::of_settings(s).max_tokens == n),
{
}

proof fn digits_have_a_length(n: nat)
    ensures
        n < 10 ==> text::decimal(n).len() == 1,
        10 <= n < 100 ==> text::decimal(n).len() == 2,
        100 <= n < 1000 ==> text::decimal(n).len() == 3,
        1000 <= n < 10_000 ==> text::decimal(n).len() == 4,
{
    reveal_with_fuel(text::decimal, 5);
}

proof fn zeros_stand_in_front(n: int, width: nat)
    requires
        0 <= n,
        text::decimal(n as nat).len() <= width,
    ensures
        zero_padded(n, width).len() == width,
        text::ends(zero_padded(n, width), text::decimal(n as nat)),
        forall|i: int|
            0 <= i < width - text::decimal(n as nat).len() ==> #[trigger] zero_padded(n, width)[i]
                == '0',
{
    let d = text::decimal(n as nat);
    let z = zero_padded(n, width);
    assert(z.subrange(z.len() - d.len(), z.len() as int) =~= d);
}

/// A point in time is written with four digits for the year and two for all else, zeros
/// in front, in the order of a date and a time of day.
pub proof fn times_are_written(t: (i32, u32, u32, u32, u32, u32))
    requires
        0 <= t.0 < 10_000,
        t.1 < 100 && t.2 < 100 && t.3 < 100 && t.4 < 100 && t.5 < 100,
    ensures
        rfc3339(t).len() == 20,
        text::ends(rfc3339(t).subrange(0, 4), text::decimal(t.0 as nat)),
        rfc3339(t)[4] == '-' && rfc3339(t)[7] == '-' && rfc3339(t)[10] == 'T' && rfc3339(t)[13]
            == ':' && rfc3339(t)[16] == ':' && rfc3339(t)[19] == 'Z',
        text::ends(rfc3339(t).subrange(5, 7), text::decimal(t.1 as nat)),
        text::ends(rfc3339(t).subrange(8, 10), text::decimal(t.2 as nat)),
        text::ends(rfc3339(t).subrange(11, 13), text::decimal(t.3 as nat)),
        text::ends(rfc3339(t).subrange(14, 16), text::decimal(t.4 as nat)),
        text::ends(rfc3339(t).subrange(17, 19), text::decimal(t.5 as nat)),
        t.1 < 10 ==> rfc3339(t)[5] == '0',
        t.2 < 10 ==> rfc3339(t)[8] == '0',
        t.3 < 10 ==> rfc3339(t)[11] == '0',
        t.4 < 10 ==> rfc3339(t)[14] == '0',
        t.5 < 10 ==> rfc3339(t)[17] == '0',
        utc_notation(t).len() == 23,
        utc_notation(t).subrange(0, 10) == rfc3339(t).subrange(0, 10),
        utc_notation(t).subrange(11, 19) == rfc3339(t).subrange(11, 19),
        utc_notation(t)[10] == ' ',
        text::ends(utc_notation(t), " UTC"@),
{
    reveal_strlit("-");
    reveal_strlit("T");
    reveal_strlit(":");
    reveal_strlit("Z");
    reveal_strlit(" ");
    reveal_strlit(" UTC");
    digits_have_a_length(t.0 as nat);
    digits_have_a_length(t.1 as nat);
    digits_have_a_length(t.2 as nat);
    digits_have_a_length(t.3 as nat);
    digits_have_a_length(t.4 as nat);
    digits_have_a_length(t.5 as nat);
    zeros_stand_in_front(t.0 as int, 4);
    zeros_stand_in_front(t.1 as int, 2);
    zeros_stand_in_front(t.2 as int, 2);
    zeros_stand_in_front(t.3 as int, 2);
    zeros_stand_in_front(t.4 as int, 2);
    zeros_stand_in_front(t.5 as int, 2);
    let r = rfc3339(t);
    let u = utc_notation(t);
    assert(r.subrange(0, 4) =~= zero_padded(t.0 as int, 4));
    assert(r.subrange(5, 7) =~= zero_padded(t.1 as int, 2));
    assert(r.subrange(8, 10) =~= zero_padded(t.2 as int, 2));
    assert(r.subrange(11, 13) =~= zero_padded(t.3 as int, 2));
    assert(r.subrange(14, 16) =~= zero_padded(t.4 as int, 2));
    assert(r.subrange(17, 19) =~= zero_padded(t.5 as int, 2));
    assert(u.subrange(0, 10) =~= r.subrange(0, 10));
    assert(u.subrange(11, 19) =~= r.subrange(11, 19));
    assert(u.subrange(19, 23) =~= " UTC"@);
}

/// A window is told with the last eight actions behind it.
pub proof fn eight_actions_are_told(
    logs: &mut ActionLogs,
    conv: &str,
    at: i64,
    window: &str,
    tree: String,
    r: String,
)
    requires
        call_ensures(ui_snapshot, (logs, conv, at, window, &Ok::<String, String>(tree)), r),
    ensures
        r@ == snapshot_text(tree@, summary(final(logs).log(conv@).actions, 8)),
        final(logs).log(conv@).actions.len() > 0,
        final(logs).log(conv@).actions.last().kind@ == "snapshot"@,
        final(logs).log(conv@).actions.last().ok,
        window@.len() > 0 ==> final(logs).log(conv@).actions.last().target@ == window@,
        text::byte_count(tree@) <= 65_536 ==> final(logs).log(conv@).last_tree_json == Some(tree@),
{
    let before = old(logs).log(conv@);
    let a = choose|a: ActionRecord|
        final(logs).log(conv@).actions == #[trigger] recent(before.actions.push(a)) && is_record(
            a,
            at,
            "snapshot"@,
            described(window@),
            None,
            None,
        );
    assert(recent(before.actions.push(a)).last() == a);
}

/// However large a directory is, five hundred of its entries are listed at most; tools,
/// titles and connections may take so long, and walks go so deep.
pub proof fn limits_are_kept(
    l: Listing,
    depth: nat,
    max_depth: nat,
    pattern: Seq<char>,
    so_far: Listed,
)
    requires
        so_far.count <= 500,
    ensures
        listed(l, depth, max_depth, pattern, so_far).count <= 500,
        crate::ipc::handlers::conversations::TITLE_SECS == 12,
        crate::llm::client::CONNECT_SECS == 30,
        crate::llm::orchestrator::CONNECT_SECS == 2,
        crate::ipc::handlers::chat::modes::TOOL_SECS == 120,
        crate::ipc::handlers::chat::files::LIST_DEPTH == 3,
        crate::ipc::handlers::chat::grep::MAX_DEPTH == 16,
{
    listing_is_bounded(l, depth, max_depth, pattern, so_far);
}

/// Work on the side is asked of the model that is named, cooler and within a minute.
pub proof fn side_work_is_asked_of_a_named_model<H>(
    c: &LLMClient<H>,
    messages: Vec<Message>,
    model: &str,
    most: u32,
    p: ChatPlan,
)
    requires
        call_ensures(LLMClient::<H>::chat_with_model_override, (c, messages, model, most), p),
        !text::blank(c.config.api_key@),
    ensures
        p matches ChatPlan::Call(x) && x@.request.model == model@ && x@.request.messages
            == message_views(messages@) && x@.request.max_tokens == Some(most)
            && x@.request.temperature == Some(FloatBits { bits: 0x3e4c_cccd }) && x@.request.tools is None
            && x@.request.stream == Some(false) && x@.timeout_secs == Some(60u64) && x@.url
            == c.config.base_url@ + "/chat/completions"@,
{
}

/// The calls of a whole reply are reported with their names and arguments, each in its
/// place.
pub proof fn every_call_is_reported(
    t: Turn,
    w: ChatCompletionResponse,
    args: Vec<Json>,
    reply: ReplyV,
    outs: Seq<OutV>,
    step: TurnStep,
    i: int,
)
    requires
        t.manner == Manner::Other,
        goes(t, (TurnEvent::Whole { reply: w, args }), reply, outs, step),
        args@.len() == whole_calls(w).len(),
        0 <= i < whole_calls(w).len(),
    ensures
        step matches TurnStep::End { last, .. } && last matches IPCResponse::Chat { tool_calls, .. }
            && tool_calls matches Some(l) && l@.len() == whole_calls(w).len() && l@[i].name@
            == whole_calls(w)[i].function.name@ && l@[i].args@ == args@[i]@ && l@[i].result@.len()
            == 0,
{
    assert(json_views(args@)[i] == args@[i]@);
}

/// A team without a stream asks for a whole reply with the same messages and all tools;
/// where it cannot go on that is told, and it ends with what it did.
pub proof fn a_team_goes_on_without_a_stream(
    t: TeamTurn,
    event: TeamEvent,
    n: TeamTurn,
    outs: Seq<OutV>,
    next: TeamNext,
)
    requires
        team_goes(t, event, n, outs, next),
    ensures
        event is NoStream ==> n == t && (next matches TeamNext::AskWhole { messages, tools }
            && tool_views(tools@) == tool_views(t.team.tools@) && message_views(messages@)
            == with_todos(message_views(t.team.messages@), t.top as int, t.todos@)),
        event matches TeamEvent::Refused { problem } ==> outs.len() == 1 && (
        next matches TeamNext::End { content, .. } && content@ == guarded(
            t.team.content@,
            text::views(t.warnings@),
        )),
        event matches TeamEvent::Failed { problem } ==> (next matches TeamNext::Fail { problem: p }
            && p@ == problem@),
        event is Cancelled ==> (next matches TeamNext::GiveUp { told, last } && (
        told matches IPCResponse::Cancelled { target_id, .. } && target_id@ == t.id@)
            && last is ChatDone),
        event is CallsCancelled ==> next is Leave,
        event is Chunk ==> next is Read,
        event matches TeamEvent::Whole { reply } ==> (reply.usage matches Some(u) ==> n.team.usage
            == Some(TokenUsage::of(u))),
{
}

/// Fitting plugins are looked up for a message with a word for them in it.
pub proof fn fitting_plugins_are_looked_up(c: Course, n: Course, a: ChatAction)
    requires
        c.stage == Stage::FactsTold,
        follows(c, ChatEvent::Done, n, a),
    ensures
        a matches ChatAction::LoadPlugins { fitting } ==> (text::occurs(
            outside::lowercase_text(c.ask.message@),
            "plugin"@,
        ) || text::occurs(outside::lowercase_text(c.ask.message@), "mcp"@) || text::occurs(
            outside::lowercase_text(c.ask.message@),
            "skill"@,
        ) || text::occurs(outside::lowercase_text(c.ask.message@), "connector"@) || text::occurs(
            outside::lowercase_text(c.ask.message@),
            "install"@,
        ) || text::occurs(outside::lowercase_text(c.ask.message@), "extension"@) <==> fitting),
{
    crate::laws::prompting::six_words_ask_for_plugins(outside::lowercase_text(c.ask.message@));
}

} // verus!
