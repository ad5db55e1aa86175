//! How chats are led.

use crate::ipc::handlers::chat::coder::{coder_ends, proposes, waits_as, CoderDone, CoderTurn};
use crate::ipc::handlers::chat::context::fact_json;
use crate::ipc::handlers::chat::course::{
    expects, follows, hit_packet, needs_local, ChatAction, ChatEvent, Course, Hit, Stage,
};
use crate::ipc::handlers::chat::modes::{guarded, with_warnings};
use crate::ipc::handlers::chat::prompt::{index_text, too_short, turns};
use crate::ipc::handlers::chat::stream::{whole_calls, whole_text, OutV, ReplyV};
use crate::ipc::handlers::chat::team::{
    all_results, failed_marks, others, result_messages, started, team_goes, TeamEvent, TeamNext,
    TeamTurn,
};
use crate::ipc::handlers::chat::turns::{
    goes, unsent_thinking, Manner, Turn, TurnEvent, TurnStep, WholeCall,
};
use crate::ipc::protocol::IPCResponse;
use crate::json::{Json, JsonV};
use crate::laws::calling::says;
use crate::llm::types::{call_views, message_views, text_view, ChatCompletionResponse, ToolCallV};
use crate::text;
use vstd::prelude::*;

verus! {

// ---------------------------------------------------------------------------
// The course
// ---------------------------------------------------------------------------

/// A message is kept word for word, under its first eighty characters as a title, and
/// what is known is looked up with it, at most five things out of twenty-four.
pub proof fn a_message_is_kept_and_looked_up(c: Course, event: ChatEvent, n: Course, a: ChatAction)
    requires
        expects(c.stage, event),
        follows(c, event, n, a),
    ensures
        c.stage == Stage::Turns ==> (a matches ChatAction::Keep { conv_id, title, message }
            && message@ == c.ask.message@ && conv_id@ == c.conv_id@ && text::begins(
            message@,
            title@,
        ) && (title@ == message@ || title@.len() == 80)),
        c.stage == Stage::Kept && !too_short(c.ask.message@) ==> (a matches ChatAction::LookUp {
            query,
            pool,
            most,
        } && query@ == c.ask.message@ && pool == 24 && most == 5),
        c.stage == Stage::Kept && too_short(c.ask.message@) ==> n.stage == Stage::ContextTold,
        n.ask.message == c.ask.message || c.stage == Stage::Config,
{
    let m = c.ask.message@;
    assert(m.subrange(0, m.len() as int) =~= m);
    if m.len() > 80 {
        assert(m.subrange(0, 80) =~= m.take(80));
    }
}

/// Everything that was looked up is told to the user interface, in order, and hinted at
/// in the prompt; where nothing was found an empty list is told.
pub proof fn what_is_found_is_told(
    c: Course,
    found: Result<Vec<Hit>, String>,
    n: Course,
    a: ChatAction,
)
    requires
        c.stage == Stage::Hits,
        follows(c, (ChatEvent::Hits { found }), n, a),
    ensures
        a matches ChatAction::Tell { response } && (response matches IPCResponse::ContextCurated {
            id,
            conversation_id,
            nodes,
        } && id@ == c.ask.id@ && conversation_id@ == c.conv_id@ && nodes@ == JsonV::List(
            match found {
                Ok(hits) => hits@.map_values(|h: Hit| h.node@),
                Err(_) => Seq::empty(),
            },
        )),
        found matches Ok(hits) ==> hits@.len() > 0 ==> text_view(n.hint) == index_text(
            hits@.map_values(|h: Hit| (h.node_type@, h.title@)),
        ),
        found is Err ==> n.hint is None && n.packet is None,
        n.stage == Stage::ContextTold,
{
    if let Ok(hits) = found {
        if hits@.len() > 0 {
            let p = hit_packet(hits@);
            assert(JsonV::find(p->Object_0, "memory"@) == 0);
            assert(p.get("memory"@) == Some(JsonV::List(hits@.map_values(|h: Hit| h.node@))));
        } else {
            assert(hits@.map_values(|h: Hit| h.node@) =~= Seq::empty());
        }
    }
}

/// Every fact about the user is told to the user interface, in order.
pub proof fn every_fact_is_told(
    c: Course,
    facts: Vec<(String, String)>,
    n: Course,
    a: ChatAction,
)
    requires
        c.stage == Stage::Facts,
        follows(c, (ChatEvent::Facts { facts }), n, a),
    ensures
        n.facts == facts,
        a matches ChatAction::Tell { response } && (response matches IPCResponse::UserFactsLoaded {
            id,
            conversation_id,
            facts: f,
        } && id@ == c.ask.id@ && conversation_id@ == c.conv_id@ && f@.len() == facts@.len()
            && forall|i: int|
            0 <= i < f@.len() ==> (#[trigger] f@[i])@ == fact_json((facts@[i].0@, facts@[i].1@))),
{
    if let ChatAction::Tell { response } = a {
        if let IPCResponse::UserFactsLoaded { id, conversation_id, facts: f } = response {
            let want = turns(facts@).map_values(|t: (Seq<char>, Seq<char>)| fact_json(t));
            assert(crate::json::json_views(f@).len() == f@.len());
            assert forall|i: int| 0 <= i < f@.len() implies (#[trigger] f@[i])@ == fact_json(
                (facts@[i].0@, facts@[i].1@),
            ) by {
                assert(crate::json::json_views(f@)[i] == want[i]);
            }
        }
    }
}

/// The model is called as it was asked for: with the temperature and at most the tokens
/// that were asked for, and with all messages that were put together.
pub proof fn the_model_is_called_as_asked(
    c: Course,
    config: crate::llm::types::LLMConfig,
    n: Course,
    a: ChatAction,
)
    requires
        c.stage == Stage::Config,
        follows(c, (ChatEvent::Config { config }), n, a),
    ensures
        a matches ChatAction::Run { start } && {
            &&& start.messages == c.messages
            &&& start.warnings == c.warnings
            &&& start.packet == c.packet
            &&& c.ask.temperature matches Some(t) ==> start.config.temperature == t
            &&& c.ask.temperature is None ==> start.config.temperature == config.temperature
            &&& c.ask.max_tokens matches Some(k) ==> start.config.max_tokens <= k
            &&& start.config.model == config.model
            &&& start.config.base_url == config.base_url
            &&& start.config.api_key == config.api_key
            &&& c.ask.agent_mode matches Some(m) ==> start.mode@ == m@
            &&& c.ask.agent_mode is None ==> start.mode@ == "Chat"@
        },
{
}

/// The local server is started for local models and for no others, and a chat goes on
/// only where it was started.
pub proof fn local_models_wait_for_their_server(
    c: Course,
    event: ChatEvent,
    n: Course,
    a: ChatAction,
)
    requires
        expects(c.stage, event),
        follows(c, event, n, a),
    ensures
        a is StartLocal ==> c.ask.model is Some,
        c.stage == Stage::Linked && needs_local(c.ask) ==> a is StartLocal,
        c.stage == Stage::Linked && !needs_local(c.ask) ==> a is LoadConfig,
        c.ask.model matches Some(m) ==> text::occurs(m@, ":"@) ==> needs_local(c.ask),
        event matches ChatEvent::Local { outcome } ==> (n.stage == Stage::Config <==> outcome == Ok::<
            bool,
            String,
        >(true)) && (outcome != Ok::<bool, String>(true) ==> a is Answer),
{
}

// ---------------------------------------------------------------------------
// Turns
// ---------------------------------------------------------------------------

/// Thinking that was not sent yet is sent at the end, all of it and once.
pub proof fn thinking_is_sent_once(r: ReplyV)
    ensures
        r.thinking_sent || r.reasoning.len() == 0 ==> unsent_thinking(r).len() == 0,
        !r.thinking_sent && r.reasoning.len() > 0 ==> unsent_thinking(r) == seq![
            OutV::Thinking(r.reasoning),
        ],
{
}

/// A reply that was streamed is kept word for word, under the warnings on the message;
/// one that came as a whole counts only where nothing was streamed.
pub proof fn a_streamed_reply_is_kept(
    t: Turn,
    whole: Option<ChatCompletionResponse>,
    reply: ReplyV,
    outs: Seq<OutV>,
    step: TurnStep,
)
    requires
        goes(t, (TurnEvent::Ended { whole }), reply, outs, step),
    ensures
        step matches TurnStep::End { content, distill, title, last } && {
            let said = if t.reply@.content.len() > 0 {
                t.reply@.content
            } else {
                match whole {
                    Some(w) => whole_text(w),
                    None => Seq::empty(),
                }
            };
            &&& content@ == guarded(said, text::views(t.warnings@))
            &&& t.manner == Manner::Chat ==> title && distill == (said.len() > 0)
            &&& t.manner == Manner::Other ==> !title && !distill
            &&& last matches IPCResponse::ChatDone { id, conversation_id, usage } && id@ == t.id@
                && conversation_id@ == t.conv_id@ && (t.manner == Manner::Chat
                && t.reply@.content.len() > 0 ==> usage == t.reply@.usage)
        },
{
}

/// A reply that came as a whole is kept word for word; in a plain chat it is shown word
/// by word, and else answered with the calls that it makes.
pub proof fn a_whole_reply_is_kept(
    t: Turn,
    w: ChatCompletionResponse,
    args: Vec<Json>,
    reply: ReplyV,
    outs: Seq<OutV>,
    step: TurnStep,
)
    requires
        goes(t, (TurnEvent::Whole { reply: w, args }), reply, outs, step),
    ensures
        step matches TurnStep::End { content, distill, title, last } && {
            &&& t.manner == Manner::Chat ==> content@ == guarded(
                whole_text(w),
                text::views(t.warnings@),
            ) && title && distill == (whole_text(w).len() > 0) && last is ChatDone
            &&& t.manner == Manner::Other ==> content@ == with_warnings(
                whole_text(w),
                text::views(t.warnings@),
            ) && !title && !distill && (last matches IPCResponse::Chat {
                content: c,
                tool_calls,
                context_packet,
                ..
            } && c@ == content@ && context_packet == t.packet && (tool_calls matches Some(l)
                ==> l@.len() == whole_calls(w).len()))
        },
{
}

/// Without a stream a whole reply is asked for with the same messages, and a problem is
/// noted; a cancelled chat is told to be cancelled and ends; a failure fails.
pub proof fn nothing_is_lost_without_a_stream(
    t: Turn,
    event: TurnEvent,
    reply: ReplyV,
    outs: Seq<OutV>,
    step: TurnStep,
)
    requires
        goes(t, event, reply, outs, step),
    ensures
        event is NoStream || event is Refused ==> (step matches TurnStep::Ask {
            call,
            messages,
            note,
        } && message_views(messages@) == message_views(t.messages@) && (call == WholeCall::Chat
            <==> t.manner == Manner::Chat) && (note is Some <==> event is Refused)),
        event matches TurnEvent::Refused { problem } ==> (step matches TurnStep::Ask { note, .. }
            && note matches Some(p) && p@ == problem@),
        event is Cancelled ==> (step matches TurnStep::GiveUp { told, last } && (
        told matches IPCResponse::Cancelled { target_id, .. } && target_id@ == t.id@)
            && last is ChatDone),
        event matches TurnEvent::Failed { problem } ==> (step matches TurnStep::Fail { problem: p }
            && p@ == problem@),
        event is Chunk ==> step is Read,
{
}

// ---------------------------------------------------------------------------
// A coding agent
// ---------------------------------------------------------------------------

/// What a coding agent proposes waits for the user: every call, with its arguments and
/// what it would do; without proposals it answers at once.
pub proof fn every_proposal_waits(
    t: CoderTurn,
    reply: ChatCompletionResponse,
    args: Seq<JsonV>,
    diffs: Seq<Seq<char>>,
    d: CoderDone,
)
    requires
        coder_ends(t, reply, args, diffs, d),
    ensures
        d.content@ == with_warnings(whole_text(reply), text::views(t.warnings@)),
        d.pending matches Some(p) ==> p@.len() == whole_calls(reply).len() && (forall|i: int|
            0 <= i < p@.len() ==> (#[trigger] p@[i]).tool_name@ == whole_calls(
                reply,
            )[i].function.name@ && p@[i].args@ == args[i] && (whole_calls(reply)[i].function.name@
                == "code_edit"@ ==> p@[i].diff@ == diffs[i]) && (forall|c: Seq<char>|
                whole_calls(reply)[i].function.name@ != "code_edit"@ && #[trigger] says(
                    args[i],
                    "command"@,
                    c,
                ) ==> p@[i].diff@ == "$ "@ + c)) && !d.distill && d.last is PendingToolApproval,
        whole_calls(reply).len() > 0 ==> d.pending is Some,
        d.pending is None ==> (d.last matches IPCResponse::Chat { content, .. } && content@
            == d.content@),
{
    if let Some(p) = d.pending {
        assert forall|i: int| 0 <= i < p@.len() implies (#[trigger] p@[i]).tool_name@
            == whole_calls(reply)[i].function.name@ && p@[i].args@ == args[i] && (whole_calls(
            reply,
        )[i].function.name@ == "code_edit"@ ==> p@[i].diff@ == diffs[i]) && (forall|c: Seq<char>|
            whole_calls(reply)[i].function.name@ != "code_edit"@ && #[trigger] says(
                args[i],
                "command"@,
                c,
            ) ==> p@[i].diff@ == "$ "@ + c) by {
            assert(waits_as(whole_calls(reply)[i].function.name@, args[i], diffs[i], p@[i]));
            assert forall|c: Seq<char>|
                whole_calls(reply)[i].function.name@ != "code_edit"@ && #[trigger] says(
                    args[i],
                    "command"@,
                    c,
                ) implies p@[i].diff@ == "$ "@ + c by {
                crate::laws::calling::members_are_found_by_name(args[i], "command"@);
                assert(crate::laws::calling::has_member(args[i], "command"@, JsonV::Text(c)));
            }
        }
    }
}

// ---------------------------------------------------------------------------
// A team
// ---------------------------------------------------------------------------

/// The model gets the result of every call, in the order of the calls and under the id
/// of each.
pub proof fn every_result_is_handed_over(calls: Seq<ToolCallV>, results: Seq<Seq<char>>, i: int)
    requires
        0 <= i < calls.len(),
    ensures
        result_messages(calls, results).len() == calls.len(),
        result_messages(calls, results)[i].role == "tool"@,
        result_messages(calls, results)[i].tool_call_id == Some(calls[i].id),
        text::byte_count(results[i]) <= 12_000 ==> result_messages(calls, results)[i].content
            == results[i],
{
    crate::laws::working::long_results_are_cut(results[i]);
}

proof fn others_are_no_writers(calls: Seq<ToolCallV>)
    ensures
        others(calls) == calls.filter(|c: ToolCallV| c.name != "todo_write"@),
    decreases calls.len(),
{
    reveal(Seq::filter);
    if calls.len() > 0 {
        others_are_no_writers(calls.drop_last());
    }
    assert(others(calls) =~= calls.filter(|c: ToolCallV| c.name != "todo_write"@));
}

/// How many of the first calls write the list of things to do.
pub open spec fn writing_before(calls: Seq<ToolCallV>, n: int) -> nat {
    calls.take(n).filter(|c: ToolCallV| c.name == "todo_write"@).len()
}

proof fn results_fit(calls: Seq<ToolCallV>, written: Seq<Seq<char>>, results: Seq<Seq<char>>)
    requires
        written.len() == writing_before(calls, calls.len() as int),
        written.len() + results.len() == calls.len(),
    ensures
        all_results(calls, written, results).len() == calls.len(),
        forall|i: int|
            0 <= i < calls.len() ==> writing_before(calls, i) <= i && #[trigger] all_results(
                calls,
                written,
                results,
            )[i] == (if calls[i].name == "todo_write"@ {
                written[writing_before(calls, i) as int]
            } else {
                results[i - writing_before(calls, i)]
            }),
    decreases calls.len(),
{
    reveal(Seq::filter);
    if calls.len() > 0 {
        let p = |c: ToolCallV| c.name == "todo_write"@;
        let front = calls.drop_last();
        let n = front.len() as int;
        assert(calls.take(calls.len() as int) =~= calls);
        assert(front.take(n) =~= front);
        assert(calls.take(n) =~= front);
        assert(calls.filter(p).len() == front.filter(p).len() + (if p(calls.last()) {
            1nat
        } else {
            0
        }));
        let w = if p(calls.last()) {
            written.drop_last()
        } else {
            written
        };
        let r = if p(calls.last()) {
            results
        } else {
            results.drop_last()
        };
        assert(written.len() == calls.filter(p).len());
        fewer_than_all(front);
        if !p(calls.last()) {
            assert(results.len() > 0);
        }
        results_fit(front, w, r);
        let all = all_results(calls, written, results);
        let before = all_results(front, w, r);
        assert forall|i: int| 0 <= i < calls.len() implies writing_before(calls, i) <= i
            && #[trigger] all[i] == (if calls[i].name == "todo_write"@ {
            written[writing_before(calls, i) as int]
        } else {
            results[i - writing_before(calls, i)]
        }) by {
            assert(calls.take(i) =~= front.take(i));
            fewer_than_all(calls.take(i));
            if i < n {
                assert(all[i] == before[i]);
                strictly_before(front, i);
            }
        }
    } else {
        assert(all_results(calls, written, results) =~= Seq::empty());
    }
}

proof fn fewer_than_all(calls: Seq<ToolCallV>)
    ensures
        calls.filter(|c: ToolCallV| c.name == "todo_write"@).len() <= calls.len(),
    decreases calls.len(),
{
    reveal(Seq::filter);
    if calls.len() > 0 {
        fewer_than_all(calls.drop_last());
    }
}

proof fn strictly_before(calls: Seq<ToolCallV>, i: int)
    requires
        0 <= i < calls.len(),
    ensures
        calls[i].name == "todo_write"@ ==> writing_before(calls, i) < writing_before(
            calls,
            calls.len() as int,
        ),
        calls[i].name != "todo_write"@ ==> i - writing_before(calls, i) < calls.len()
            - writing_before(calls, calls.len() as int),
    decreases calls.len(),
{
    reveal(Seq::filter);
    let front = calls.drop_last();
    assert(calls.take(calls.len() as int) =~= calls);
    assert(front.take(front.len() as int) =~= front);
    assert(calls.take(front.len() as int) =~= front);
    if i < front.len() {
        assert(calls.take(i) =~= front.take(i));
        strictly_before(front, i);
    }
}

/// The results of the calls that write the list of things to do and those of the others
/// are put in the order of the calls, each behind its own call.
pub proof fn each_call_gets_its_own_result(
    calls: Seq<ToolCallV>,
    written: Seq<Seq<char>>,
    results: Seq<Seq<char>>,
)
    requires
        written.len() == calls.filter(|c: ToolCallV| c.name == "todo_write"@).len(),
        written.len() + results.len() == calls.len(),
    ensures
        others(calls) == calls.filter(|c: ToolCallV| c.name != "todo_write"@),
        all_results(calls, written, results).len() == calls.len(),
        forall|i: int|
            0 <= i < calls.len() ==> #[trigger] all_results(calls, written, results)[i] == (
            if calls[i].name == "todo_write"@ {
                written[writing_before(calls, i) as int]
            } else {
                results[i - writing_before(calls, i)]
            }),
{
    others_are_no_writers(calls);
    assert(calls.take(calls.len() as int) =~= calls);
    results_fit(calls, written, results);
}

proof fn failed_up_to(calls: Seq<ToolCallV>, results: Seq<Seq<char>>, n: nat)
    requires
        n <= calls.len() == results.len(),
    ensures
        forall|i: int|
            0 <= i < n && text::begins(#[trigger] results[i], "Error:"@) ==> failed_marks(
                calls,
                results,
                n,
            ).contains("[[TERR:"@ + calls[i].name + "]]"@),
        (forall|i: int| 0 <= i < n ==> !text::begins(#[trigger] results[i], "Error:"@))
            ==> failed_marks(calls, results, n).len() == 0,
        failed_marks(calls, results, n).len() <= n,
    decreases n,
{
    if n > 0 {
        let m = (n - 1) as nat;
        failed_up_to(calls, results, m);
        let a = failed_marks(calls, results, m);
        let b = failed_marks(calls, results, n);
        assert forall|i: int|
            0 <= i < n && text::begins(#[trigger] results[i], "Error:"@) implies b.contains(
            "[[TERR:"@ + calls[i].name + "]]"@,
        ) by {
            let mark = "[[TERR:"@ + calls[i].name + "]]"@;
            if i < m {
                let k = choose|k: int| 0 <= k < a.len() && a[k] == mark;
                assert(a.contains(mark));
                assert(b[k] == mark);
            } else {
                assert(b[b.len() - 1] == mark);
            }
        }
    }
}

/// Every call that failed is marked, and no other is.
pub proof fn failed_calls_are_marked(calls: Seq<ToolCallV>, results: Seq<Seq<char>>)
    requires
        calls.len() == results.len(),
    ensures
        forall|i: int|
            0 <= i < calls.len() && text::begins(#[trigger] results[i], "Error:"@)
                ==> failed_marks(calls, results, calls.len()).contains(
                "[[TERR:"@ + calls[i].name + "]]"@,
            ),
        (forall|i: int| 0 <= i < calls.len() ==> !text::begins(#[trigger] results[i], "Error:"@))
            ==> failed_marks(calls, results, calls.len()).len() == 0,
{
    failed_up_to(calls, results, calls.len());
}

/// After the calls the model is asked again, with everything said before, its calls'
/// results behind it and the list of things to do as it is now; at most twenty-five
/// times in all.
pub proof fn a_team_goes_on_with_the_results(
    t: TeamTurn,
    results: Vec<String>,
    todos: String,
    n: TeamTurn,
    outs: Seq<OutV>,
    next: TeamNext,
)
    requires
        team_goes(t, (TeamEvent::Results { results, todos }), n, outs, next),
    ensures
        ({
            let calls = call_views(t.calls@);
            let all = all_results(calls, text::views(t.written@), text::views(results@));
            &&& t.team.iteration < 25 ==> next is Ask
            &&& t.team.iteration >= 25 ==> next is End
            &&& message_views(n.team.messages@) == message_views(t.team.messages@)
                + result_messages(calls, all)
        }),
        n.todos@ == todos@,
{
}

} // verus!
