//! How a team works with tools, event by event.

use crate::ipc::handlers::chat::modes::{
    call_mark, call_names, calling_message, cancelled, chat_done, context_text, copy_tools,
    error_mark, failure_note, guarded, is_done, known_context, narrowed, no_tools_note, on_failure,
    replayed, said_last, show_todos, shown_result, team_distills, team_messages, team_model,
    team_top, tools_supported, with_todos, Team, TeamStep, MAX_ITERATIONS, TOO_MANY,
};
use crate::ipc::handlers::chat::stream::{
    assembles, grown, no_calls, no_names, no_reply, out_views, sent, taken_whole, OutV, Reply,
    ReplyV, StreamOut,
};
use crate::ipc::handlers::chat::team_tools::{build_all_tools, team_tools};
use crate::ipc::handlers::chat::turns::unsent_thinking;
use crate::ipc::protocol::IPCResponse;
use crate::json::Json;
use crate::llm::client::last_user;
use crate::llm::types::{
    call_views, message_views, tool_views, ChatCompletionResponse, Message, MessageV,
    StreamChunkResponse, ToolCallDefinition, ToolCallV, ToolDefinition,
};
use crate::text;
use vstd::prelude::*;

verus! {

/// A team at work on a chat.
#[derive(Debug)]
pub struct TeamTurn {
    pub id: String,
    pub conv_id: String,
    /// What the user said last.
    pub said: String,
    /// The name of the model, in small letters.
    pub model: String,
    pub warnings: Vec<String>,
    /// How many messages stand at the top, in front of the list of things to do.
    pub top: usize,
    /// The list of things to do, as the model was last shown it.
    pub todos: String,
    pub team: Team,
    /// What has come in of the reply that is awaited.
    pub reply: Reply,
    /// The calls that are being made.
    pub calls: Vec<ToolCallDefinition>,
    /// How many of them have been announced.
    pub at: usize,
    /// The last of these writes the list of things to do, and its result is
    /// awaited.
    pub writing: bool,
    /// The results of the calls that have written the list.
    pub written: Vec<String>,
}

/// What happens while a team works.
#[derive(Debug)]
#[allow(inconsistent_fields)]
pub enum TeamEvent {
    /// The work begins; this is the list of things to do.
    Begin { todos: String },
    /// The stream could not be opened.
    Refused { problem: String },
    /// There is no stream to be had.
    NoStream,
    /// A chunk came in.
    Chunk { chunk: StreamChunkResponse },
    /// The user cancelled the chat while a reply came in.
    Cancelled,
    /// The stream ended. What was left over of it was a whole reply, or not.
    Ended { whole: Option<ChatCompletionResponse> },
    /// A whole reply came.
    Whole { reply: ChatCompletionResponse },
    /// No whole reply could be had.
    Failed { problem: String },
    /// The list of things to do was written, and this is the result of the call.
    ListWritten { result: String },
    /// The other calls were made: these are their results, and this is the list of
    /// things to do as it is now.
    Results { results: Vec<String>, todos: String },
    /// The user cancelled the chat while calls were made.
    CallsCancelled,
}

/// What is done next.
#[derive(Debug)]
#[allow(inconsistent_fields)]
pub enum TeamNext {
    /// The model is asked for a stream.
    Ask { messages: Vec<Message>, tools: Vec<ToolDefinition> },
    /// The stream is read on.
    Read,
    /// The model is asked for a whole reply.
    AskWhole { messages: Vec<Message>, tools: Vec<ToolDefinition> },
    /// The call writes the list of things to do, and the user interface is told of
    /// it.
    WriteList { call: ToolCallDefinition },
    /// The calls are made, all at once.
    Run { calls: Vec<ToolCallDefinition> },
    /// What was done is kept and learned from, as far as that is said, and the
    /// request is answered.
    End { content: String, distill: bool, last: IPCResponse },
    /// It is told that the chat was cancelled, and the request is answered.
    GiveUp { told: IPCResponse, last: IPCResponse },
    /// The request is answered, and nothing is kept.
    Leave { last: IPCResponse },
    /// The request fails.
    Fail { problem: String },
}

/// The marks of a list of calls.
pub open spec fn call_marks(calls: Seq<ToolCallV>) -> Seq<Seq<char>> {
    calls.map_values(|c: ToolCallV| call_mark(c.name, c.arguments))
}

/// Texts as tokens that are sent.
pub open spec fn as_tokens(texts: Seq<Seq<char>>) -> Seq<OutV> {
    texts.map_values(|t: Seq<char>| OutV::Token(t))
}

/// The texts one behind the other.
pub open spec fn concat(texts: Seq<Seq<char>>) -> Seq<char>
    decreases texts.len(),
{
    if texts.len() == 0 {
        Seq::empty()
    } else {
        concat(texts.drop_last()) + texts.last()
    }
}

/// The marks of those of the first `n` calls that failed.
pub open spec fn failed_marks(calls: Seq<ToolCallV>, results: Seq<Seq<char>>, n: nat) -> Seq<
    Seq<char>,
>
    decreases n,
{
    if n == 0 {
        Seq::empty()
    } else {
        let before = failed_marks(calls, results, (n - 1) as nat);
        if text::begins(results[n - 1], "Error:"@) {
            before.push(error_mark(calls[n - 1].name))
        } else {
            before
        }
    }
}

/// The message with the result of a call.
pub open spec fn result_message(call: ToolCallV, result: Seq<char>) -> MessageV {
    MessageV {
        tool_call_id: Some(call.id),
        ..MessageV::plain("tool"@, shown_result(result)->0)
    }
}

/// The messages with the results of a list of calls.
pub open spec fn result_messages(calls: Seq<ToolCallV>, results: Seq<Seq<char>>) -> Seq<MessageV> {
    Seq::new(calls.len(), |i: int| result_message(calls[i], results[i]))
}

/// All results can be shown to the model.
pub open spec fn showable(results: Seq<Seq<char>>) -> bool {
    forall|i: int| 0 <= i < results.len() ==> shown_result(#[trigger] results[i]) is Some
}

/// The call writes the list of things to do.
pub open spec fn writes_list(call: ToolCallV) -> bool {
    call.name == "todo_write"@
}

/// How many of the calls write the list of things to do.
pub open spec fn writers(calls: Seq<ToolCallV>) -> nat
    decreases calls.len(),
{
    if calls.len() == 0 {
        0
    } else if writes_list(calls.last()) {
        writers(calls.drop_last()) + 1
    } else {
        writers(calls.drop_last())
    }
}

/// The calls that do not write the list of things to do.
pub open spec fn others(calls: Seq<ToolCallV>) -> Seq<ToolCallV>
    decreases calls.len(),
{
    if calls.len() == 0 {
        Seq::empty()
    } else if writes_list(calls.last()) {
        others(calls.drop_last())
    } else {
        others(calls.drop_last()).push(calls.last())
    }
}

/// The results of all calls in their order, from those of the calls that wrote the
/// list of things to do and those of the others.
pub open spec fn all_results(
    calls: Seq<ToolCallV>,
    written: Seq<Seq<char>>,
    results: Seq<Seq<char>>,
) -> Seq<Seq<char>>
    decreases calls.len(),
{
    if calls.len() == 0 {
        Seq::empty()
    } else if writes_list(calls.last()) {
        all_results(calls.drop_last(), written.drop_last(), results).push(written.last())
    } else {
        all_results(calls.drop_last(), written, results.drop_last()).push(results.last())
    }
}

/// How far calls are announced from one on: up to the next that writes the list of
/// things to do, and with it, or else to the last.
pub open spec fn next_stop(calls: Seq<ToolCallV>, from: int) -> int
    decreases calls.len() - from,
{
    if from >= calls.len() {
        calls.len() as int
    } else if writes_list(calls[from]) {
        from + 1
    } else {
        next_stop(calls, from + 1)
    }
}

/// The marks of the calls that are announced from one on.
pub open spec fn started(calls: Seq<ToolCallV>, from: int) -> Seq<Seq<char>> {
    call_marks(calls.subrange(from, next_stop(calls, from)))
}

/// Where the calls stand once they were announced from one on, and what is done: a
/// list of things to do is written as soon as its call is announced, and the other
/// calls are made when all are.
pub open spec fn stops(calls: Seq<ToolCallV>, from: int, n: TeamTurn, next: TeamNext) -> bool {
    let to = next_stop(calls, from);
    &&& n.at == to
    &&& n.writing == (from < to && writes_list(calls[to - 1]))
    &&& if n.writing {
        next matches TeamNext::WriteList { call } && call@ == calls[to - 1]
    } else {
        next matches TeamNext::Run { calls: c } && call_views(c@) == others(calls)
    }
}

/// The event may happen to a team.
pub open spec fn may_happen(t: TeamTurn, event: TeamEvent) -> bool {
    match event {
        TeamEvent::ListWritten { .. } => t.writing,
        TeamEvent::Results { results, .. } => {
            let calls = call_views(t.calls@);
            &&& !t.writing
            &&& t.at == calls.len()
            &&& results@.len() == others(calls).len()
            &&& showable(all_results(calls, text::views(t.written@), text::views(results@)))
        },
        _ => true,
    }
}

/// The work ends: what was said and done is kept with the warnings on it.
pub open spec fn work_ends(t: TeamTurn, team: Team, next: TeamNext) -> bool {
    next matches TeamNext::End { content, distill, last } && content@ == guarded(
        team.content@,
        text::views(t.warnings@),
    ) && distill == (t.said@.len() > 0 && content@.len() > 0) && is_done(
        last,
        t.id@,
        t.conv_id@,
        team.usage,
    )
}

/// A whole reply that was left over of a stream counts only where the stream
/// said nothing and called nothing.
pub open spec fn not_streamed(r: ReplyV, whole: Option<ChatCompletionResponse>) -> Option<
    ChatCompletionResponse,
> {
    if r.content.len() == 0 && no_names(r.calls) {
        whole
    } else {
        None
    }
}

/// What has come in, with a reply that was not streamed where there is one.
pub open spec fn taken(r: ReplyV, whole: Option<ChatCompletionResponse>) -> ReplyV {
    match whole {
        Some(w) => taken_whole(r, w),
        None => r,
    }
}

/// A reply is taken in, and its calls are to be made; without any the work ends.
pub open spec fn takes_reply(
    t: TeamTurn,
    reply: ReplyV,
    n: TeamTurn,
    outs: Seq<OutV>,
    next: TeamNext,
) -> bool {
    let calls = call_views(n.calls@);
    &&& exists|at: Seq<usize>| #[trigger] assembles(reply.calls, calls, at)
    &&& n.team.iteration == t.team.iteration
    &&& n.team.tools == t.team.tools
    &&& n.team.usage == (match reply.usage {
        Some(u) => Some(u),
        None => t.team.usage,
    })
    &&& n.team.content@ == t.team.content@ + reply.content + concat(started(calls, 0))
    &&& text::views(n.team.used@) == text::views(t.team.used@) + call_names(calls)
    &&& n.reply@ == no_reply()
    &&& outs == unsent_thinking(reply) + (if reply.streamed {
        Seq::empty()
    } else {
        replayed(reply.content)
    }) + as_tokens(started(calls, 0))
    &&& n.written@.len() == 0
    &&& message_views(n.team.messages@) == (if calls.len() == 0 {
        message_views(t.team.messages@)
    } else {
        message_views(t.team.messages@).push(
            calling_message(reply.content, reply.reasoning, calls),
        )
    })
    &&& if calls.len() == 0 {
        work_ends(t, n.team, next)
    } else {
        stops(calls, 0, n, next)
    }
}

/// The results of the calls are taken in.
pub open spec fn takes_results(t: TeamTurn, results: Seq<Seq<char>>, n: Team) -> bool {
    let calls = call_views(t.calls@);
    &&& n.content@ == t.team.content@ + concat(failed_marks(calls, results, calls.len()))
    &&& message_views(n.messages@) == message_views(t.team.messages@) + result_messages(
        calls,
        results,
    )
    &&& n.iteration == t.team.iteration
    &&& n.usage == t.team.usage
    &&& n.used == t.team.used
    &&& n.tools == t.team.tools
}

/// The model is asked, up to twenty-five times, and shown the list of things to
/// do as it is now: the first time with all tools and then with those that
/// matter. After that the work ends.
pub open spec fn begins(
    t: TeamTurn,
    team: Team,
    todos: Seq<char>,
    n: Team,
    outs: Seq<OutV>,
    next: TeamNext,
) -> bool {
    &&& n == (Team { iteration: n.iteration, ..team })
    &&& if team.iteration < MAX_ITERATIONS {
        &&& n.iteration == team.iteration + 1
        &&& outs.len() == 0
        &&& next matches TeamNext::Ask { messages, tools } && message_views(messages@)
            == with_todos(message_views(team.messages@), t.top as int, todos) && tool_views(
            tools@,
        ) == (if team.iteration == 0 {
            tool_views(team.tools@)
        } else {
            narrowed(tool_views(team.tools@), text::views(team.used@))
        })
    } else {
        &&& n.iteration == team.iteration
        &&& outs == seq![OutV::Token(TOO_MANY@)]
        &&& work_ends(t, n, next)
    }
}

/// What follows on an event: the state `n`, what is sent, and what is done next.
pub open spec fn team_goes(
    t: TeamTurn,
    event: TeamEvent,
    n: TeamTurn,
    outs: Seq<OutV>,
    next: TeamNext,
) -> bool {
    match event {
        TeamEvent::Begin { todos } => {
            &&& begins(t, t.team, todos@, n.team, outs, next)
            &&& n.reply@ == no_reply()
            &&& n.todos@ == todos@
        },
        TeamEvent::Refused { problem } => {
            &&& n.team == t.team
            &&& outs == seq![OutV::Token(failure_note(problem@, t.model@))]
            &&& work_ends(t, n.team, next)
        },
        TeamEvent::NoStream => {
            &&& n == t
            &&& outs.len() == 0
            &&& next matches TeamNext::AskWhole { messages, tools } && message_views(messages@)
                == with_todos(message_views(t.team.messages@), t.top as int, t.todos@)
                && tool_views(tools@) == tool_views(t.team.tools@)
        },
        TeamEvent::Chunk { chunk } => {
            &&& n == (TeamTurn { reply: n.reply, ..t })
            &&& n.reply@ == grown(t.reply@, chunk)
            &&& outs == sent(t.reply@, chunk)
            &&& next is Read
        },
        TeamEvent::Cancelled => {
            &&& outs == unsent_thinking(t.reply@)
            &&& next matches TeamNext::GiveUp { told, last } && (
            told matches IPCResponse::Cancelled { id, target_id } && id@ == t.id@ && target_id@
                == t.id@) && is_done(last, t.id@, t.conv_id@, None)
        },
        TeamEvent::Ended { whole } => takes_reply(
            t,
            taken(t.reply@, not_streamed(t.reply@, whole)),
            n,
            outs,
            next,
        ),
        TeamEvent::Whole { reply: w } => takes_reply(t, taken_whole(t.reply@, w), n, outs, next),
        TeamEvent::Failed { problem } => outs.len() == 0 && (next matches TeamNext::Fail {
            problem: p,
        } && p == problem),
        TeamEvent::ListWritten { result } => {
            let calls = call_views(t.calls@);
            &&& n.team == (Team { content: n.team.content, ..t.team })
            &&& n.team.content@ == t.team.content@ + concat(started(calls, t.at as int))
            &&& n.calls == t.calls
            &&& n.reply == t.reply
            &&& text::views(n.written@) == text::views(t.written@).push(result@)
            &&& outs == as_tokens(started(calls, t.at as int))
            &&& stops(calls, t.at as int, n, next)
        },
        TeamEvent::Results { results, todos } => {
            let calls = call_views(t.calls@);
            let all = all_results(calls, text::views(t.written@), text::views(results@));
            exists|team: Team, marks: Seq<OutV>, rest: Seq<OutV>|
                #![trigger takes_results(t, all, team), marks + rest]
                {
                    &&& n.todos@ == todos@
                    &&& takes_results(t, all, team)
                    &&& marks == as_tokens(failed_marks(calls, all, calls.len()))
                    &&& outs == marks + rest
                    &&& begins(t, team, todos@, n.team, rest, next)
                }
        },
        TeamEvent::CallsCancelled => outs.len() == 0 && (next matches TeamNext::Leave { last }
            && is_done(last, t.id@, t.conv_id@, None)),
    }
}

/// Begins the work of a team: it gets its rules, what is known and the tools,
/// which a model may not be able to use; the note then says so.
pub fn handle_team_mode(
    id: &str,
    conv_id: &str,
    messages: Vec<Message>,
    warnings: Vec<String>,
    packet: Option<&Json>,
    cwd: &str,
    model: Option<&str>,
    configured: &str,
    disabled: Option<&str>,
) -> (r: (TeamTurn, Option<StreamOut>))
    ensures
        r.0.id@ == id@,
        r.0.conv_id@ == conv_id@,
        r.0.warnings == warnings,
        r.0.said@ == (match last_user(message_views(messages@)) {
            Some(c) => c,
            None => Seq::empty(),
        }),
        r.0.model@ == text::lower(
            match model {
                Some(m) => m@,
                None => configured@,
            },
        ),
        r.0.reply@ == no_reply(),
        r.0.calls@.len() == 0,
        r.0.team.iteration == 0,
        r.0.team.content@.len() == 0,
        r.0.team.usage is None,
        r.0.team.used@.len() == 0,
        ({
            let top = team_top(
                known_context(
                    match packet {
                        Some(p) => Some(p@),
                        None => None,
                    },
                ),
                cwd@,
            );
            &&& r.0.top == top.len()
            &&& message_views(r.0.team.messages@) == top + message_views(messages@)
        }),
        r.0.todos@.len() == 0,
        r.0.wf(),
        ({
            let able = !text::occurs(r.0.model@, "bard"@) && !(disabled matches Some(d) && d@
                == "1"@);
            &&& tool_views(r.0.team.tools@) == (if able {
                team_tools()
            } else {
                Seq::empty()
            })
            &&& r.1 is Some <==> !able
            &&& r.1 matches Some(o) ==> o@ == OutV::Token(
                "*note: tool calls disabled for `"@ + r.0.model@
                    + "` - reasoning-only mode.*\n\n"@,
            )
        }),
{
    let said = said_last(&messages);
    let context = context_text(packet);
    let (messages, top) = team_messages(messages, context, cwd);
    let todos = "".to_owned();
    proof {
        reveal_strlit("");
    }
    let model = team_model(model, configured);
    let able = tools_supported(&model, disabled);
    let tools = if able {
        build_all_tools()
    } else {
        Vec::new()
    };
    assert(!able ==> tool_views(tools@) =~= Seq::empty());
    let note = if able {
        None
    } else {
        Some(StreamOut::Token(no_tools_note(&model)))
    };
    let turn = TeamTurn {
        id: id.to_owned(),
        conv_id: conv_id.to_owned(),
        said,
        model,
        warnings,
        top,
        todos,
        team: Team::new(messages, tools),
        reply: Reply::new(),
        calls: Vec::new(),
        at: 0,
        writing: false,
        written: Vec::new(),
    };
    (turn, note)
}

impl TeamTurn {
    /// The messages at the top are there, and there is a result for each announced
    /// call that has written the list of things to do.
    pub open spec fn wf(self) -> bool {
        let calls = call_views(self.calls@);
        &&& self.top <= message_views(self.team.messages@).len()
        &&& self.at <= calls.len()
        &&& self.writing ==> self.at > 0 && writes_list(calls[self.at - 1])
        &&& writers(calls.take(self.at as int)) == self.written@.len() + (if self.writing {
            1int
        } else {
            0
        })
    }

    fn end(&self) -> (r: TeamNext)
        ensures
            work_ends(*self, self.team, r),
    {
        let (content, last) = self.team.finish(&self.id, &self.conv_id, &self.warnings);
        let distill = team_distills(&self.said, &content);
        TeamNext::End { content, distill, last }
    }

    fn round(&mut self) -> (r: (Vec<StreamOut>, TeamNext))
        requires
            old(self).wf(),
        ensures
            begins(
                *old(self),
                old(self).team,
                old(self).todos@,
                final(self).team,
                out_views(r.0@),
                r.1,
            ),
            *final(self) == (TeamTurn { team: final(self).team, ..*old(self) }),
    {
        let mut outs: Vec<StreamOut> = Vec::new();
        assert(message_views(self.team.messages@).len() == self.team.messages@.len());
        match self.team.begin() {
            TeamStep::Ask(tools) => {
                let messages = show_todos(&self.team.messages, self.top, &self.todos);
                assert(out_views(outs@) =~= Seq::empty());
                (outs, TeamNext::Ask { messages, tools })
            },
            TeamStep::Stop(note) => {
                outs.push(StreamOut::Token(note));
                assert(out_views(outs@) =~= seq![OutV::Token(TOO_MANY@)]);
                let next = self.end();
                (outs, next)
            },
        }
    }

    fn thinking(&mut self) -> (r: Vec<StreamOut>)
        ensures
            out_views(r@) == unsent_thinking(old(self).reply@),
            final(self).reply@.content == old(self).reply@.content,
            final(self).reply@.reasoning == old(self).reply@.reasoning,
            final(self).reply@.streamed == old(self).reply@.streamed,
            final(self).reply@.usage == old(self).reply@.usage,
            final(self).reply.calls == old(self).reply.calls,
            *final(self) == (TeamTurn { reply: final(self).reply, ..*old(self) }),
    {
        let mut outs: Vec<StreamOut> = Vec::new();
        match self.reply.finish() {
            Some(o) => outs.push(o),
            None => {},
        }
        assert(out_views(outs@) =~= unsent_thinking(old(self).reply@));
        outs
    }

    fn start_calls(&mut self) -> (r: (Vec<StreamOut>, TeamNext))
        requires
            old(self).at <= old(self).calls@.len(),
            writers(call_views(old(self).calls@).take(old(self).at as int))
                == old(self).written@.len(),
        ensures
            ({
                let calls = call_views(old(self).calls@);
                let from = old(self).at as int;
                &&& out_views(r.0@) == as_tokens(started(calls, from))
                &&& final(self).team.content@ == old(self).team.content@ + concat(
                    started(calls, from),
                )
                &&& stops(calls, from, *final(self), r.1)
                &&& final(self).at <= calls.len()
                &&& final(self).writing ==> final(self).at > 0 && writes_list(
                    calls[final(self).at - 1],
                )
                &&& writers(calls.take(final(self).at as int)) == old(self).written@.len() + (
                if final(self).writing {
                    1int
                } else {
                    0
                })
            }),
            *final(self) == (TeamTurn {
                team: final(self).team,
                at: final(self).at,
                writing: final(self).writing,
                ..*old(self)
            }),
            final(self).team == (Team { content: final(self).team.content, ..old(self).team }),
    {
        let ghost calls = call_views(self.calls@);
        let ghost from = self.at as int;
        let mut outs: Vec<StreamOut> = Vec::new();
        self.writing = false;
        assert(call_marks(calls.subrange(from, from)) =~= Seq::empty());
        assert(out_views(outs@) =~= as_tokens(call_marks(calls.subrange(from, from))));
        assert(self.team.content@ + concat(call_marks(calls.subrange(from, from)))
            =~= self.team.content@);
        while self.at < self.calls.len()
            invariant
                from == old(self).at,
                from <= self.at <= self.calls@.len(),
                calls == call_views(self.calls@),
                calls == call_views(old(self).calls@),
                next_stop(calls, from) == next_stop(calls, self.at as int),
                out_views(outs@) == as_tokens(call_marks(calls.subrange(from, self.at as int))),
                self.team.content@ == old(self).team.content@ + concat(
                    call_marks(calls.subrange(from, self.at as int)),
                ),
                writers(calls.take(self.at as int)) == old(self).written@.len(),
                !self.writing,
                forall|k: int| from <= k < self.at ==> !writes_list(#[trigger] calls[k]),
                *self == (TeamTurn {
                    team: self.team,
                    at: self.at,
                    writing: self.writing,
                    ..*old(self)
                }),
                self.team == (Team { content: self.team.content, ..old(self).team }),
            decreases self.calls@.len() - self.at,
        {
            let i: usize = self.at;
            let ghost before = outs@;
            let ghost marks = call_marks(calls.subrange(from, i as int));
            let ghost more = call_marks(calls.subrange(from, i + 1));
            assert(calls[i as int] == self.calls@[i as int]@);
            let mark = self.team.start_call(&self.calls[i]);
            let out = StreamOut::Token(mark);
            outs.push(out);
            proof {
                assert(more =~= marks.push(mark@));
                assert(more.drop_last() =~= marks);
                assert(out_views(outs@) =~= out_views(before).push(out@));
                assert(as_tokens(more) =~= as_tokens(marks).push(OutV::Token(mark@)));
                assert(self.team.content@ =~= old(self).team.content@ + concat(more));
                assert(calls.take(i + 1).drop_last() =~= calls.take(i as int));
            }
            self.at = i + 1;
            if text::same(&self.calls[i].function.name, "todo_write") {
                self.writing = true;
                let call = self.calls[i].copy();
                return (outs, TeamNext::WriteList { call });
            }
        }
        assert(calls.len() == self.calls@.len());
        (outs, TeamNext::Run { calls: other_calls(&self.calls) })
    }

    fn take_reply(&mut self) -> (r: (Vec<StreamOut>, TeamNext))
        requires
            old(self).wf(),
        ensures
            final(self).wf(),
            takes_reply(*old(self), old(self).reply@, *final(self), out_views(r.0@), r.1),
            *final(self) == (TeamTurn {
                team: final(self).team,
                reply: final(self).reply,
                calls: final(self).calls,
                at: final(self).at,
                writing: final(self).writing,
                written: final(self).written,
                ..*old(self)
            }),
    {
        let mut outs = self.thinking();
        let mut reply = Reply::new();
        core::mem::swap(&mut reply, &mut self.reply);
        let ghost first = out_views(outs@);
        assert(reply@ == (ReplyV { thinking_sent: reply@.thinking_sent, ..old(self).reply@ }));
        let (shown, calls) = self.team.on_reply(reply);
        let mut shown = shown;
        let ghost second = out_views(shown@);
        outs.append(&mut shown);
        assert(out_views(outs@) =~= first + second);
        let ghost all = call_views(calls@);
        assert(all.len() == calls@.len());
        assert(all.take(0) =~= Seq::empty());
        let none = calls.len() == 0;
        self.calls = calls;
        self.at = 0;
        self.written = Vec::new();
        let (marks, next) = self.start_calls();
        let mut marks = marks;
        let ghost third = out_views(marks@);
        outs.append(&mut marks);
        assert(out_views(outs@) =~= first + second + third);
        if none {
            let next = self.end();
            return (outs, next);
        }
        (outs, next)
    }

    fn merge_results(&self, results: &Vec<String>) -> (r: Vec<String>)
        requires
            self.written@.len() == writers(call_views(self.calls@)),
            results@.len() == others(call_views(self.calls@)).len(),
        ensures
            text::views(r@) == all_results(
                call_views(self.calls@),
                text::views(self.written@),
                text::views(results@),
            ),
            r@.len() == self.calls@.len(),
    {
        broadcast use text::views_push;

        let ghost calls = call_views(self.calls@);
        let ghost w = text::views(self.written@);
        let ghost o = text::views(results@);
        let mut out: Vec<String> = Vec::new();
        let mut a: usize = 0;
        let mut b: usize = 0;
        proof {
            others_are_the_rest(calls);
            assert(calls.take(0) =~= Seq::empty());
            assert(text::views(out@) =~= Seq::empty());
        }
        for i in 0..self.calls.len()
            invariant
                calls == call_views(self.calls@),
                w == text::views(self.written@),
                o == text::views(results@),
                w.len() == writers(calls),
                o.len() == calls.len() - writers(calls),
                a == writers(calls.take(i as int)),
                a + b == i,
                out@.len() == i,
                text::views(out@) == all_results(
                    calls.take(i as int),
                    w.take(a as int),
                    o.take(b as int),
                ),
        {
            let ghost here = calls.take(i + 1);
            proof {
                assert(here.drop_last() =~= calls.take(i as int));
                assert(here.last() == self.calls@[i as int]@);
                writers_grow(calls, i + 1);
            }
            if text::same(&self.calls[i].function.name, "todo_write") {
                assert(w.take(a + 1).drop_last() =~= w.take(a as int));
                assert(w.take(a + 1).last() == self.written@[a as int]@);
                out.push(self.written[a].clone());
                a = a + 1;
            } else {
                assert(o.take(b + 1).drop_last() =~= o.take(b as int));
                assert(o.take(b + 1).last() == results@[b as int]@);
                out.push(results[b].clone());
                b = b + 1;
            }
        }
        assert(calls.take(calls.len() as int) =~= calls);
        assert(w.take(w.len() as int) =~= w);
        assert(o.take(o.len() as int) =~= o);
        out
    }

    fn take_results(&mut self, results: &Vec<String>) -> (r: Vec<StreamOut>)
        requires
            results@.len() == old(self).calls@.len(),
            showable(text::views(results@)),
        ensures
            takes_results(*old(self), text::views(results@), final(self).team),
            out_views(r@) == as_tokens(
                failed_marks(
                    call_views(old(self).calls@),
                    text::views(results@),
                    old(self).calls@.len() as nat,
                ),
            ),
            *final(self) == (TeamTurn { team: final(self).team, ..*old(self) }),
    {
        let ghost calls = call_views(self.calls@);
        let ghost texts = text::views(results@);
        let ghost all = result_messages(calls, texts);
        let ghost given = message_views(self.team.messages@);
        let mut outs: Vec<StreamOut> = Vec::new();
        assert(out_views(outs@) =~= as_tokens(failed_marks(calls, texts, 0)));
        assert(self.team.content@ + concat(failed_marks(calls, texts, 0)) =~= self.team.content@);
        assert(given + all.take(0) =~= given);
        for i in 0..results.len()
            invariant
                results@.len() == self.calls@.len(),
                calls == call_views(self.calls@),
                texts == text::views(results@),
                showable(texts),
                all == result_messages(calls, texts),
                given == message_views(old(self).team.messages@),
                out_views(outs@) == as_tokens(failed_marks(calls, texts, i as nat)),
                self.team.content@ == old(self).team.content@ + concat(
                    failed_marks(calls, texts, i as nat),
                ),
                message_views(self.team.messages@) == given + all.take(i as int),
                *self == (TeamTurn { team: self.team, ..*old(self) }),
                self.team == (Team {
                    content: self.team.content,
                    messages: self.team.messages,
                    ..old(self).team
                }),
        {
            let ghost before = outs@;
            let ghost marks = failed_marks(calls, texts, i as nat);
            assert(texts[i as int] == results@[i as int]@);
            assert(calls[i as int] == self.calls@[i as int]@);
            let mark = self.team.on_result(&self.calls[i], &results[i]);
            let ghost next = failed_marks(calls, texts, (i + 1) as nat);
            assert(all[i as int] == result_message(calls[i as int], texts[i as int]));
            assert(given + all.take(i + 1) =~= (given + all.take(i as int)).push(all[i as int]));
            match mark {
                Some(m) => {
                    let out = StreamOut::Token(m);
                    outs.push(out);
                    assert(out_views(outs@) =~= out_views(before).push(out@));
                    assert(next.drop_last() =~= marks);
                    assert(as_tokens(next) =~= as_tokens(marks).push(OutV::Token(m@)));
                    assert(self.team.content@ =~= old(self).team.content@ + concat(next));
                },
                None => {
                    assert(next == marks);
                    assert(self.team.content@ =~= old(self).team.content@ + concat(next));
                },
            }
        }
        assert(all.take(all.len() as int) =~= all);
        outs
    }

    /// Takes in what happened: gives what is sent and what is done next.
    #[verifier::rlimit(40)]
    pub fn on_event(&mut self, event: TeamEvent) -> (r: (Vec<StreamOut>, TeamNext))
        requires
            old(self).wf(),
            may_happen(*old(self), event),
        ensures
            final(self).wf(),
            team_goes(*old(self), event, *final(self), out_views(r.0@), r.1),
            final(self).id == old(self).id,
            final(self).conv_id == old(self).conv_id,
            final(self).said == old(self).said,
            final(self).model == old(self).model,
            final(self).warnings == old(self).warnings,
            final(self).top == old(self).top,
            !(event is Begin) && !(event is Results) ==> final(self).todos == old(self).todos,
            event is Results ==> final(self).reply == old(self).reply,
            event is Results || event is Begin || event is Chunk || event is NoStream
                ==> final(self).calls == old(self).calls && final(self).at == old(self).at
                && final(self).writing == old(self).writing && final(self).written == old(
                self,
            ).written,
    {
        let none: Vec<StreamOut> = Vec::new();
        assert(out_views(none@) =~= Seq::<OutV>::empty());
        match event {
            TeamEvent::Begin { todos } => {
                self.todos = todos;
                self.reply = Reply::new();
                self.round()
            },
            TeamEvent::Refused { problem } => {
                let mut outs = none;
                outs.push(StreamOut::Token(on_failure(&problem, &self.model)));
                assert(out_views(outs@) =~= seq![
                    OutV::Token(failure_note(problem@, self.model@)),
                ]);
                (outs, self.end())
            },
            TeamEvent::NoStream => {
                assert(message_views(self.team.messages@).len() == self.team.messages@.len());
                (
                    none,
                    TeamNext::AskWhole {
                        messages: show_todos(&self.team.messages, self.top, &self.todos),
                        tools: copy_tools(&self.team.tools),
                    },
                )
            },
            TeamEvent::Chunk { chunk } => {
                let outs = self.reply.apply_chunk(&chunk);
                (outs, TeamNext::Read)
            },
            TeamEvent::Cancelled => {
                let outs = self.thinking();
                let (told, last) = cancelled(&self.id, &self.conv_id);
                (outs, TeamNext::GiveUp { told, last })
            },
            TeamEvent::Ended { whole } => {
                if self.reply.content.as_str().is_empty() && self.reply.calls.is_empty() {
                    if let Some(w) = &whole {
                        self.reply.take_whole(w);
                    }
                }
                assert(self.reply@ == taken(
                    old(self).reply@,
                    not_streamed(old(self).reply@, whole),
                ));
                self.take_reply()
            },
            TeamEvent::Whole { reply } => {
                self.reply.take_whole(&reply);
                self.take_reply()
            },
            TeamEvent::Failed { problem } => (none, TeamNext::Fail { problem }),
            TeamEvent::ListWritten { result } => {
                let ghost before = self.written@;
                self.written.push(result);
                assert(text::views(self.written@) =~= text::views(before).push(result@));
                self.start_calls()
            },
            TeamEvent::Results { results, todos } => {
                let ghost calls = call_views(self.calls@);
                assert(calls.take(calls.len() as int) =~= calls);
                let results = self.merge_results(&results);
                let mut outs = self.take_results(&results);
                self.todos = todos;
                let ghost team = self.team;
                let ghost marks = out_views(outs@);
                let (rest, next) = self.round();
                let mut rest = rest;
                let ghost more = out_views(rest@);
                outs.append(&mut rest);
                assert(out_views(outs@) =~= marks + more);
                assert(takes_results(*old(self), text::views(results@), team));
                (outs, next)
            },
            TeamEvent::CallsCancelled => {
                let last = chat_done(&self.id, &self.conv_id, None);
                (none, TeamNext::Leave { last })
            },
        }
    }
}

fn other_calls(calls: &Vec<ToolCallDefinition>) -> (r: Vec<ToolCallDefinition>)
    ensures
        call_views(r@) == others(call_views(calls@)),
{
    let ghost all = call_views(calls@);
    let mut out: Vec<ToolCallDefinition> = Vec::new();
    assert(all.take(0) =~= Seq::empty());
    assert(call_views(out@) =~= Seq::empty());
    for i in 0..calls.len()
        invariant
            all == call_views(calls@),
            call_views(out@) == others(all.take(i as int)),
    {
        assert(all.take(i + 1).drop_last() =~= all.take(i as int));
        assert(all.take(i + 1).last() == calls@[i as int]@);
        if !text::same(&calls[i].function.name, "todo_write") {
            let ghost before = out@;
            let c = calls[i].copy();
            out.push(c);
            assert(call_views(out@) =~= call_views(before).push(c@));
        }
    }
    assert(all.take(all.len() as int) =~= all);
    out
}

proof fn others_are_the_rest(calls: Seq<ToolCallV>)
    ensures
        others(calls).len() + writers(calls) == calls.len(),
    decreases calls.len(),
{
    if calls.len() > 0 {
        others_are_the_rest(calls.drop_last());
    }
}

proof fn writers_grow(calls: Seq<ToolCallV>, n: int)
    requires
        0 <= n <= calls.len(),
    ensures
        writers(calls.take(n)) <= writers(calls),
        writers(calls.take(n)) <= n,
        n - writers(calls.take(n)) <= calls.len() - writers(calls),
    decreases calls.len(),
{
    others_are_the_rest(calls.take(n));
    if n == calls.len() {
        assert(calls.take(n) =~= calls);
    } else {
        writers_grow(calls.drop_last(), n);
        assert(calls.drop_last().take(n) =~= calls.take(n));
    }
}

/// A list of things to do is written right behind the mark of its call, before any
/// other call is announced.
pub proof fn a_new_list_follows_its_mark(
    t: TeamTurn,
    event: TeamEvent,
    n: TeamTurn,
    outs: Seq<OutV>,
    next: TeamNext,
)
    requires
        t.wf(),
        may_happen(t, event),
        team_goes(t, event, n, outs, next),
        next is WriteList,
    ensures
        outs.len() > 0,
        outs.last() == OutV::Token(
            call_mark(next->WriteList_call@.name, next->WriteList_call@.arguments),
        ),
        writes_list(next->WriteList_call@),
{
    let calls = call_views(n.calls@);
    let from = if event is ListWritten {
        t.at as int
    } else {
        0
    };
    let to = next_stop(calls, from);
    stop_is_ahead(calls, from);
    assert(started(calls, from).last() == call_mark(calls[to - 1].name, calls[to - 1].arguments));
}

proof fn stop_is_ahead(calls: Seq<ToolCallV>, from: int)
    requires
        0 <= from <= calls.len(),
    ensures
        from <= next_stop(calls, from) <= calls.len(),
    decreases calls.len() - from,
{
    if from < calls.len() && !writes_list(calls[from]) {
        stop_is_ahead(calls, from + 1);
    }
}

/// The model is shown the list of things to do as it is when it is asked, at the
/// top of the messages: a list that was written by a call stands in the very next
/// request.
pub proof fn the_current_list_is_shown(
    t: TeamTurn,
    results: Vec<String>,
    todos: String,
    n: TeamTurn,
    outs: Seq<OutV>,
    next: TeamNext,
)
    requires
        t.wf(),
        team_goes(t, (TeamEvent::Results { results, todos }), n, outs, next),
    ensures
        n.todos@ == todos@,
        next matches TeamNext::Ask { messages, .. } ==> {
            &&& message_views(messages@) == with_todos(
                message_views(n.team.messages@),
                t.top as int,
                todos@,
            )
            &&& todos@.len() > 0 ==> message_views(messages@)[t.top as int] == MessageV::plain(
                "system"@,
                todos@,
            )
        },
{
}

/// The calls of a reply are made once: when they are to be made, nothing of them
/// is left where the next reply comes in.
pub proof fn calls_are_made_once(
    t: TeamTurn,
    event: TeamEvent,
    n: TeamTurn,
    outs: Seq<OutV>,
    next: TeamNext,
)
    requires
        team_goes(t, event, n, outs, next),
        event is Ended || event is Whole,
    ensures
        n.reply@ == no_reply(),
        n.reply@.calls == no_calls(),
{
}

/// The model is asked at most twenty-five times: each time it is asked counts,
/// and nothing else does.
pub proof fn a_team_gives_up(
    t: TeamTurn,
    event: TeamEvent,
    n: TeamTurn,
    outs: Seq<OutV>,
    next: TeamNext,
)
    requires
        t.team.iteration <= MAX_ITERATIONS,
        team_goes(t, event, n, outs, next),
    ensures
        next is Ask ==> n.team.iteration == t.team.iteration + 1 && n.team.iteration
            <= MAX_ITERATIONS,
        next is Read || next is AskWhole || next is WriteList || next is Run || next is End
            ==> n.team.iteration == t.team.iteration,
{
}

} // verus!
