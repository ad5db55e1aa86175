//! How the model answers a chat, event by event: a plain chat, and a mode
//! without rules of its own.

use crate::ipc::handlers::chat::modes::{
    cancelled, chat_messages, finish_chat, finish_other_stream, finish_other_whole, guarded,
    is_done, other_messages, replayed, reported_call, with_system, with_warnings, CHAT_SYSTEM,
};
use crate::ipc::handlers::chat::stream::{
    grown, no_reply, out_views, sent, whole_calls, whole_text, OutV, Reply, ReplyV, StreamOut,
};
use crate::ipc::protocol::{IPCResponse, TokenUsage, ToolCallResult};
use crate::json::{json_views, Json, JsonV};
use crate::llm::types::{
    copy_messages, message_views, ChatCompletionResponse, Message, StreamChunkResponse,
};
use crate::text;
use vstd::prelude::*;

verus! {

/// Which rules a turn follows.
#[derive(Clone, Copy, Debug, PartialEq, Eq, Structural)]
pub enum Manner {
    /// Those of a plain chat.
    Chat,
    /// Those of a mode without rules of its own.
    Other,
}

/// How a whole reply is asked for.
#[derive(Clone, Copy, Debug, PartialEq, Eq, Structural)]
pub enum WholeCall {
    /// Of the provider in force, with its own model.
    Chat,
    /// Of the model that the request names.
    ChatForModel,
}

impl Manner {
    /// How a whole reply is asked for: plainly in a plain chat, and else of the
    /// model that the request names.
    pub fn whole_call(self) -> (r: WholeCall)
        ensures
            r == whole_call_of(self),
    {
        match self {
            Manner::Chat => WholeCall::Chat,
            Manner::Other => WholeCall::ChatForModel,
        }
    }
}

/// How a whole reply is asked for in a turn.
pub open spec fn whole_call_of(manner: Manner) -> WholeCall {
    match manner {
        Manner::Chat => WholeCall::Chat,
        Manner::Other => WholeCall::ChatForModel,
    }
}

/// The turn of the model.
#[derive(Debug)]
pub struct Turn {
    pub manner: Manner,
    pub id: String,
    pub conv_id: String,
    /// What the model gets.
    pub messages: Vec<Message>,
    pub warnings: Vec<String>,
    pub packet: Option<Json>,
    /// What has come in.
    pub reply: Reply,
}

/// What happens while the model is awaited.
#[derive(Debug)]
#[allow(inconsistent_fields)]
pub enum TurnEvent {
    /// The stream could not be opened.
    Refused { problem: String },
    /// There is no stream to be had.
    NoStream,
    /// A chunk came in.
    Chunk { chunk: StreamChunkResponse },
    /// The user cancelled the chat.
    Cancelled,
    /// The stream ended. What was left over of it was a whole reply, or not.
    Ended { whole: Option<ChatCompletionResponse> },
    /// A whole reply came. The arguments of its tool calls were read; what is no
    /// JSON was read as null.
    Whole { reply: ChatCompletionResponse, args: Vec<Json> },
    /// No whole reply could be had.
    Failed { problem: String },
}

/// What is done next.
#[derive(Debug)]
#[allow(inconsistent_fields)]
pub enum TurnStep {
    /// The stream is read on.
    Read,
    /// The problem is noted, if there is one, and a whole reply is asked for.
    Ask { call: WholeCall, messages: Vec<Message>, note: Option<String> },
    /// The reply is kept, learned from and followed by a title as far as that is
    /// said, and the request is answered.
    End { content: String, distill: bool, title: bool, last: IPCResponse },
    /// It is told that the chat was cancelled, and the request is answered.
    GiveUp { told: IPCResponse, last: IPCResponse },
    /// The request fails.
    Fail { problem: String },
}

/// What is still to be sent when a stream has ended.
pub open spec fn unsent_thinking(r: ReplyV) -> Seq<OutV> {
    if !r.thinking_sent && r.reasoning.len() > 0 {
        seq![OutV::Thinking(r.reasoning)]
    } else {
        Seq::empty()
    }
}

/// A whole reply that was left over of a stream counts only where the stream
/// said nothing.
pub open spec fn left_over(r: ReplyV, whole: Option<ChatCompletionResponse>) -> Option<
    ChatCompletionResponse,
> {
    if r.content.len() == 0 {
        whole
    } else {
        None
    }
}

/// The usage that is told for a reply that may have come as a whole.
pub open spec fn usage_of(r: ReplyV, whole: Option<ChatCompletionResponse>) -> Option<TokenUsage> {
    match whole {
        Some(w) => match w.usage {
            Some(u) => Some(TokenUsage::of(u)),
            None => r.usage,
        },
        None => r.usage,
    }
}

/// The text of a reply that may have come as a whole.
pub open spec fn text_of(r: ReplyV, whole: Option<ChatCompletionResponse>) -> Seq<char> {
    match whole {
        Some(w) => whole_text(w),
        None => r.content,
    }
}

/// A plain chat ends: its reply is kept with the warnings on it, learned from
/// unless it is empty, and followed by a title.
pub open spec fn chat_ends(t: Turn, whole: Option<ChatCompletionResponse>, step: TurnStep) -> bool {
    step matches TurnStep::End { content, distill, title, last } && content@ == guarded(
        text_of(t.reply@, whole),
        text::views(t.warnings@),
    ) && distill == (text_of(t.reply@, whole).len() > 0) && title && is_done(
        last,
        t.id@,
        t.conv_id@,
        usage_of(t.reply@, whole),
    )
}

/// The stream of a mode without rules ends: its reply is kept with the warnings
/// on it.
pub open spec fn stream_ends(
    t: Turn,
    whole: Option<ChatCompletionResponse>,
    step: TurnStep,
) -> bool {
    step matches TurnStep::End { content, distill, title, last } && content@ == guarded(
        text_of(t.reply@, whole),
        text::views(t.warnings@),
    ) && !distill && !title && is_done(last, t.id@, t.conv_id@, None)
}

/// The calls of a whole reply are reported with their arguments and without a
/// result.
pub open spec fn reports(
    reply: ChatCompletionResponse,
    args: Seq<JsonV>,
    calls: Option<Vec<ToolCallResult>>,
) -> bool {
    &&& calls is Some <==> reply.choices@.len() > 0 && reply.choices@[0].message.tool_calls is Some
    &&& calls matches Some(l) ==> l@.len() == whole_calls(reply).len() && forall|i: int|
        0 <= i < l@.len() ==> (#[trigger] l@[i]).name@ == whole_calls(reply)[i].function.name@
            && l@[i].args@ == args[i] && l@[i].result@.len() == 0
}

/// A whole reply in a mode without rules is kept and answered with the warnings
/// on it, what was looked up and the calls that it reports.
pub open spec fn whole_ends(
    t: Turn,
    reply: ChatCompletionResponse,
    args: Seq<JsonV>,
    step: TurnStep,
) -> bool {
    step matches TurnStep::End { content, distill, title, last } && content@ == with_warnings(
        whole_text(reply),
        text::views(t.warnings@),
    ) && !distill && !title && (last matches IPCResponse::Chat {
        id,
        conversation_id,
        content: c,
        tool_calls,
        context_packet,
        usage,
    } && id@ == t.id@ && conversation_id@ == t.conv_id@ && c@ == content@ && reports(
        reply,
        args,
        tool_calls,
    ) && context_packet == t.packet && usage == TokenUsage::of_optional(reply.usage))
}

/// A whole reply is asked for with the same messages.
pub open spec fn asks_again(t: Turn, problem: Option<Seq<char>>, step: TurnStep) -> bool {
    step matches TurnStep::Ask { call, messages, note } && call == whole_call_of(t.manner)
        && message_views(messages@) == message_views(t.messages@) && (match problem {
        Some(p) => note matches Some(n) && n@ == p,
        None => note is None,
    })
}

/// What follows on an event: what is sent, what is done next, and what has then
/// come in.
pub open spec fn goes(
    t: Turn,
    event: TurnEvent,
    reply: ReplyV,
    outs: Seq<OutV>,
    step: TurnStep,
) -> bool {
    match event {
        TurnEvent::Refused { problem } => outs.len() == 0 && reply == t.reply@ && asks_again(
            t,
            Some(problem@),
            step,
        ),
        TurnEvent::NoStream => outs.len() == 0 && reply == t.reply@ && asks_again(t, None, step),
        TurnEvent::Chunk { chunk } => {
            &&& step is Read
            &&& outs == sent(t.reply@, chunk)
            &&& reply == grown(t.reply@, chunk)
        },
        TurnEvent::Cancelled => {
            &&& outs == unsent_thinking(t.reply@)
            &&& step matches TurnStep::GiveUp { told, last } && (
            told matches IPCResponse::Cancelled { id, target_id } && id@ == t.id@ && target_id@
                == t.id@) && is_done(last, t.id@, t.conv_id@, None)
        },
        TurnEvent::Ended { whole } => match t.manner {
            Manner::Chat => {
                &&& outs == unsent_thinking(t.reply@) + (match left_over(t.reply@, whole) {
                    Some(w) => replayed(whole_text(w)),
                    None => Seq::empty(),
                })
                &&& chat_ends(t, left_over(t.reply@, whole), step)
            },
            Manner::Other => outs == unsent_thinking(t.reply@) && stream_ends(
                t,
                left_over(t.reply@, whole),
                step,
            ),
        },
        TurnEvent::Whole { reply: w, args } => match t.manner {
            Manner::Chat => outs == replayed(whole_text(w)) && chat_ends(t, Some(w), step),
            Manner::Other => outs.len() == 0 && whole_ends(t, w, json_views(args@), step),
        },
        TurnEvent::Failed { problem } => outs.len() == 0 && (step matches TurnStep::Fail {
            problem: p,
        } && p == problem),
    }
}

/// The event may happen: the arguments of all calls were read.
pub open spec fn may_come(event: TurnEvent) -> bool {
    event matches TurnEvent::Whole { reply, args } ==> args@.len() == whole_calls(reply).len()
}

fn reported(reply: &ChatCompletionResponse, args: &Vec<Json>) -> (r: Option<Vec<ToolCallResult>>)
    requires
        args@.len() == whole_calls(*reply).len(),
    ensures
        reports(*reply, json_views(args@), r),
{
    if reply.choices.len() == 0 {
        return None;
    }
    match &reply.choices[0].message.tool_calls {
        Some(calls) => {
            let ghost a = json_views(args@);
            let mut out: Vec<ToolCallResult> = Vec::new();
            for i in 0..calls.len()
                invariant
                    calls@ == whole_calls(*reply),
                    args@.len() == calls@.len(),
                    a == json_views(args@),
                    out@.len() == i,
                    forall|j: int|
                        0 <= j < i ==> (#[trigger] out@[j]).name@ == calls@[j].function.name@
                            && out@[j].args@ == a[j] && out@[j].result@.len() == 0,
            {
                assert(a[i as int] == args@[i as int]@);
                let c = reported_call(&calls[i], Some(args[i].copy()));
                out.push(c);
            }
            Some(out)
        },
        None => None,
    }
}

/// Begins a plain chat: the model gets its rules, and what was said.
pub fn handle_chat_mode(
    id: &str,
    conv_id: &str,
    messages: Vec<Message>,
    warnings: Vec<String>,
) -> (r: Turn)
    ensures
        r.manner == Manner::Chat,
        r.id@ == id@,
        r.conv_id@ == conv_id@,
        message_views(r.messages@) == with_system(message_views(messages@), CHAT_SYSTEM@),
        r.warnings == warnings,
        r.packet is None,
        r.reply@ == no_reply(),
{
    Turn {
        manner: Manner::Chat,
        id: id.to_owned(),
        conv_id: conv_id.to_owned(),
        messages: chat_messages(messages),
        warnings,
        packet: None,
        reply: Reply::new(),
    }
}

/// Begins a turn in a mode without rules: the model gets the name of the mode,
/// and what was said.
pub fn handle_streaming_fallback(
    id: &str,
    conv_id: &str,
    messages: Vec<Message>,
    warnings: Vec<String>,
    packet: Option<Json>,
    mode_name: &str,
) -> (r: Turn)
    ensures
        r.manner == Manner::Other,
        r.id@ == id@,
        r.conv_id@ == conv_id@,
        message_views(r.messages@) == with_system(
            message_views(messages@),
            "Agent mode: "@ + mode_name@,
        ),
        r.warnings == warnings,
        r.packet == packet,
        r.reply@ == no_reply(),
{
    Turn {
        manner: Manner::Other,
        id: id.to_owned(),
        conv_id: conv_id.to_owned(),
        messages: other_messages(messages, mode_name),
        warnings,
        packet,
        reply: Reply::new(),
    }
}

impl Turn {
    /// What the model is asked for a stream with.
    pub fn request(&self) -> (r: Vec<Message>)
        ensures
            message_views(r@) == message_views(self.messages@),
    {
        copy_messages(&self.messages)
    }

    fn take_reply(&mut self) -> (r: Reply)
        ensures
            r == old(self).reply,
            *final(self) == (Turn { reply: final(self).reply, ..*old(self) }),
    {
        let mut reply = Reply::new();
        core::mem::swap(&mut reply, &mut self.reply);
        reply
    }

    fn thinking(&mut self) -> (r: Vec<StreamOut>)
        ensures
            out_views(r@) == unsent_thinking(old(self).reply@),
            final(self).reply@.content == old(self).reply@.content,
            final(self).reply@.usage == old(self).reply@.usage,
            *final(self) == (Turn { reply: final(self).reply, ..*old(self) }),
    {
        let mut outs: Vec<StreamOut> = Vec::new();
        match self.reply.finish() {
            Some(o) => outs.push(o),
            None => {},
        }
        assert(out_views(outs@) =~= unsent_thinking(old(self).reply@));
        outs
    }

    /// Takes in what happened: gives what is sent and what is done next.
    pub fn on_event(&mut self, event: TurnEvent) -> (r: (Vec<StreamOut>, TurnStep))
        requires
            may_come(event),
        ensures
            goes(*old(self), event, final(self).reply@, out_views(r.0@), r.1),
            final(self).manner == old(self).manner,
            final(self).id == old(self).id,
            final(self).conv_id == old(self).conv_id,
            final(self).messages == old(self).messages,
            final(self).warnings == old(self).warnings,
            !(r.1 is End) ==> final(self).packet == old(self).packet,
    {
        let none: Vec<StreamOut> = Vec::new();
        assert(out_views(none@) =~= Seq::<OutV>::empty());
        match event {
            TurnEvent::Refused { problem } => (
                none,
                TurnStep::Ask {
                    call: self.manner.whole_call(),
                    messages: copy_messages(&self.messages),
                    note: Some(problem),
                },
            ),
            TurnEvent::NoStream => (
                none,
                TurnStep::Ask {
                    call: self.manner.whole_call(),
                    messages: copy_messages(&self.messages),
                    note: None,
                },
            ),
            TurnEvent::Chunk { chunk } => {
                let outs = self.reply.apply_chunk(&chunk);
                (outs, TurnStep::Read)
            },
            TurnEvent::Cancelled => {
                let outs = self.thinking();
                let (told, last) = cancelled(&self.id, &self.conv_id);
                (outs, TurnStep::GiveUp { told, last })
            },
            TurnEvent::Ended { whole } => {
                let whole = if self.reply.content.as_str().is_empty() {
                    whole
                } else {
                    None
                };
                let mut outs = self.thinking();
                let reply = self.take_reply();
                match self.manner {
                    Manner::Chat => {
                        let end = finish_chat(
                            &self.id,
                            &self.conv_id,
                            reply,
                            whole.as_ref(),
                            &self.warnings,
                        );
                        let ghost first = outs@;
                        let mut rest = end.outs;
                        let ghost second = rest@;
                        outs.append(&mut rest);
                        assert(out_views(outs@) =~= out_views(first) + out_views(second));
                        (
                            outs,
                            TurnStep::End {
                                content: end.content,
                                distill: end.distill,
                                title: true,
                                last: end.last,
                            },
                        )
                    },
                    Manner::Other => {
                        let (content, last) = finish_other_stream(
                            &self.id,
                            &self.conv_id,
                            reply,
                            whole.as_ref(),
                            &self.warnings,
                        );
                        (outs, TurnStep::End { content, distill: false, title: false, last })
                    },
                }
            },
            TurnEvent::Whole { reply: w, args } => match self.manner {
                Manner::Chat => {
                    let reply = self.take_reply();
                    let end = finish_chat(
                        &self.id,
                        &self.conv_id,
                        reply,
                        Some(&w),
                        &self.warnings,
                    );
                    (
                        end.outs,
                        TurnStep::End {
                            content: end.content,
                            distill: end.distill,
                            title: true,
                            last: end.last,
                        },
                    )
                },
                Manner::Other => {
                    let mut packet: Option<Json> = None;
                    core::mem::swap(&mut packet, &mut self.packet);
                    let calls = reported(&w, &args);
                    let (content, last) = finish_other_whole(
                        &self.id,
                        &self.conv_id,
                        &w,
                        calls,
                        packet,
                        &self.warnings,
                    );
                    (none, TurnStep::End { content, distill: false, title: false, last })
                },
            },
            TurnEvent::Failed { problem } => (none, TurnStep::Fail { problem }),
        }
    }
}

} // verus!
