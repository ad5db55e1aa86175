//! How a coding agent answers, event by event: what it would change is shown and
//! waits for approval.

use crate::ipc::handlers::chat::modes::{
    arg, cancelled, coder_messages, coder_prompt, coder_tools, finish_coder, is_done,
    coding_tools, pending_edit, said_last, with_system, with_warnings, CODER_SYSTEM,
};
use crate::ipc::handlers::chat::stream::{whole_calls, whole_text};
use crate::ipc::protocol::{IPCResponse, PendingEditDiff, TokenUsage};
use crate::json::{json_views, Json, JsonV};
use crate::llm::client::last_user;
use crate::llm::types::{
    message_views, tool_views, ChatCompletionResponse, Message, MessageV, ToolCallDefinition,
    ToolDefinition,
};
use crate::text;
use vstd::prelude::*;

verus! {

/// A coding agent at work on a chat.
#[derive(Debug)]
pub struct CoderTurn {
    pub id: String,
    pub conv_id: String,
    /// What the user said last.
    pub said: String,
    pub messages: Vec<Message>,
    pub warnings: Vec<String>,
    pub packet: Option<Json>,
}

/// How the turn ends: what is kept, whether it is learned from, the calls that
/// wait for approval, and the answer.
#[derive(Debug)]
pub struct CoderDone {
    pub content: String,
    pub distill: bool,
    pub pending: Option<Vec<PendingEditDiff>>,
    pub last: IPCResponse,
}

/// What a proposed call waits as: its arguments, and what it would do.
pub open spec fn waits_as(
    name: Seq<char>,
    args: JsonV,
    diff: Seq<char>,
    d: PendingEditDiff,
) -> bool {
    &&& d.tool_name@ == name
    &&& d.path@ == arg(args, "path"@)
    &&& d.args@ == args
    &&& d.diff@ == (if name == "code_edit"@ {
        diff
    } else {
        match args.text_at("command"@) {
            Some(c) => "$ "@ + c,
            None => Seq::empty(),
        }
    })
}

/// What the calls of a reply wait as, given their arguments and what its edits
/// would change.
pub open spec fn wait_as(
    reply: ChatCompletionResponse,
    args: Seq<JsonV>,
    diffs: Seq<Seq<char>>,
    d: Seq<PendingEditDiff>,
) -> bool {
    &&& d.len() == whole_calls(reply).len()
    &&& forall|i: int|
        0 <= i < d.len() ==> waits_as(
            whole_calls(reply)[i].function.name@,
            args[i],
            diffs[i],
            #[trigger] d[i],
        )
}

/// A reply proposes calls, if only an empty list of them.
pub open spec fn proposes(r: ChatCompletionResponse) -> bool {
    r.choices@.len() > 0 && r.choices@[0].message.tool_calls is Some
}

/// What the files that may matter are looked for with: the last message.
pub open spec fn file_query(messages: Seq<MessageV>) -> Seq<char> {
    with_system(messages, CODER_SYSTEM@).last().content
}

/// The turn ends with a reply and the calls that it proposes.
pub open spec fn coder_ends(
    t: CoderTurn,
    reply: ChatCompletionResponse,
    args: Seq<JsonV>,
    diffs: Seq<Seq<char>>,
    d: CoderDone,
) -> bool {
    let content = with_warnings(whole_text(reply), text::views(t.warnings@));
    &&& d.content@ == content
    &&& d.distill == (!proposes(reply) && content.len() > 0)
    &&& d.pending is Some <==> proposes(reply)
    &&& d.pending matches Some(p) ==> wait_as(reply, args, diffs, p@) && (
    d.last matches IPCResponse::PendingToolApproval { id, conversation_id, diffs: shown } && id@
        == t.id@ && conversation_id@ == t.conv_id@ && wait_as(reply, args, diffs, shown@))
    &&& d.pending is None ==> (d.last matches IPCResponse::Chat {
        id,
        conversation_id,
        content: c,
        tool_calls,
        context_packet,
        usage,
    } && id@ == t.id@ && conversation_id@ == t.conv_id@ && c@ == content && tool_calls is None
        && context_packet == t.packet && usage == TokenUsage::of_optional(reply.usage))
}

/// Begins the turn of a coding agent: gives also what the files that may matter
/// are looked for with.
pub fn handle_coder_mode(
    id: &str,
    conv_id: &str,
    messages: Vec<Message>,
    warnings: Vec<String>,
    packet: Option<Json>,
) -> (r: (CoderTurn, String))
    ensures
        r.0.id@ == id@,
        r.0.conv_id@ == conv_id@,
        r.0.said@ == (match last_user(message_views(messages@)) {
            Some(c) => c,
            None => Seq::empty(),
        }),
        r.0.messages == messages,
        r.0.warnings == warnings,
        r.0.packet == packet,
        r.1@ == file_query(message_views(messages@)),
{
    let said = said_last(&messages);
    let n: usize = messages.len();
    assert(message_views(messages@).len() == n);
    let query = if n == 0 {
        CODER_SYSTEM.to_owned()
    } else {
        assert(message_views(messages@)[n - 1] == messages@[n - 1]@);
        messages[n - 1].content.clone()
    };
    let turn = CoderTurn {
        id: id.to_owned(),
        conv_id: conv_id.to_owned(),
        said,
        messages,
        warnings,
        packet,
    };
    (turn, query)
}

fn pending_all(
    reply: &ChatCompletionResponse,
    calls: &Vec<ToolCallDefinition>,
    args: &Vec<Json>,
    diffs: &Vec<String>,
) -> (r: Vec<PendingEditDiff>)
    requires
        calls@ == whole_calls(*reply),
        args@.len() == calls@.len(),
        diffs@.len() == calls@.len(),
    ensures
        wait_as(*reply, json_views(args@), text::views(diffs@), r@),
{
    let ghost a = json_views(args@);
    let ghost t = text::views(diffs@);
    let mut out: Vec<PendingEditDiff> = Vec::new();
    for i in 0..calls.len()
        invariant
            calls@ == whole_calls(*reply),
            args@.len() == calls@.len(),
            diffs@.len() == calls@.len(),
            a == json_views(args@),
            t == text::views(diffs@),
            out@.len() == i,
            forall|j: int|
                0 <= j < i ==> waits_as(
                    whole_calls(*reply)[j].function.name@,
                    a[j],
                    t[j],
                    #[trigger] out@[j],
                ),
    {
        assert(a[i as int] == args@[i as int]@);
        assert(t[i as int] == diffs@[i as int]@);
        let d = pending_edit(&calls[i].function.name, args[i].copy(), &diffs[i]);
        out.push(d);
    }
    out
}

impl CoderTurn {
    /// What the model is asked with, once it is known which files may matter.
    pub fn on_files(&mut self, files: &Vec<String>) -> (r: (Vec<Message>, Vec<ToolDefinition>))
        ensures
            message_views(r.0@) == coder_prompt(
                message_views(old(self).messages@),
                text::views(files@),
            ),
            tool_views(r.1@) == coding_tools(),
            *final(self) == (CoderTurn { messages: final(self).messages, ..*old(self) }),
    {
        let mut messages: Vec<Message> = Vec::new();
        core::mem::swap(&mut messages, &mut self.messages);
        (coder_messages(messages, files), coder_tools())
    }

    /// What the user is answered who cancelled the chat.
    pub fn on_cancelled(&self) -> (r: (IPCResponse, IPCResponse))
        ensures
            r.0 matches IPCResponse::Cancelled { id, target_id } && id@ == self.id@ && target_id@
                == self.id@,
            is_done(r.1, self.id@, self.conv_id@, None),
    {
        cancelled(&self.id, &self.conv_id)
    }

    /// Ends the turn with a reply. The calls that it proposes wait with their
    /// arguments, and with what its edits would change.
    pub fn on_reply(
        self,
        reply: &ChatCompletionResponse,
        args: &Vec<Json>,
        diffs: &Vec<String>,
    ) -> (r: CoderDone)
        requires
            args@.len() == whole_calls(*reply).len(),
            diffs@.len() == whole_calls(*reply).len(),
        ensures
            coder_ends(self, *reply, json_views(args@), text::views(diffs@), r),
    {
        let mut shown: Option<Vec<PendingEditDiff>> = None;
        let mut pending: Option<Vec<PendingEditDiff>> = None;
        if reply.choices.len() > 0 {
            if let Some(calls) = &reply.choices[0].message.tool_calls {
                shown = Some(pending_all(reply, calls, args, diffs));
                pending = Some(pending_all(reply, calls, args, diffs));
            }
        }
        let end = finish_coder(
            &self.id,
            &self.conv_id,
            reply,
            shown,
            self.packet,
            &self.warnings,
        );
        CoderDone { content: end.content, distill: end.distill, pending, last: end.last }
    }
}

/// Nothing that the agent proposes is done or learned from before it is
/// approved: a reply that proposes calls is answered with those calls.
pub proof fn proposals_wait(
    t: CoderTurn,
    reply: ChatCompletionResponse,
    args: Seq<JsonV>,
    diffs: Seq<Seq<char>>,
    d: CoderDone,
)
    requires
        proposes(reply),
        coder_ends(t, reply, args, diffs, d),
    ensures
        !d.distill,
        d.last is PendingToolApproval,
        d.pending matches Some(p) && p@.len() == whole_calls(reply).len(),
{
}

} // verus!
