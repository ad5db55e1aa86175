//! What is read from a stream.

use crate::ipc::handlers::chat::stream::{
    call_of, chunk_text, events, grown, line_data, no_slot, noted_all, taken_whole, unfinished,
    whole_calls, whole_text, ReplyV, SlotV,
};
use crate::ipc::protocol::TokenUsage;
use crate::laws::parts::{concat, concat_one_more};
use crate::llm::types::{
    ChatCompletionResponse, StreamChunkResponse, StreamDelta, StreamToolCallDelta,
};
use crate::text;
use vstd::prelude::*;

verus! {

proof fn front_begins(front: Seq<char>, rest: Seq<char>)
    ensures
        text::begins(front + rest, front),
        (front + rest).skip(front.len() as int) == rest,
{
    assert((front + rest).subrange(0, front.len() as int) =~= front);
    assert((front + rest).skip(front.len() as int) =~= rest);
}

/// A line of data carries what stands behind its mark, whatever its line end; the mark
/// of the end, comments and blank lines carry nothing.
pub proof fn data_is_what_stands_behind_the_mark(d: Seq<char>)
    requires
        d.len() > 0,
        d.last() != '\r',
        d[0] != ' ',
        !text::blank(d),
        text::trim(d) != "[DONE]"@,
    ensures
        line_data("data: "@ + d) == Some(d),
        line_data(("data: "@ + d).push('\r')) == Some(d),
        line_data("data:"@ + d) == Some(d),
{
    reveal_strlit("data: ");
    reveal_strlit("data:");
    reveal_strlit(":");
    let a = "data: "@ + d;
    let b = "data:"@ + d;
    front_begins("data: "@, d);
    front_begins("data:"@, d);
    assert(a.last() == d.last() && b.last() == d.last());
    assert(a.push('\r').drop_last() =~= a);
    reveal_with_fuel(text::strip_end, 2);
    assert(a[0] == 'd' && b[0] == 'd');
    if text::begins(a, ":"@) {
        assert(a.subrange(0, 1)[0] == ':');
    }
    if text::begins(b, ":"@) {
        assert(b.subrange(0, 1)[0] == ':');
    }
    if text::begins(b, "data: "@) {
        assert(b.subrange(0, 6)[5] == ' ');
        assert(b[5] == d[0]);
    }
}

/// The mark of the end, comments and other lines carry nothing.
pub proof fn other_lines_carry_nothing(rest: Seq<char>, line: Seq<char>)
    ensures
        line_data(Seq::empty()) is None,
        line_data("data: [DONE]"@) is None,
        rest.len() == 0 || rest.last() != '\r' ==> line_data(":"@ + rest) is None,
        !text::begins(text::strip_end(line, '\r'), "data:"@) ==> line_data(line) is None,
{
    reveal_strlit("data: [DONE]");
    reveal_strlit("data: ");
    reveal_strlit("data:");
    reveal_strlit("[DONE]");
    reveal_strlit(":");
    let d = "data: [DONE]"@;
    assert(text::strip_end(d, '\r') == d);
    assert(d.subrange(0, 6) =~= "data: "@);
    assert(d.skip(6) =~= "[DONE]"@);
    let t = "[DONE]"@;
    assert(!text::is_space(t[0]) && !text::is_space(t.last()));
    assert(text::trim(t) == t);
    let c = ":"@ + rest;
    front_begins(":"@, rest);
    if rest.len() == 0 || rest.last() != '\r' {
        assert(c.last() != '\r');
        assert(text::strip_end(c, '\r') == c);
    }
    let l = text::strip_end(line, '\r');
    if text::begins(l, "data: "@) {
        assert(l.subrange(0, 5) =~= l.subrange(0, 6).subrange(0, 5));
        assert("data: "@.subrange(0, 5) =~= "data:"@);
        assert(text::begins(l, "data:"@));
    }
}

/// A buffer is read line by line: each whole line gives what it carries, and what is
/// behind the last one is left.
pub proof fn lines_are_read_one_by_one(line: Seq<char>, rest: Seq<char>)
    requires
        forall|i: int| 0 <= i < line.len() ==> #[trigger] line[i] != '\n',
    ensures
        events(line.push('\n') + rest) == (match line_data(line) {
            Some(d) => seq![d] + events(rest),
            None => events(rest),
        }),
        unfinished(line.push('\n') + rest) == unfinished(rest),
        events(line).len() == 0,
        unfinished(line) == line,
{
    let b = line.push('\n') + rest;
    text::index_of_bounds(b, '\n');
    text::index_of_bounds(line, '\n');
    let n = text::index_of(b, '\n') as int;
    let k = line.len() as int;
    assert(b[k] == '\n');
    if n < k {
        assert(b[n] == line[n]);
    }
    assert(n == k);
    assert(b.take(n) =~= line);
    assert(b.skip(n + 1) =~= rest);
}

/// The fragments of the arguments of the call at an index, as they come in.
pub open spec fn fragments(index: usize, pieces: Seq<StreamToolCallDelta>) -> Seq<Seq<char>>
    decreases pieces.len(),
{
    if pieces.len() == 0 {
        Seq::empty()
    } else {
        let before = fragments(index, pieces.drop_last());
        let d = pieces.last();
        if d.index == index && d.function is Some && d.function->0.arguments is Some {
            before.push(d.function->0.arguments->0@)
        } else {
            before
        }
    }
}

/// The arguments of a call are its fragments one behind the other, whatever pieces of
/// other calls come in between.
pub proof fn fragments_make_up_arguments(index: usize, pieces: Seq<StreamToolCallDelta>)
    ensures
        noted_all(no_slot(), index, pieces).args == (if fragments(index, pieces).len() == 0 {
            None
        } else {
            Some(concat(fragments(index, pieces)))
        }),
    decreases pieces.len(),
{
    if pieces.len() > 0 {
        let front = pieces.drop_last();
        fragments_make_up_arguments(index, front);
        let d = pieces.last();
        if d.index == index && d.function is Some && d.function->0.arguments is Some {
            let a = d.function->0.arguments->0@;
            concat_one_more(fragments(index, front), a);
            if fragments(index, front).len() == 0 {
                assert(concat(fragments(index, front)) =~= Seq::empty());
            }
        }
    }
}

/// The name and the id of a call are those that came in last, and pieces of other calls
/// do not touch it.
pub proof fn the_last_name_counts(
    s: SlotV,
    index: usize,
    pieces: Seq<StreamToolCallDelta>,
    d: StreamToolCallDelta,
)
    ensures
        d.index != index ==> noted_all(s, index, pieces.push(d)) == noted_all(s, index, pieces),
        d.index == index ==> ({
            let n = noted_all(s, index, pieces.push(d));
            let o = noted_all(s, index, pieces);
            &&& d.id matches Some(i) ==> n.id == Some(i@)
            &&& d.id is None ==> n.id == o.id
            &&& d.function matches Some(f) ==> (f.name matches Some(x) ==> n.name == Some(x@)) && (
            f.name is None ==> n.name == o.name)
            &&& d.function is None ==> n.name == o.name && n.args == o.args
        }),
        noted_all(s, index, Seq::empty()) == s,
{
    assert(pieces.push(d).drop_last() =~= pieces);
}

/// A call that came in has its name, its id or one after its index, and its arguments
/// or none; without a name it is no call.
pub proof fn calls_are_put_together(index: usize, s: SlotV)
    ensures
        s.name is None ==> call_of(index, s) is None,
        s.name matches Some(n) ==> (call_of(index, s) matches Some(c) && c.name == n
            && c.call_type == "function"@ && (s.id matches Some(i) ==> c.id == i) && (s.id is None
            ==> c.id == "call_"@ + text::decimal(index as nat)) && (s.args matches Some(a)
            ==> c.arguments == a) && (s.args is None ==> c.arguments == "{}"@)),
{
}

/// A chunk adds its text and its thought at the end of what came in, and its usage
/// replaces the one before.
pub proof fn chunks_add_up(r: ReplyV, c: StreamChunkResponse, d: StreamDelta)
    ensures
        c.choices@.len() > 0 && c.choices@[0].delta == Some(d) ==> ({
            let g = grown(r, c);
            &&& d.content matches Some(t) ==> g.content == r.content + t@
            &&& d.content is None ==> g.content == r.content
            &&& d.reasoning matches Some(t) ==> g.reasoning == r.reasoning + t@
            &&& d.reasoning is None && d.reasoning_content is Some ==> g.reasoning == r.reasoning
                + d.reasoning_content->0@
            &&& d.reasoning is None && d.reasoning_content is None ==> g.reasoning == r.reasoning
            &&& d.tool_calls matches Some(l) ==> forall|i: usize| #[trigger]
                g.calls[i] == noted_all(r.calls[i], i, l@)
        }),
        c.usage matches Some(u) ==> grown(r, c).usage == Some(TokenUsage::of(u)),
        c.usage is None ==> grown(r, c).usage == r.usage,
        grown(r, c).streamed == (r.streamed || chunk_text(c).len() > 0),
{
    if c.choices@.len() > 0 && c.choices@[0].delta == Some(d) {
        let g = grown(r, c);
        if d.content is None {
            assert(r.content + Seq::<char>::empty() =~= r.content);
        }
        if d.reasoning is None && d.reasoning_content is None {
            assert(r.reasoning + Seq::<char>::empty() =~= r.reasoning);
        }
    }
}

/// A reply that was not streamed replaces the text, and its calls take the places of
/// those before them.
pub proof fn a_whole_reply_is_taken_whole(r: ReplyV, w: ChatCompletionResponse, i: usize)
    ensures
        taken_whole(r, w).content == whole_text(w),
        w.usage matches Some(u) ==> taken_whole(r, w).usage == Some(TokenUsage::of(u)),
        w.usage is None ==> taken_whole(r, w).usage == r.usage,
        i < whole_calls(w).len() ==> taken_whole(r, w).calls[i] == (SlotV {
            id: Some(whole_calls(w)[i as int].id@),
            name: Some(whole_calls(w)[i as int].function.name@),
            args: Some(whole_calls(w)[i as int].function.arguments@),
        }),
        i >= whole_calls(w).len() ==> taken_whole(r, w).calls[i] == r.calls[i],
        w.choices@.len() > 0 ==> (w.choices@[0].message.tool_calls matches Some(l) ==> whole_calls(
            w,
        ) == l@),
        w.choices@.len() == 0 ==> whole_text(w).len() == 0 && whole_calls(w).len() == 0,
{
}

} // verus!
