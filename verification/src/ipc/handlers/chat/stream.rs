//! A streamed reply: its lines, its chunks and the tool calls that come in
//! pieces.

use crate::ipc::protocol::{token_usage, IPCResponse, TokenUsage};
use crate::llm::types::{
    call_views, text_view, ChatCompletionResponse, FunctionCall, StreamChunkResponse, StreamDelta,
    StreamToolCallDelta, ToolCallDefinition, ToolCallV,
};
use crate::llm::types;
use crate::outside;
use crate::text;
use vstd::prelude::*;

verus! {

// ---------------------------------------------------------------------------
// Lines
// ---------------------------------------------------------------------------

/// What a line of the stream carries: nothing where it is empty, a comment,
/// of another kind, blank or the mark of the end.
pub open spec fn line_data(raw: Seq<char>) -> Option<Seq<char>> {
    let line = text::strip_end(raw, '\r');
    let data = if text::begins(line, "data: "@) {
        Some(line.skip("data: "@.len() as int))
    } else if text::begins(line, "data:"@) {
        Some(line.skip("data:"@.len() as int))
    } else {
        None
    };
    if line.len() == 0 || text::begins(line, ":"@) {
        None
    } else {
        match data {
            Some(d) => if text::trim(d) == "[DONE]"@ || text::blank(d) {
                None
            } else {
                Some(d)
            },
            None => None,
        }
    }
}

/// What a line of the stream carries.
pub fn data_of_line(raw: &str) -> (r: Option<String>)
    ensures
        text_view(r) == line_data(raw@),
{
    let line = text::stripped_end(raw, '\r');
    if line.as_str().is_empty() || text::starts_with(&line, ":") {
        return None;
    }
    let data = match text::strip_prefix(&line, "data: ") {
        Some(d) => d,
        None => match text::strip_prefix(&line, "data:") {
            Some(d) => d,
            None => {
                return None;
            },
        },
    };
    let trimmed = text::trimmed(&data);
    if text::same(&trimmed, "[DONE]") || trimmed.as_str().is_empty() {
        None
    } else {
        Some(data)
    }
}

/// What the whole lines at the start of a buffer carry.
pub open spec fn events(buffer: Seq<char>) -> Seq<Seq<char>>
    decreases buffer.len(),
{
    let n = text::index_of(buffer, '\n') as int;
    if n >= buffer.len() {
        Seq::empty()
    } else {
        let rest = events(buffer.skip(n + 1));
        match line_data(buffer.take(n)) {
            Some(d) => seq![d] + rest,
            None => rest,
        }
    }
}

/// What is left of a buffer behind its last whole line.
pub open spec fn unfinished(buffer: Seq<char>) -> Seq<char>
    decreases buffer.len(),
{
    let n = text::index_of(buffer, '\n') as int;
    if n >= buffer.len() {
        buffer
    } else {
        unfinished(buffer.skip(n + 1))
    }
}

proof fn index_of_sum(a: Seq<char>, b: Seq<char>, c: char)
    ensures
        text::index_of(a, c) < a.len() ==> text::index_of(a + b, c) == text::index_of(a, c),
    decreases a.len(),
{
    if a.len() > 0 && a[0] != c {
        index_of_sum(a.skip(1), b, c);
        assert((a + b).skip(1) =~= a.skip(1) + b);
    }
}

/// What a stream carries does not depend on how it is cut into pieces.
pub proof fn cutting_does_not_matter(a: Seq<char>, b: Seq<char>)
    ensures
        events(a + b) == events(a) + events(unfinished(a) + b),
        unfinished(a + b) == unfinished(unfinished(a) + b),
    decreases a.len(),
{
    let n = text::index_of(a, '\n') as int;
    text::index_of_bounds(a, '\n');
    if n >= a.len() {
        assert(events(a) + events(unfinished(a) + b) =~= events(a + b));
    } else {
        index_of_sum(a, b, '\n');
        let s = a + b;
        assert(s.take(n) =~= a.take(n));
        assert(s.skip(n + 1) =~= a.skip(n + 1) + b);
        cutting_does_not_matter(a.skip(n + 1), b);
        assert(events(s) =~= events(a) + events(unfinished(a) + b));
    }
}

/// The part of a stream that has come in and is not yet a whole line.
#[derive(Debug)]
pub struct SseBuffer {
    pub buffer: String,
}

impl SseBuffer {
    /// Nothing has come in.
    pub fn new() -> (r: Self)
        ensures
            r.buffer@ == Seq::<char>::empty(),
    {
        SseBuffer { buffer: String::new() }
    }

    /// Takes in more of the stream and gives what its whole lines carry.
    pub fn feed(&mut self, more: &str) -> (r: Vec<String>)
        ensures
            text::views(r@) == events(old(self).buffer@ + more@),
            final(self).buffer@ == unfinished(old(self).buffer@ + more@),
    {
        broadcast use text::views_push;

        let mut whole = self.buffer.clone();
        whole.append(more);
        let v = text::to_chars(&whole);
        let mut out: Vec<String> = Vec::new();
        let mut i: usize = 0;
        assert(v@.skip(0) =~= v@);
        assert(text::views(out@) + events(v@) =~= events(v@));
        loop
            invariant
                i <= v@.len(),
                v@ == old(self).buffer@ + more@,
                events(v@) == text::views(out@) + events(v@.skip(i as int)),
                unfinished(v@) == unfinished(v@.skip(i as int)),
            decreases v@.len() - i,
        {
            let n = text::find_char(&v, i, '\n');
            let ghost rest = v@.skip(i as int);
            if n == v.len() {
                assert(text::views(out@) + Seq::<Seq<char>>::empty() =~= text::views(out@));
                self.buffer = text::from_range(&v, i, n);
                assert(self.buffer@ =~= rest);
                return out;
            }
            let line = text::from_range(&v, i, n);
            let ghost before = text::views(out@);
            proof {
                assert(line@ =~= rest.take(n - i));
                assert(rest.skip(n - i + 1) =~= v@.skip(n + 1));
            }
            if let Some(d) = data_of_line(&line) {
                out.push(d);
                assert(before + (seq![d@] + events(v@.skip(n + 1))) =~= before.push(d@) + events(
                    v@.skip(n + 1),
                ));
            }
            i = n + 1;
        }
    }

    /// Takes in more bytes of the stream and gives what its whole lines carry.
    pub fn feed_bytes(&mut self, bytes: &[u8]) -> (r: Vec<String>)
        ensures
            text::views(r@) == events(old(self).buffer@ + outside::lossy_text(bytes@)),
            final(self).buffer@ == unfinished(old(self).buffer@ + outside::lossy_text(bytes@)),
    {
        let more = outside::utf8_lossy(bytes);
        self.feed(&more)
    }
}

// ---------------------------------------------------------------------------
// Tool calls
// ---------------------------------------------------------------------------

/// What has come in of the tool call at an index.
#[derive(Debug)]
pub struct CallSlot {
    pub index: usize,
    pub id: Option<String>,
    pub name: Option<String>,
    pub args: Option<String>,
}

/// The model of a slot.
pub struct SlotV {
    pub id: Option<Seq<char>>,
    pub name: Option<Seq<char>>,
    pub args: Option<Seq<char>>,
}

impl CallSlot {
    /// The model of a slot.
    pub open spec fn v(self) -> SlotV {
        SlotV { id: text_view(self.id), name: text_view(self.name), args: text_view(self.args) }
    }
}

/// A slot of which nothing has come in.
pub open spec fn no_slot() -> SlotV {
    SlotV { id: None, name: None, args: None }
}

/// The tool calls of a reply, as far as they have come in.
#[derive(Debug)]
pub struct CallTable {
    slots: Vec<CallSlot>,
}

spec fn rising(slots: Seq<CallSlot>) -> bool {
    forall|i: int, j: int|
        0 <= i < j < slots.len() ==> #[trigger] slots[i].index < #[trigger] slots[j].index
}

spec fn slot_at(slots: Seq<CallSlot>, index: usize) -> SlotV {
    if exists|i: int| 0 <= i < slots.len() && #[trigger] slots[i].index == index {
        slots[choose|i: int| 0 <= i < slots.len() && #[trigger] slots[i].index == index].v()
    } else {
        no_slot()
    }
}

proof fn slot_is(slots: Seq<CallSlot>, i: int)
    requires
        rising(slots),
        0 <= i < slots.len(),
    ensures
        slot_at(slots, slots[i].index) == slots[i].v(),
{
    let index = slots[i].index;
    let k = choose|k: int| 0 <= k < slots.len() && #[trigger] slots[k].index == index;
    if k < i {
        assert(slots[k].index < slots[i].index);
    } else if i < k {
        assert(slots[i].index < slots[k].index);
    }
}

/// A slot after a piece has come in: an id and a name replace what was there,
/// a fragment of the arguments is added.
pub open spec fn noted(s: SlotV, d: StreamToolCallDelta) -> SlotV {
    SlotV {
        id: match d.id {
            Some(i) => Some(i@),
            None => s.id,
        },
        name: match d.function {
            Some(f) => match f.name {
                Some(n) => Some(n@),
                None => s.name,
            },
            None => s.name,
        },
        args: match d.function {
            Some(f) => match f.arguments {
                Some(a) => Some(
                    (match s.args {
                        Some(b) => b,
                        None => Seq::empty(),
                    }) + a@,
                ),
                None => s.args,
            },
            None => s.args,
        },
    }
}

/// The call that a slot stands for, if its name has come in.
pub open spec fn call_of(index: usize, s: SlotV) -> Option<ToolCallV> {
    match s.name {
        None => None,
        Some(name) => Some(
            ToolCallV {
                id: match s.id {
                    Some(i) => i,
                    None => "call_"@ + text::decimal(index as nat),
                },
                call_type: "function"@,
                name,
                arguments: match s.args {
                    Some(a) => a,
                    None => "{}"@,
                },
            },
        ),
    }
}

/// What has come in of the tool calls of a reply: a slot for every index.
pub type Slots = Map<usize, SlotV>;

/// Nothing has come in of any call.
pub open spec fn no_calls() -> Slots {
    Map::new(|i: usize| true, |i: usize| no_slot())
}

/// The names of no call have come in.
pub open spec fn no_names(slots: Slots) -> bool {
    forall|i: usize| (#[trigger] slots[i]).name is None
}

/// `calls` are the calls whose names have come in, by rising index; the one at
/// place `k` is that of the index `at[k]`.
pub open spec fn assembles(slots: Slots, calls: Seq<ToolCallV>, at: Seq<usize>) -> bool {
    &&& at.len() == calls.len()
    &&& forall|i: int, j: int| 0 <= i < j < at.len() ==> #[trigger] at[i] < #[trigger] at[j]
    &&& forall|k: int|
        0 <= k < at.len() ==> call_of(#[trigger] at[k], slots[at[k]]) == Some(calls[k])
    &&& forall|i: usize|
        (#[trigger] slots[i]).name is Some ==> exists|k: int|
            0 <= k < at.len() && #[trigger] at[k] == i
}

impl View for CallTable {
    type V = Slots;

    open spec fn view(&self) -> Slots {
        Map::new(|i: usize| true, |i: usize| self.slot(i))
    }
}

impl CallTable {
    #[verifier::type_invariant]
    spec fn sorted(self) -> bool {
        rising(self.slots@)
    }

    /// What has come in of the call at an index.
    pub closed spec fn slot(self, index: usize) -> SlotV {
        slot_at(self.slots@, index)
    }

    /// No call.
    pub fn new() -> (r: Self)
        ensures
            r@ == no_calls(),
    {
        let r = CallTable { slots: Vec::new() };
        assert(r@ =~= no_calls());
        r
    }

    /// Replaces the slot at an index.
    fn put(&mut self, slot: CallSlot)
        ensures
            final(self).slot(slot.index) == slot.v(),
            forall|i: usize| i != slot.index ==> #[trigger] final(self).slot(i) == old(self).slot(i),
    {
        proof {
            use_type_invariant(&*self);
        }
        let ghost before = self.slots@;
        let mut slots: Vec<CallSlot> = Vec::new();
        std::mem::swap(&mut slots, &mut self.slots);
        let mut at: usize = 0;
        while at < slots.len() && slots[at].index < slot.index
            invariant
                slots@ == before,
                at <= slots@.len(),
                forall|k: int| 0 <= k < at ==> (#[trigger] before[k]).index < slot.index,
            decreases slots@.len() - at,
        {
            at = at + 1;
        }
        let ghost index = slot.index;
        let ghost v = slot.v();
        if at < slots.len() && slots[at].index == slot.index {
            let _ = slots.remove(at);
            slots.insert(at, slot);
            assert(slots@ =~= before.update(at as int, slot));
        } else {
            slots.insert(at, slot);
            assert(slots@ =~= before.insert(at as int, slot));
        }
        proof {
            let after = slots@;
            let same = at < before.len() && before[at as int].index == index;
            assert(after[at as int].v() == v && after[at as int].index == index);
            assert forall|i: int, j: int| 0 <= i < j < after.len() implies #[trigger] after[i].index
                < #[trigger] after[j].index by {
                let a = if same || i < at {
                    i
                } else {
                    i - 1
                };
                let b = if same || j < at {
                    j
                } else {
                    j - 1
                };
                if i != at && j != at {
                    assert(before[a].index < before[b].index);
                } else if j == at {
                    assert(before[i].index < index);
                } else {
                    if same {
                        assert(before[at as int].index < before[j].index);
                    } else {
                        if b > at {
                            assert(before[at as int].index < before[b].index);
                        }
                    }
                }
            }
            slot_is(after, at as int);
            assert forall|i: usize| i != index implies #[trigger] slot_at(after, i) == slot_at(
                before,
                i,
            ) by {
                if exists|k: int| 0 <= k < before.len() && #[trigger] before[k].index == i {
                    let k = choose|k: int| 0 <= k < before.len() && #[trigger] before[k].index == i;
                    let m = if same || k < at {
                        k
                    } else {
                        k + 1
                    };
                    assert(after[m] == before[k]);
                    slot_is(after, m);
                    slot_is(before, k);
                } else if exists|k: int| 0 <= k < after.len() && #[trigger] after[k].index == i {
                    let k = choose|k: int| 0 <= k < after.len() && #[trigger] after[k].index == i;
                    let m = if same || k < at {
                        k
                    } else {
                        k - 1
                    };
                    assert(before[m] == after[k]);
                }
            }
        }
        self.slots = slots;
    }

    /// A copy of the slot at an index.
    fn copy_slot(&self, index: usize) -> (r: CallSlot)
        ensures
            r.index == index,
            r.v() == self.slot(index),
    {
        proof {
            use_type_invariant(self);
        }
        for i in 0..self.slots.len()
            invariant
                rising(self.slots@),
                forall|k: int| 0 <= k < i ==> (#[trigger] self.slots@[k]).index != index,
        {
            if self.slots[i].index == index {
                proof {
                    slot_is(self.slots@, i as int);
                }
                let s = &self.slots[i];
                return CallSlot {
                    index,
                    id: s.id.clone(),
                    name: s.name.clone(),
                    args: s.args.clone(),
                };
            }
        }
        CallSlot { index, id: None, name: None, args: None }
    }

    /// Takes in a piece of a call.
    pub fn note(&mut self, d: &StreamToolCallDelta)
        ensures
            final(self).slot(d.index) == noted(old(self).slot(d.index), *d),
            forall|i: usize| i != d.index ==> #[trigger] final(self).slot(i) == old(self).slot(i),
    {
        let mut slot = self.copy_slot(d.index);
        if let Some(id) = &d.id {
            slot.id = Some(id.clone());
        }
        if let Some(f) = &d.function {
            if let Some(n) = &f.name {
                slot.name = Some(n.clone());
            }
            if let Some(a) = &f.arguments {
                let mut args = match slot.args {
                    Some(b) => b,
                    None => String::new(),
                };
                args.append(a);
                slot.args = Some(args);
            }
        }
        self.put(slot);
    }

    /// Takes in the calls of a reply that was not streamed, in their order.
    pub fn note_whole(&mut self, calls: &Vec<ToolCallDefinition>)
        ensures
            forall|i: usize| #[trigger]
                final(self).slot(i) == (if i < calls@.len() {
                    SlotV {
                        id: Some(calls@[i as int].id@),
                        name: Some(calls@[i as int].function.name@),
                        args: Some(calls@[i as int].function.arguments@),
                    }
                } else {
                    old(self).slot(i)
                }),
    {
        for k in 0..calls.len()
            invariant
                forall|i: usize| #[trigger]
                    self.slot(i) == (if i < k {
                        SlotV {
                            id: Some(calls@[i as int].id@),
                            name: Some(calls@[i as int].function.name@),
                            args: Some(calls@[i as int].function.arguments@),
                        }
                    } else {
                        old(self).slot(i)
                    }),
        {
            self.put(
                CallSlot {
                    index: k,
                    id: Some(calls[k].id.clone()),
                    name: Some(calls[k].function.name.clone()),
                    args: Some(calls[k].function.arguments.clone()),
                },
            );
        }
    }

    /// Whether the name of no call has come in.
    pub fn is_empty(&self) -> (r: bool)
        ensures
            r == no_names(self@),
    {
        proof {
            use_type_invariant(self);
        }
        for i in 0..self.slots.len()
            invariant
                rising(self.slots@),
                forall|k: int| 0 <= k < i ==> (#[trigger] self.slots@[k]).name is None,
        {
            if self.slots[i].name.is_some() {
                proof {
                    slot_is(self.slots@, i as int);
                    assert(self@[self.slots@[i as int].index].name is Some);
                }
                return false;
            }
        }
        assert forall|i: usize| (#[trigger] self@[i]).name is None by {
            if exists|k: int| 0 <= k < self.slots@.len() && #[trigger] self.slots@[k].index == i {
                let k = choose|k: int|
                    0 <= k < self.slots@.len() && #[trigger] self.slots@[k].index == i;
                slot_is(self.slots@, k);
            }
        }
        true
    }

    /// The calls whose names have come in, by rising index. A call without an
    /// id gets one from its index, one without arguments gets none.
    pub fn assemble(&self) -> (r: Vec<ToolCallDefinition>)
        ensures
            exists|at: Seq<usize>| #[trigger] assembles(self@, call_views(r@), at),
    {
        proof {
            use_type_invariant(self);
        }
        let mut out: Vec<ToolCallDefinition> = Vec::new();
        let ghost mut at: Seq<usize> = Seq::empty();
        for i in 0..self.slots.len()
            invariant
                rising(self.slots@),
                at.len() == out@.len(),
                forall|a: int, b: int|
                    0 <= a < b < at.len() ==> #[trigger] at[a] < #[trigger] at[b],
                forall|k: int|
                    0 <= k < at.len() ==> call_of(#[trigger] at[k], self.slot(at[k])) == Some(
                        out@[k]@,
                    ),
                forall|k: int, j: int|
                    0 <= k < at.len() && i <= j < self.slots@.len() ==> #[trigger] at[k]
                        < #[trigger] self.slots@[j].index,
                forall|j: int|
                    0 <= j < i && (#[trigger] self.slots@[j]).name is Some ==> exists|k: int|
                        0 <= k < at.len() && #[trigger] at[k] == self.slots@[j].index,
        {
            let s = &self.slots[i];
            proof {
                slot_is(self.slots@, i as int);
            }
            if let Some(name) = &s.name {
                let id = match &s.id {
                    Some(d) => d.clone(),
                    None => {
                        let mut d = "call_".to_owned();
                        d.append(&text::number(s.index as u64));
                        d
                    },
                };
                let arguments = match &s.args {
                    Some(a) => a.clone(),
                    None => "{}".to_owned(),
                };
                let ghost old_at = at;
                let call = ToolCallDefinition {
                    id,
                    call_type: "function".to_owned(),
                    function: FunctionCall { name: name.clone(), arguments },
                };
                out.push(call);
                proof {
                    at = old_at.push(s.index);
                    assert forall|a: int, b: int| 0 <= a < b < at.len() implies #[trigger] at[a]
                        < #[trigger] at[b] by {
                        if b == old_at.len() {
                            assert(at[a] == old_at[a]);
                            assert(old_at[a] < self.slots@[i as int].index);
                        } else {
                            assert(old_at[a] < old_at[b]);
                        }
                    }
                    assert forall|k: int, j: int|
                        0 <= k < at.len() && i + 1 <= j < self.slots@.len() implies #[trigger] at[k]
                        < #[trigger] self.slots@[j].index by {
                        assert(self.slots@[i as int].index < self.slots@[j].index);
                        if k < old_at.len() {
                            assert(old_at[k] < self.slots@[j].index);
                        }
                    }
                    assert forall|j: int|
                        0 <= j < i + 1 && (#[trigger] self.slots@[j]).name is Some implies exists|
                        k: int,
                    | 0 <= k < at.len() && #[trigger] at[k] == self.slots@[j].index by {
                        if j == i {
                            assert(at[old_at.len() as int] == self.slots@[j].index);
                        } else {
                            let k = choose|k: int|
                                0 <= k < old_at.len() && #[trigger] old_at[k]
                                    == self.slots@[j].index;
                            assert(at[k] == self.slots@[j].index);
                        }
                    }
                }
            }
        }
        proof {
            assert forall|i: usize| (#[trigger] self@[i]).name is Some implies exists|k: int|
                0 <= k < at.len() && #[trigger] at[k] == i by {
                let j = choose|j: int|
                    0 <= j < self.slots@.len() && #[trigger] self.slots@[j].index == i;
                slot_is(self.slots@, j);
            }
            assert(assembles(self@, call_views(out@), at));
        }
        out
    }
}

/// The calls of a reply are fixed by what has come in.
pub proof fn assembly_is_unique(
    t: Slots,
    calls1: Seq<ToolCallV>,
    at1: Seq<usize>,
    calls2: Seq<ToolCallV>,
    at2: Seq<usize>,
)
    requires
        assembles(t, calls1, at1),
        assembles(t, calls2, at2),
    ensures
        calls1 == calls2,
{
    same_indexes(t, calls1, at1, calls2, at2, at1.len() as int);
    same_indexes(t, calls2, at2, calls1, at1, at2.len() as int);
    assert(at1.len() <= at2.len() && at2.len() <= at1.len());
    assert forall|k: int| 0 <= k < calls1.len() implies calls1[k] == calls2[k] by {
        assert(at1[k] == at2[k]);
    }
    assert(calls1 =~= calls2);
}

proof fn same_indexes(
    t: Slots,
    calls1: Seq<ToolCallV>,
    at1: Seq<usize>,
    calls2: Seq<ToolCallV>,
    at2: Seq<usize>,
    n: int,
)
    requires
        assembles(t, calls1, at1),
        assembles(t, calls2, at2),
        0 <= n <= at1.len(),
    ensures
        n <= at2.len(),
        forall|k: int| 0 <= k < n ==> at1[k] == at2[k],
    decreases n,
{
    if n > 0 {
        same_indexes(t, calls1, at1, calls2, at2, n - 1);
        let x = at1[n - 1];
        assert(call_of(x, t[x]) is Some);
        let j = choose|j: int| 0 <= j < at2.len() && #[trigger] at2[j] == x;
        if j < n - 1 {
            assert(at1[j] == at2[j]);
            assert(at1[j] < at1[n - 1]);
        }
        if j > n - 1 {
            let y = at2[n - 1];
            assert(y < at2[j]);
            assert(call_of(y, t[y]) is Some);
            let i = choose|i: int| 0 <= i < at1.len() && #[trigger] at1[i] == y;
            if i < n - 1 {
                assert(at1[i] == at2[i]);
                assert(at2[i] < at2[n - 1]);
            } else if i > n - 1 {
                assert(at1[n - 1] < at1[i]);
            }
        }
    }
}

// ---------------------------------------------------------------------------
// Chunks
// ---------------------------------------------------------------------------

/// What the user interface is sent while a reply comes in.
#[derive(Debug)]
pub enum StreamOut {
    Thinking(String),
    Token(String),
}

/// The model of what is sent.
pub enum OutV {
    Thinking(Seq<char>),
    Token(Seq<char>),
}

impl View for StreamOut {
    type V = OutV;

    open spec fn view(&self) -> OutV {
        match self {
            StreamOut::Thinking(t) => OutV::Thinking(t@),
            StreamOut::Token(t) => OutV::Token(t@),
        }
    }
}

/// The models of a list of what is sent.
pub open spec fn out_views(outs: Seq<StreamOut>) -> Seq<OutV> {
    outs.map_values(|o: StreamOut| o@)
}

impl StreamOut {
    /// The message to the user interface.
    pub fn response(self, id: &str) -> (r: IPCResponse)
        ensures
            match self {
                StreamOut::Thinking(t) => r matches IPCResponse::ChatThinking { id: i, thinking }
                    && i@ == id@ && thinking@ == t@,
                StreamOut::Token(t) => r matches IPCResponse::ChatChunk { id: i, token } && i@
                    == id@ && token@ == t@,
            },
    {
        match self {
            StreamOut::Thinking(thinking) => IPCResponse::ChatThinking {
                id: id.to_owned(),
                thinking,
            },
            StreamOut::Token(token) => IPCResponse::ChatChunk { id: id.to_owned(), token },
        }
    }
}

/// What has come in of a reply.
#[derive(Debug)]
pub struct Reply {
    pub content: String,
    pub reasoning: String,
    /// The thinking was sent.
    pub thinking_sent: bool,
    /// Some of the content was sent while it came in.
    pub streamed: bool,
    pub usage: Option<TokenUsage>,
    pub calls: CallTable,
}

/// The model of a reply.
#[verifier::ext_equal]
pub struct ReplyV {
    pub content: Seq<char>,
    pub reasoning: Seq<char>,
    pub thinking_sent: bool,
    pub streamed: bool,
    pub usage: Option<TokenUsage>,
    pub calls: Slots,
}

impl View for Reply {
    type V = ReplyV;

    open spec fn view(&self) -> ReplyV {
        ReplyV {
            content: self.content@,
            reasoning: self.reasoning@,
            thinking_sent: self.thinking_sent,
            streamed: self.streamed,
            usage: self.usage,
            calls: self.calls@,
        }
    }
}

/// A reply of which nothing has come in.
pub open spec fn no_reply() -> ReplyV {
    ReplyV {
        content: Seq::empty(),
        reasoning: Seq::empty(),
        thinking_sent: false,
        streamed: false,
        usage: None,
        calls: no_calls(),
    }
}

/// What the first answer of a chunk adds.
pub open spec fn first_delta(c: StreamChunkResponse) -> Option<StreamDelta> {
    if c.choices@.len() > 0 {
        c.choices@[0].delta
    } else {
        None
    }
}

/// The thought in a chunk.
pub open spec fn chunk_thought(c: StreamChunkResponse) -> Seq<char> {
    match first_delta(c) {
        Some(d) => match d.thinking() {
            Some(t) => t,
            None => Seq::empty(),
        },
        None => Seq::empty(),
    }
}

/// The text in a chunk.
pub open spec fn chunk_text(c: StreamChunkResponse) -> Seq<char> {
    match first_delta(c) {
        Some(d) => match d.content {
            Some(t) => t@,
            None => Seq::empty(),
        },
        None => Seq::empty(),
    }
}

/// A reply after a chunk has come in.
pub open spec fn grown(r: ReplyV, c: StreamChunkResponse) -> ReplyV {
    let reasoning = r.reasoning + chunk_thought(c);
    let some = chunk_text(c).len() > 0;
    ReplyV {
        content: r.content + chunk_text(c),
        reasoning,
        thinking_sent: r.thinking_sent || (some && reasoning.len() > 0),
        streamed: r.streamed || some,
        usage: match c.usage {
            Some(u) => Some(TokenUsage::of(u)),
            None => r.usage,
        },
        calls: noted_in(r.calls, chunk_calls(c)),
    }
}

/// What is sent when a chunk has come in: the text at once, and before it all
/// thinking so far, if none was sent yet.
pub open spec fn sent(r: ReplyV, c: StreamChunkResponse) -> Seq<OutV> {
    let reasoning = r.reasoning + chunk_thought(c);
    if chunk_text(c).len() == 0 {
        Seq::empty()
    } else if !r.thinking_sent && reasoning.len() > 0 {
        seq![OutV::Thinking(reasoning), OutV::Token(chunk_text(c))]
    } else {
        seq![OutV::Token(chunk_text(c))]
    }
}

/// The pieces of tool calls in a chunk.
pub open spec fn chunk_calls(c: StreamChunkResponse) -> Seq<StreamToolCallDelta> {
    match first_delta(c) {
        Some(d) => match d.tool_calls {
            Some(l) => l@,
            None => Seq::empty(),
        },
        None => Seq::empty(),
    }
}

/// A slot after the pieces of a list that belong to it have come in.
pub open spec fn noted_all(s: SlotV, index: usize, pieces: Seq<StreamToolCallDelta>) -> SlotV
    decreases pieces.len(),
{
    if pieces.len() == 0 {
        s
    } else {
        let before = noted_all(s, index, pieces.drop_last());
        if pieces.last().index == index {
            noted(before, pieces.last())
        } else {
            before
        }
    }
}

/// The slots after a list of pieces has come in.
pub open spec fn noted_in(slots: Slots, pieces: Seq<StreamToolCallDelta>) -> Slots {
    Map::new(|i: usize| true, |i: usize| noted_all(slots[i], i, pieces))
}

/// The slots after the calls of a reply that was not streamed: each takes the
/// place of what was there at its index.
pub open spec fn noted_whole(slots: Slots, calls: Seq<ToolCallDefinition>) -> Slots {
    Map::new(
        |i: usize| true,
        |i: usize|
            if i < calls.len() {
                SlotV {
                    id: Some(calls[i as int].id@),
                    name: Some(calls[i as int].function.name@),
                    args: Some(calls[i as int].function.arguments@),
                }
            } else {
                slots[i]
            },
    )
}

/// What has come in after a reply that was not streamed: its text replaces what
/// was there, and so do its calls where it has any.
pub open spec fn taken_whole(r: ReplyV, whole: ChatCompletionResponse) -> ReplyV {
    ReplyV {
        content: whole_text(whole),
        usage: match whole.usage {
            Some(u) => Some(TokenUsage::of(u)),
            None => r.usage,
        },
        calls: noted_whole(r.calls, whole_calls(whole)),
        ..r
    }
}

impl Reply {
    /// Nothing has come in.
    pub fn new() -> (r: Self)
        ensures
            r@ == no_reply(),
    {
        Reply {
            content: String::new(),
            reasoning: String::new(),
            thinking_sent: false,
            streamed: false,
            usage: None,
            calls: CallTable::new(),
        }
    }

    /// Takes in a chunk and gives what is to be sent.
    pub fn apply_chunk(&mut self, chunk: &StreamChunkResponse) -> (r: Vec<StreamOut>)
        ensures
            final(self)@ == grown(old(self)@, *chunk),
            out_views(r@) == sent(old(self)@, *chunk),
    {
        let mut out: Vec<StreamOut> = Vec::new();
        if chunk.usage.is_some() {
            self.usage = token_usage(chunk.usage);
        }
        if chunk.choices.len() > 0 {
            if let Some(d) = &chunk.choices[0].delta {
                if let Some(t) = d.thinking_delta() {
                    self.reasoning.append(t);
                }
                if let Some(token) = &d.content {
                    if !token.as_str().is_empty() {
                        if !self.thinking_sent && !self.reasoning.as_str().is_empty() {
                            out.push(StreamOut::Thinking(self.reasoning.clone()));
                            self.thinking_sent = true;
                        }
                        self.content.append(token);
                        out.push(StreamOut::Token(token.clone()));
                        self.streamed = true;
                    }
                }
                if let Some(pieces) = &d.tool_calls {
                    self.note_calls(pieces);
                }
            }
        }
        assert(self.content@ =~= old(self)@.content + chunk_text(*chunk));
        assert(self.reasoning@ =~= old(self)@.reasoning + chunk_thought(*chunk));
        assert(self.calls@ =~= noted_in(old(self).calls@, chunk_calls(*chunk)));
        assert(out_views(out@) =~= sent(old(self)@, *chunk));
        out
    }

    fn note_calls(&mut self, pieces: &Vec<StreamToolCallDelta>)
        ensures
            final(self)@ == (ReplyV { calls: noted_in(old(self)@.calls, pieces@), ..old(self)@ }),
    {
        assert(pieces@.take(0) =~= Seq::empty());
        for k in 0..pieces.len()
            invariant
                *self == (Reply { calls: self.calls, ..*old(self) }),
                forall|i: usize| #[trigger]
                    self.calls.slot(i) == noted_all(
                        old(self).calls.slot(i),
                        i,
                        pieces@.take(k as int),
                    ),
        {
            self.calls.note(&pieces[k]);
            assert(pieces@.take(k + 1).drop_last() =~= pieces@.take(k as int));
            assert(pieces@.take(k + 1).last() == pieces@[k as int]);
        }
        assert(pieces@.take(pieces@.len() as int) =~= pieces@);
        assert(self.calls@ =~= noted_in(old(self).calls@, pieces@));
    }

    /// What is still to be sent when the stream has ended: the thinking, if
    /// there was any and none was sent.
    pub fn finish(&mut self) -> (r: Option<StreamOut>)
        ensures
            r matches Some(o) ==> o@ == OutV::Thinking(old(self)@.reasoning),
            r is Some <==> !old(self)@.thinking_sent && old(self)@.reasoning.len() > 0,
            *final(self) == (Reply { thinking_sent: true, ..*old(self) }) || (r is None
                && *final(self) == *old(self)),
    {
        if !self.thinking_sent && !self.reasoning.as_str().is_empty() {
            self.thinking_sent = true;
            Some(StreamOut::Thinking(self.reasoning.clone()))
        } else {
            None
        }
    }

    /// Takes in a reply that was not streamed. Its text replaces what has come
    /// in, and so do its calls where it has any.
    pub fn take_whole(&mut self, whole: &ChatCompletionResponse)
        ensures
            final(self)@ == taken_whole(old(self)@, *whole),
    {
        self.content = reply_text(whole);
        if whole.usage.is_some() {
            self.usage = token_usage(whole.usage);
        }
        if whole.choices.len() > 0 {
            if let Some(calls) = &whole.choices[0].message.tool_calls {
                self.calls.note_whole(calls);
            }
        }
        assert(self.calls@ =~= noted_whole(old(self).calls@, whole_calls(*whole)));
    }
}

/// The text of a whole reply, or nothing.
pub open spec fn whole_text(r: ChatCompletionResponse) -> Seq<char> {
    if r.choices@.len() > 0 {
        match types::content_text(types::json_view(r.choices@[0].message.content)) {
            Some(t) => t,
            None => Seq::empty(),
        }
    } else {
        Seq::empty()
    }
}

/// The tool calls of a whole reply.
pub open spec fn whole_calls(r: ChatCompletionResponse) -> Seq<ToolCallDefinition> {
    if r.choices@.len() > 0 {
        match r.choices@[0].message.tool_calls {
            Some(l) => l@,
            None => Seq::empty(),
        }
    } else {
        Seq::empty()
    }
}

/// The text of a whole reply, or nothing.
pub fn reply_text(r: &ChatCompletionResponse) -> (s: String)
    ensures
        s@ == whole_text(*r),
{
    if r.choices.len() > 0 {
        match r.choices[0].message.text_content() {
            Some(t) => t,
            None => String::new(),
        }
    } else {
        String::new()
    }
}

/// The reply after a sequence of chunks.
pub open spec fn grown_by(r: ReplyV, chunks: Seq<StreamChunkResponse>) -> ReplyV
    decreases chunks.len(),
{
    if chunks.len() == 0 {
        r
    } else {
        grown(grown_by(r, chunks.drop_last()), chunks.last())
    }
}

/// What is sent while a sequence of chunks comes in.
pub open spec fn sent_by(r: ReplyV, chunks: Seq<StreamChunkResponse>) -> Seq<OutV>
    decreases chunks.len(),
{
    if chunks.len() == 0 {
        Seq::empty()
    } else {
        sent_by(r, chunks.drop_last()) + sent(grown_by(r, chunks.drop_last()), chunks.last())
    }
}

/// The tokens of what is sent, one after the other.
pub open spec fn tokens(outs: Seq<OutV>) -> Seq<char>
    decreases outs.len(),
{
    if outs.len() == 0 {
        Seq::empty()
    } else {
        tokens(outs.drop_last()) + (match outs.last() {
            OutV::Token(t) => t,
            OutV::Thinking(_) => Seq::empty(),
        })
    }
}

/// How often thinking is sent.
pub open spec fn thinkings(outs: Seq<OutV>) -> nat
    decreases outs.len(),
{
    if outs.len() == 0 {
        0
    } else {
        thinkings(outs.drop_last()) + (match outs.last() {
            OutV::Token(_) => 0nat,
            OutV::Thinking(_) => 1,
        })
    }
}

/// What two parts of what is sent add up to.
pub proof fn sums(a: Seq<OutV>, b: Seq<OutV>)
    ensures
        tokens(a + b) == tokens(a) + tokens(b),
        thinkings(a + b) == thinkings(a) + thinkings(b),
    decreases b.len(),
{
    if b.len() == 0 {
        assert(a + b =~= a);
        assert(tokens(a) + tokens(b) =~= tokens(a));
    } else {
        sums(a, b.drop_last());
        assert((a + b).drop_last() =~= a + b.drop_last());
        assert(tokens(a + b) =~= tokens(a) + tokens(b));
    }
}

/// The tokens that the user interface was sent make up the content, and
/// thinking was sent at most once.
pub proof fn tokens_make_up_the_content(chunks: Seq<StreamChunkResponse>)
    ensures
        tokens(sent_by(no_reply(), chunks)) == grown_by(no_reply(), chunks).content,
        thinkings(sent_by(no_reply(), chunks)) == (if grown_by(no_reply(), chunks).thinking_sent {
            1nat
        } else {
            0
        }),
    decreases chunks.len(),
{
    reveal_with_fuel(tokens, 3);
    reveal_with_fuel(thinkings, 3);
    if chunks.len() > 0 {
        let front = chunks.drop_last();
        let r = grown_by(no_reply(), front);
        let c = chunks.last();
        tokens_make_up_the_content(front);
        sums(sent_by(no_reply(), front), sent(r, c));
        let s = sent(r, c);
        assert(tokens(s) =~= chunk_text(c)) by {
            if s.len() == 2 {
                assert(s.drop_last() =~= seq![s[0]]);
                assert(seq![s[0]].drop_last() =~= Seq::<OutV>::empty());
            } else if s.len() == 1 {
                assert(s.drop_last() =~= Seq::<OutV>::empty());
            }
        }
        assert(thinkings(s) == (if !r.thinking_sent && grown(r, c).thinking_sent {
            1nat
        } else {
            0
        })) by {
            if s.len() == 2 {
                assert(s.drop_last() =~= seq![s[0]]);
                assert(seq![s[0]].drop_last() =~= Seq::<OutV>::empty());
            } else if s.len() == 1 {
                assert(s.drop_last() =~= Seq::<OutV>::empty());
            }
        }
    }
}

/// Before the first text nothing is sent, and all thinking up to then is sent in
/// front of that text.
pub proof fn thinking_leads(chunks: Seq<StreamChunkResponse>, next: StreamChunkResponse)
    requires
        grown_by(no_reply(), chunks).content.len() == 0,
        chunk_text(next).len() > 0,
    ensures
        ({
            let thought = grown_by(no_reply(), chunks.push(next)).reasoning;
            sent_by(no_reply(), chunks.push(next)) == (if thought.len() > 0 {
                seq![OutV::Thinking(thought), OutV::Token(chunk_text(next))]
            } else {
                seq![OutV::Token(chunk_text(next))]
            })
        }),
{
    silent_before_text(chunks);
    assert(chunks.push(next).drop_last() =~= chunks);
    let r = grown_by(no_reply(), chunks);
    assert(Seq::<OutV>::empty() + sent(r, next) =~= sent(r, next));
}

proof fn silent_before_text(chunks: Seq<StreamChunkResponse>)
    requires
        grown_by(no_reply(), chunks).content.len() == 0,
    ensures
        sent_by(no_reply(), chunks) == Seq::<OutV>::empty(),
        !grown_by(no_reply(), chunks).thinking_sent,
    decreases chunks.len(),
{
    if chunks.len() > 0 {
        silent_before_text(chunks.drop_last());
        assert(Seq::<OutV>::empty() + Seq::<OutV>::empty() =~= Seq::<OutV>::empty());
    }
}

} // verus!
