//! What was done in a conversation: a log that is kept while the program runs.

use crate::llm::types::text_view;
use crate::outside;
use crate::strmap::StrMap;
use crate::text;
use vstd::prelude::*;

verus! {

/// How many actions a log keeps.
pub const MAX_ACTIONS: usize = 50;

/// How many bytes of a tree, in UTF-8, a log keeps.
pub const MAX_TREE_BYTES: usize = 65_536;

/// One action: when it was done, what it was, on what and with which outcome.
#[derive(Debug)]
pub struct ActionRecord {
    pub at: i64,
    /// "click", "type", "focus" or "snapshot".
    pub kind: String,
    /// The id of an element, or the title of a window.
    pub target: String,
    pub value: Option<String>,
    pub ok: bool,
    pub error: Option<String>,
}

impl ActionRecord {
    /// A copy of the record.
    pub fn copy(&self) -> (r: Self)
        ensures
            r == *self,
    {
        ActionRecord {
            at: self.at,
            kind: self.kind.clone(),
            target: self.target.clone(),
            value: self.value.clone(),
            ok: self.ok,
            error: self.error.clone(),
        }
    }
}

/// The log of a conversation.
#[derive(Debug)]
pub struct ActionLog {
    pub actions: Vec<ActionRecord>,
    /// A hash of the last tree, by which a change of it shows.
    pub last_tree_hash: Option<u64>,
    /// The start of the last tree, of at most 64 KB.
    pub last_tree_json: Option<String>,
}

/// The model of a log.
#[verifier::ext_equal]
pub struct ActionLogV {
    pub actions: Seq<ActionRecord>,
    pub last_tree_hash: Option<u64>,
    pub last_tree_json: Option<Seq<char>>,
}

impl View for ActionLog {
    type V = ActionLogV;

    open spec fn view(&self) -> ActionLogV {
        ActionLogV {
            actions: self.actions@,
            last_tree_hash: self.last_tree_hash,
            last_tree_json: text_view(self.last_tree_json),
        }
    }
}

impl ActionLogV {
    /// The log of a conversation in which nothing was done.
    pub open spec fn empty() -> ActionLogV {
        ActionLogV { actions: Seq::empty(), last_tree_hash: None, last_tree_json: None }
    }
}

impl Default for ActionLog {
    fn default() -> (r: Self)
        ensures
            r@ == ActionLogV::empty(),
    {
        ActionLog { actions: Vec::new(), last_tree_hash: None, last_tree_json: None }
    }
}

impl ActionLog {
    /// A copy of the log.
    pub fn copy(&self) -> (r: Self)
        ensures
            r@ == self@,
    {
        let mut actions: Vec<ActionRecord> = Vec::new();
        for i in 0..self.actions.len()
            invariant
                actions@ == self.actions@.take(i as int),
        {
            actions.push(self.actions[i].copy());
            assert(actions@ =~= self.actions@.take(i + 1));
        }
        assert(actions@ =~= self.actions@);
        ActionLog {
            actions,
            last_tree_hash: self.last_tree_hash,
            last_tree_json: self.last_tree_json.clone(),
        }
    }
}

/// The logs of all conversations.
#[derive(Debug)]
pub struct ActionLogs {
    pub logs: StrMap<ActionLog>,
}

/// The last records of a list, as many as a log keeps.
pub open spec fn recent(actions: Seq<ActionRecord>) -> Seq<ActionRecord> {
    if actions.len() > MAX_ACTIONS {
        actions.skip(actions.len() - MAX_ACTIONS)
    } else {
        actions
    }
}

impl ActionLogs {
    /// The log of a conversation; an empty one where nothing was done.
    pub open spec fn log(self, conv_id: Seq<char>) -> ActionLogV {
        if self.logs@.contains_key(conv_id) {
            self.logs@[conv_id]@
        } else {
            ActionLogV::empty()
        }
    }

    /// `next` has the log `l` for `conv_id` and for the others the logs of `self`.
    pub open spec fn updated(self, next: ActionLogs, conv_id: Seq<char>, l: ActionLogV) -> bool {
        &&& next.log(conv_id) == l
        &&& forall|c: Seq<char>| c != conv_id ==> #[trigger] next.log(c) == self.log(c)
    }
}

/// No log at all.
pub fn logs() -> (r: ActionLogs)
    ensures
        forall|c: Seq<char>| #[trigger] r.log(c) == ActionLogV::empty(),
{
    ActionLogs { logs: StrMap::new() }
}

fn take_log(logs: &mut ActionLogs, conv_id: &str) -> (r: ActionLog)
    ensures
        r@ == old(logs).log(conv_id@),
        final(logs).logs@ == old(logs).logs@.remove(conv_id@),
{
    match logs.logs.remove(conv_id) {
        Some(l) => l,
        None => ActionLog::default(),
    }
}

/// Adds an action to the log of a conversation, which keeps the last fifty.
pub fn record(logs: &mut ActionLogs, conv_id: &str, rec: ActionRecord)
    ensures
        old(logs).updated(
            *final(logs),
            conv_id@,
            (ActionLogV {
                actions: recent(old(logs).log(conv_id@).actions.push(rec)),
                ..old(logs).log(conv_id@)
            }),
        ),
{
    let mut entry = take_log(logs, conv_id);
    entry.actions.push(rec);
    let len: usize = entry.actions.len();
    if len > MAX_ACTIONS {
        let kept = entry.actions.split_off(len - MAX_ACTIONS);
        entry.actions = kept;
    }
    assert(entry.actions@ =~= recent(old(logs).log(conv_id@).actions.push(rec)));
    assert(entry@ == (ActionLogV {
        actions: recent(old(logs).log(conv_id@).actions.push(rec)),
        ..old(logs).log(conv_id@)
    }));
    logs.logs.insert(conv_id.to_owned(), entry);
}

/// What is kept of a tree is a start of it that takes up at most 64 KB in UTF-8,
/// and all of it where that fits.
pub open spec fn within_limit(tree: Seq<char>, kept: Option<Seq<char>>) -> bool {
    kept matches Some(t) && t.is_prefix_of(tree) && text::byte_count(t) <= MAX_TREE_BYTES && (
    text::byte_count(tree) <= MAX_TREE_BYTES ==> t == tree)
}

/// Keeps the start of a tree, and its hash, as the last one of a conversation.
pub fn put_last_tree(logs: &mut ActionLogs, conv_id: &str, tree_json: &str, hash: u64)
    ensures
        old(logs).updated(
            *final(logs),
            conv_id@,
            (ActionLogV {
                last_tree_hash: Some(hash),
                last_tree_json: Some(text::byte_head(tree_json@, MAX_TREE_BYTES as nat)),
                ..old(logs).log(conv_id@)
            }),
        ),
        within_limit(tree_json@, final(logs).log(conv_id@).last_tree_json),
{
    let mut entry = take_log(logs, conv_id);
    entry.last_tree_hash = Some(hash);
    entry.last_tree_json = Some(text::take_bytes(tree_json, MAX_TREE_BYTES));
    logs.logs.insert(conv_id.to_owned(), entry);
    proof {
        text::byte_head_is_longest(tree_json@, MAX_TREE_BYTES as nat);
    }
}

/// Keeps a tree as the last one of a conversation.
pub fn set_last_tree(logs: &mut ActionLogs, conv_id: &str, tree_json: &str)
    ensures
        old(logs).updated(
            *final(logs),
            conv_id@,
            (ActionLogV {
                last_tree_hash: Some(outside::hash_of_text(tree_json@)),
                last_tree_json: Some(text::byte_head(tree_json@, MAX_TREE_BYTES as nat)),
                ..old(logs).log(conv_id@)
            }),
        ),
        within_limit(tree_json@, final(logs).log(conv_id@).last_tree_json),
{
    let hash = outside::default_hash(tree_json);
    put_last_tree(logs, conv_id, tree_json, hash);
}

/// The log of a conversation.
pub fn get(logs: &ActionLogs, conv_id: &str) -> (r: ActionLog)
    ensures
        r@ == logs.log(conv_id@),
{
    match logs.logs.get(conv_id) {
        Some(l) => l.copy(),
        None => ActionLog::default(),
    }
}

/// The line for an action.
pub open spec fn action_line(a: ActionRecord) -> Seq<char> {
    let line = a.kind@ + " "@ + a.target@ + " "@ + (if a.ok {
        "ok"@
    } else {
        "fail"@
    }) + " ("@ + text::signed(a.at as int) + ")"@;
    match a.value {
        Some(v) => line + " value="@ + outside::debug_text(v@),
        None => line,
    }
}

fn describe(a: &ActionRecord) -> (r: String)
    ensures
        r@ == action_line(*a),
{
    let mut line = a.kind.clone();
    line.append(" ");
    line.append(&a.target);
    line.append(" ");
    line.append(
        if a.ok {
            "ok"
        } else {
            "fail"
        },
    );
    line.append(" (");
    line.append(&text::signed_number(a.at));
    line.append(")");
    if let Some(v) = &a.value {
        line.append(" value=");
        line.append(&outside::debug_string(v));
    }
    line
}

/// The lines for the last actions of a list.
pub open spec fn summary(actions: Seq<ActionRecord>, last_n: nat) -> Seq<char> {
    let shown = if actions.len() <= last_n {
        actions
    } else {
        actions.skip(actions.len() - last_n)
    };
    text::join(shown.map_values(|a: ActionRecord| action_line(a)), "\n"@)
}

/// The last actions of a conversation, one on each line.
pub fn compact_summary(logs: &ActionLogs, conv_id: &str, last_n: usize) -> (r: String)
    ensures
        r@ == summary(logs.log(conv_id@).actions, last_n as nat),
{
    broadcast use text::views_push;

    let log = get(logs, conv_id);
    let start: usize = if log.actions.len() > last_n {
        log.actions.len() - last_n
    } else {
        0
    };
    let mut lines: Vec<String> = Vec::new();
    let ghost shown = log.actions@.skip(start as int);
    let ghost want = shown.map_values(|a: ActionRecord| action_line(a));
    assert(start == 0 ==> shown =~= log.actions@);
    for i in start..log.actions.len()
        invariant
            start <= i,
            shown == log.actions@.skip(start as int),
            want == shown.map_values(|a: ActionRecord| action_line(a)),
            text::views(lines@) == want.take(i - start),
    {
        let line = describe(&log.actions[i]);
        let ghost before = lines@;
        lines.push(line);
        assert(text::views(lines@) == text::views(before).push(line@));
        assert(want.take(i + 1 - start) =~= want.take(i - start).push(want[i - start]));
        assert(shown[i - start] == log.actions@[i as int]);
        assert(want[i - start] == action_line(log.actions@[i as int]));
        assert(text::views(lines@) =~= want.take(i + 1 - start));
    }
    assert(want.take(want.len() as int) =~= want);
    text::joined(&lines, "\n")
}

/// The actions that a log keeps of a sequence of records.
pub open spec fn after_records(records: Seq<ActionRecord>) -> Seq<ActionRecord>
    decreases records.len(),
{
    if records.len() == 0 {
        Seq::empty()
    } else {
        recent(after_records(records.drop_last()).push(records.last()))
    }
}

/// However many actions are recorded one after the other, the log of their
/// conversation holds the last fifty of them, in order.
pub proof fn log_holds_the_last_actions(records: Seq<ActionRecord>)
    ensures
        after_records(records) == recent(records),
        after_records(records).len() <= MAX_ACTIONS,
    decreases records.len(),
{
    if records.len() > 0 {
        log_holds_the_last_actions(records.drop_last());
        assert(recent(recent(records.drop_last()).push(records.last())) =~= recent(records));
    } else {
        assert(recent(records) =~= records);
    }
}

} // verus!
