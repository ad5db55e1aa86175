//! How the prompt of a chat is put together: the history of the conversation,
//! the context that is known, and the mode in which the chat is answered.

use crate::ipc::guards::{
    self, build_chat_messages_with_context, sanitized, SanitizedV,
};
use crate::llm::types::{
    message_views, message_views_push, FloatBits, LLMConfig, Message, MessageV,
};
use crate::outside;
use crate::text;
use vstd::prelude::*;

verus! {

/// About how many bytes make up a token.
pub const CHARS_PER_TOKEN: u128 = 4;

/// How many tokens a prompt may have before its history is cut.
pub const HISTORY_MAX_TOKENS: u128 = 90_000;

/// How many turns of a conversation are sent word for word.
pub const RECENT_TURNS: usize = 12;

/// How many bytes the digest of the older turns may have.
pub const DIGEST_LIMIT: usize = 1800;

pub const DIGEST_HEADER: &'static str =
    "Earlier in this conversation (digest - call search_memory for detail):\n";

pub const DIGEST_CUT: &'static str = "\u{2026}\n";

/// A turn of a conversation: a role and what was said.
pub type Turn = (String, String);

/// The model of a turn.
pub open spec fn turn(t: (String, String)) -> (Seq<char>, Seq<char>) {
    (t.0@, t.1@)
}

/// The models of a list of turns.
pub open spec fn turns(l: Seq<(String, String)>) -> Seq<(Seq<char>, Seq<char>)> {
    l.map_values(|t: (String, String)| turn(t))
}

// ---------------------------------------------------------------------------
// History
// ---------------------------------------------------------------------------

/// The line for a turn in the digest.
pub open spec fn digest_line(t: (Seq<char>, Seq<char>)) -> Seq<char> {
    "- "@ + t.0 + ": "@ + text::replace(text::head(t.1, 120), "\n"@, " "@) + "\n"@
}

/// The digest `d` with the lines for more turns. It ends at the limit; there
/// is none where the limit falls inside a character.
pub open spec fn digest(d: Seq<char>, older: Seq<(Seq<char>, Seq<char>)>) -> Option<Seq<char>>
    decreases older.len(),
{
    if older.len() == 0 {
        Some(d)
    } else {
        let e = d + digest_line(older[0]);
        if text::byte_count(e) > DIGEST_LIMIT {
            match text::byte_cut(e, DIGEST_LIMIT as int) {
                Some(t) => Some(t + DIGEST_CUT@),
                None => None,
            }
        } else {
            digest(e, older.skip(1))
        }
    }
}

/// The digest of a list of turns, if the limit does not fall inside a
/// character.
pub fn try_digest(older: &Vec<Turn>) -> (r: Option<String>)
    ensures
        match r {
            Some(d) => digest(DIGEST_HEADER@, turns(older@)) == Some(d@),
            None => digest(DIGEST_HEADER@, turns(older@)) is None,
        },
{
    let ghost all = turns(older@);
    let mut d = DIGEST_HEADER.to_owned();
    let mut i: usize = 0;
    assert(all.skip(0) =~= all);
    proof {
        reveal_strlit("\n");
    }
    while i < older.len()
        invariant
            i <= older@.len(),
            all == turns(older@),
            "\n"@.len() == 1,
            digest(DIGEST_HEADER@, all) == digest(d@, all.skip(i as int)),
        decreases older@.len() - i,
    {
        let ghost before = d@;
        assert(all.skip(i as int)[0] == turn(older@[i as int]));
        let snippet = text::replaced(&text::take_chars(&older[i].1, 120), "\n", " ");
        d.append("- ");
        d.append(&older[i].0);
        d.append(": ");
        d.append(&snippet);
        d.append("\n");
        assert(d@ =~= before + digest_line(turn(older@[i as int])));
        if text::byte_len(&d) > DIGEST_LIMIT {
            return match text::cut_at_byte(&d, DIGEST_LIMIT) {
                Some(mut t) => {
                    t.append(DIGEST_CUT);
                    Some(t)
                },
                None => None,
            };
        }
        assert(all.skip(i as int).skip(1) =~= all.skip(i + 1));
        i = i + 1;
    }
    Some(d)
}

proof fn digest_ends(d: Seq<char>, older: Seq<(Seq<char>, Seq<char>)>)
    requires
        text::byte_count(d) <= DIGEST_LIMIT,
    ensures
        digest(d, older) matches Some(t) ==> text::byte_count(t) <= DIGEST_LIMIT
            + text::byte_count(DIGEST_CUT@),
    decreases older.len(),
{
    if older.len() > 0 {
        let e = d + digest_line(older[0]);
        if text::byte_count(e) > DIGEST_LIMIT {
            text::byte_cut_is_prefix(e, DIGEST_LIMIT as int);
            if let Some(t) = text::byte_cut(e, DIGEST_LIMIT as int) {
                text::byte_count_sum(t, DIGEST_CUT@);
            }
        } else {
            digest_ends(e, older.skip(1));
        }
    }
}

/// However long a conversation is, the digest of its older turns takes up at
/// most eighteen hundred bytes and the mark of the cut.
pub proof fn digest_is_bounded(raw: Seq<(Seq<char>, Seq<char>)>)
    ensures
        digest(DIGEST_HEADER@, older_turns(raw)) matches Some(t) ==> text::byte_count(t)
            <= DIGEST_LIMIT + text::byte_count(DIGEST_CUT@),
        text::byte_count(DIGEST_CUT@) <= 8,
{
    reveal_strlit(
        "Earlier in this conversation (digest - call search_memory for detail):\n",
    );
    reveal_strlit("\u{2026}\n");
    text::byte_count_most(DIGEST_HEADER@);
    text::byte_count_most(DIGEST_CUT@);
    digest_ends(DIGEST_HEADER@, older_turns(raw));
}

/// The turns of a conversation that come before the recent ones.
pub open spec fn older_turns(raw: Seq<(Seq<char>, Seq<char>)>) -> Seq<(Seq<char>, Seq<char>)> {
    if raw.len() > RECENT_TURNS {
        raw.take(raw.len() - RECENT_TURNS)
    } else {
        Seq::empty()
    }
}

/// The recent turns of a conversation.
pub open spec fn recent_turns(raw: Seq<(Seq<char>, Seq<char>)>) -> Seq<(Seq<char>, Seq<char>)> {
    if raw.len() > RECENT_TURNS {
        raw.skip(raw.len() - RECENT_TURNS)
    } else {
        raw
    }
}

/// The older turns can be brought into a digest.
pub open spec fn digestible(raw: Seq<(Seq<char>, Seq<char>)>) -> bool {
    digest(DIGEST_HEADER@, older_turns(raw)) is Some
}

/// The messages for some turns.
pub open spec fn as_messages(said: Seq<(Seq<char>, Seq<char>)>) -> Seq<MessageV> {
    said.map_values(|t: (Seq<char>, Seq<char>)| MessageV::plain(t.0, t.1))
}

/// What is sent of a conversation, given all of its turns: the last twelve word
/// for word, behind a digest of the older ones where there are any.
pub open spec fn window(all: Seq<(Seq<char>, Seq<char>)>) -> Seq<MessageV> {
    let older = older_turns(all);
    if older.len() > 0 {
        seq![MessageV::plain("system"@, digest(DIGEST_HEADER@, older)->0)] + as_messages(
            recent_turns(all),
        )
    } else {
        as_messages(all)
    }
}

/// What is sent of a conversation: all of its turns are given, or where they
/// cannot be had the latest exchange, from its end.
pub open spec fn history(
    stored: Option<Seq<(Seq<char>, Seq<char>)>>,
    latest: Seq<(Seq<char>, Seq<char>)>,
) -> Seq<MessageV> {
    match stored {
        Some(all) => window(all),
        None => as_messages(latest.reverse()),
    }
}

/// However long a conversation is, its last twelve turns are sent word for word
/// and in their order, behind one digest of the older ones if there are any, and
/// nothing else.
pub proof fn recent_turns_stay(
    all: Seq<(Seq<char>, Seq<char>)>,
    latest: Seq<(Seq<char>, Seq<char>)>,
)
    ensures
        ({
            let h = history(Some(all), latest);
            let n = if all.len() < RECENT_TURNS {
                all.len() as int
            } else {
                RECENT_TURNS as int
            };
            &&& h.len() == n + (if all.len() > RECENT_TURNS {
                1int
            } else {
                0int
            })
            &&& h.skip(h.len() - n) == as_messages(all.skip(all.len() - n))
            &&& all.len() > RECENT_TURNS ==> h[0].role == "system"@ && digest(
                DIGEST_HEADER@,
                all.take(all.len() - RECENT_TURNS),
            ) == (if digestible(all) {
                Some(h[0].content)
            } else {
                None
            })
        }),
{
    let h = history(Some(all), latest);
    let n = if all.len() < RECENT_TURNS {
        all.len() as int
    } else {
        RECENT_TURNS as int
    };
    assert(h.skip(h.len() - n) =~= as_messages(all.skip(all.len() - n)));
}

fn split_turns(raw: Vec<Turn>) -> (r: (Vec<Turn>, Vec<Turn>))
    ensures
        turns(r.0@) == older_turns(turns(raw@)),
        turns(r.1@) == recent_turns(turns(raw@)),
{
    let mut older = raw;
    let n: usize = older.len();
    if n > RECENT_TURNS {
        let recent = older.split_off(n - RECENT_TURNS);
        assert(turns(older@) =~= older_turns(turns(raw@)));
        assert(turns(recent@) =~= recent_turns(turns(raw@)));
        (older, recent)
    } else {
        let none: Vec<Turn> = Vec::new();
        assert(turns(none@) =~= older_turns(turns(raw@)));
        (none, older)
    }
}

/// Whether the older turns of a conversation can be brought into a digest.
pub fn can_digest(raw: Vec<Turn>) -> (r: bool)
    ensures
        r == digestible(turns(raw@)),
{
    let (older, _) = split_turns(raw);
    try_digest(&older).is_some()
}

fn push_turn(out: &mut Vec<Message>, t: &Turn)
    ensures
        message_views(final(out)@) == message_views(old(out)@).push(
            MessageV::plain(turn(*t).0, turn(*t).1),
        ),
{
    broadcast use message_views_push;

    out.push(Message::text(&t.0, t.1.clone()));
}

/// The messages for what was said before in a conversation: from all of its
/// turns, or where they could not be had from the latest exchange.
pub fn conversation_history(stored: Option<Vec<Turn>>, latest: Vec<Turn>) -> (r: Vec<Message>)
    requires
        stored matches Some(all) ==> digestible(turns(all@)),
    ensures
        message_views(r@) == history(
            match stored {
                Some(all) => Some(turns(all@)),
                None => None,
            },
            turns(latest@),
        ),
{
    broadcast use message_views_push;

    let mut out: Vec<Message> = Vec::new();
    match stored {
        None => {
            let ghost want = as_messages(turns(latest@).reverse());
            assert(message_views(out@) =~= want.take(0));
            for k in 0..latest.len()
                invariant
                    want == as_messages(turns(latest@).reverse()),
                    message_views(out@) == want.take(k as int),
            {
                push_turn(&mut out, &latest[latest.len() - 1 - k]);
                assert(want.take(k + 1) =~= want.take(k as int).push(want[k as int]));
            }
            assert(want.take(want.len() as int) =~= want);
        },
        Some(all) => {
            let (older, recent) = split_turns(all);
            assert(turns(older@).len() == older@.len());
            if older.len() > 0 {
                if let Some(d) = try_digest(&older) {
                    out.push(Message::text("system", d));
                }
            }
            let ghost first = message_views(out@);
            let ghost want = as_messages(turns(recent@));
            assert(first + want.take(0) =~= first);
            for k in 0..recent.len()
                invariant
                    want == as_messages(turns(recent@)),
                    message_views(out@) == first + want.take(k as int),
            {
                push_turn(&mut out, &recent[k]);
                assert(first + want.take(k + 1) =~= (first + want.take(k as int)).push(
                    want[k as int],
                ));
            }
            assert(want.take(want.len() as int) =~= want);
            assert(message_views(out@) =~= window(turns(all@)));
        },
    }
    out
}

/// The messages with the history in front of the last one.
pub open spec fn spliced(messages: Seq<MessageV>, history: Seq<MessageV>) -> Seq<MessageV> {
    if history.len() == 0 {
        messages
    } else {
        messages.drop_last() + history + seq![messages.last()]
    }
}

/// Puts the history in front of the last message.
pub fn splice_history(messages: &mut Vec<Message>, history: Vec<Message>)
    requires
        old(messages)@.len() > 0,
    ensures
        message_views(final(messages)@) == spliced(
            message_views(old(messages)@),
            message_views(history@),
        ),
{
    if history.len() > 0 {
        let mut history = history;
        if let Some(current) = messages.pop() {
            messages.append(&mut history);
            messages.push(current);
        }
    }
    assert(message_views(messages@) =~= spliced(
        message_views(old(messages)@),
        message_views(history@),
    ));
}

/// The bytes of the contents of a list of messages.
pub open spec fn total_bytes(messages: Seq<MessageV>) -> nat
    decreases messages.len(),
{
    if messages.len() == 0 {
        0
    } else {
        total_bytes(messages.drop_last()) + text::byte_count(messages.last().content)
    }
}

/// The place of the first message that is not one of the system, or the number
/// of messages.
pub open spec fn first_said(messages: Seq<MessageV>) -> nat
    decreases messages.len(),
{
    if messages.len() == 0 || messages[0].role != "system"@ {
        0
    } else {
        1 + first_said(messages.skip(1))
    }
}

proof fn first_said_bounds(messages: Seq<MessageV>)
    ensures
        first_said(messages) <= messages.len(),
        first_said(messages) < messages.len() ==> messages[first_said(messages) as int].role
            != "system"@,
        forall|i: int| 0 <= i < first_said(messages) ==> messages[i].role == "system"@,
    decreases messages.len(),
{
    if messages.len() > 0 && messages[0].role == "system"@ {
        first_said_bounds(messages.skip(1));
        assert forall|i: int| 0 <= i < first_said(messages) implies messages[i].role
            == "system"@ by {
            if i > 0 {
                assert(messages[i] == messages.skip(1)[i - 1]);
            }
        }
    }
}

/// A prompt is within the budget.
pub open spec fn within_budget(messages: Seq<MessageV>) -> bool {
    total_bytes(messages) / 4 <= HISTORY_MAX_TOKENS
}

/// A prompt that is cut to the budget: as long as it is over it and has more
/// than two messages, the first one that is not of the system goes.
pub open spec fn cut_to_budget(messages: Seq<MessageV>) -> Seq<MessageV>
    decreases messages.len(),
{
    if within_budget(messages) || messages.len() <= 2 || first_said(messages) >= messages.len() {
        messages
    } else {
        cut_to_budget(messages.remove(first_said(messages) as int))
    }
}

fn sum_bytes(messages: &Vec<Message>) -> (r: u128)
    ensures
        r == total_bytes(message_views(messages@)),
{
    let ghost all = message_views(messages@);
    let mut sum: u128 = 0;
    assert(all.take(0) =~= Seq::empty());
    for i in 0..messages.len()
        invariant
            all == message_views(messages@),
            sum == total_bytes(all.take(i as int)),
            sum <= i * (usize::MAX as u128),
            i <= messages.len(),
    {
        let n: usize = text::byte_len(&messages[i].content);
        assert(all.take(i + 1).drop_last() =~= all.take(i as int));
        assert(all.take(i + 1).last() == messages@[i as int]@);
        assert(sum + n <= (i + 1) * (usize::MAX as u128)) by (nonlinear_arith)
            requires
                sum <= i * (usize::MAX as u128),
                n <= usize::MAX,
        ;
        assert((i + 1) * (usize::MAX as u128) <= u128::MAX) by (nonlinear_arith)
            requires
                i + 1 <= usize::MAX,
                usize::MAX <= u64::MAX,
        ;
        sum = sum + n as u128;
    }
    assert(all.take(all.len() as int) =~= all);
    sum
}

/// About how many tokens a prompt has.
pub fn estimated_tokens(messages: &Vec<Message>) -> (r: u128)
    ensures
        r == total_bytes(message_views(messages@)) / 4,
{
    sum_bytes(messages) / CHARS_PER_TOKEN
}

/// Cuts a prompt to the budget. Messages of the system are kept.
pub fn truncate_history(messages: &mut Vec<Message>)
    ensures
        message_views(final(messages)@) == cut_to_budget(message_views(old(messages)@)),
{
    while messages.len() > 2
        invariant
            cut_to_budget(message_views(messages@)) == cut_to_budget(
                message_views(old(messages)@),
            ),
        ensures
            message_views(messages@) == cut_to_budget(message_views(old(messages)@)),
        decreases messages@.len(),
    {
        if estimated_tokens(messages) <= HISTORY_MAX_TOKENS {
            break;
        }
        let ghost all = message_views(messages@);
        let mut i: usize = 0;
        assert(all.skip(0) =~= all);
        while i < messages.len() && text::same(&messages[i].role, "system")
            invariant
                i <= messages@.len(),
                all == message_views(messages@),
                first_said(all) == i + first_said(all.skip(i as int)),
            decreases messages@.len() - i,
        {
            assert(all.skip(i as int)[0] == messages@[i as int]@);
            assert(all.skip(i as int).skip(1) =~= all.skip(i + 1));
            i = i + 1;
        }
        if i == messages.len() {
            assert(all.skip(i as int) =~= Seq::empty());
            break;
        }
        assert(all.skip(i as int)[0] == messages@[i as int]@);
        let _ = messages.remove(i);
        assert(message_views(messages@) =~= all.remove(i as int));
    }
}

/// The messages of the system in a prompt.
pub open spec fn of_system(messages: Seq<MessageV>) -> Seq<MessageV> {
    messages.filter(|m: MessageV| m.role == "system"@)
}

proof fn filter_drops_removed(messages: Seq<MessageV>, i: int)
    requires
        0 <= i < messages.len(),
        messages[i].role != "system"@,
    ensures
        of_system(messages.remove(i)) == of_system(messages),
    decreases messages.len(),
{
    reveal(Seq::filter);
    let rest = messages.remove(i);
    if i == messages.len() - 1 {
        assert(rest =~= messages.drop_last());
    } else {
        filter_drops_removed(messages.drop_last(), i);
        assert(rest.drop_last() =~= messages.drop_last().remove(i));
        assert(rest.last() == messages.last());
    }
}

/// Cutting a prompt keeps every message of the system, in order. A prompt that
/// is still over the budget has at most two messages or none but those.
pub proof fn cutting_keeps_the_system(messages: Seq<MessageV>)
    ensures
        of_system(cut_to_budget(messages)) == of_system(messages),
        within_budget(cut_to_budget(messages)) || cut_to_budget(messages).len() <= 2
            || forall|i: int|
            0 <= i < cut_to_budget(messages).len() ==> cut_to_budget(messages)[i].role
                == "system"@,
        within_budget(messages) ==> cut_to_budget(messages) == messages,
    decreases messages.len(),
{
    first_said_bounds(messages);
    if !(within_budget(messages) || messages.len() <= 2 || first_said(messages)
        >= messages.len()) {
        let i = first_said(messages) as int;
        filter_drops_removed(messages, i);
        cutting_keeps_the_system(messages.remove(i));
    }
}

// ---------------------------------------------------------------------------
// Context
// ---------------------------------------------------------------------------

/// A message that is too short to look anything up for.
pub open spec fn too_short(message: Seq<char>) -> bool {
    let m = text::trim(message);
    text::words(m).len() <= 3 && text::byte_count(m) <= 20
}

/// Whether a message is too short to look anything up for.
pub fn is_too_short(message: &str) -> (r: bool)
    ensures
        r == too_short(message@),
{
    let m = text::trimmed(message);
    let w = text::split_words(&m);
    assert(text::views(w@).len() == w@.len());
    w.len() <= 3 && text::byte_len(&m) <= 20
}

/// The title that a conversation gets from its first message.
pub fn first_title(message: &str) -> (r: String)
    ensures
        r@ == text::head(message@, 80),
{
    text::take_chars(message, 80)
}

pub const INDEX_HEADER: &'static str =
    "Memory index (titles only - call `search_memory` with a specific query for content):\n";

/// The line for what is known, at a place of the index.
pub open spec fn index_line(i: int, node_type: Seq<char>, title: Seq<char>) -> Seq<char> {
    text::decimal((i + 1) as nat) + ". ["@ + node_type + "] "@ + text::head(title, 80) + "\n"@
}

/// The lines for the first `n` things that are known.
pub open spec fn index_lines(items: Seq<(Seq<char>, Seq<char>)>, n: nat) -> Seq<char>
    decreases n,
{
    if n == 0 {
        Seq::empty()
    } else {
        index_lines(items, (n - 1) as nat) + index_line(n - 1, items[n - 1].0, items[n - 1].1)
    }
}

/// The hint at what is known: the kinds and titles of at most five things.
pub open spec fn index_text(items: Seq<(Seq<char>, Seq<char>)>) -> Option<Seq<char>> {
    if items.len() == 0 {
        None
    } else {
        Some(
            INDEX_HEADER@ + index_lines(
                items,
                if items.len() < 5 {
                    items.len()
                } else {
                    5
                },
            ),
        )
    }
}

/// The hint at what is known, by kind and title; none where nothing is.
pub fn index_hint(items: &Vec<(String, String)>) -> (r: Option<String>)
    ensures
        match r {
            Some(h) => index_text(turns(items@)) == Some(h@),
            None => index_text(turns(items@)) is None,
        },
{
    if items.len() == 0 {
        return None;
    }
    let n: usize = if items.len() < 5 {
        items.len()
    } else {
        5
    };
    let mut out = INDEX_HEADER.to_owned();
    for i in 0..n
        invariant
            n <= items@.len(),
            out@ == INDEX_HEADER@ + index_lines(turns(items@), i as nat),
    {
        let ghost before = out@;
        assert(turns(items@)[i as int] == turn(items@[i as int]));
        out.append(&text::number(i as u64 + 1));
        out.append(". [");
        out.append(&items[i].0);
        out.append("] ");
        out.append(&text::take_chars(&items[i].1, 80));
        out.append("\n");
        assert(out@ =~= before + index_line(i as int, items@[i as int].0@, items@[i as int].1@));
        assert(out@ =~= INDEX_HEADER@ + index_lines(turns(items@), (i + 1) as nat));
    }
    Some(out)
}

/// A plugin that is in use.
#[derive(Debug)]
pub struct ActivePlugin {
    pub name: String,
    pub plugin_type: String,
    pub description: Option<String>,
}

/// The line for a plugin that is in use.
pub open spec fn plugin_line(p: ActivePlugin) -> Seq<char> {
    "- "@ + p.name@ + " ["@ + p.plugin_type@ + "]: "@ + (match p.description {
        Some(d) => d@,
        None => "(no description)"@,
    })
}

/// The line for a plugin that fits a message.
pub open spec fn fitting_line(p: ActivePlugin) -> Seq<char> {
    "- "@ + p.name@ + " ("@ + p.plugin_type@ + "): "@ + (match p.description {
        Some(d) => d@,
        None => Seq::empty(),
    })
}

pub const PLUGINS_HEADER: &'static str =
    "# Active Plugins\nThe following plugins are installed and enabled:\n";

pub const PLUGINS_FOOTER: &'static str =
    "\nYou may reference these plugins when answering questions or suggesting tools.";

pub const FITTING_HEADER: &'static str = "# Relevant installed plugins for this query:\n";

/// The message on the plugins that are in use, if there are any.
pub open spec fn plugins_note(plugins: Seq<ActivePlugin>) -> Seq<MessageV> {
    if plugins.len() == 0 {
        Seq::empty()
    } else {
        seq![
            MessageV::plain(
                "system"@,
                PLUGINS_HEADER@ + text::join(
                    plugins.map_values(|p: ActivePlugin| plugin_line(p)),
                    "\n"@,
                ) + PLUGINS_FOOTER@,
            ),
        ]
    }
}

/// The message on the plugins that fit a message, if there are any.
pub open spec fn fitting_note(plugins: Seq<ActivePlugin>) -> Seq<MessageV> {
    if plugins.len() == 0 {
        Seq::empty()
    } else {
        seq![
            MessageV::plain(
                "system"@,
                FITTING_HEADER@ + text::join(
                    plugins.map_values(|p: ActivePlugin| fitting_line(p)),
                    "\n"@,
                ),
            ),
        ]
    }
}

fn add_plugins_note(messages: &mut Vec<Message>, plugins: &Vec<ActivePlugin>)
    ensures
        message_views(final(messages)@) == message_views(old(messages)@) + plugins_note(plugins@),
{
    broadcast use {message_views_push, text::views_push};

    if plugins.len() > 0 {
        let mut lines: Vec<String> = Vec::new();
        let ghost want = plugins@.map_values(|p: ActivePlugin| plugin_line(p));
        for i in 0..plugins.len()
            invariant
                want == plugins@.map_values(|p: ActivePlugin| plugin_line(p)),
                text::views(lines@) == want.take(i as int),
        {
            let p = &plugins[i];
            let mut l = "- ".to_owned();
            l.append(&p.name);
            l.append(" [");
            l.append(&p.plugin_type);
            l.append("]: ");
            match &p.description {
                Some(d) => l.append(d),
                None => l.append("(no description)"),
            }
            assert(want[i as int] == l@);
            lines.push(l);
            assert(want.take(i + 1) =~= want.take(i as int).push(l@));
        }
        assert(want.take(want.len() as int) =~= want);
        let mut content = PLUGINS_HEADER.to_owned();
        content.append(&text::joined(&lines, "\n"));
        content.append(PLUGINS_FOOTER);
        messages.push(Message::text("system", content));
    }
    assert(message_views(messages@) =~= message_views(old(messages)@) + plugins_note(plugins@));
}

fn add_fitting_note(messages: &mut Vec<Message>, plugins: &Vec<ActivePlugin>)
    ensures
        message_views(final(messages)@) == message_views(old(messages)@) + fitting_note(plugins@),
{
    broadcast use {message_views_push, text::views_push};

    if plugins.len() > 0 {
        let mut lines: Vec<String> = Vec::new();
        let ghost want = plugins@.map_values(|p: ActivePlugin| fitting_line(p));
        for i in 0..plugins.len()
            invariant
                want == plugins@.map_values(|p: ActivePlugin| fitting_line(p)),
                text::views(lines@) == want.take(i as int),
        {
            let p = &plugins[i];
            let mut l = "- ".to_owned();
            l.append(&p.name);
            l.append(" (");
            l.append(&p.plugin_type);
            l.append("): ");
            if let Some(d) = &p.description {
                l.append(d);
            }
            assert(want[i as int] =~= l@);
            lines.push(l);
            assert(want.take(i + 1) =~= want.take(i as int).push(l@));
        }
        assert(want.take(want.len() as int) =~= want);
        let mut content = FITTING_HEADER.to_owned();
        content.append(&text::joined(&lines, "\n"));
        messages.push(Message::text("system", content));
    }
    assert(message_views(messages@) =~= message_views(old(messages)@) + fitting_note(plugins@));
}

/// What a message that asks for plugins holds.
pub open spec fn plugin_words() -> Seq<Seq<char>> {
    seq!["plugin"@, "mcp"@, "skill"@, "connector"@, "install"@, "extension"@]
}

/// Whether a message asks for plugins, so that fitting ones are looked up.
pub fn asks_for_plugins(message: &str) -> (r: bool)
    ensures
        r == text::occurs_any(outside::lowercase_text(message@), plugin_words()),
{
    let lower = outside::lowercase(message);
    mentions_plugins(&lower)
}

/// Whether a message in small letters asks for plugins.
pub fn mentions_plugins(lower: &str) -> (r: bool)
    ensures
        r == text::occurs_any(lower@, plugin_words()),
{
    let w = ["plugin", "mcp", "skill", "connector", "install", "extension"];
    assert(text::slice_views(w@) =~= plugin_words());
    text::contains_any(lower, &w)
}

/// The facts about the user that the model always needs.
pub open spec fn core_keys() -> Seq<Seq<char>> {
    seq!["name"@, "full_name"@, "pronouns"@, "timezone"@, "location"@]
}

/// The lines for the facts of a list that the model always needs.
pub open spec fn essentials(facts: Seq<(Seq<char>, Seq<char>)>) -> Seq<Seq<char>>
    decreases facts.len(),
{
    if facts.len() == 0 {
        Seq::empty()
    } else {
        let before = essentials(facts.drop_last());
        let f = facts.last();
        if core_keys().contains(text::lower(f.0)) {
            before.push("\u{2022} "@ + f.0 + ": "@ + f.1)
        } else {
            before
        }
    }
}

proof fn essentials_len(facts: Seq<(Seq<char>, Seq<char>)>)
    ensures
        essentials(facts).len() <= facts.len(),
    decreases facts.len(),
{
    if facts.len() > 0 {
        essentials_len(facts.drop_last());
    }
}

/// The message on the user, if anything is known of them.
pub open spec fn user_note(facts: Seq<(Seq<char>, Seq<char>)>) -> Seq<MessageV> {
    let e = essentials(facts);
    if facts.len() == 0 {
        Seq::empty()
    } else if e.len() > 0 {
        let more = facts.len() - e.len();
        let hint = "# User (essentials)\n"@ + text::join(e, "\n"@);
        seq![
            MessageV::plain(
                "system"@,
                if more > 0 {
                    hint + "\n[+"@ + text::decimal(more as nat)
                        + " more facts available via search_memory]"@
                } else {
                    hint
                },
            ),
        ]
    } else {
        seq![
            MessageV::plain(
                "system"@,
                "# User\n["@ + text::decimal(facts.len())
                    + " facts stored - query with search_memory if needed]"@,
            ),
        ]
    }
}

fn essential_lines(facts: &Vec<(String, String)>) -> (r: Vec<String>)
    ensures
        text::views(r@) == essentials(turns(facts@)),
        r@.len() <= facts@.len(),
{
    broadcast use text::views_push;

    let keys = ["name", "full_name", "pronouns", "timezone", "location"];
    let ghost all = turns(facts@);
    let mut out: Vec<String> = Vec::new();
    assert(text::slice_views(keys@) =~= core_keys());
    assert(all.take(0) =~= Seq::empty());
    for i in 0..facts.len()
        invariant
            all == turns(facts@),
            text::slice_views(keys@) == core_keys(),
            text::views(out@) == essentials(all.take(i as int)),
    {
        let f = &facts[i];
        assert(all.take(i + 1).drop_last() =~= all.take(i as int));
        assert(all.take(i + 1).last() == turn(*f));
        if text::one_of(&text::to_lower(&f.0), &keys) {
            let mut l = "\u{2022} ".to_owned();
            l.append(&f.0);
            l.append(": ");
            l.append(&f.1);
            out.push(l);
        }
    }
    proof {
        assert(all.take(all.len() as int) =~= all);
        essentials_len(all);
        assert(text::views(out@).len() == out@.len());
    }
    out
}

/// Adds the message on the user, if anything is known of them.
pub fn add_user_note(messages: &mut Vec<Message>, facts: &Vec<(String, String)>)
    ensures
        message_views(final(messages)@) == message_views(old(messages)@) + user_note(turns(facts@)),
{
    broadcast use message_views_push;

    if facts.len() > 0 {
        let e = essential_lines(facts);
        assert(text::views(e@).len() == e@.len());
        assert(turns(facts@).len() == facts@.len());
        if e.len() > 0 {
            let more: usize = facts.len() - e.len();
            let mut hint = "# User (essentials)\n".to_owned();
            hint.append(&text::joined(&e, "\n"));
            if more > 0 {
                hint.append("\n[+");
                hint.append(&text::number(more as u64));
                hint.append(" more facts available via search_memory]");
            }
            messages.push(Message::text("system", hint));
        } else {
            let mut note = "# User\n[".to_owned();
            note.append(&text::number(facts.len() as u64));
            note.append(" facts stored - query with search_memory if needed]");
            messages.push(Message::text("system", note));
        }
    }
    assert(message_views(messages@) =~= message_views(old(messages)@) + user_note(
        turns(facts@),
    ));
}

// ---------------------------------------------------------------------------
// The whole prompt
// ---------------------------------------------------------------------------

/// What is known when a prompt is put together.
#[derive(Debug)]
pub struct PromptParts {
    pub curated_context: Option<String>,
    pub history: Vec<Message>,
    pub project_instructions: Option<String>,
    pub system_prompt: Option<String>,
    pub active_plugins: Vec<ActivePlugin>,
    pub fitting_plugins: Vec<ActivePlugin>,
    pub user_facts: Vec<(String, String)>,
}

/// The model of an optional string.
pub open spec fn opt(s: Option<String>) -> Option<Seq<char>> {
    match s {
        Some(v) => Some(v@),
        None => None,
    }
}

/// The messages that stand in front of all others.
pub open spec fn preamble(p: PromptParts) -> Seq<MessageV> {
    let instructions = match p.project_instructions {
        Some(i) => seq![MessageV::plain("system"@, "# Project Instructions\n\n"@ + i@)],
        None => Seq::empty(),
    };
    match p.system_prompt {
        Some(sp) => if text::blank(sp@) {
            instructions
        } else {
            seq![MessageV::plain("system"@, sp@)] + instructions
        },
        None => instructions,
    }
}

/// The prompt for a sanitized message: the settings of the user and of the
/// project, the chat with its history cut to the budget, and notes on plugins
/// and on the user.
pub open spec fn whole_prompt(s: SanitizedV, p: PromptParts) -> Seq<MessageV> {
    preamble(p) + cut_to_budget(
        spliced(
            guards::chat_messages(s, opt(p.curated_context)),
            message_views(p.history@),
        ),
    ) + plugins_note(p.active_plugins@) + fitting_note(p.fitting_plugins@) + user_note(
        turns(p.user_facts@),
    )
}

fn chat_with_history(
    message: &str,
    context: &Option<String>,
    history: Vec<Message>,
) -> (r: Result<(Vec<Message>, Vec<String>), String>)
    ensures
        match r {
            Ok((m, w)) => {
                &&& sanitized(message@) is Ok
                &&& message_views(m@) == cut_to_budget(
                    spliced(
                        guards::chat_messages(sanitized(message@)->Ok_0, opt(*context)),
                        message_views(history@),
                    ),
                )
                &&& text::views(w@) == sanitized(message@)->Ok_0.warnings
            },
            Err(e) => sanitized(message@) == Err::<SanitizedV, Seq<char>>(e@),
        },
{
    let c: Option<&str> = match context {
        Some(s) => Some(s.as_str()),
        None => None,
    };
    match build_chat_messages_with_context(message, c) {
        Ok((m, w)) => {
            let mut messages = m;
            assert(message_views(messages@).len() == messages@.len());
            splice_history(&mut messages, history);
            truncate_history(&mut messages);
            Ok((messages, w))
        },
        Err(e) => Err(e),
    }
}

/// Puts the prompt for a message together, and gives the warnings on it.
pub fn compose_prompt(
    message: &str,
    parts: PromptParts,
) -> (r: Result<(Vec<Message>, Vec<String>), String>)
    ensures
        match r {
            Ok((m, w)) => {
                &&& sanitized(message@) is Ok
                &&& message_views(m@) == whole_prompt(sanitized(message@)->Ok_0, parts)
                &&& text::views(w@) == sanitized(message@)->Ok_0.warnings
            },
            Err(e) => sanitized(message@) == Err::<SanitizedV, Seq<char>>(e@),
        },
{
    let (chat, w) = match chat_with_history(message, &parts.curated_context, parts.history) {
        Ok(p) => p,
        Err(e) => {
            return Err(e);
        },
    };
    let mut messages: Vec<Message> = Vec::new();
    if let Some(sp) = &parts.system_prompt {
        if !text::is_blank(sp) {
            messages.push(Message::text("system", sp.clone()));
        }
    }
    if let Some(i) = &parts.project_instructions {
        let mut t = "# Project Instructions\n\n".to_owned();
        t.append(i);
        messages.push(Message::text("system", t));
    }
    assert(message_views(messages@) =~= preamble(parts));
    let ghost before = messages@;
    let mut chat = chat;
    let ghost middle = chat@;
    messages.append(&mut chat);
    assert(message_views(messages@) =~= message_views(before) + message_views(middle));
    add_plugins_note(&mut messages, &parts.active_plugins);
    add_fitting_note(&mut messages, &parts.fitting_plugins);
    add_user_note(&mut messages, &parts.user_facts);
    Ok((messages, w))
}

// ---------------------------------------------------------------------------
// Modes
// ---------------------------------------------------------------------------

/// What the names of models begin with for which the local server is started.
pub open spec fn served_prefixes() -> Seq<Seq<char>> {
    seq![
        "gemma"@,
        "llama"@,
        "mistral"@,
        "phi"@,
        "qwen"@,
        "deepseek"@,
        "codellama"@,
        "solar"@,
    ]
}

/// Whether the local server is started for a model.
pub fn needs_local_server(model: Option<&str>) -> (r: bool)
    ensures
        r == (match model {
            Some(m) => text::occurs(m@, ":"@) || text::begins_any(
                text::lower(m@),
                served_prefixes(),
            ),
            None => false,
        }),
{
    match model {
        Some(m) => {
            let p = [
                "gemma",
                "llama",
                "mistral",
                "phi",
                "qwen",
                "deepseek",
                "codellama",
                "solar",
            ];
            assert(text::slice_views(p@) =~= served_prefixes());
            text::contains(m, ":") || text::starts_with_any(&text::to_lower(m), &p)
        },
        None => false,
    }
}

pub const NO_MEMORY: &'static str =
    "Not enough free RAM to start Ollama. Free at least 6 GiB and try again.";

/// The most tokens that a reply in a mode may take.
pub open spec fn mode_limit(mode: Seq<char>) -> u32 {
    if mode == "Team"@ {
        8192
    } else if mode == "Code"@ || mode == "Coder"@ {
        4096
    } else {
        2048
    }
}

/// The most tokens that a reply in a mode may take.
pub fn mode_max_tokens(mode: &str) -> (r: u32)
    ensures
        r == mode_limit(mode@),
{
    if text::same(mode, "Team") {
        8192
    } else if text::same(mode, "Code") || text::same(mode, "Coder") {
        4096
    } else {
        2048
    }
}

/// How many tokens a reply in a mode may take: as many as asked for, up to the
/// limit of the mode.
pub open spec fn token_cap(mode: Seq<char>, asked: Option<u32>) -> u32 {
    match asked {
        Some(n) => if n <= mode_limit(mode) {
            n
        } else {
            mode_limit(mode)
        },
        None => mode_limit(mode),
    }
}

/// No request gets more tokens than its mode allows, and one that asks for less
/// gets what it asks for.
pub proof fn tokens_are_capped(mode: Seq<char>, asked: Option<u32>)
    ensures
        token_cap(mode, asked) <= mode_limit(mode) <= 8192,
        asked matches Some(n) ==> token_cap(mode, asked) <= n && (n <= mode_limit(mode)
            ==> token_cap(mode, asked) == n),
{
}

/// The configuration for a chat: the mode limits how many tokens may be asked
/// for, and a temperature may be asked for.
pub fn effective_config(
    base: LLMConfig,
    mode: &str,
    max_tokens: Option<u32>,
    temperature: Option<FloatBits>,
) -> (r: LLMConfig)
    ensures
        r == (LLMConfig {
            max_tokens: token_cap(mode@, max_tokens),
            temperature: match temperature {
                Some(t) => t,
                None => base.temperature,
            },
            ..base
        }),
{
    let limit = mode_max_tokens(mode);
    let mut c = base;
    c.max_tokens = match max_tokens {
        Some(n) => if n <= limit {
            n
        } else {
            limit
        },
        None => limit,
    };
    if let Some(t) = temperature {
        c.temperature = t;
    }
    c
}

/// The endings of the names of source files.
pub open spec fn code_endings() -> Seq<Seq<char>> {
    seq![".rs"@, ".ts"@, ".js"@, ".py"@, ".go"@, ".java"@, ".cpp"@, ".h"@]
}

/// What commands look like.
pub open spec fn shell_signs() -> Seq<Seq<char>> {
    seq!["cargo "@, "npm "@, "git "@, "./"@, "sudo "@]
}

/// What work is asked for with.
pub open spec fn work_verbs() -> Seq<Seq<char>> {
    seq![
        "build "@,
        "run "@,
        "install "@,
        "fix "@,
        "read "@,
        "write "@,
        "open "@,
        "find "@,
        "search "@,
        "grep "@,
        "debug "@,
        "refactor "@,
        "implement "@,
        "create "@,
    ]
}

/// A message that does not need tools: a short one, or one that names neither
/// code nor commands nor files nor work.
pub open spec fn trivial_query(message: Seq<char>) -> bool {
    let q = text::trim(message);
    text::byte_count(q) < 25 || !((text::occurs(q, "."@) && text::occurs_any(q, code_endings()))
        || text::occurs_any(q, shell_signs()) || text::occurs(q, "/"@) || text::occurs(q, "\\"@)
        || text::occurs_any(text::lower(q), work_verbs()))
}

/// Whether a message does not need tools.
pub fn is_trivial_query(message: &str) -> (r: bool)
    ensures
        r == trivial_query(message@),
{
    let q = text::trimmed(message);
    if text::byte_len(&q) < 25 {
        return true;
    }
    let code = [".rs", ".ts", ".js", ".py", ".go", ".java", ".cpp", ".h"];
    assert(text::slice_views(code@) =~= code_endings());
    let shell = ["cargo ", "npm ", "git ", "./", "sudo "];
    assert(text::slice_views(shell@) =~= shell_signs());
    let verbs = [
        "build ",
        "run ",
        "install ",
        "fix ",
        "read ",
        "write ",
        "open ",
        "find ",
        "search ",
        "grep ",
        "debug ",
        "refactor ",
        "implement ",
        "create ",
    ];
    assert(text::slice_views(verbs@) =~= work_verbs());
    let has_code = text::contains(&q, ".") && text::contains_any(&q, &code);
    let has_shell = text::contains_any(&q, &shell);
    let has_path = text::contains(&q, "/") || text::contains(&q, "\\");
    let has_verb = text::contains_any(&text::to_lower(&q), &verbs);
    !(has_code || has_shell || has_path || has_verb)
}

/// How a chat is answered.
#[derive(Clone, Copy, Debug, PartialEq, Eq, Structural)]
pub enum ChatRoute {
    Chat,
    Coder,
    Team,
    /// In a mode that has no rules of its own.
    Other,
}

/// The mode that is asked for.
pub open spec fn asked_mode(mode: Option<&str>) -> Seq<char> {
    match mode {
        Some(m) => m@,
        None => "Chat"@,
    }
}

/// How a chat is answered: in the mode that is asked for, except that a
/// message that does not need tools is not given to a team.
pub open spec fn routed(mode: Seq<char>, message: Seq<char>) -> ChatRoute {
    if mode == "Team"@ && !trivial_query(message) {
        ChatRoute::Team
    } else if mode == "Team"@ || mode == "Chat"@ || mode == "Assistant"@ {
        ChatRoute::Chat
    } else if mode == "Code"@ || mode == "Coder"@ {
        ChatRoute::Coder
    } else {
        ChatRoute::Other
    }
}

/// How a chat is answered.
pub fn route_chat(agent_mode: Option<&str>, message: &str) -> (r: ChatRoute)
    ensures
        r == routed(asked_mode(agent_mode), message@),
{
    let mode = match agent_mode {
        Some(m) => m,
        None => "Chat",
    };
    if text::same(mode, "Team") {
        if is_trivial_query(message) {
            ChatRoute::Chat
        } else {
            ChatRoute::Team
        }
    } else if text::same(mode, "Chat") || text::same(mode, "Assistant") {
        ChatRoute::Chat
    } else if text::same(mode, "Code") || text::same(mode, "Coder") {
        ChatRoute::Coder
    } else {
        ChatRoute::Other
    }
}

/// The servers whose names tell the provider, and the tags for them.
pub open spec fn provider_tag(base_url: Seq<char>) -> Seq<char> {
    let u = text::lower(base_url);
    if text::occurs(u, "groq.com"@) {
        "groq"@
    } else if text::occurs(u, "openai.com"@) {
        "openai"@
    } else if text::occurs(u, "anthropic.com"@) {
        "anthropic"@
    } else if text::occurs(u, "mistral.ai"@) {
        "mistral"@
    } else if text::occurs(u, "together."@) {
        "together"@
    } else if text::occurs(u, "deepseek.com"@) {
        "deepseek"@
    } else if text::occurs(u, "localhost"@) || text::occurs(u, "127.0.0.1"@) {
        "local"@
    } else {
        "unknown"@
    }
}

/// A tag for the provider, for the error log.
pub fn detect_provider(base_url: &str) -> (r: &'static str)
    ensures
        r@ == provider_tag(base_url@),
{
    let u = text::to_lower(base_url);
    if text::contains(&u, "groq.com") {
        "groq"
    } else if text::contains(&u, "openai.com") {
        "openai"
    } else if text::contains(&u, "anthropic.com") {
        "anthropic"
    } else if text::contains(&u, "mistral.ai") {
        "mistral"
    } else if text::contains(&u, "together.") {
        "together"
    } else if text::contains(&u, "deepseek.com") {
        "deepseek"
    } else if text::contains(&u, "localhost") || text::contains(&u, "127.0.0.1") {
        "local"
    } else {
        "unknown"
    }
}

} // verus!
