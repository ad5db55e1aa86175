//! Requests on conversations.

use crate::ipc::handlers::chat::session::{clear_conversation_state, Sessions};
use crate::ipc::protocol::{error, is_error, IPCResponse};
use crate::json::{Json, JsonV};
use crate::llm::types::text_view;
use crate::text;
use vstd::prelude::*;

verus! {

/// How long it may take to find a title, in seconds.
pub const TITLE_SECS: u64 = 12;

/// The shortest length, in characters, of a title that is not yet a good one.
pub const LONG_TITLE: usize = 60;

/// A text that may be absent, or the empty one.
pub open spec fn or_empty(t: Option<Seq<char>>) -> Seq<char> {
    match t {
        Some(s) => s,
        None => Seq::empty(),
    }
}

fn text_or_empty(t: Option<String>) -> (r: String)
    ensures
        r@ == or_empty(text_view(t)),
{
    match t {
        Some(s) => s,
        None => String::new(),
    }
}

/// A conversation as it is told.
pub open spec fn conversation_out(
    id: Seq<char>,
    title: Option<Seq<char>>,
    created_at: i64,
    updated_at: i64,
    pinned: i64,
) -> JsonV {
    JsonV::Object(
        seq![
            ("id"@, JsonV::Text(id)),
            ("title"@, JsonV::Text(or_empty(title))),
            ("created_at"@, JsonV::integer(created_at)),
            ("updated_at"@, JsonV::integer(updated_at)),
            ("pinned"@, JsonV::Bool(pinned != 0)),
        ],
    )
}

/// A conversation as it is told.
pub fn conversation_row(
    id: String,
    title: Option<String>,
    created_at: i64,
    updated_at: i64,
    pinned: i64,
) -> (r: Json)
    ensures
        r@ == conversation_out(id@, text_view(title), created_at, updated_at, pinned),
{
    let ghost want = conversation_out(id@, text_view(title), created_at, updated_at, pinned);
    let r = Json::Object(
        vec![
            ("id".to_owned(), Json::Text(id)),
            ("title".to_owned(), Json::Text(text_or_empty(title))),
            ("created_at".to_owned(), Json::integer(created_at)),
            ("updated_at".to_owned(), Json::integer(updated_at)),
            ("pinned".to_owned(), Json::Bool(pinned != 0)),
        ],
    );
    proof {
        reveal_with_fuel(Json::model, 3);
        assert(r@->Object_0 =~= want->Object_0);
    }
    r
}

/// The answer to a question for the conversations.
pub fn handle_get_conversations(id: &str, conversations: Vec<Json>) -> (r: IPCResponse)
    ensures
        r matches IPCResponse::ConversationList { id: i, conversations: c }
            && i@ == id@ && c == conversations,
{
    IPCResponse::ConversationList { id: id.to_owned(), conversations }
}

/// The pattern that a conversation is searched for by.
pub fn search_pattern(query: &str) -> (r: String)
    ensures
        r@ == "%"@ + query@ + "%"@,
{
    let mut p = "%".to_owned();
    p.append(query);
    p.append("%");
    p
}

/// A conversation that was found, as it is told.
pub open spec fn found_out(
    id: Seq<char>,
    title: Option<Seq<char>>,
    updated_at: i64,
) -> JsonV {
    JsonV::Object(
        seq![
            ("id"@, JsonV::Text(id)),
            ("title"@, JsonV::Text(or_empty(title))),
            ("updated_at"@, JsonV::integer(updated_at)),
        ],
    )
}

/// A conversation that was found, as it is told.
pub fn found_row(
    id: String,
    title: Option<String>,
    updated_at: i64,
) -> (r: Json)
    ensures
        r@ == found_out(id@, text_view(title), updated_at),
{
    let ghost want = found_out(id@, text_view(title), updated_at);
    let r = Json::Object(
        vec![
            ("id".to_owned(), Json::Text(id)),
            ("title".to_owned(), Json::Text(text_or_empty(title))),
            ("updated_at".to_owned(), Json::integer(updated_at)),
        ],
    );
    proof {
        reveal_with_fuel(Json::model, 3);
        assert(r@->Object_0 =~= want->Object_0);
    }
    r
}

/// The answer to a search of the conversations.
pub fn handle_search_conversations(id: &str, conversations: Vec<Json>) -> (r: IPCResponse)
    ensures
        r matches IPCResponse::ConversationList { id: i, conversations: c }
            && i@ == id@ && c == conversations,
{
    IPCResponse::ConversationList { id: id.to_owned(), conversations }
}

/// A message of a conversation, as it is told.
pub open spec fn message_out(
    id: Seq<char>,
    role: Seq<char>,
    content: Seq<char>,
    created_at: i64,
) -> JsonV {
    JsonV::Object(
        seq![
            ("id"@, JsonV::Text(id)),
            ("role"@, JsonV::Text(role)),
            ("content"@, JsonV::Text(content)),
            ("created_at"@, JsonV::integer(created_at)),
        ],
    )
}

/// A message of a conversation, as it is told.
pub fn message_row(
    id: String,
    role: String,
    content: String,
    created_at: i64,
) -> (r: Json)
    ensures
        r@ == message_out(id@, role@, content@, created_at),
{
    let ghost want = message_out(id@, role@, content@, created_at);
    let r = Json::Object(
        vec![
            ("id".to_owned(), Json::Text(id)),
            ("role".to_owned(), Json::Text(role)),
            ("content".to_owned(), Json::Text(content)),
            ("created_at".to_owned(), Json::integer(created_at)),
        ],
    );
    proof {
        reveal_with_fuel(Json::model, 3);
        assert(r@->Object_0 =~= want->Object_0);
    }
    r
}

/// The answer to a question for the messages of a conversation.
pub fn handle_get_conversation_messages(
    id: &str,
    conversation_id: &str,
    messages: Vec<Json>,
) -> (r: IPCResponse)
    ensures
        r matches IPCResponse::ConversationMessages { id: i, conversation_id: ci, messages: m }
            && i@ == id@ && ci@ == conversation_id@ && m == messages,
{
    IPCResponse::ConversationMessages {
        id: id.to_owned(),
        conversation_id: conversation_id.to_owned(),
        messages,
    }
}

// ---------------------------------------------------------------------------
// Titles
// ---------------------------------------------------------------------------

/// A conversation is to get a title: after the second message of the user, and
/// later as long as it has no good one.
pub open spec fn wants_title(user_count: i64, title: Option<Seq<char>>) -> bool {
    user_count >= 2 && !(match title {
        Some(t) => t.len() < LONG_TITLE && t.len() > 0 && user_count > 2,
        None => false,
    })
}

/// Whether a conversation is to get a title.
pub fn title_wanted(user_count: i64, title: &Option<String>) -> (r: bool)
    ensures
        r == wants_title(user_count, text_view(*title)),
{
    if user_count < 2 {
        return false;
    }
    match title {
        Some(t) => {
            let n: usize = text::char_len(t);
            !(n < LONG_TITLE && n > 0 && user_count > 2)
        },
        None => true,
    }
}

/// A message in a request for a title: who said it, and its start.
pub open spec fn title_line(m: (Seq<char>, Seq<char>)) -> Seq<char> {
    m.0 + ": "@ + text::head(m.1, 120)
}

/// The models of messages by who said them.
pub open spec fn said_views(l: Seq<(String, String)>) -> Seq<(Seq<char>, Seq<char>)> {
    l.map_values(|m: (String, String)| (m.0@, m.1@))
}

/// The request for a title.
pub open spec fn title_request(l: Seq<(Seq<char>, Seq<char>)>) -> Seq<char> {
    "Summarise this conversation in ≤6 words (title case, no punctuation):\n\n"@ + text::join(
        l.map_values(|m: (Seq<char>, Seq<char>)| title_line(m)),
        "\n"@,
    ) + "\n\nTitle:"@
}

/// The request for a title, from the first messages of a conversation; none
/// without a message.
pub fn title_prompt(first: &Vec<(String, String)>) -> (r: Option<String>)
    ensures
        match r {
            Some(p) => first@.len() > 0 && p@ == title_request(said_views(first@)),
            None => first@.len() == 0,
        },
{
    broadcast use text::views_push;

    if first.len() == 0 {
        return None;
    }
    let ghost all = said_views(first@);
    let ghost want = all.map_values(|m: (Seq<char>, Seq<char>)| title_line(m));
    let mut lines: Vec<String> = Vec::new();
    for i in 0..first.len()
        invariant
            all == said_views(first@),
            want == all.map_values(|m: (Seq<char>, Seq<char>)| title_line(m)),
            text::views(lines@) == want.take(i as int),
    {
        let mut l = first[i].0.clone();
        l.append(": ");
        l.append(&text::take_chars(&first[i].1, 120));
        assert(all[i as int] == (first@[i as int].0@, first@[i as int].1@));
        assert(want[i as int] == l@);
        lines.push(l);
        assert(want.take(i + 1) =~= want.take(i as int).push(l@));
    }
    assert(want.take(want.len() as int) =~= want);
    let mut p =
        "Summarise this conversation in ≤6 words (title case, no punctuation):\n\n".to_owned();
    p.append(&text::joined(&lines, "\n"));
    p.append("\n\nTitle:");
    Some(p)
}

/// The last place up to `from` where a pattern stands, or one in front of all.
pub open spec fn last_place(s: Seq<char>, pat: Seq<char>, from: int) -> int
    decreases from + 1,
{
    if from < 0 {
        -1
    } else if text::match_at(s, pat, from) {
        from
    } else {
        last_place(s, pat, from - 1)
    }
}

proof fn last_place_is(s: Seq<char>, pat: Seq<char>, from: int, i: int)
    requires
        -1 <= i <= from,
        i >= 0 ==> text::match_at(s, pat, i),
        forall|j: int| i < j ==> !text::match_at(s, pat, j),
    ensures
        last_place(s, pat, from) == i,
    decreases from + 1,
{
    if from > i {
        last_place_is(s, pat, from - 1, i);
    }
}

/// What stands behind the last mark of a title, or all where there is none.
pub open spec fn behind_mark(raw: Seq<char>) -> Seq<char> {
    let i = last_place(raw, "Title:"@, raw.len() as int);
    if i < 0 {
        raw
    } else {
        raw.skip(i + 6)
    }
}

/// A line without the space and the quotes around it.
pub open spec fn bare(line: Seq<char>) -> Seq<char> {
    text::trim(text::strip_start(text::strip_end(text::trim(line), '"'), '"'))
}

/// The first line that is not empty once it is bare.
pub open spec fn first_bare(lines: Seq<Seq<char>>) -> Seq<char>
    decreases lines.len(),
{
    if lines.len() == 0 {
        Seq::empty()
    } else if bare(lines[0]).len() > 0 {
        bare(lines[0])
    } else {
        first_bare(lines.skip(1))
    }
}

/// The title in a reply: the first line behind the mark, up to sixty
/// characters.
pub open spec fn title_in(raw: Seq<char>) -> Seq<char> {
    text::head(first_bare(text::lines(behind_mark(raw))), 60)
}

fn make_bare(line: &str) -> (r: String)
    ensures
        r@ == bare(line@),
{
    text::trimmed(&text::stripped_start(&text::stripped_end(&text::trimmed(line), '"'), '"'))
}

/// The title in a reply to a request for one.
pub fn title_of_reply(raw: &str) -> (r: String)
    ensures
        r@ == title_in(raw@),
{
    let v = text::to_chars(raw);
    let n: usize = v.len();
    proof {
        reveal_strlit("Title:");
        assert("Title:"@.len() == 6);
    }
    let behind = match text::rfind_chars(&v, "Title:") {
        Some(i) => {
            proof {
                last_place_is(raw@, "Title:"@, raw@.len() as int, i as int);
                assert(v@.subrange(i + 6, v@.len() as int) =~= raw@.skip(i + 6));
            }
            text::from_range(&v, i + 6, n)
        },
        None => {
            proof {
                last_place_is(raw@, "Title:"@, raw@.len() as int, -1);
            }
            raw.to_owned()
        },
    };
    let lines = text::split_lines(&behind);
    let ghost all = text::views(lines@);
    let mut i: usize = 0;
    assert(all.skip(0) =~= all);
    while i < lines.len()
        invariant
            i <= lines@.len(),
            all == text::views(lines@),
            all == text::lines(behind_mark(raw@)),
            first_bare(all) == first_bare(all.skip(i as int)),
        decreases lines@.len() - i,
    {
        assert(all.skip(i as int)[0] == lines@[i as int]@);
        assert(all.skip(i as int).skip(1) =~= all.skip(i + 1));
        let line = make_bare(&lines[i]);
        if !line.as_str().is_empty() {
            return text::take_chars(&line, 60);
        }
        i = i + 1;
    }
    assert(all.skip(i as int) =~= Seq::empty());
    let none = String::new();
    text::take_chars(&none, 60)
}

/// The title where none could be had: the start of the first message of the
/// user.
pub open spec fn title_without(l: Seq<(Seq<char>, Seq<char>)>) -> Seq<char>
    decreases l.len(),
{
    if l.len() == 0 {
        "Conversation"@
    } else if l[0].0 == "user"@ {
        text::head(l[0].1, 40)
    } else {
        title_without(l.skip(1))
    }
}

/// The title where none could be had.
pub fn title_fallback(first: &Vec<(String, String)>) -> (r: String)
    ensures
        r@ == title_without(said_views(first@)),
{
    let ghost all = said_views(first@);
    let mut i: usize = 0;
    assert(all.skip(0) =~= all);
    while i < first.len()
        invariant
            i <= first@.len(),
            all == said_views(first@),
            title_without(all) == title_without(all.skip(i as int)),
        decreases first@.len() - i,
    {
        assert(all.skip(i as int)[0] == (first@[i as int].0@, first@[i as int].1@));
        assert(all.skip(i as int).skip(1) =~= all.skip(i + 1));
        if text::same(&first[i].0, "user") {
            return text::take_chars(&first[i].1, 40);
        }
        i = i + 1;
    }
    assert(all.skip(i as int) =~= Seq::empty());
    "Conversation".to_owned()
}

/// The title that a conversation gets from a reply, or without one; none where
/// it is empty.
pub fn auto_title_if_ready(first: &Vec<(String, String)>, reply: &Option<String>) -> (r: Option<
    String,
>)
    ensures
        ({
            let title = match *reply {
                Some(raw) => title_in(raw@),
                None => title_without(said_views(first@)),
            };
            match r {
                Some(t) => first@.len() > 0 && title.len() > 0 && t@ == title,
                None => first@.len() == 0 || title.len() == 0,
            }
        }),
{
    if first.len() == 0 {
        return None;
    }
    let title = match reply {
        Some(raw) => title_of_reply(raw),
        None => title_fallback(first),
    };
    if title.as_str().is_empty() {
        None
    } else {
        Some(title)
    }
}

proof fn trim_end_keeps_first(s: Seq<char>)
    ensures
        text::trim_end(s).len() > 0 ==> text::trim_end(s)[0] == s[0] && s.len() > 0,
    decreases s.len(),
{
    if s.len() > 0 && text::is_space(s.last()) {
        trim_end_keeps_first(s.drop_last());
    }
}

proof fn trim_start_begins(s: Seq<char>)
    ensures
        text::trim_start(s).len() > 0 ==> !text::is_space(text::trim_start(s)[0]),
    decreases s.len(),
{
    if s.len() > 0 && text::is_space(s[0]) {
        trim_start_begins(s.skip(1));
    }
}

proof fn first_bare_begins(lines: Seq<Seq<char>>)
    ensures
        first_bare(lines).len() > 0 ==> !text::is_space(first_bare(lines)[0]),
    decreases lines.len(),
{
    if lines.len() > 0 {
        let inner = text::strip_start(text::strip_end(text::trim(lines[0]), '"'), '"');
        trim_start_begins(inner);
        trim_end_keeps_first(text::trim_start(inner));
        first_bare_begins(lines.skip(1));
    }
}

/// However a reply is put, the title in it is no longer than sixty characters,
/// and does not begin with space.
pub proof fn titles_are_short(raw: Seq<char>)
    ensures
        title_in(raw).len() <= 60,
        title_in(raw).len() > 0 ==> !text::is_space(title_in(raw)[0]),
{
    first_bare_begins(text::lines(behind_mark(raw)));
}

// ---------------------------------------------------------------------------
// Changes
// ---------------------------------------------------------------------------

/// What a chat is done again from: the last message of the user, or the error
/// where there is none.
pub fn handle_regenerate_last_message(id: &str, last: Option<String>) -> (r: Result<
    String,
    IPCResponse,
>)
    ensures
        match last {
            Some(m) => r == Ok::<String, IPCResponse>(m),
            None => r matches Err(a) && is_error(
                a,
                id@,
                "No user message found to regenerate from"@,
            ),
        },
{
    match last {
        Some(m) => Ok(m),
        None => Err(error(id, "No user message found to regenerate from".to_owned())),
    }
}

/// Forgets a conversation, and answers that it is gone.
pub fn handle_delete_conversation(s: &mut Sessions, id: &str, conversation_id: &str) -> (r:
    IPCResponse)
    ensures
        final(s).forgotten(conversation_id@),
        forall|c: Seq<char>| c != conversation_id@ ==> #[trigger] final(s).agrees(*old(s), c),
        r matches IPCResponse::ConversationDeleted { id: i, conversation_id: c } && i@ == id@ && c@
            == conversation_id@,
{
    clear_conversation_state(s, conversation_id);
    IPCResponse::ConversationDeleted {
        id: id.to_owned(),
        conversation_id: conversation_id.to_owned(),
    }
}

/// The answer to a new title of a conversation.
pub fn handle_rename_conversation(
    id: &str,
    conversation_id: &str,
    title: &str,
) -> (r: IPCResponse)
    ensures
        r matches IPCResponse::ConversationRenamed { id: i, conversation_id: ci, title: t }
            && i@ == id@ && ci@ == conversation_id@ && t@ == title@,
{
    IPCResponse::ConversationRenamed {
        id: id.to_owned(),
        conversation_id: conversation_id.to_owned(),
        title: title.to_owned(),
    }
}

/// The answer to a pinning of a conversation.
pub fn handle_pin_conversation(
    id: &str,
    conversation_id: &str,
    pinned: bool,
) -> (r: IPCResponse)
    ensures
        r matches IPCResponse::ConversationPinned { id: i, conversation_id: ci, pinned: p }
            && i@ == id@ && ci@ == conversation_id@ && p == pinned,
{
    IPCResponse::ConversationPinned {
        id: id.to_owned(),
        conversation_id: conversation_id.to_owned(),
        pinned,
    }
}

} // verus!
